//! What a driver writes to the terminal to show a frame: the prompt, the
//! line and the hint, and the control sequences that put the cursor where
//! it belongs.
//!
//! Positions are counted in scalar values, one column each, and the
//! highlighter is taken to add no line breaks.

use vstd::prelude::*;
use vstd::string::{StrSliceExecFns, StringExecFns};
use crate::session::{Display, Frame};
use crate::text::chars_of_str;

verus! {

/// The decimal digit with the value `d`.
pub open spec fn digit(d: nat) -> char {
    (0x30 + d) as char
}

/// The decimal digits of `n`.
pub open spec fn decimal(n: nat) -> Seq<char>
    decreases n,
{
    if n < 10 {
        seq![digit(n)]
    } else {
        decimal(n / 10).push(digit(n % 10))
    }
}

/// How many line breaks `s` holds.
pub open spec fn newlines(s: Seq<char>) -> nat
    decreases s.len(),
{
    if s.len() == 0 {
        0
    } else if s.last() == '\n' {
        newlines(s.drop_last()) + 1
    } else {
        newlines(s.drop_last())
    }
}

/// How many scalar values follow the last line break of `s`.
pub open spec fn last_line_len(s: Seq<char>) -> nat
    decreases s.len(),
{
    if s.len() == 0 || s.last() == '\n' {
        0
    } else {
        last_line_len(s.drop_last()) + 1
    }
}

/// `s` with a carriage return before every line break, as a terminal
/// without output processing needs it.
pub open spec fn with_returns(s: Seq<char>) -> Seq<char>
    decreases s.len(),
{
    if s.len() == 0 {
        Seq::empty()
    } else if s.last() == '\n' {
        with_returns(s.drop_last()) + seq!['\r', '\n']
    } else {
        with_returns(s.drop_last()).push(s.last())
    }
}

/// The text before the cursor.
pub open spec fn before_cursor(text: Seq<char>, cursor: int) -> Seq<char> {
    if 0 <= cursor <= text.len() {
        text.take(cursor)
    } else {
        text
    }
}

/// The row of the cursor, the row of the prompt being 0.
pub open spec fn cursor_row(text: Seq<char>, cursor: int) -> nat {
    newlines(before_cursor(text, cursor))
}

/// The column of the cursor, the first column being 0: in the row of the
/// prompt, behind the prompt and the text before the cursor; in a later
/// row, behind the text between the last line break and the cursor. A
/// column that no `usize` holds counts as the largest `usize`.
pub open spec fn cursor_column(prompt: Seq<char>, text: Seq<char>, cursor: int) -> nat {
    let before = before_cursor(text, cursor);
    let column = if newlines(before) == 0 {
        prompt.len() + last_line_len(before)
    } else {
        last_line_len(before)
    };
    if column > usize::MAX {
        usize::MAX as nat
    } else {
        column
    }
}

/// The sequence that moves the cursor `n` rows up; nothing for no rows.
pub open spec fn move_up(n: nat) -> Seq<char> {
    if n == 0 {
        Seq::empty()
    } else {
        "\x1b["@ + decimal(n) + "A"@
    }
}

/// The sequence that moves the cursor `n` columns to the right; nothing
/// for no columns.
pub open spec fn move_right(n: nat) -> Seq<char> {
    if n == 0 {
        Seq::empty()
    } else {
        "\x1b["@ + decimal(n) + "C"@
    }
}

/// What is written before a frame: the screen is cleared; or the cursor
/// goes from the row `row`, in which the last frame left it, to the start of
/// the prompt, and everything from there on is erased.
pub open spec fn opening(display: Display, row: nat) -> Seq<char> {
    if display == Display::Clear {
        "\x1b[H\x1b[2J"@
    } else {
        move_up(row) + "\r\x1b[J"@
    }
}

/// What is written behind a frame: the cursor goes from the last row to
/// its own row, to the start of it, and to its column.
pub open spec fn placing(prompt: Seq<char>, text: Seq<char>, cursor: int) -> Seq<char> {
    move_up((newlines(text) - cursor_row(text, cursor)) as nat) + "\r"@ + move_right(
        cursor_column(prompt, text, cursor),
    )
}

/// What is written to show a frame. `row` is the row in which the cursor
/// was left when the last frame was shown.
///
/// Nothing is written to keep what is shown. Else the screen is cleared, or
/// the cursor goes to the start of the prompt and everything from there on
/// is erased; then come the prompt, the line and the hint; and last the
/// cursor goes from the end of what was written to its place in the line.
pub open spec fn rendering(
    display: Display,
    prompt_shown: Seq<char>,
    line_shown: Seq<char>,
    hint_shown: Option<Seq<char>>,
    prompt: Seq<char>,
    text: Seq<char>,
    cursor: int,
    row: nat,
) -> Seq<char> {
    if display == Display::Keep {
        Seq::empty()
    } else {
        let hint = match hint_shown {
            Some(hint) => hint,
            None => Seq::empty(),
        };
        opening(display, row) + prompt_shown + with_returns(line_shown) + hint + placing(
            prompt,
            text,
            cursor,
        )
    }
}

/// Appends the decimal digits of `n` to `out`.
pub fn push_decimal(out: &mut String, n: usize)
    ensures
        final(out)@ == old(out)@ + decimal(n as nat),
    decreases n,
{
    if n >= 10 {
        push_decimal(out, n / 10);
    }
    let d: u8 = (n % 10) as u8;
    out.push((0x30u8 + d) as char);
    assert(out@ =~= old(out)@ + decimal(n as nat));
}

/// The text being broken into rows: how many line breaks it holds, and
/// where the cursor stands.
pub struct Layout {
    /// The line breaks in the whole text.
    pub rows: usize,
    /// The row of the cursor.
    pub row: usize,
    /// The column of the cursor.
    pub column: usize,
}

proof fn lemma_newlines_of_prefix(s: Seq<char>, i: int)
    requires
        0 <= i <= s.len(),
    ensures
        newlines(s.take(i)) <= newlines(s) <= s.len(),
        last_line_len(s) <= s.len(),
    decreases s.len(),
{
    if s.len() > 0 {
        if i < s.len() {
            assert(s.drop_last().take(i) =~= s.take(i));
            lemma_newlines_of_prefix(s.drop_last(), i);
        } else {
            assert(s.take(i) =~= s);
            lemma_newlines_of_prefix(s.drop_last(), i - 1);
        }
    } else {
        assert(s.take(i) =~= s);
    }
}

/// Breaks the text into rows and finds the cursor in them. `prompt` is the
/// prompt as it stands, `text` the text of the line, `cursor` the cursor
/// in it.
pub fn layout(prompt: &str, text: &str, cursor: usize) -> (l: Layout)
    ensures
        l.rows == newlines(text@),
        l.row == cursor_row(text@, cursor as int),
        l.column == cursor_column(prompt@, text@, cursor as int),
        l.row <= l.rows,
{
    let chars = chars_of_str(text);
    let n = chars.len();
    let stop = if cursor <= n {
        cursor
    } else {
        n
    };
    let mut rows: usize = 0;
    let mut row: usize = 0;
    let mut behind: usize = 0;
    let mut i: usize = 0;
    while i < n
        invariant
            n == chars@.len(),
            stop <= n,
            i <= n,
            rows == newlines(chars@.take(i as int)),
            rows <= i,
            row == newlines(chars@.take(if i <= stop { i as int } else { stop as int })),
            behind == last_line_len(chars@.take(if i <= stop { i as int } else { stop as int })),
            row <= rows,
            behind <= i,
        decreases n - i,
    {
        let c = chars[i];
        proof {
            let longer = chars@.take(i + 1);
            assert(longer.drop_last() =~= chars@.take(i as int));
            assert(longer.last() == c);
        }
        if c == '\n' {
            rows = rows + 1;
        }
        if i < stop {
            if c == '\n' {
                row = row + 1;
                behind = 0;
            } else {
                behind = behind + 1;
            }
        }
        i = i + 1;
    }
    proof {
        assert(chars@.take(n as int) =~= chars@);
        if cursor as int > text@.len() {
            assert(chars@.take(stop as int) =~= text@);
        }
    }
    let column = if row == 0 {
        prompt.unicode_len().saturating_add(behind)
    } else {
        behind
    };
    Layout { rows, row, column }
}

/// The sequence that moves the cursor `n` rows up.
fn up(n: usize) -> (out: String)
    ensures
        out@ == move_up(n as nat),
{
    let mut out = String::new();
    if n > 0 {
        out.append("\x1b[");
        push_decimal(&mut out, n);
        out.append("A");
        assert(out@ =~= move_up(n as nat));
    }
    out
}

/// The sequence that moves the cursor `n` columns to the right.
fn right(n: usize) -> (out: String)
    ensures
        out@ == move_right(n as nat),
{
    let mut out = String::new();
    if n > 0 {
        out.append("\x1b[");
        push_decimal(&mut out, n);
        out.append("C");
        assert(out@ =~= move_right(n as nat));
    }
    out
}

/// What is written before a frame.
fn open_frame(display: Display, row: usize) -> (out: String)
    ensures
        out@ == opening(display, row as nat),
{
    match display {
        Display::Clear => "\x1b[H\x1b[2J".to_owned(),
        _ => up(row).concat("\r\x1b[J"),
    }
}

/// What is written behind a frame.
fn place_cursor(prompt: &str, text: &str, cursor: usize) -> (placed: (String, usize))
    ensures
        placed.0@ == placing(prompt@, text@, cursor as int),
        placed.1 == cursor_row(text@, cursor as int),
{
    let l = layout(prompt, text, cursor);
    let mut out = up(l.rows - l.row);
    out.append("\r");
    out.append(right(l.column).as_str());
    (out, l.row)
}

/// `line` with a carriage return before every line break.
pub fn add_returns(line: &str) -> (out: String)
    ensures
        out@ == with_returns(line@),
{
    let shown = chars_of_str(line);
    let mut out = String::new();
    let mut i: usize = 0;
    while i < shown.len()
        invariant
            i <= shown@.len(),
            out@ == with_returns(shown@.take(i as int)),
        decreases shown@.len() - i,
    {
        let c = shown[i];
        proof {
            let longer = shown@.take(i + 1);
            assert(longer.drop_last() =~= shown@.take(i as int));
            assert(longer.last() == c);
        }
        if c == '\n' {
            out.push('\r');
        }
        out.push(c);
        i = i + 1;
        assert(out@ =~= with_returns(shown@.take(i as int)));
    }
    assert(shown@.take(shown@.len() as int) =~= shown@);
    out
}

/// What a driver remembers of the screen between two frames.
pub struct Screen {
    row: usize,
}

impl Screen {
    /// The row in which the cursor was left, the row of the prompt being 0.
    pub closed spec fn row(&self) -> nat {
        self.row as nat
    }

    /// A screen on which only the prompt is shown.
    pub fn new() -> (screen: Screen)
        ensures
            screen.row() == 0,
    {
        Screen { row: 0 }
    }

    /// What is to be written to the terminal to show `frame`, which was
    /// made of the prompt `prompt` and of the text `text`.
    pub fn render(&mut self, display: Display, frame: &Frame, prompt: &str, text: &str) -> (out:
        String)
        ensures
            out@ == rendering(
                display,
                frame.prompt@,
                frame.line@,
                match frame.hint {
                    Some(hint) => Some(hint@),
                    None => None,
                },
                prompt@,
                text@,
                frame.cursor as int,
                old(self).row(),
            ),
            final(self).row() == (if display == Display::Keep {
                old(self).row()
            } else {
                cursor_row(text@, frame.cursor as int)
            }),
    {
        if display == Display::Keep {
            return String::new();
        }
        let mut out = open_frame(display, self.row);
        out.append(frame.prompt.as_str());
        out.append(add_returns(frame.line.as_str()).as_str());
        match &frame.hint {
            Some(hint) => {
                out.append(hint.as_str());
            },
            None => {
                assert(out@ =~= out@ + Seq::<char>::empty());
            },
        }
        let placed = place_cursor(prompt, text, frame.cursor);
        out.append(placed.0.as_str());
        self.row = placed.1;
        out
    }
}

} // verus!

//! The text being edited and the position of the cursor in it.

use vstd::prelude::*;
use vstd::utf8::{encode_utf8, encode_utf8_valid_utf8, valid_utf8};
use crate::text::{chars_of_str, string_of_chars};

verus! {

/// The mathematical content of a line buffer: the scalar values of the text
/// and the cursor, an offset into them.
pub struct Line {
    pub text: Seq<char>,
    pub cursor: int,
}

/// Whitespace, as the word-kill command understands it: the scalar values
/// that Unicode gives the property White_Space.
pub open spec fn is_blank(c: char) -> bool {
    ||| '\u{9}' <= c <= '\u{d}'
    ||| c == ' '
    ||| c == '\u{85}'
    ||| c == '\u{a0}'
    ||| c == '\u{1680}'
    ||| '\u{2000}' <= c <= '\u{200a}'
    ||| c == '\u{2028}'
    ||| c == '\u{2029}'
    ||| c == '\u{202f}'
    ||| c == '\u{205f}'
    ||| c == '\u{3000}'
}

/// One edit of a line.
#[derive(Clone, Copy, Debug, PartialEq, Eq, Structural)]
pub enum Edit {
    Insert(char),
    DeleteBack,
    DeleteForward,
    MoveStart,
    MoveEnd,
    MoveBack,
    MoveForward,
    KillToEnd,
    KillWholeLine,
    KillPrevWord,
    Transpose,
}

impl Line {
    /// The cursor lies inside the text or directly behind it.
    pub open spec fn valid(self) -> bool {
        0 <= self.cursor <= self.text.len()
    }

    pub open spec fn empty() -> Line {
        Line { text: Seq::empty(), cursor: 0 }
    }

    pub open spec fn insert(self, ch: char) -> Line {
        Line { text: self.text.insert(self.cursor, ch), cursor: self.cursor + 1 }
    }

    pub open spec fn delete_back(self) -> Line {
        if self.cursor > 0 {
            Line { text: self.text.remove(self.cursor - 1), cursor: self.cursor - 1 }
        } else {
            self
        }
    }

    pub open spec fn delete_forward(self) -> Line {
        if self.cursor < self.text.len() {
            Line { text: self.text.remove(self.cursor), cursor: self.cursor }
        } else {
            self
        }
    }

    pub open spec fn move_start(self) -> Line {
        Line { text: self.text, cursor: 0 }
    }

    pub open spec fn move_end(self) -> Line {
        Line { text: self.text, cursor: self.text.len() as int }
    }

    pub open spec fn move_back(self) -> Line {
        Line { text: self.text, cursor: if self.cursor > 0 { self.cursor - 1 } else { self.cursor } }
    }

    pub open spec fn move_forward(self) -> Line {
        Line {
            text: self.text,
            cursor: if self.cursor < self.text.len() { self.cursor + 1 } else { self.cursor },
        }
    }

    pub open spec fn kill_to_end(self) -> Line {
        Line { text: self.text.take(self.cursor), cursor: self.cursor }
    }

    pub open spec fn kill_whole_line(self) -> Line {
        Line::empty()
    }

    /// Where the word before the cursor starts: the least offset `k` such that
    /// `[k, cursor)` is a run of non-blank values followed by a run of blanks.
    pub open spec fn prev_word_start(self) -> int {
        word_start(self.text, blank_start(self.text, self.cursor))
    }

    pub open spec fn kill_prev_word(self) -> Line {
        let k = self.prev_word_start();
        Line { text: self.text.take(k) + self.text.skip(self.cursor), cursor: k }
    }

    pub open spec fn transpose(self) -> Line {
        if 0 < self.cursor < self.text.len() {
            Line {
                text: self.text.update(self.cursor - 1, self.text[self.cursor]).update(
                    self.cursor,
                    self.text[self.cursor - 1],
                ),
                cursor: self.cursor,
            }
        } else {
            self
        }
    }

    /// The text with `[start, cursor)` replaced by `with`, the cursor behind
    /// what was put in.
    pub open spec fn replace_before_cursor(self, start: int, with: Seq<char>) -> Line {
        Line {
            text: self.text.take(start) + with + self.text.skip(self.cursor),
            cursor: start + with.len(),
        }
    }

    /// The line that holds `text`, the cursor at its end.
    pub open spec fn at_end_of(text: Seq<char>) -> Line {
        Line { text, cursor: text.len() as int }
    }

    /// The line after one edit.
    pub open spec fn apply(self, edit: Edit) -> Line {
        match edit {
            Edit::Insert(ch) => self.insert(ch),
            Edit::DeleteBack => self.delete_back(),
            Edit::DeleteForward => self.delete_forward(),
            Edit::MoveStart => self.move_start(),
            Edit::MoveEnd => self.move_end(),
            Edit::MoveBack => self.move_back(),
            Edit::MoveForward => self.move_forward(),
            Edit::KillToEnd => self.kill_to_end(),
            Edit::KillWholeLine => self.kill_whole_line(),
            Edit::KillPrevWord => self.kill_prev_word(),
            Edit::Transpose => self.transpose(),
        }
    }

    /// The line after a sequence of edits, the first one first.
    pub open spec fn apply_all(self, edits: Seq<Edit>) -> Line
        decreases edits.len(),
    {
        if edits.len() == 0 {
            self
        } else {
            self.apply(edits[0]).apply_all(edits.drop_first())
        }
    }
}

/// The least `k <= end` such that everything in `[k, end)` is blank.
pub open spec fn blank_start(text: Seq<char>, end: int) -> int
    decreases end,
{
    if 0 < end <= text.len() && is_blank(text[end - 1]) {
        blank_start(text, end - 1)
    } else {
        end
    }
}

/// The least `k <= end` such that nothing in `[k, end)` is blank.
pub open spec fn word_start(text: Seq<char>, end: int) -> int
    decreases end,
{
    if 0 < end <= text.len() && !is_blank(text[end - 1]) {
        word_start(text, end - 1)
    } else {
        end
    }
}

/// Whether `c` is whitespace for the word-kill command.
pub fn is_blank_char(c: char) -> (b: bool)
    ensures
        b == is_blank(c),
{
    ('\u{9}' <= c && c <= '\u{d}') || c == ' ' || c == '\u{85}' || c == '\u{a0}' || c == '\u{1680}'
        || ('\u{2000}' <= c && c <= '\u{200a}') || c == '\u{2028}' || c == '\u{2029}' || c
        == '\u{202f}' || c == '\u{205f}' || c == '\u{3000}'
}

/// The line being edited: its text as scalar values, and the cursor.
pub struct LineBuffer {
    text: Vec<char>,
    cursor: usize,
}

impl View for LineBuffer {
    type V = Line;

    closed spec fn view(&self) -> Line {
        Line { text: self.text@, cursor: self.cursor as int }
    }
}

impl LineBuffer {
    /// The invariant of the type: the cursor never lies behind the end of the
    /// text.
    pub open spec fn wf(&self) -> bool {
        self@.valid()
    }

    /// An empty buffer.
    pub fn new() -> (buf: LineBuffer)
        ensures
            buf.wf(),
            buf@ == Line::empty(),
    {
        LineBuffer { text: Vec::new(), cursor: 0 }
    }

    /// A buffer that holds `text`, the cursor at its end.
    pub fn with_text(text: &str) -> (buf: LineBuffer)
        ensures
            buf.wf(),
            buf@ == Line::at_end_of(text@),
    {
        let chars = chars_of_str(text);
        let cursor = chars.len();
        LineBuffer { text: chars, cursor }
    }

    /// The number of scalar values in the text.
    pub fn len(&self) -> (n: usize)
        ensures
            n == self@.text.len(),
    {
        self.text.len()
    }

    pub fn is_empty(&self) -> (b: bool)
        ensures
            b == (self@.text.len() == 0),
    {
        self.text.len() == 0
    }

    /// The cursor, counted in scalar values from the start of the text.
    pub fn cursor(&self) -> (pos: usize)
        ensures
            pos == self@.cursor,
    {
        self.cursor
    }

    /// A copy of the text; the buffer keeps its own.
    pub fn snapshot(&self) -> (s: String)
        ensures
            s@ == self@.text,
    {
        string_of_chars(&self.text)
    }

    /// Inserts `ch` at the cursor and moves the cursor behind it.
    pub fn insert(&mut self, ch: char)
        requires
            old(self).wf(),
        ensures
            final(self).wf(),
            final(self)@ == old(self)@.insert(ch),
    {
        self.text.insert(self.cursor, ch);
        let n = self.text.len();
        assert(self.cursor < n);
        self.cursor = self.cursor + 1;
    }

    /// Removes the scalar value before the cursor; nothing at the start.
    pub fn delete_back(&mut self)
        requires
            old(self).wf(),
        ensures
            final(self).wf(),
            final(self)@ == old(self)@.delete_back(),
    {
        if self.cursor > 0 {
            self.cursor = self.cursor - 1;
            self.text.remove(self.cursor);
        }
    }

    /// Removes the scalar value at the cursor; nothing at the end.
    pub fn delete_forward(&mut self)
        requires
            old(self).wf(),
        ensures
            final(self).wf(),
            final(self)@ == old(self)@.delete_forward(),
    {
        if self.cursor < self.text.len() {
            self.text.remove(self.cursor);
        }
    }

    pub fn move_start(&mut self)
        requires
            old(self).wf(),
        ensures
            final(self).wf(),
            final(self)@ == old(self)@.move_start(),
    {
        self.cursor = 0;
    }

    pub fn move_end(&mut self)
        requires
            old(self).wf(),
        ensures
            final(self).wf(),
            final(self)@ == old(self)@.move_end(),
    {
        self.cursor = self.text.len();
    }

    pub fn move_back(&mut self)
        requires
            old(self).wf(),
        ensures
            final(self).wf(),
            final(self)@ == old(self)@.move_back(),
    {
        if self.cursor > 0 {
            self.cursor = self.cursor - 1;
        }
    }

    pub fn move_forward(&mut self)
        requires
            old(self).wf(),
        ensures
            final(self).wf(),
            final(self)@ == old(self)@.move_forward(),
    {
        if self.cursor < self.text.len() {
            self.cursor = self.cursor + 1;
        }
    }

    /// Removes everything from the cursor to the end of the text.
    pub fn kill_to_end(&mut self)
        requires
            old(self).wf(),
        ensures
            final(self).wf(),
            final(self)@ == old(self)@.kill_to_end(),
    {
        self.text.truncate(self.cursor);
    }

    /// Empties the buffer.
    pub fn kill_whole_line(&mut self)
        requires
            old(self).wf(),
        ensures
            final(self).wf(),
            final(self)@ == old(self)@.kill_whole_line(),
    {
        self.text.clear();
        self.cursor = 0;
    }

    /// Removes the word before the cursor: the blanks directly before the
    /// cursor, and the run of non-blank values before those.
    pub fn kill_prev_word(&mut self)
        requires
            old(self).wf(),
        ensures
            final(self).wf(),
            final(self)@ == old(self)@.kill_prev_word(),
    {
        let mut k: usize = self.cursor;
        while k > 0 && is_blank_char(self.text[k - 1])
            invariant
                *self == *old(self),
                k <= self.cursor <= self.text.len(),
                blank_start(self.text@, k as int) == blank_start(self.text@, self.cursor as int),
            decreases k,
        {
            k = k - 1;
        }
        let ghost b = k as int;
        while k > 0 && !is_blank_char(self.text[k - 1])
            invariant
                *self == *old(self),
                k <= b <= self.cursor <= self.text.len(),
                b == blank_start(self.text@, self.cursor as int),
                word_start(self.text@, k as int) == word_start(self.text@, b),
            decreases k,
        {
            k = k - 1;
        }
        assert(k == old(self)@.prev_word_start());
        let mut tail = self.text.split_off(self.cursor);
        self.text.truncate(k);
        self.text.append(&mut tail);
        self.cursor = k;
        assert(self.text@ =~= old(self)@.text.take(k as int) + old(self)@.text.skip(
            old(self)@.cursor,
        ));
    }

    /// Swaps the scalar values on both sides of the cursor; nothing where
    /// the cursor stands at the start or at the end.
    pub fn transpose(&mut self)
        requires
            old(self).wf(),
        ensures
            final(self).wf(),
            final(self)@ == old(self)@.transpose(),
    {
        if 0 < self.cursor && self.cursor < self.text.len() {
            let left = self.text[self.cursor - 1];
            let right = self.text[self.cursor];
            self.text.set(self.cursor - 1, right);
            self.text.set(self.cursor, left);
        }
    }

    /// Replaces the text by `text` and puts the cursor at its end.
    pub fn set_text(&mut self, text: &str)
        ensures
            final(self).wf(),
            final(self)@ == Line::at_end_of(text@),
    {
        self.text = chars_of_str(text);
        self.cursor = self.text.len();
    }

    /// Replaces the text between `start` and the cursor by `with` and puts
    /// the cursor behind it.
    pub fn replace_before_cursor(&mut self, start: usize, with: &str)
        requires
            old(self).wf(),
            start <= old(self)@.cursor,
        ensures
            final(self).wf(),
            final(self)@ == old(self)@.replace_before_cursor(start as int, with@),
    {
        let mut tail = self.text.split_off(self.cursor);
        self.text.truncate(start);
        let mut middle = chars_of_str(with);
        self.text.append(&mut middle);
        self.cursor = self.text.len();
        self.text.append(&mut tail);
        assert(self.text@ =~= old(self)@.text.take(start as int) + with@ + old(self)@.text.skip(
            old(self)@.cursor,
        ));
    }
    /// Carries out one edit.
    pub fn apply(&mut self, edit: Edit)
        requires
            old(self).wf(),
        ensures
            final(self).wf(),
            final(self)@ == old(self)@.apply(edit),
    {
        match edit {
            Edit::Insert(ch) => self.insert(ch),
            Edit::DeleteBack => self.delete_back(),
            Edit::DeleteForward => self.delete_forward(),
            Edit::MoveStart => self.move_start(),
            Edit::MoveEnd => self.move_end(),
            Edit::MoveBack => self.move_back(),
            Edit::MoveForward => self.move_forward(),
            Edit::KillToEnd => self.kill_to_end(),
            Edit::KillWholeLine => self.kill_whole_line(),
            Edit::KillPrevWord => self.kill_prev_word(),
            Edit::Transpose => self.transpose(),
        }
    }
}

/// The start of the word before `end` lies in the text and not behind `end`.
pub proof fn lemma_word_start_bounds(text: Seq<char>, end: int)
    requires
        0 <= end <= text.len(),
    ensures
        0 <= blank_start(text, end) <= end,
        0 <= word_start(text, blank_start(text, end)) <= blank_start(text, end),
{
    lemma_blank_run(text, end);
    lemma_word_run(text, blank_start(text, end));
}

/// What the word-kill command removes is, read from the cursor backwards, a
/// run of blanks and then a run of values that are not blank, and neither
/// run can be made longer.
pub proof fn lemma_killed_word_shape(line: Line)
    requires
        line.valid(),
    ensures
        ({
            let b = blank_start(line.text, line.cursor);
            let k = line.prev_word_start();
            &&& 0 <= k <= b <= line.cursor
            &&& forall|i: int| b <= i < line.cursor ==> is_blank(#[trigger] line.text[i])
            &&& forall|i: int| k <= i < b ==> !is_blank(#[trigger] line.text[i])
            &&& b > 0 ==> !is_blank(line.text[b - 1])
            &&& k > 0 ==> is_blank(line.text[k - 1])
        }),
{
    let b = blank_start(line.text, line.cursor);
    lemma_blank_run(line.text, line.cursor);
    lemma_word_run(line.text, b);
}

proof fn lemma_blank_run(text: Seq<char>, end: int)
    requires
        0 <= end <= text.len(),
    ensures
        0 <= blank_start(text, end) <= end,
        forall|i: int| blank_start(text, end) <= i < end ==> is_blank(#[trigger] text[i]),
        blank_start(text, end) > 0 ==> !is_blank(text[blank_start(text, end) - 1]),
    decreases end,
{
    if end > 0 && is_blank(text[end - 1]) {
        lemma_blank_run(text, end - 1);
    }
}

proof fn lemma_word_run(text: Seq<char>, end: int)
    requires
        0 <= end <= text.len(),
    ensures
        0 <= word_start(text, end) <= end,
        forall|i: int| word_start(text, end) <= i < end ==> !is_blank(#[trigger] text[i]),
        word_start(text, end) > 0 ==> is_blank(text[word_start(text, end) - 1]),
    decreases end,
{
    if end > 0 && !is_blank(text[end - 1]) {
        lemma_word_run(text, end - 1);
    }
}

/// Every edit keeps the cursor inside the text or directly behind it.
pub proof fn lemma_edit_keeps_cursor_in_bounds(line: Line, edit: Edit)
    requires
        line.valid(),
    ensures
        line.apply(edit).valid(),
{
    lemma_word_start_bounds(line.text, line.cursor);
}

/// After any sequence of edits the cursor lies inside the text or directly
/// behind it, and the text is whole scalar values: its encoding is
/// well-formed UTF-8.
pub proof fn lemma_edits_keep_line_valid(line: Line, edits: Seq<Edit>)
    requires
        line.valid(),
    ensures
        line.apply_all(edits).valid(),
        valid_utf8(encode_utf8(line.apply_all(edits).text)),
    decreases edits.len(),
{
    encode_utf8_valid_utf8(line.apply_all(edits).text);
    if edits.len() > 0 {
        lemma_edit_keeps_cursor_in_bounds(line, edits[0]);
        lemma_edits_keep_line_valid(line.apply(edits[0]), edits.drop_first());
    }
}

/// Moving to the start twice is moving to the start once.
pub proof fn lemma_move_start_idempotent(line: Line)
    ensures
        line.move_start().move_start() == line.move_start(),
{
}

/// Moving to the end twice is moving to the end once.
pub proof fn lemma_move_end_idempotent(line: Line)
    ensures
        line.move_end().move_end() == line.move_end(),
{
}

/// Killing the whole line of an empty buffer changes nothing.
pub proof fn lemma_kill_whole_line_of_empty(line: Line)
    requires
        line.valid(),
        line.text.len() == 0,
    ensures
        line.kill_whole_line() == line,
{
    assert(line.text =~= Seq::<char>::empty());
}

/// Killing the whole line twice is killing it once.
pub proof fn lemma_kill_whole_line_idempotent(line: Line)
    ensures
        line.kill_whole_line().kill_whole_line() == line.kill_whole_line(),
{
}

/// At the boundaries the edits that have nothing to work on change nothing.
pub proof fn lemma_boundary_edits_change_nothing(line: Line)
    requires
        line.valid(),
    ensures
        line.cursor == 0 ==> line.delete_back() == line && line.move_back() == line
            && line.transpose() == line && line.kill_prev_word() == line,
        line.cursor == line.text.len() ==> line.delete_forward() == line && line.move_forward()
            == line && line.transpose() == line && line.kill_to_end() == line,
{
    if line.cursor == 0 {
        assert(line.text.take(0) + line.text.skip(0) =~= line.text);
    }
    if line.cursor == line.text.len() {
        assert(line.text.take(line.cursor) =~= line.text);
    }
}

} // verus!

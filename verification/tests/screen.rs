use rustyline::capability::ValidationResult;
use rustyline::screen::{add_returns, layout, push_decimal, Screen};
use rustyline::session::{Display, Frame};

fn frame(prompt: &str, line: &str, hint: Option<&str>, cursor: usize) -> Frame {
    Frame {
        prompt: prompt.to_string(),
        line: line.to_string(),
        hint: hint.map(str::to_string),
        cursor,
        verdict: None,
    }
}

fn decimal(n: usize) -> String {
    let mut out = String::from("n=");
    push_decimal(&mut out, n);
    out
}

#[test]
fn decimal_digits_are_appended() {
    assert_eq!(decimal(0), "n=0");
    assert_eq!(decimal(7), "n=7");
    assert_eq!(decimal(10), "n=10");
    assert_eq!(decimal(42), "n=42");
    assert_eq!(decimal(1230), "n=1230");
    assert_eq!(decimal(usize::MAX), format!("n={}", usize::MAX));
    for n in 0..2000usize {
        assert_eq!(decimal(n), format!("n={}", n));
    }
}

#[test]
fn line_breaks_get_carriage_returns() {
    assert_eq!(add_returns(""), "");
    assert_eq!(add_returns("abc"), "abc");
    assert_eq!(add_returns("a\nb"), "a\r\nb");
    assert_eq!(add_returns("\n\n"), "\r\n\r\n");
    assert_eq!(add_returns("é\n"), "é\r\n");
    assert_eq!(add_returns("a\r\nb"), "a\r\r\nb");
}

#[test]
fn layout_finds_the_cursor_in_the_first_row() {
    let l = layout("> ", "hello", 3);
    assert_eq!((l.rows, l.row, l.column), (0, 0, 5));
    let l = layout("> ", "hello", 0);
    assert_eq!((l.rows, l.row, l.column), (0, 0, 2));
    let l = layout("", "", 0);
    assert_eq!((l.rows, l.row, l.column), (0, 0, 0));
    let l = layout("prompt: ", "héllo", 5);
    assert_eq!((l.rows, l.row, l.column), (0, 0, 13));
}

#[test]
fn layout_finds_the_cursor_in_later_rows() {
    let l = layout("> ", "ab\ncd", 4);
    assert_eq!((l.rows, l.row, l.column), (1, 1, 1));
    let l = layout("> ", "ab\ncd", 3);
    assert_eq!((l.rows, l.row, l.column), (1, 1, 0));
    let l = layout("> ", "ab\ncd", 2);
    assert_eq!((l.rows, l.row, l.column), (1, 0, 4));
    let l = layout("> ", "a\nb\nc\n", 6);
    assert_eq!((l.rows, l.row, l.column), (3, 3, 0));
    let l = layout("> ", "a\nb\nc\n", 3);
    assert_eq!((l.rows, l.row, l.column), (3, 1, 1));
}

#[test]
fn layout_takes_a_cursor_behind_the_text_as_the_end() {
    let l = layout("> ", "ab\ncd", 99);
    assert_eq!((l.rows, l.row, l.column), (1, 1, 2));
    let l = layout("> ", "abc", usize::MAX);
    assert_eq!((l.rows, l.row, l.column), (0, 0, 5));
}

#[test]
fn keeping_the_screen_writes_nothing() {
    let mut screen = Screen::new();
    assert_eq!(screen.render(Display::Keep, &frame("> ", "abc", Some("hint"), 3), "> ", "abc"), "");
}

#[test]
fn refresh_draws_prompt_line_and_hint_and_places_the_cursor() {
    let mut screen = Screen::new();
    let out = screen.render(Display::Refresh, &frame("> ", "abc", None, 3), "> ", "abc");
    assert_eq!(out, "\r\x1b[J> abc\r\x1b[5C");
    let out = screen.render(Display::Refresh, &frame("> ", "abc", Some("def"), 1), "> ", "abc");
    assert_eq!(out, "\r\x1b[J> abcdef\r\x1b[3C");
    let out = screen.render(Display::Refresh, &frame("", "", None, 0), "", "");
    assert_eq!(out, "\r\x1b[J\r");
}

#[test]
fn refresh_shows_the_highlighted_text_and_counts_the_plain_one() {
    let mut screen = Screen::new();
    let shown = frame("\x1b[1m> \x1b[0m", "\x1b[31mabc\x1b[0m", None, 2);
    let out = screen.render(Display::Refresh, &shown, "> ", "abc");
    assert_eq!(out, "\r\x1b[J\x1b[1m> \x1b[0m\x1b[31mabc\x1b[0m\r\x1b[4C");
}

#[test]
fn refresh_of_several_rows_moves_the_cursor_up() {
    let mut screen = Screen::new();
    let out = screen.render(Display::Refresh, &frame("> ", "(foo\n)", None, 6), "> ", "(foo\n)");
    assert_eq!(out, "\r\x1b[J> (foo\r\n)\r\x1b[1C");
    // The cursor stands in the second row now: the next frame starts one up.
    let out = screen.render(Display::Refresh, &frame("> ", "(foo\n)", None, 2), "> ", "(foo\n)");
    assert_eq!(out, "\x1b[1A\r\x1b[J> (foo\r\n)\x1b[1A\r\x1b[4C");
    // And the cursor is back in the first row.
    let out = screen.render(Display::Refresh, &frame("> ", "(foo\n)", None, 5), "> ", "(foo\n)");
    assert_eq!(out, "\r\x1b[J> (foo\r\n)\r");
    let out = screen.render(Display::Refresh, &frame("> ", "x", None, 1), "> ", "x");
    assert_eq!(out, "\x1b[1A\r\x1b[J> x\r\x1b[3C");
}

#[test]
fn clear_wipes_the_screen_first() {
    let mut screen = Screen::new();
    screen.render(Display::Refresh, &frame("> ", "a\nb", None, 3), "> ", "a\nb");
    let out = screen.render(Display::Clear, &frame("> ", "a\nb", None, 1), "> ", "a\nb");
    assert_eq!(out, "\x1b[H\x1b[2J> a\r\nb\x1b[1A\r\x1b[3C");
    let out = screen.render(Display::Refresh, &frame("> ", "a\nb", None, 1), "> ", "a\nb");
    assert_eq!(out, "\r\x1b[J> a\r\nb\x1b[1A\r\x1b[3C");
}

#[test]
fn keeping_the_screen_keeps_the_row() {
    let mut screen = Screen::new();
    screen.render(Display::Refresh, &frame("> ", "a\n\nb", None, 4), "> ", "a\n\nb");
    assert_eq!(screen.render(Display::Keep, &frame("> ", "", None, 0), "> ", ""), "");
    let out = screen.render(Display::Refresh, &frame("> ", "", None, 0), "> ", "");
    assert_eq!(out, "\x1b[2A\r\x1b[J> \r\x1b[2C");
}

#[test]
fn frame_carries_the_verdict() {
    let mut f = frame("> ", "", None, 0);
    f.verdict = Some(ValidationResult::Incomplete);
    assert_eq!(f.clone().verdict, Some(ValidationResult::Incomplete));
}

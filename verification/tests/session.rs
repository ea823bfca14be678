use rustyline::error::{ReadError, TermError};
use rustyline::capability::{
    Candidate, Completer, Composite, Helper, Highlighter, Hinter, NoHelper, ValidationResult,
    Validator,
};
use rustyline::session::{without_newline, Action, Display, Phase, Session};

const SNAPSHOT: u32 = 0xfeed;

/// What a scripted read did.
struct Run {
    result: Result<String, ReadError>,
    restored: Vec<u32>,
    entered: usize,
    bytes_read: usize,
    lines_read: usize,
    displays: Vec<Display>,
}

/// Drives one read: the terminal has the given type and kind, sends `input`
/// and then ends, and every mode change succeeds.
fn read<H: Helper>(
    session: &mut Session<u32>,
    term: &str,
    is_tty: bool,
    input: &[u8],
    helper: &H,
) -> Run {
    let mut run = Run {
        result: Err(ReadError::IoFailure),
        restored: Vec::new(),
        entered: 0,
        bytes_read: 0,
        lines_read: 0,
        displays: Vec::new(),
    };
    let mut action = session.start("> ");
    loop {
        action = match session.consult(action, helper) {
            Action::WritePrompt => session.prompt_written(),
            Action::QueryTerminal => session.terminal_probed(term, is_tty),
            Action::EnterRawMode => {
                run.entered += 1;
                session.raw_mode_entered(Ok(SNAPSHOT))
            }
            Action::ReadByte(display) => {
                run.displays.push(display);
                if run.bytes_read < input.len() {
                    run.bytes_read += 1;
                    session.byte_read(input[run.bytes_read - 1])
                } else {
                    session.end_of_input()
                }
            }
            Action::Choose => session.choice(Some(1)),
            Action::ReadLine => {
                run.lines_read += 1;
                session.line_read(String::from_utf8(input.to_vec()).unwrap())
            }
            Action::Restore(snapshot) => {
                run.restored.push(snapshot);
                session.restored(true)
            }
            Action::Finish(result) => {
                run.result = result;
                return run;
            }
            Action::Validate | Action::Complete | Action::Rejected => panic!("unexpected action"),
        };
    }
}

/// Brings a session to the point where it reads bytes in raw mode.
fn raw_session() -> Session<u32> {
    let mut s = Session::new();
    assert!(matches!(s.start("> "), Action::WritePrompt));
    assert!(matches!(s.prompt_written(), Action::QueryTerminal));
    assert!(matches!(s.terminal_probed("xterm", true), Action::EnterRawMode));
    assert!(matches!(s.raw_mode_entered(Ok(SNAPSHOT)), Action::ReadByte(Display::Keep)));
    s
}

fn feed<H: Helper>(s: &mut Session<u32>, bytes: &[u8], helper: &H) {
    for b in bytes {
        let action = s.byte_read(*b);
        let action = s.consult(action, helper);
        assert!(matches!(action, Action::ReadByte(_)));
    }
}

struct AlwaysValid;

impl Completer for AlwaysValid {}
impl Highlighter for AlwaysValid {}
impl Hinter for AlwaysValid {}
impl Validator for AlwaysValid {
    fn validate(&self, _input: &str) -> ValidationResult {
        ValidationResult::Valid
    }
}
impl Helper for AlwaysValid {}

/// Incomplete while more brackets are open than closed.
struct Brackets;

impl Completer for Brackets {}
impl Highlighter for Brackets {}
impl Hinter for Brackets {}
impl Validator for Brackets {
    fn validate(&self, input: &str) -> ValidationResult {
        let open = input.chars().filter(|c| *c == '(').count();
        let close = input.chars().filter(|c| *c == ')').count();
        if open > close {
            ValidationResult::Incomplete
        } else if open < close {
            ValidationResult::Invalid
        } else {
            ValidationResult::Valid
        }
    }
}
impl Helper for Brackets {}

/// A helper that must never be asked.
struct Untouchable;

impl Completer for Untouchable {
    fn complete(&self, _line: &str, _pos: usize) -> (usize, Vec<Candidate>) {
        panic!("completer invoked")
    }
}
impl Highlighter for Untouchable {
    fn highlight(&self, _line: &str, _pos: usize) -> String {
        panic!("highlighter invoked")
    }
}
impl Hinter for Untouchable {
    fn hint(&self, _line: &str, _pos: usize) -> Option<String> {
        panic!("hinter invoked")
    }
}
impl Validator for Untouchable {
    fn validate(&self, _input: &str) -> ValidationResult {
        panic!("validator invoked")
    }
}
impl Helper for Untouchable {}

struct Words(Vec<&'static str>);

impl Completer for Words {
    fn complete(&self, line: &str, pos: usize) -> (usize, Vec<Candidate>) {
        let before: String = line.chars().take(pos).collect();
        let start = before.rfind(' ').map_or(0, |i| before[..i].chars().count() + 1);
        let word: String = before.chars().skip(start).collect();
        let found = self
            .0
            .iter()
            .filter(|w| w.starts_with(word.as_str()))
            .map(|w| Candidate { display: w.to_uppercase(), replacement: w.to_string() })
            .collect();
        (start, found)
    }
}
impl Highlighter for Words {}
impl Hinter for Words {}
impl Validator for Words {}
impl Helper for Words {}

#[test]
fn submitted_text_is_returned() {
    let mut s = Session::new();
    let run = read(&mut s, "xterm", true, b"abc\r", &AlwaysValid);
    assert_eq!(run.result, Ok("abc".to_string()));
    assert_eq!(run.entered, 1);
    assert_eq!(run.restored, vec![SNAPSHOT]);
    assert_eq!(run.bytes_read, 4);
    assert_eq!(s.phase(), Phase::Idle);
    assert_eq!(s.editor().history().entry(0), Some("abc"));
}

#[test]
fn submitted_text_is_returned_without_helper() {
    let mut s = Session::new();
    let run = read(&mut s, "xterm-256color", true, "héllo wörld\r".as_bytes(), &NoHelper);
    assert_eq!(run.result, Ok("héllo wörld".to_string()));
    assert_eq!(run.restored, vec![SNAPSHOT]);
}

#[test]
fn empty_line_can_be_submitted() {
    let mut s = Session::new();
    let run = read(&mut s, "xterm", true, b"\r", &NoHelper);
    assert_eq!(run.result, Ok(String::new()));
    assert_eq!(run.restored, vec![SNAPSHOT]);
}

#[test]
fn incomplete_input_continues_on_a_new_line() {
    let mut s = raw_session();
    feed(&mut s, b"(foo", &Brackets);
    let action = s.byte_read(13);
    assert!(matches!(action, Action::Validate));
    assert_eq!(s.phase(), Phase::Validating);
    let action = s.consult(action, &Brackets);
    assert!(matches!(action, Action::ReadByte(Display::Refresh)));
    assert_eq!(s.phase(), Phase::Raw);
    assert_eq!(s.editor().text(), "(foo\n");
    assert_eq!(s.editor().cursor(), 5);
    assert_eq!(s.editor().history().len(), 0);
    feed(&mut s, b")", &Brackets);
    let action = s.byte_read(13);
    let action = s.consult(action, &Brackets);
    match action {
        Action::Restore(snapshot) => assert_eq!(snapshot, SNAPSHOT),
        _ => panic!("expected a restore"),
    }
    match s.restored(true) {
        Action::Finish(result) => assert_eq!(result, Ok("(foo\n)".to_string())),
        _ => panic!("expected the end of the read"),
    }
}

#[test]
fn incomplete_input_continues_in_a_scripted_read() {
    let mut s = Session::new();
    let run = read(&mut s, "xterm", true, b"(foo\r)\r", &Brackets);
    assert_eq!(run.result, Ok("(foo\n)".to_string()));
    assert_eq!(run.restored, vec![SNAPSHOT]);
}

#[test]
fn invalid_input_stays_open_unchanged() {
    let mut s = raw_session();
    feed(&mut s, b"foo)", &Brackets);
    let action = s.byte_read(13);
    let action = s.consult(action, &Brackets);
    assert!(matches!(action, Action::ReadByte(Display::Keep)));
    assert_eq!(s.phase(), Phase::Raw);
    assert_eq!(s.editor().text(), "foo)");
    assert_eq!(s.editor().cursor(), 4);
    // The user corrects the line and submits again.
    feed(&mut s, &[127], &Brackets);
    let action = s.byte_read(13);
    assert!(matches!(s.consult(action, &Brackets), Action::Restore(SNAPSHOT)));
    assert!(matches!(s.restored(true), Action::Finish(Ok(text)) if text == "foo"));
}

#[test]
fn interrupt_ends_the_read() {
    for partial in [&b""[..], b"a", b"partial line", "hé".as_bytes(), b"(foo\r", b"\x1b[", &[0xe2, 0x82]] {
        let mut input = partial.to_vec();
        input.push(3);
        input.extend_from_slice(b"ignored\r");
        let mut s = Session::new();
        let run = read(&mut s, "xterm", true, &input, &Brackets);
        assert_eq!(run.result, Err(ReadError::Interrupted));
        assert_eq!(run.restored, vec![SNAPSHOT]);
        assert_eq!(run.entered, 1);
        assert_eq!(run.bytes_read, partial.len() + 1);
        assert_eq!(s.editor().history().len(), 0);
    }
}

#[test]
fn interrupt_skips_validation() {
    let mut s = Session::new();
    let run = read(&mut s, "xterm", true, b"abc\x03", &Untouchable);
    assert_eq!(run.result, Err(ReadError::Interrupted));
    assert_eq!(run.restored, vec![SNAPSHOT]);
}

#[test]
fn end_of_file_key_on_empty_line_ends_the_read() {
    let mut s = Session::new();
    let run = read(&mut s, "xterm", true, &[4, b'a', 13], &NoHelper);
    assert_eq!(run.result, Err(ReadError::Eof));
    assert_eq!(run.restored, vec![SNAPSHOT]);
    assert_eq!(run.bytes_read, 1);
}

#[test]
fn end_of_file_key_on_nonempty_line_deletes_forward() {
    let mut s = Session::new();
    let run = read(&mut s, "xterm", true, &[b'a', b'b', 1, 4, 13], &NoHelper);
    assert_eq!(run.result, Ok("b".to_string()));
}

#[test]
fn end_of_input_ends_the_read() {
    let mut s = Session::new();
    let run = read(&mut s, "xterm", true, b"abc", &NoHelper);
    assert_eq!(run.result, Err(ReadError::Eof));
    assert_eq!(run.restored, vec![SNAPSHOT]);
}

#[test]
fn history_keys_show_earlier_lines() {
    let mut s = Session::new();
    assert_eq!(read(&mut s, "xterm", true, b"first\r", &NoHelper).result, Ok("first".to_string()));
    assert_eq!(read(&mut s, "xterm", true, b"second\r", &NoHelper).result, Ok("second".to_string()));
    let mut s3 = s;
    assert!(matches!(s3.start("> "), Action::WritePrompt));
    s3.prompt_written();
    s3.terminal_probed("xterm", true);
    s3.raw_mode_entered(Ok(SNAPSHOT));
    assert_eq!(s3.editor().text(), "");
    assert!(matches!(s3.byte_read(16), Action::ReadByte(Display::Refresh)));
    assert_eq!(s3.editor().text(), "second");
    assert_eq!(s3.editor().cursor(), 6);
    s3.byte_read(16);
    assert_eq!(s3.editor().text(), "first");
    s3.byte_read(16);
    assert_eq!(s3.editor().text(), "first");
    s3.byte_read(14);
    assert_eq!(s3.editor().text(), "second");
    s3.byte_read(14);
    assert_eq!(s3.editor().text(), "");
    assert!(s3.editor().history().is_live());
    s3.byte_read(14);
    assert_eq!(s3.editor().text(), "");
}

#[test]
fn history_line_can_be_submitted_again() {
    let mut s = Session::new();
    read(&mut s, "xterm", true, b"first\r", &NoHelper);
    read(&mut s, "xterm", true, b"second\r", &NoHelper);
    let run = read(&mut s, "xterm", true, b"\x1b[A\x1b[A!\r", &NoHelper);
    assert_eq!(run.result, Ok("first!".to_string()));
    assert_eq!(s.editor().history().len(), 3);
    assert_eq!(s.editor().history().entry(2), Some("first!"));
}

#[test]
fn unsupported_terminal_is_read_line_by_line() {
    for term in ["dumb", "cons25", "emacs"] {
        let mut s = Session::new();
        let run = read(&mut s, term, true, b"hello \x01world\n", &Untouchable);
        assert_eq!(run.result, Ok("hello \u{1}world".to_string()));
        assert_eq!(run.lines_read, 1);
        assert_eq!(run.bytes_read, 0);
        assert_eq!(run.entered, 0);
        assert!(run.restored.is_empty());
        assert_eq!(s.editor().history().len(), 0);
        assert_eq!(s.editor().text(), "");
    }
}

#[test]
fn input_that_is_no_terminal_is_read_line_by_line() {
    let mut s = Session::new();
    let run = read(&mut s, "xterm", false, b"piped\n", &Untouchable);
    assert_eq!(run.result, Ok("piped".to_string()));
    assert_eq!(run.entered, 0);
    assert!(run.restored.is_empty());
}

#[test]
fn line_without_newline_is_returned_as_it_is() {
    let mut s = Session::new();
    assert_eq!(read(&mut s, "dumb", true, b"no newline", &NoHelper).result, Ok("no newline".to_string()));
    assert_eq!(read(&mut s, "dumb", true, b"", &NoHelper).result, Ok(String::new()));
    assert_eq!(read(&mut s, "dumb", true, b"two\n\n", &NoHelper).result, Ok("two\n".to_string()));
}

#[test]
fn without_newline_strips_one_newline() {
    assert_eq!(without_newline("abc\n".to_string()), "abc");
    assert_eq!(without_newline("abc".to_string()), "abc");
    assert_eq!(without_newline("\n".to_string()), "");
    assert_eq!(without_newline(String::new()), "");
    assert_eq!(without_newline("a\r\n".to_string()), "a\r");
    assert_eq!(without_newline("a\n\n".to_string()), "a\n");
    assert_eq!(without_newline("é\n".to_string()), "é");
}

#[test]
fn similar_terminal_types_are_supported() {
    for term in ["", "Dumb", "dumb ", "xterm", "vt100", "emacs-term"] {
        let mut s: Session<u32> = Session::new();
        s.start("> ");
        s.prompt_written();
        assert!(matches!(s.terminal_probed(term, true), Action::EnterRawMode));
        assert_eq!(s.phase(), Phase::Entering);
    }
}

#[test]
fn failure_to_write_the_prompt_ends_the_read() {
    let mut s: Session<u32> = Session::new();
    s.start("> ");
    assert!(matches!(s.io_failed(), Action::Finish(Err(ReadError::IoFailure))));
    assert_eq!(s.phase(), Phase::Idle);
}

#[test]
fn failure_to_enter_raw_mode_ends_the_read_without_restoring() {
    let cases = [
        (TermError::NotATty, ReadError::NotATty),
        (TermError::BadDescriptor, ReadError::BadDescriptor),
        (TermError::Unknown, ReadError::TermModeFailure),
    ];
    for (cause, error) in cases {
        let mut s: Session<u32> = Session::new();
        s.start("> ");
        s.prompt_written();
        s.terminal_probed("xterm", true);
        match s.raw_mode_entered(Err(cause)) {
            Action::Finish(result) => assert_eq!(result, Err(error)),
            _ => panic!("expected the end of the read"),
        }
        assert_eq!(s.phase(), Phase::Idle);
    }
}

#[test]
fn failure_to_restore_is_reported_even_after_success() {
    let mut s = raw_session();
    feed(&mut s, b"ok", &NoHelper);
    let action = s.byte_read(13);
    assert!(matches!(s.consult(action, &NoHelper), Action::Restore(SNAPSHOT)));
    assert_eq!(s.phase(), Phase::Restoring);
    assert!(matches!(s.restored(false), Action::Finish(Err(ReadError::TermModeFailure))));
    assert_eq!(s.phase(), Phase::Idle);
}

#[test]
fn read_failure_in_raw_mode_restores_the_terminal() {
    let mut s = raw_session();
    feed(&mut s, b"abc", &NoHelper);
    assert!(matches!(s.io_failed(), Action::Restore(SNAPSHOT)));
    assert!(matches!(s.restored(true), Action::Finish(Err(ReadError::IoFailure))));
}

#[test]
fn read_failure_in_line_mode_ends_the_read() {
    let mut s: Session<u32> = Session::new();
    s.start("> ");
    s.prompt_written();
    assert!(matches!(s.terminal_probed("dumb", true), Action::ReadLine));
    assert_eq!(s.phase(), Phase::LineBuffered);
    assert!(matches!(s.io_failed(), Action::Finish(Err(ReadError::IoFailure))));
}

#[test]
fn reports_that_answer_nothing_are_rejected() {
    let mut s: Session<u32> = Session::new();
    assert!(matches!(s.prompt_written(), Action::Rejected));
    assert!(matches!(s.byte_read(b'a'), Action::Rejected));
    assert!(matches!(s.restored(true), Action::Rejected));
    assert!(matches!(s.io_failed(), Action::Rejected));
    assert!(matches!(s.line_read("x\n".to_string()), Action::Rejected));
    assert!(matches!(s.raw_mode_entered(Ok(1)), Action::Rejected));
    assert_eq!(s.phase(), Phase::Idle);
    let mut s = raw_session();
    feed(&mut s, b"ab", &NoHelper);
    assert!(matches!(s.start("again"), Action::Rejected));
    assert!(matches!(s.verdict(ValidationResult::Valid), Action::Rejected));
    assert!(matches!(s.candidates(0, Vec::new()), Action::Rejected));
    assert!(matches!(s.choice(None), Action::Rejected));
    assert!(matches!(s.terminal_probed("dumb", false), Action::Rejected));
    assert!(matches!(s.line_read("x\n".to_string()), Action::Rejected));
    assert!(matches!(s.raw_mode_entered(Ok(2)), Action::Rejected));
    assert!(matches!(s.restored(true), Action::Rejected));
    assert_eq!(s.phase(), Phase::Raw);
    assert_eq!(s.editor().text(), "ab");
    assert_eq!(s.prompt(), "> ");
    assert!(matches!(s.end_of_input(), Action::Restore(SNAPSHOT)));
    assert!(matches!(s.end_of_input(), Action::Rejected));
    assert!(matches!(s.byte_read(b'a'), Action::Rejected));
}

#[test]
fn screen_is_refreshed_after_changes_only() {
    let mut s = raw_session();
    assert!(matches!(s.byte_read(b'a'), Action::ReadByte(Display::Refresh)));
    assert!(matches!(s.byte_read(0xc3), Action::ReadByte(Display::Keep)));
    assert!(matches!(s.byte_read(0xa9), Action::ReadByte(Display::Refresh)));
    assert!(matches!(s.byte_read(27), Action::ReadByte(Display::Keep)));
    assert!(matches!(s.byte_read(b'['), Action::ReadByte(Display::Keep)));
    assert!(matches!(s.byte_read(b'D'), Action::ReadByte(Display::Refresh)));
    assert!(matches!(s.byte_read(0xff), Action::ReadByte(Display::Keep)));
    assert!(matches!(s.byte_read(12), Action::ReadByte(Display::Clear)));
    assert_eq!(s.editor().text(), "aé");
    assert_eq!(s.editor().cursor(), 1);
}

#[test]
fn single_candidate_is_applied() {
    let helper = Words(vec!["checkout", "commit"]);
    let mut s = raw_session();
    feed(&mut s, b"git ch", &helper);
    let action = s.byte_read(9);
    assert!(matches!(action, Action::Complete));
    assert_eq!(s.phase(), Phase::Completing);
    assert!(matches!(s.consult(action, &helper), Action::ReadByte(Display::Refresh)));
    assert_eq!(s.editor().text(), "git checkout");
    assert_eq!(s.editor().cursor(), 12);
    assert_eq!(s.phase(), Phase::Raw);
}

#[test]
fn no_candidate_changes_nothing() {
    let helper = Words(vec!["checkout", "commit"]);
    let mut s = raw_session();
    feed(&mut s, b"git x", &helper);
    let action = s.byte_read(9);
    assert!(matches!(s.consult(action, &helper), Action::ReadByte(Display::Keep)));
    assert_eq!(s.editor().text(), "git x");
    let action = s.byte_read(9);
    assert!(matches!(s.consult(action, &NoHelper), Action::ReadByte(Display::Keep)));
    assert_eq!(s.editor().text(), "git x");
}

#[test]
fn one_of_several_candidates_is_chosen() {
    let helper = Words(vec!["checkout", "commit", "clone"]);
    let mut s = raw_session();
    feed(&mut s, b"git c", &helper);
    let action = s.byte_read(9);
    assert!(matches!(s.consult(action, &helper), Action::Choose));
    assert_eq!(s.phase(), Phase::Choosing);
    let shown: Vec<String> = s.choices().iter().map(|c| c.display.clone()).collect();
    assert_eq!(shown, vec!["CHECKOUT", "COMMIT", "CLONE"]);
    assert!(matches!(s.byte_read(b'x'), Action::Rejected));
    assert!(matches!(s.choice(Some(2)), Action::ReadByte(Display::Refresh)));
    assert_eq!(s.editor().text(), "git clone");
    assert_eq!(s.phase(), Phase::Raw);
    assert!(s.choices().is_empty());
}

#[test]
fn no_choice_applies_no_candidate() {
    let helper = Words(vec!["checkout", "commit"]);
    for choice in [None, Some(2), Some(usize::MAX)] {
        let mut s = raw_session();
        feed(&mut s, b"git c", &helper);
        let action = s.byte_read(9);
        assert!(matches!(s.consult(action, &helper), Action::Choose));
        assert!(matches!(s.choice(choice), Action::ReadByte(Display::Refresh)));
        assert_eq!(s.editor().text(), "git c");
        assert_eq!(s.editor().cursor(), 5);
    }
}

#[test]
fn failure_while_choosing_restores_the_terminal() {
    let helper = Words(vec!["checkout", "commit"]);
    let mut s = raw_session();
    feed(&mut s, b"c", &helper);
    let action = s.byte_read(9);
    assert!(matches!(s.consult(action, &helper), Action::Choose));
    assert!(matches!(s.io_failed(), Action::Restore(SNAPSHOT)));
    assert!(matches!(s.restored(true), Action::Finish(Err(ReadError::IoFailure))));
}

#[test]
fn candidate_that_starts_behind_the_cursor_is_not_applied() {
    let mut s = raw_session();
    feed(&mut s, b"ab", &NoHelper);
    assert!(matches!(s.byte_read(9), Action::Complete));
    let one = vec![Candidate { display: "x".to_string(), replacement: "x".to_string() }];
    assert!(matches!(s.candidates(3, one), Action::ReadByte(Display::Refresh)));
    assert_eq!(s.editor().text(), "ab");
    assert_eq!(s.editor().cursor(), 2);
}

#[test]
fn consult_hands_other_actions_back() {
    let mut s: Session<u32> = Session::new();
    assert!(matches!(s.consult(Action::ReadLine, &Untouchable), Action::ReadLine));
    assert!(matches!(s.consult(Action::Restore(7), &Untouchable), Action::Restore(7)));
    assert!(matches!(s.consult(Action::ReadByte(Display::Clear), &Untouchable), Action::ReadByte(Display::Clear)));
    assert!(matches!(s.consult(Action::Validate, &NoHelper), Action::Rejected));
    assert_eq!(s.phase(), Phase::Idle);
}

#[test]
fn restoring_happens_once_per_read() {
    let mut s = Session::new();
    let scripts: [&[u8]; 6] = [b"one\r", b"\x03", b"\x04", b"(a\r)\r", b"cut off", b"x\x0c\x1b[A\r"];
    for script in scripts {
        let run = read(&mut s, "xterm", true, script, &Brackets);
        assert_eq!(run.entered, 1);
        assert_eq!(run.restored, vec![SNAPSHOT]);
        assert_eq!(s.phase(), Phase::Idle);
    }
}

struct Loud;

impl Completer for Loud {}
impl Highlighter for Loud {
    fn highlight(&self, line: &str, pos: usize) -> String {
        format!("[{}|{}]", line, pos)
    }
    fn highlight_prompt(&self, prompt: &str) -> String {
        prompt.to_uppercase()
    }
    fn highlight_hint(&self, hint: &str) -> String {
        format!("<{}>", hint)
    }
}
impl Hinter for Loud {
    fn hint(&self, line: &str, _pos: usize) -> Option<String> {
        if line.is_empty() {
            None
        } else {
            Some("more".to_string())
        }
    }
}
impl Validator for Loud {
    fn validate(&self, input: &str) -> ValidationResult {
        if input.ends_with('!') {
            ValidationResult::Valid
        } else {
            ValidationResult::Invalid
        }
    }
    fn validate_while_typing(&self) -> bool {
        true
    }
}
impl Helper for Loud {}

#[test]
fn frame_without_helper_shows_things_as_they_are() {
    let mut s = raw_session();
    feed(&mut s, b"abc\x02", &NoHelper);
    let frame = s.frame(&NoHelper);
    assert_eq!(frame.prompt, "> ");
    assert_eq!(frame.line, "abc");
    assert_eq!(frame.hint, None);
    assert_eq!(frame.cursor, 2);
    assert_eq!(frame.verdict, None);
}

#[test]
fn frame_shows_what_the_helper_says() {
    let mut s: Session<u32> = Session::new();
    s.start("say> ");
    assert_eq!(s.frame(&Loud).hint, None);
    s.prompt_written();
    s.terminal_probed("xterm", true);
    s.raw_mode_entered(Ok(SNAPSHOT));
    feed(&mut s, b"hey", &Loud);
    let frame = s.frame(&Loud);
    assert_eq!(frame.prompt, "SAY> ");
    assert_eq!(frame.line, "[hey|3]");
    assert_eq!(frame.hint, Some("<more>".to_string()));
    assert_eq!(frame.cursor, 3);
    assert_eq!(frame.verdict, Some(ValidationResult::Invalid));
    feed(&mut s, b"!", &Loud);
    assert_eq!(s.frame(&Loud).verdict, Some(ValidationResult::Valid));
    assert_eq!(s.editor().text(), "hey!");
}

#[test]
fn absent_capabilities_behave_as_defaults() {
    assert_eq!(NoHelper.validate("anything ("), ValidationResult::Valid);
    assert!(!NoHelper.validate_while_typing());
    let (start, found) = NoHelper.complete("abc", 3);
    assert_eq!(start, 0);
    assert!(found.is_empty());
    assert_eq!(NoHelper.hint("abc", 3), None);
    assert_eq!(NoHelper.highlight("abc", 1), "abc");
    assert_eq!(NoHelper.highlight_prompt("> "), "> ");
    assert_eq!(NoHelper.highlight_hint("hint"), "hint");
    assert_eq!(NoHelper.highlight_candidate("cand"), "cand");
}

#[test]
fn composite_hands_each_call_to_its_part() {
    let helper = Composite {
        completer: Words(vec!["alpha", "beta"]),
        highlighter: Loud,
        hinter: NoHelper,
        validator: Brackets,
    };
    let (start, found) = helper.complete("x al", 4);
    assert_eq!(start, 2);
    assert_eq!(found.len(), 1);
    assert_eq!(found[0].replacement, "alpha");
    assert_eq!(found[0].display, "ALPHA");
    assert_eq!(helper.highlight("ab", 1), "[ab|1]");
    assert_eq!(helper.highlight_prompt("p"), "P");
    assert_eq!(helper.highlight_hint("h"), "<h>");
    assert_eq!(helper.highlight_candidate("c"), "c");
    assert_eq!(helper.hint("ab", 1), None);
    assert_eq!(helper.validate("("), ValidationResult::Incomplete);
    assert_eq!(helper.validate(")"), ValidationResult::Invalid);
    assert_eq!(helper.validate("()"), ValidationResult::Valid);
    assert!(!helper.validate_while_typing());
    let mut s = Session::new();
    let run = read(&mut s, "xterm", true, b"( be\t\r)\r", &helper);
    assert_eq!(run.result, Ok("( beta\n)".to_string()));
}

#[test]
fn long_piped_line_is_returned_whole() {
    let mut line = "x".repeat(300_000);
    line.push_str("é\n");
    let mut s = Session::new();
    let run = read(&mut s, "dumb", false, line.as_bytes(), &NoHelper);
    assert_eq!(run.result.as_ref().map(|l| l.chars().count()), Ok(300_001));
    assert!(run.result.unwrap().ends_with("xé"));
}

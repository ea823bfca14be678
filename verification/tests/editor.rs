use rustyline::editor::{command_edit, Editor, Reaction};
use rustyline::keys::{ControlCommand, EscapeSequence, KeyEvent};
use rustyline::line_buffer::Edit;
use rustyline::capability::ValidationResult;

fn type_text(e: &mut Editor, text: &str) {
    for c in text.chars() {
        assert_eq!(e.handle(KeyEvent::Printable(c)), Reaction::Redraw);
    }
}

fn state(e: &Editor) -> (String, usize) {
    (e.text(), e.cursor())
}

fn submit_line(e: &mut Editor, text: &str) {
    e.begin_read();
    type_text(e, text);
    assert_eq!(e.handle(KeyEvent::Control(ControlCommand::Submit)), Reaction::Validate);
    assert_eq!(e.submit(ValidationResult::Valid), Some(text.to_string()));
}

#[test]
fn printable_is_inserted() {
    let mut e = Editor::new();
    type_text(&mut e, "héllo");
    assert_eq!(state(&e), ("héllo".to_string(), 5));
}

#[test]
fn edit_commands_change_the_line() {
    let mut e = Editor::new();
    type_text(&mut e, "hello world");
    assert_eq!(e.handle(KeyEvent::Control(ControlCommand::MoveStart)), Reaction::Redraw);
    assert_eq!(state(&e), ("hello world".to_string(), 0));
    e.handle(KeyEvent::Control(ControlCommand::MoveForward));
    e.handle(KeyEvent::Control(ControlCommand::DeleteBack));
    assert_eq!(state(&e), ("ello world".to_string(), 0));
    e.handle(KeyEvent::Control(ControlCommand::DeleteForward));
    assert_eq!(state(&e), ("llo world".to_string(), 0));
    e.handle(KeyEvent::Control(ControlCommand::MoveEnd));
    e.handle(KeyEvent::Control(ControlCommand::KillPrevWord));
    assert_eq!(state(&e), ("llo ".to_string(), 4));
    e.handle(KeyEvent::Control(ControlCommand::MoveBack));
    e.handle(KeyEvent::Control(ControlCommand::MoveBack));
    e.handle(KeyEvent::Control(ControlCommand::Transpose));
    assert_eq!(state(&e), ("lol ".to_string(), 2));
    e.handle(KeyEvent::Control(ControlCommand::KillToEnd));
    assert_eq!(state(&e), ("lo".to_string(), 2));
    e.handle(KeyEvent::Control(ControlCommand::KillWholeLine));
    assert_eq!(state(&e), (String::new(), 0));
}

#[test]
fn escape_keys_act_as_their_commands() {
    let mut e = Editor::new();
    type_text(&mut e, "abc");
    assert_eq!(e.handle(KeyEvent::Escape(EscapeSequence::Left)), Reaction::Redraw);
    assert_eq!(e.cursor(), 2);
    e.handle(KeyEvent::Escape(EscapeSequence::Home));
    assert_eq!(e.cursor(), 0);
    e.handle(KeyEvent::Escape(EscapeSequence::Right));
    assert_eq!(e.cursor(), 1);
    e.handle(KeyEvent::Escape(EscapeSequence::Delete));
    assert_eq!(state(&e), ("ac".to_string(), 1));
    e.handle(KeyEvent::Escape(EscapeSequence::End));
    assert_eq!(e.cursor(), 2);
}

#[test]
fn delete_key_on_empty_line_is_no_end_of_file() {
    let mut e = Editor::new();
    assert_eq!(e.handle(KeyEvent::Escape(EscapeSequence::Delete)), Reaction::Redraw);
    assert_eq!(e.handle(KeyEvent::Control(ControlCommand::DeleteForward)), Reaction::Redraw);
    assert_eq!(state(&e), (String::new(), 0));
}

#[test]
fn eof_on_empty_line_ends_the_read() {
    let mut e = Editor::new();
    assert_eq!(e.handle(KeyEvent::Eof), Reaction::EndOfFile);
}

#[test]
fn eof_on_nonempty_line_deletes_forward() {
    let mut e = Editor::new();
    type_text(&mut e, "abc");
    e.handle(KeyEvent::Control(ControlCommand::MoveStart));
    assert_eq!(e.handle(KeyEvent::Eof), Reaction::Redraw);
    assert_eq!(state(&e), ("bc".to_string(), 0));
    e.handle(KeyEvent::Control(ControlCommand::MoveEnd));
    assert_eq!(e.handle(KeyEvent::Eof), Reaction::Redraw);
    assert_eq!(state(&e), ("bc".to_string(), 2));
}

#[test]
fn other_commands_ask_the_driver() {
    let mut e = Editor::new();
    type_text(&mut e, "abc");
    assert_eq!(e.handle(KeyEvent::Control(ControlCommand::ClearScreen)), Reaction::ClearScreen);
    assert_eq!(e.handle(KeyEvent::Control(ControlCommand::Interrupt)), Reaction::Interrupted);
    assert_eq!(e.handle(KeyEvent::Control(ControlCommand::Submit)), Reaction::Validate);
    assert_eq!(e.handle(KeyEvent::Control(ControlCommand::Complete)), Reaction::Complete);
    assert_eq!(state(&e), ("abc".to_string(), 3));
    assert_eq!(e.history().len(), 0);
}

#[test]
fn command_edit_maps_editing_commands_only() {
    assert_eq!(command_edit(ControlCommand::MoveStart), Some(Edit::MoveStart));
    assert_eq!(command_edit(ControlCommand::KillPrevWord), Some(Edit::KillPrevWord));
    assert_eq!(command_edit(ControlCommand::Transpose), Some(Edit::Transpose));
    assert_eq!(command_edit(ControlCommand::Submit), None);
    assert_eq!(command_edit(ControlCommand::Interrupt), None);
    assert_eq!(command_edit(ControlCommand::HistoryPrev), None);
    assert_eq!(command_edit(ControlCommand::Complete), None);
    assert_eq!(command_edit(ControlCommand::ClearScreen), None);
}

#[test]
fn valid_submit_returns_text_and_appends_to_history() {
    let mut e = Editor::new();
    type_text(&mut e, "abc");
    assert_eq!(e.submit(ValidationResult::Valid), Some("abc".to_string()));
    assert_eq!(e.history().len(), 1);
    assert_eq!(e.history().entry(0), Some("abc"));
    assert!(e.history().is_live());
    assert_eq!(state(&e), (String::new(), 0));
}

#[test]
fn invalid_submit_changes_nothing() {
    let mut e = Editor::new();
    type_text(&mut e, "abc");
    e.handle(KeyEvent::Control(ControlCommand::MoveBack));
    assert_eq!(e.submit(ValidationResult::Invalid), None);
    assert_eq!(state(&e), ("abc".to_string(), 2));
    assert_eq!(e.history().len(), 0);
}

#[test]
fn incomplete_submit_appends_newline() {
    let mut e = Editor::new();
    type_text(&mut e, "(foo");
    e.handle(KeyEvent::Control(ControlCommand::MoveStart));
    assert_eq!(e.submit(ValidationResult::Incomplete), None);
    assert_eq!(state(&e), ("(foo\n".to_string(), 5));
    assert_eq!(e.history().len(), 0);
}

#[test]
fn history_keys_show_older_lines_and_return_to_live_text() {
    let mut e = Editor::new();
    submit_line(&mut e, "first");
    submit_line(&mut e, "second");
    e.begin_read();
    type_text(&mut e, "dra");
    e.handle(KeyEvent::Control(ControlCommand::MoveBack));
    assert_eq!(e.handle(KeyEvent::Control(ControlCommand::HistoryPrev)), Reaction::Redraw);
    assert_eq!(state(&e), ("second".to_string(), 6));
    e.handle(KeyEvent::Control(ControlCommand::HistoryPrev));
    assert_eq!(state(&e), ("first".to_string(), 5));
    e.handle(KeyEvent::Control(ControlCommand::HistoryPrev));
    assert_eq!(state(&e), ("first".to_string(), 5));
    e.handle(KeyEvent::Control(ControlCommand::HistoryNext));
    assert_eq!(state(&e), ("second".to_string(), 6));
    e.handle(KeyEvent::Control(ControlCommand::HistoryNext));
    assert_eq!(state(&e), ("dra".to_string(), 3));
    assert!(e.history().is_live());
    e.handle(KeyEvent::Control(ControlCommand::HistoryNext));
    assert_eq!(state(&e), ("dra".to_string(), 3));
}

#[test]
fn history_keys_on_empty_history_are_noops() {
    let mut e = Editor::new();
    type_text(&mut e, "abc");
    e.handle(KeyEvent::Control(ControlCommand::MoveBack));
    e.handle(KeyEvent::Control(ControlCommand::HistoryPrev));
    assert_eq!(state(&e), ("abc".to_string(), 2));
    e.handle(KeyEvent::Control(ControlCommand::HistoryNext));
    assert_eq!(state(&e), ("abc".to_string(), 2));
}

#[test]
fn arrow_keys_walk_the_history() {
    let mut e = Editor::new();
    submit_line(&mut e, "one");
    e.begin_read();
    e.handle(KeyEvent::Escape(EscapeSequence::Up));
    assert_eq!(state(&e), ("one".to_string(), 3));
    e.handle(KeyEvent::Escape(EscapeSequence::Down));
    assert_eq!(state(&e), (String::new(), 0));
}

#[test]
fn edited_history_line_can_be_submitted() {
    let mut e = Editor::new();
    submit_line(&mut e, "make");
    e.begin_read();
    e.handle(KeyEvent::Control(ControlCommand::HistoryPrev));
    type_text(&mut e, " test");
    assert_eq!(e.submit(ValidationResult::Valid), Some("make test".to_string()));
    assert_eq!(e.history().len(), 2);
    assert_eq!(e.history().entry(0), Some("make"));
    assert_eq!(e.history().entry(1), Some("make test"));
    assert!(e.history().is_live());
}

#[test]
fn begin_read_clears_line_and_rewinds_history() {
    let mut e = Editor::new();
    submit_line(&mut e, "one");
    type_text(&mut e, "junk");
    e.handle(KeyEvent::Control(ControlCommand::HistoryPrev));
    e.begin_read();
    assert_eq!(state(&e), (String::new(), 0));
    assert!(e.history().is_live());
    assert_eq!(e.history().len(), 1);
    assert_eq!(e.buffer().len(), 0);
}

#[test]
fn accept_replaces_from_start_to_cursor() {
    let mut e = Editor::new();
    type_text(&mut e, "cd Docu");
    e.accept(3, "Documents/");
    assert_eq!(state(&e), ("cd Documents/".to_string(), 13));
}

#[test]
fn accept_behind_cursor_is_noop() {
    let mut e = Editor::new();
    type_text(&mut e, "abc");
    e.handle(KeyEvent::Control(ControlCommand::MoveBack));
    e.accept(3, "zzz");
    assert_eq!(state(&e), ("abc".to_string(), 2));
}

//! The editing loop on key events: what each event does to the line, to the
//! history cursor, and to the read.

use vstd::prelude::*;
use crate::history::{History, Past};
use crate::keys::{ControlCommand, EscapeSequence, KeyEvent};
use crate::line_buffer::{lemma_word_start_bounds, Edit, Line, LineBuffer};
use crate::capability::ValidationResult;

verus! {

/// What the driver of the editing has to do after an event.
#[derive(Clone, Copy, Debug, PartialEq, Eq, Structural)]
pub enum Reaction {
    /// The line or the cursor may have changed: show them again.
    Redraw,
    /// Clear the screen and show the line again.
    ClearScreen,
    /// The user submitted the line: ask the validator.
    Validate,
    /// The user asked for a completion: ask the completer.
    Complete,
    /// The user gave the reading up.
    Interrupted,
    /// The input ended on an empty line.
    EndOfFile,
}

/// The mathematical content of an editor.
pub struct EditModel {
    /// The line being edited.
    pub line: Line,
    /// The history.
    pub past: Past,
    /// The text that the user was editing before the history keys replaced
    /// it by a line of the history.
    pub stash: Option<Seq<char>>,
}

/// The edit that a command makes of the line; none for a command that does
/// something else.
pub open spec fn edit_of_command(cmd: ControlCommand) -> Option<Edit> {
    match cmd {
        ControlCommand::MoveStart => Some(Edit::MoveStart),
        ControlCommand::MoveEnd => Some(Edit::MoveEnd),
        ControlCommand::MoveBack => Some(Edit::MoveBack),
        ControlCommand::MoveForward => Some(Edit::MoveForward),
        ControlCommand::DeleteBack => Some(Edit::DeleteBack),
        ControlCommand::DeleteForward => Some(Edit::DeleteForward),
        ControlCommand::KillToEnd => Some(Edit::KillToEnd),
        ControlCommand::KillWholeLine => Some(Edit::KillWholeLine),
        ControlCommand::KillPrevWord => Some(Edit::KillPrevWord),
        ControlCommand::Transpose => Some(Edit::Transpose),
        _ => None,
    }
}

impl EditModel {
    /// The cursors are in range, and a text is set aside exactly while the
    /// history cursor points at a line.
    pub open spec fn valid(self) -> bool {
        &&& self.line.valid()
        &&& self.past.valid()
        &&& self.stash is Some <==> !self.past.at_live()
    }

    /// An editor with an empty line and no history.
    pub open spec fn empty() -> EditModel {
        EditModel { line: Line::empty(), past: Past::empty(), stash: None }
    }

    /// The state at the start of a read: the line empty, the history cursor
    /// live.
    pub open spec fn begin_read(self) -> EditModel {
        EditModel { line: Line::empty(), past: self.past.rewind(), stash: None }
    }

    /// The line edited, the rest unchanged.
    pub open spec fn edit(self, edit: Edit) -> EditModel {
        EditModel { line: self.line.apply(edit), ..self }
    }

    /// One line back in the history: the line is replaced by the line of the
    /// history, the cursor at its end, and what was being edited is set
    /// aside. Nothing at the oldest line.
    pub open spec fn history_prev(self) -> EditModel {
        if self.past.index > 0 {
            let past = self.past.prev();
            EditModel {
                line: Line::at_end_of(past.entries[past.index]),
                past,
                stash: if self.past.at_live() {
                    Some(self.line.text)
                } else {
                    self.stash
                },
            }
        } else {
            self
        }
    }

    /// One line forward in the history; from the newest line back to what
    /// was being edited. Nothing where the history cursor is live.
    pub open spec fn history_next(self) -> EditModel {
        if self.past.index < self.past.entries.len() {
            let past = self.past.next();
            if past.at_live() {
                EditModel {
                    line: Line::at_end_of(
                        match self.stash {
                            Some(text) => text,
                            None => Seq::empty(),
                        },
                    ),
                    past,
                    stash: None,
                }
            } else {
                EditModel { line: Line::at_end_of(past.entries[past.index]), past, stash: self.stash }
            }
        } else {
            self
        }
    }

    /// What a command does.
    pub open spec fn command(self, cmd: ControlCommand) -> (EditModel, Reaction) {
        match cmd {
            ControlCommand::ClearScreen => (self, Reaction::ClearScreen),
            ControlCommand::Interrupt => (self, Reaction::Interrupted),
            ControlCommand::Submit => (self, Reaction::Validate),
            ControlCommand::Complete => (self, Reaction::Complete),
            ControlCommand::HistoryPrev => (self.history_prev(), Reaction::Redraw),
            ControlCommand::HistoryNext => (self.history_next(), Reaction::Redraw),
            _ => (self.edit(edit_of_command(cmd)->0), Reaction::Redraw),
        }
    }

    /// What a key event does.
    pub open spec fn apply(self, event: KeyEvent) -> (EditModel, Reaction) {
        match event {
            KeyEvent::Printable(ch) => (self.edit(Edit::Insert(ch)), Reaction::Redraw),
            KeyEvent::Control(cmd) => self.command(cmd),
            KeyEvent::Escape(key) => self.command(key.command_spec()),
            KeyEvent::Eof => if self.line.text.len() == 0 {
                (self, Reaction::EndOfFile)
            } else {
                (self.edit(Edit::DeleteForward), Reaction::Redraw)
            },
        }
    }

    /// What a verdict on the submitted line does: the state afterwards, and
    /// the text that the read returns, if it ends.
    ///
    /// A valid line goes to the history and is returned, and the line is
    /// empty for the next read. An invalid line stays as it is. An incomplete
    /// line gets a newline at its end and stays open.
    pub open spec fn submit(self, verdict: ValidationResult) -> (EditModel, Option<Seq<char>>) {
        match verdict {
            ValidationResult::Valid => (
                EditModel {
                    line: Line::empty(),
                    past: self.past.append(self.line.text),
                    stash: None,
                },
                Some(self.line.text),
            ),
            ValidationResult::Invalid => (self, None),
            ValidationResult::Incomplete => (
                EditModel { line: self.line.move_end().insert('\n'), ..self },
                None,
            ),
        }
    }

    /// A completion taken: the text between `start` and the cursor replaced
    /// by `replacement`. Nothing where `start` lies behind the cursor.
    pub open spec fn accept(self, start: int, replacement: Seq<char>) -> EditModel {
        if 0 <= start <= self.line.cursor {
            EditModel { line: self.line.replace_before_cursor(start, replacement), ..self }
        } else {
            self
        }
    }
}

/// The edit that a command makes of the line.
pub fn command_edit(cmd: ControlCommand) -> (edit: Option<Edit>)
    ensures
        edit == edit_of_command(cmd),
{
    match cmd {
        ControlCommand::MoveStart => Some(Edit::MoveStart),
        ControlCommand::MoveEnd => Some(Edit::MoveEnd),
        ControlCommand::MoveBack => Some(Edit::MoveBack),
        ControlCommand::MoveForward => Some(Edit::MoveForward),
        ControlCommand::DeleteBack => Some(Edit::DeleteBack),
        ControlCommand::DeleteForward => Some(Edit::DeleteForward),
        ControlCommand::KillToEnd => Some(Edit::KillToEnd),
        ControlCommand::KillWholeLine => Some(Edit::KillWholeLine),
        ControlCommand::KillPrevWord => Some(Edit::KillPrevWord),
        ControlCommand::Transpose => Some(Edit::Transpose),
        _ => None,
    }
}

/// The line being edited and the history, and the events' effect on them.
pub struct Editor {
    buffer: LineBuffer,
    history: History,
    stash: Option<String>,
}

impl View for Editor {
    type V = EditModel;

    closed spec fn view(&self) -> EditModel {
        EditModel {
            line: self.buffer@,
            past: self.history@,
            stash: match self.stash {
                Some(text) => Some(text@),
                None => None,
            },
        }
    }
}

impl Editor {
    /// The invariant of the type.
    pub open spec fn wf(&self) -> bool {
        self@.valid()
    }

    /// An editor with an empty line and no history.
    pub fn new() -> (editor: Editor)
        ensures
            editor.wf(),
            editor@ == EditModel::empty(),
    {
        Editor { buffer: LineBuffer::new(), history: History::new(), stash: None }
    }

    /// Makes the editor ready for a read: the line empty, the history cursor
    /// live.
    pub fn begin_read(&mut self)
        requires
            old(self).wf(),
        ensures
            final(self).wf(),
            final(self)@ == old(self)@.begin_read(),
    {
        self.buffer.kill_whole_line();
        self.history.rewind();
        self.stash = None;
    }

    /// The line being edited.
    pub fn buffer(&self) -> (buffer: &LineBuffer)
        ensures
            buffer@ == self@.line,
    {
        &self.buffer
    }

    /// The history.
    pub fn history(&self) -> (history: &History)
        ensures
            history@ == self@.past,
    {
        &self.history
    }

    /// A copy of the text of the line.
    pub fn text(&self) -> (text: String)
        ensures
            text@ == self@.line.text,
    {
        self.buffer.snapshot()
    }

    /// The cursor in the line.
    pub fn cursor(&self) -> (pos: usize)
        ensures
            pos == self@.line.cursor,
    {
        self.buffer.cursor()
    }

    fn history_prev(&mut self)
        requires
            old(self).wf(),
        ensures
            final(self).wf(),
            final(self)@ == old(self)@.history_prev(),
    {
        if self.history.position() > 0 {
            if self.history.is_live() {
                self.stash = Some(self.buffer.snapshot());
            }
            self.history.prev();
            match self.history.current() {
                Some(line) => {
                    self.buffer.set_text(line);
                },
                None => {},
            }
        }
    }

    fn history_next(&mut self)
        requires
            old(self).wf(),
        ensures
            final(self).wf(),
            final(self)@ == old(self)@.history_next(),
    {
        if !self.history.is_live() {
            self.history.next();
            match self.history.current() {
                Some(line) => {
                    self.buffer.set_text(line);
                },
                None => {
                    match self.stash.take() {
                        Some(text) => {
                            self.buffer.set_text(text.as_str());
                        },
                        None => {
                            self.buffer.set_text("");
                        },
                    }
                },
            }
        }
    }

    /// Carries out a command.
    pub fn command(&mut self, cmd: ControlCommand) -> (reaction: Reaction)
        requires
            old(self).wf(),
        ensures
            final(self).wf(),
            (final(self)@, reaction) == old(self)@.command(cmd),
    {
        match cmd {
            ControlCommand::ClearScreen => Reaction::ClearScreen,
            ControlCommand::Interrupt => Reaction::Interrupted,
            ControlCommand::Submit => Reaction::Validate,
            ControlCommand::Complete => Reaction::Complete,
            ControlCommand::HistoryPrev => {
                self.history_prev();
                Reaction::Redraw
            },
            ControlCommand::HistoryNext => {
                self.history_next();
                Reaction::Redraw
            },
            _ => {
                match command_edit(cmd) {
                    Some(edit) => {
                        self.buffer.apply(edit);
                    },
                    None => {},
                }
                Reaction::Redraw
            },
        }
    }

    /// Carries out a key event.
    pub fn handle(&mut self, event: KeyEvent) -> (reaction: Reaction)
        requires
            old(self).wf(),
        ensures
            final(self).wf(),
            (final(self)@, reaction) == old(self)@.apply(event),
    {
        match event {
            KeyEvent::Printable(ch) => {
                self.buffer.insert(ch);
                Reaction::Redraw
            },
            KeyEvent::Control(cmd) => self.command(cmd),
            KeyEvent::Escape(key) => self.command(key.command()),
            KeyEvent::Eof => {
                if self.buffer.is_empty() {
                    Reaction::EndOfFile
                } else {
                    self.buffer.delete_forward();
                    Reaction::Redraw
                }
            },
        }
    }

    /// Takes the validator's verdict on the line. Returns the text that the
    /// read returns where the verdict ends it.
    pub fn submit(&mut self, verdict: ValidationResult) -> (accepted: Option<String>)
        requires
            old(self).wf(),
        ensures
            final(self).wf(),
            final(self)@ == old(self)@.submit(verdict).0,
            accepted is Some <==> verdict == ValidationResult::Valid,
            accepted is Some ==> old(self)@.submit(verdict).1 == Some(accepted->0@),
    {
        match verdict {
            ValidationResult::Valid => {
                let text = self.buffer.snapshot();
                self.history.append(text.clone());
                self.buffer.kill_whole_line();
                self.stash = None;
                Some(text)
            },
            ValidationResult::Invalid => None,
            ValidationResult::Incomplete => {
                self.buffer.move_end();
                self.buffer.insert('\n');
                None
            },
        }
    }

    /// Takes a completion: replaces the text between `start` and the cursor
    /// by `replacement`. Nothing where `start` lies behind the cursor.
    pub fn accept(&mut self, start: usize, replacement: &str)
        requires
            old(self).wf(),
        ensures
            final(self).wf(),
            final(self)@ == old(self)@.accept(start as int, replacement@),
    {
        if start <= self.buffer.cursor() {
            self.buffer.replace_before_cursor(start, replacement);
        }
    }
}

/// `n` presses of the key that goes back in the history.
pub open spec fn prev_times(m: EditModel, n: nat) -> EditModel
    decreases n,
{
    if n == 0 {
        m
    } else {
        prev_times(m, (n - 1) as nat).history_prev()
    }
}

/// `n` presses of the key that goes forward in the history.
pub open spec fn next_times(m: EditModel, n: nat) -> EditModel
    decreases n,
{
    if n == 0 {
        m
    } else {
        next_times(m, (n - 1) as nat).history_next()
    }
}

/// Every key event leaves the editor in a valid state.
pub proof fn lemma_apply_keeps_valid(m: EditModel, event: KeyEvent)
    requires
        m.valid(),
    ensures
        m.apply(event).0.valid(),
{
    lemma_word_start_bounds(m.line.text, m.line.cursor);
}

/// Every verdict leaves the editor in a valid state.
pub proof fn lemma_submit_keeps_valid(m: EditModel, verdict: ValidationResult)
    requires
        m.valid(),
    ensures
        m.submit(verdict).0.valid(),
{
}

/// Taking a completion leaves the editor in a valid state.
pub proof fn lemma_accept_keeps_valid(m: EditModel, start: int, replacement: Seq<char>)
    requires
        m.valid(),
    ensures
        m.accept(start, replacement).valid(),
{
}

/// A valid line is returned as it stands, goes to the end of the history
/// once, and leaves an empty line and a live history cursor behind.
pub proof fn lemma_valid_submit(m: EditModel)
    requires
        m.valid(),
    ensures
        m.submit(ValidationResult::Valid).1 == Some(m.line.text),
        m.submit(ValidationResult::Valid).0.past.entries == m.past.entries.push(m.line.text),
        m.submit(ValidationResult::Valid).0.past.at_live(),
        m.submit(ValidationResult::Valid).0.line == Line::empty(),
{
}

/// An incomplete line stays open with a newline at its end, the cursor
/// behind it; an invalid line stays as it is. Neither ends the read nor
/// touches the history.
pub proof fn lemma_refused_submit(m: EditModel)
    requires
        m.valid(),
    ensures
        m.submit(ValidationResult::Incomplete).1 is None,
        m.submit(ValidationResult::Incomplete).0.line == Line::at_end_of(m.line.text.push('\n')),
        m.submit(ValidationResult::Incomplete).0.past == m.past,
        m.submit(ValidationResult::Invalid) == (m, None::<Seq<char>>),
{
    let line = m.line.move_end().insert('\n');
    assert(line.text =~= m.line.text.push('\n'));
}

/// The state after `n` presses back from the live line, `n` at least 1: the
/// `n`-th newest line of the history is shown, the cursor at its end, and
/// the live text is set aside.
pub proof fn lemma_history_back(m: EditModel, n: nat)
    requires
        m.valid(),
        m.past.at_live(),
        1 <= n <= m.past.entries.len(),
    ensures
        prev_times(m, n) == (EditModel {
            line: Line::at_end_of(m.past.entries[m.past.entries.len() - n]),
            past: Past { entries: m.past.entries, index: m.past.entries.len() - n },
            stash: Some(m.line.text),
        }),
    decreases n,
{
    reveal_with_fuel(prev_times, 2);
    if n > 1 {
        lemma_history_back(m, (n - 1) as nat);
    }
}

/// At the oldest line a further press back changes nothing.
pub proof fn lemma_history_back_stops(m: EditModel)
    requires
        m.valid(),
        m.past.index == 0,
    ensures
        m.history_prev() == m,
{
}

/// Pressing forward leads back through the same lines in reverse order:
/// after `n` presses back from the live line, `k` presses forward show what
/// `n - k` presses back showed; and after `n` presses forward the live text
/// is there again, the cursor at its end, and nothing is set aside.
pub proof fn lemma_history_forth(m: EditModel, n: nat, k: nat)
    requires
        m.valid(),
        m.past.at_live(),
        1 <= n <= m.past.entries.len(),
        k <= n,
    ensures
        k < n ==> next_times(prev_times(m, n), k) == prev_times(m, (n - k) as nat),
        k == n ==> next_times(prev_times(m, n), k) == (EditModel {
            line: Line::at_end_of(m.line.text),
            past: m.past,
            stash: None,
        }),
    decreases k,
{
    if k > 0 {
        lemma_history_forth(m, n, (k - 1) as nat);
        lemma_history_back(m, (n - k + 1) as nat);
        if k < n {
            lemma_history_back(m, (n - k) as nat);
        }
    }
}

} // verus!

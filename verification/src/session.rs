//! One read of a line, from the prompt to the result, as a state machine
//! that does no input or output itself.
//!
//! A driver carries out each action that the session asks for and reports
//! what came of it; the session answers with the next action. The session
//! decides whether the terminal is read raw or line by line, keeps the
//! snapshot of the terminal's own mode while raw mode is on, and hands it
//! back for restoring on every way out of raw mode.

use vstd::prelude::*;
use vstd::utf8::encode_utf8;
use crate::decoder::{
    decode_step, encoding, is_text, lemma_command_byte_preempts, lemma_decode_step_keeps_valid,
    lemma_decoder_reads_text, lemma_encoding_is_complete, pending_valid, Decoded, KeyDecoder,
};
use crate::editor::{
    lemma_apply_keeps_valid, lemma_refused_submit, lemma_submit_keeps_valid, EditModel, Editor,
    Reaction,
};
use crate::error::{ReadError, TermError};
use crate::keys::KeyEvent;
use crate::line_buffer::{lemma_edit_keeps_cursor_in_bounds, Edit, Line};
use crate::capability::{candidate_models, Candidate, CandidateModel, Helper, ValidationResult};
use crate::terminal::{is_unsupported_term, unsupported_term};
use crate::text::{chars_of_str, string_of_chars};

verus! {

/// Where a session stands: what it has asked the driver for.
#[derive(Clone, Copy, Debug, PartialEq, Eq, Structural)]
pub enum Phase {
    /// No read is going on.
    Idle,
    /// The prompt is being written.
    Prompt,
    /// The terminal's type and kind are being looked up.
    Probe,
    /// Raw mode is being entered.
    Entering,
    /// Raw mode is on and the next byte is being read.
    Raw,
    /// Raw mode is on and the validator is being asked.
    Validating,
    /// Raw mode is on and the completer is being asked.
    Completing,
    /// Raw mode is on and the user is choosing among candidates.
    Choosing,
    /// A line is being read from a terminal that is left in its own mode.
    LineBuffered,
    /// The terminal's own mode is being restored.
    Restoring,
}

/// What the driver does to the screen before it reads the next byte.
#[derive(Clone, Copy, Debug, PartialEq, Eq, Structural)]
pub enum Display {
    /// Nothing: what is shown is up to date.
    Keep,
    /// Show the prompt and the line again.
    Refresh,
    /// Clear the screen, then show the prompt and the line again.
    Clear,
}

/// What a session asks its driver to do next.
#[derive(Debug)]
pub enum Action<T> {
    /// Write the prompt and flush it; report `prompt_written` or `io_failed`.
    WritePrompt,
    /// Look up the terminal's type and whether standard input is an
    /// interactive device; report `terminal_probed`.
    QueryTerminal,
    /// Put the terminal into raw mode; report `raw_mode_entered` with the
    /// snapshot of its own mode, or with the reason of the failure.
    EnterRawMode,
    /// Bring the screen up to date as the value says, then read a byte;
    /// report `byte_read`, `end_of_input` or `io_failed`.
    ReadByte(Display),
    /// Ask the validator about the text of the line; report `verdict`.
    Validate,
    /// Ask the completer about the text of the line and the cursor; report
    /// `candidates`.
    Complete,
    /// Let the user choose among the session's choices; report `choice`.
    Choose,
    /// Read one line from the input; report `line_read` or `io_failed`.
    ReadLine,
    /// Restore the terminal's own mode from this snapshot; report
    /// `restored`.
    Restore(T),
    /// The read is over; this is its result.
    Finish(Result<String, ReadError>),
    /// What was reported does not answer what the session asked for. The
    /// session is unchanged and still waits for the answer.
    Rejected,
}

/// The mathematical content of an action.
pub enum ActionModel<T> {
    WritePrompt,
    QueryTerminal,
    EnterRawMode,
    ReadByte(Display),
    Validate,
    Complete,
    Choose,
    ReadLine,
    Restore(T),
    Finish(Result<Seq<char>, ReadError>),
    Rejected,
}

impl<T> View for Action<T> {
    type V = ActionModel<T>;

    open spec fn view(&self) -> ActionModel<T> {
        match *self {
            Action::WritePrompt => ActionModel::WritePrompt,
            Action::QueryTerminal => ActionModel::QueryTerminal,
            Action::EnterRawMode => ActionModel::EnterRawMode,
            Action::ReadByte(display) => ActionModel::ReadByte(display),
            Action::Validate => ActionModel::Validate,
            Action::Complete => ActionModel::Complete,
            Action::Choose => ActionModel::Choose,
            Action::ReadLine => ActionModel::ReadLine,
            Action::Restore(snapshot) => ActionModel::Restore(snapshot),
            Action::Finish(Ok(text)) => ActionModel::Finish(Ok(text@)),
            Action::Finish(Err(e)) => ActionModel::Finish(Err(e)),
            Action::Rejected => ActionModel::Rejected,
        }
    }
}

/// What a driver reports to a session.
pub enum Signal<T> {
    /// A read is to begin, with this prompt.
    Start(Seq<char>),
    /// The prompt is written.
    PromptWritten,
    /// The terminal's type, and whether standard input is an interactive
    /// device.
    Terminal(Seq<char>, bool),
    /// Raw mode is on, and this is the snapshot of the terminal's own mode;
    /// or it could not be entered.
    RawMode(Result<T, TermError>),
    /// The next byte of the input.
    Byte(u8),
    /// The input has ended.
    EndOfInput,
    /// Reading or writing failed.
    Failed,
    /// The validator's verdict.
    Verdict(ValidationResult),
    /// The completer's proposals, and the offset from which one replaces
    /// the line up to the cursor.
    Candidates(int, Seq<CandidateModel>),
    /// The number of the choice that the user took, or none.
    Choice(Option<int>),
    /// The line that was read, with the newline that ended it.
    Line(Seq<char>),
    /// The terminal's own mode is restored, or could not be.
    Restored(bool),
}

/// `line` without the newline that ends it.
pub open spec fn strip_newline(line: Seq<char>) -> Seq<char> {
    if line.len() > 0 && line.last() == '\n' {
        line.drop_last()
    } else {
        line
    }
}

/// The mathematical content of a session.
pub struct SessionModel<T> {
    pub phase: Phase,
    pub prompt: Seq<char>,
    /// The bytes that the key decoder holds.
    pub pending: Seq<u8>,
    pub edit: EditModel,
    /// The snapshot of the terminal's own mode, while raw mode is on.
    pub saved: Option<T>,
    /// The result of the read, while the terminal's mode is being restored.
    pub outcome: Option<Result<Seq<char>, ReadError>>,
    /// The offset from which a choice replaces the line up to the cursor.
    pub start: int,
    /// The candidates that the user is choosing among.
    pub choices: Seq<CandidateModel>,
}

impl Phase {
    /// Raw mode is on in this phase.
    pub open spec fn is_raw(self) -> bool {
        self == Phase::Raw || self == Phase::Validating || self == Phase::Completing || self
            == Phase::Choosing
    }
}

impl<T> SessionModel<T> {
    /// The session holds a snapshot exactly while raw mode is on, and a
    /// result exactly while the mode is being restored.
    pub open spec fn valid(self) -> bool {
        &&& self.edit.valid()
        &&& pending_valid(self.pending)
        &&& self.saved is Some <==> self.phase.is_raw()
        &&& self.outcome is Some <==> self.phase == Phase::Restoring
    }

    /// A session in which no read has begun.
    pub open spec fn idle() -> SessionModel<T> {
        SessionModel {
            phase: Phase::Idle,
            prompt: Seq::empty(),
            pending: Seq::empty(),
            edit: EditModel::empty(),
            saved: None,
            outcome: None,
            start: 0,
            choices: Seq::empty(),
        }
    }

    pub open spec fn reject(self) -> (SessionModel<T>, ActionModel<T>) {
        (self, ActionModel::Rejected)
    }

    /// Raw mode is left: the snapshot goes out for restoring, and the
    /// result waits for it.
    pub open spec fn leave_raw(self, outcome: Result<Seq<char>, ReadError>) -> (
        SessionModel<T>,
        ActionModel<T>,
    ) {
        (
            SessionModel { phase: Phase::Restoring, saved: None, outcome: Some(outcome), ..self },
            ActionModel::Restore(self.saved->0),
        )
    }

    /// The read is over.
    pub open spec fn finish(self, result: Result<Seq<char>, ReadError>) -> (
        SessionModel<T>,
        ActionModel<T>,
    ) {
        (SessionModel { phase: Phase::Idle, outcome: None, ..self }, ActionModel::Finish(result))
    }

    /// The next byte is read.
    pub open spec fn read_on(self, display: Display) -> (SessionModel<T>, ActionModel<T>) {
        (SessionModel { phase: Phase::Raw, ..self }, ActionModel::ReadByte(display))
    }

    /// What a key event does to a session that reads raw.
    pub open spec fn on_event(self, event: KeyEvent) -> (
        SessionModel<T>,
        ActionModel<T>,
    ) {
        let (edit, reaction) = self.edit.apply(event);
        let next = SessionModel { edit, ..self };
        match reaction {
            Reaction::Redraw => next.read_on(Display::Refresh),
            Reaction::ClearScreen => next.read_on(Display::Clear),
            Reaction::Validate => (
                SessionModel { phase: Phase::Validating, ..next },
                ActionModel::Validate,
            ),
            Reaction::Complete => (
                SessionModel { phase: Phase::Completing, ..next },
                ActionModel::Complete,
            ),
            Reaction::Interrupted => next.leave_raw(Err(ReadError::Interrupted)),
            Reaction::EndOfFile => next.leave_raw(Err(ReadError::Eof)),
        }
    }

    /// What a byte does to a session that reads raw.
    pub open spec fn on_byte(self, byte: u8) -> (SessionModel<T>, ActionModel<T>) {
        let (pending, decoded) = decode_step(self.pending, byte, self.edit.line.text.len() == 0);
        let next = SessionModel { pending, ..self };
        match decoded {
            Decoded::Event(event) => next.on_event(event),
            _ => next.read_on(Display::Keep),
        }
    }

    /// What a verdict does to a session that asked for it.
    pub open spec fn on_verdict(self, verdict: ValidationResult) -> (
        SessionModel<T>,
        ActionModel<T>,
    ) {
        let (edit, accepted) = self.edit.submit(verdict);
        let next = SessionModel { edit, ..self };
        match accepted {
            Some(text) => next.leave_raw(Ok(text)),
            None => next.read_on(
                if verdict == ValidationResult::Incomplete {
                    Display::Refresh
                } else {
                    Display::Keep
                },
            ),
        }
    }

    /// What the completer's proposals do to a session that asked for them:
    /// none changes nothing, a single one is taken, and among several the
    /// user chooses.
    pub open spec fn on_candidates(self, start: int, candidates: Seq<CandidateModel>) -> (
        SessionModel<T>,
        ActionModel<T>,
    ) {
        if candidates.len() == 0 {
            self.read_on(Display::Keep)
        } else if candidates.len() == 1 {
            SessionModel { edit: self.edit.accept(start, candidates[0].replacement), ..self }.read_on(
                Display::Refresh,
            )
        } else {
            (
                SessionModel { phase: Phase::Choosing, start, choices: candidates, ..self },
                ActionModel::Choose,
            )
        }
    }

    /// What the user's choice does: the chosen candidate is taken, or none.
    pub open spec fn on_choice(self, choice: Option<int>) -> (SessionModel<T>, ActionModel<T>) {
        let edit = match choice {
            Some(i) => if 0 <= i < self.choices.len() {
                self.edit.accept(self.start, self.choices[i].replacement)
            } else {
                self.edit
            },
            None => self.edit,
        };
        SessionModel { edit, start: 0, choices: Seq::empty(), ..self }.read_on(Display::Refresh)
    }

    /// The machine: the state after a report of the driver, and the action
    /// that the session asks for next.
    pub open spec fn step(self, signal: Signal<T>) -> (SessionModel<T>, ActionModel<T>) {
        match signal {
            Signal::Start(prompt) => if self.phase == Phase::Idle {
                (
                    SessionModel {
                        phase: Phase::Prompt,
                        prompt,
                        pending: Seq::empty(),
                        edit: self.edit.begin_read(),
                        saved: None,
                        outcome: None,
                        start: 0,
                        choices: Seq::empty(),
                    },
                    ActionModel::WritePrompt,
                )
            } else {
                self.reject()
            },
            Signal::PromptWritten => if self.phase == Phase::Prompt {
                (SessionModel { phase: Phase::Probe, ..self }, ActionModel::QueryTerminal)
            } else {
                self.reject()
            },
            Signal::Terminal(term, is_tty) => if self.phase == Phase::Probe {
                if unsupported_term(term) || !is_tty {
                    (SessionModel { phase: Phase::LineBuffered, ..self }, ActionModel::ReadLine)
                } else {
                    (SessionModel { phase: Phase::Entering, ..self }, ActionModel::EnterRawMode)
                }
            } else {
                self.reject()
            },
            Signal::RawMode(entered) => if self.phase == Phase::Entering {
                match entered {
                    Ok(snapshot) => SessionModel { saved: Some(snapshot), ..self }.read_on(
                        Display::Keep,
                    ),
                    Err(e) => self.finish(Err(e.read_error())),
                }
            } else {
                self.reject()
            },
            Signal::Byte(byte) => if self.phase == Phase::Raw {
                self.on_byte(byte)
            } else {
                self.reject()
            },
            Signal::EndOfInput => if self.phase == Phase::Raw {
                self.leave_raw(Err(ReadError::Eof))
            } else {
                self.reject()
            },
            Signal::Failed => if self.phase == Phase::Raw || self.phase == Phase::Choosing {
                self.leave_raw(Err(ReadError::IoFailure))
            } else if self.phase == Phase::Prompt || self.phase == Phase::LineBuffered {
                self.finish(Err(ReadError::IoFailure))
            } else {
                self.reject()
            },
            Signal::Verdict(verdict) => if self.phase == Phase::Validating {
                self.on_verdict(verdict)
            } else {
                self.reject()
            },
            Signal::Candidates(start, candidates) => if self.phase == Phase::Completing {
                self.on_candidates(start, candidates)
            } else {
                self.reject()
            },
            Signal::Choice(choice) => if self.phase == Phase::Choosing {
                self.on_choice(choice)
            } else {
                self.reject()
            },
            Signal::Line(line) => if self.phase == Phase::LineBuffered {
                self.finish(Ok(strip_newline(line)))
            } else {
                self.reject()
            },
            Signal::Restored(ok) => if self.phase == Phase::Restoring {
                self.finish(
                    if ok {
                        self.outcome->0
                    } else {
                        Err(ReadError::TermModeFailure)
                    },
                )
            } else {
                self.reject()
            },
        }
    }
}

/// What is shown of a session: the prompt, the line and the hint as the
/// highlighter wants them shown, the cursor, and the validator's verdict
/// where it judges while the user types.
#[derive(Clone, Debug)]
pub struct Frame {
    pub prompt: String,
    pub line: String,
    pub hint: Option<String>,
    /// The cursor, counted in scalar values of the text of the line.
    pub cursor: usize,
    pub verdict: Option<ValidationResult>,
}

/// `verdict` is what the helper's validator said of `text`.
pub open spec fn judged_by<H: Helper>(helper: &H, text: Seq<char>, verdict: ValidationResult) -> bool {
    exists|input: &str|
        input@ == text && #[trigger] call_ensures(H::validate, (helper, input), verdict)
}

/// `found` is what the helper's completer proposed for `text` with the
/// cursor at `pos`.
pub open spec fn proposed_by<H: Helper>(
    helper: &H,
    text: Seq<char>,
    pos: usize,
    found: (usize, Vec<Candidate>),
) -> bool {
    exists|line: &str|
        line@ == text && #[trigger] call_ensures(H::complete, (helper, line, pos), found)
}

/// `shown` is how the helper's highlighter shows the hint `hint`.
pub open spec fn hint_highlighted_by<H: Helper>(helper: &H, hint: Seq<char>, shown: String) -> bool {
    exists|text: &str|
        text@ == hint && #[trigger] call_ensures(H::highlight_hint, (helper, text), shown)
}

/// `shown` is how the helper's highlighter shows the hint `hint`; none where
/// there is no hint.
pub open spec fn hint_shown_by<H: Helper>(
    helper: &H,
    hint: Option<String>,
    shown: Option<String>,
) -> bool {
    match hint {
        None => shown is None,
        Some(hint) => shown is Some && hint_highlighted_by(helper, hint@, shown->0),
    }
}

/// `frame` is what the helper makes of the session's prompt and line: each
/// part of it is what the capability in charge returned for the prompt, for
/// the text of the line and for the cursor as they stand in the session.
pub open spec fn shown_by<T, H: Helper>(helper: &H, session: SessionModel<T>, frame: Frame) -> bool {
    &&& frame.cursor == session.edit.line.cursor
    &&& exists|prompt: &str|
        prompt@ == session.prompt && #[trigger] call_ensures(
            H::highlight_prompt,
            (helper, prompt),
            frame.prompt,
        )
    &&& exists|line: &str|
        line@ == session.edit.line.text && #[trigger] call_ensures(
            H::highlight,
            (helper, line, frame.cursor),
            frame.line,
        )
    &&& exists|line: &str, hint: Option<String>|
        line@ == session.edit.line.text && #[trigger] call_ensures(
            H::hint,
            (helper, line, frame.cursor),
            hint,
        ) && hint_shown_by(helper, hint, frame.hint)
    &&& exists|always: bool| #[trigger]
        call_ensures(H::validate_while_typing, (helper,), always) && if always {
            frame.verdict is Some && judged_by(helper, session.edit.line.text, frame.verdict->0)
        } else {
            frame.verdict is None
        }
}

/// The session: one value serves any number of reads, one after the other,
/// and keeps the history between them. `T` is the driver's snapshot of the
/// terminal's own mode; the session keeps it and hands it back unread.
pub struct Session<T> {
    phase: Phase,
    prompt: String,
    decoder: KeyDecoder,
    editor: Editor,
    saved: Option<T>,
    outcome: Option<Result<String, ReadError>>,
    start: usize,
    choices: Vec<Candidate>,
}

impl<T> View for Session<T> {
    type V = SessionModel<T>;

    closed spec fn view(&self) -> SessionModel<T> {
        SessionModel {
            phase: self.phase,
            prompt: self.prompt@,
            pending: self.decoder@,
            edit: self.editor@,
            saved: self.saved,
            outcome: match self.outcome {
                Some(Ok(text)) => Some(Ok(text@)),
                Some(Err(e)) => Some(Err(e)),
                None => None,
            },
            start: self.start as int,
            choices: candidate_models(self.choices@),
        }
    }
}

/// `line` without the newline that ends it.
pub fn without_newline(line: String) -> (stripped: String)
    ensures
        stripped@ == strip_newline(line@),
{
    let mut chars = chars_of_str(line.as_str());
    let n = chars.len();
    if n > 0 && chars[n - 1] == '\n' {
        chars.pop();
        string_of_chars(&chars)
    } else {
        line
    }
}

impl<T> Session<T> {
    /// The invariant of the type.
    pub open spec fn wf(&self) -> bool {
        self@.valid()
    }

    /// A session in which no read has begun, with an empty history.
    pub fn new() -> (session: Session<T>)
        ensures
            session.wf(),
            session@ == SessionModel::<T>::idle(),
    {
        let session = Session {
            phase: Phase::Idle,
            prompt: String::new(),
            decoder: KeyDecoder::new(),
            editor: Editor::new(),
            saved: None,
            outcome: None,
            start: 0,
            choices: Vec::new(),
        };
        assert(session@.choices =~= Seq::<CandidateModel>::empty());
        session
    }

    /// Where the session stands.
    pub fn phase(&self) -> (phase: Phase)
        ensures
            phase == self@.phase,
    {
        self.phase
    }

    /// The prompt of the read that is going on.
    pub fn prompt(&self) -> (prompt: &str)
        ensures
            prompt@ == self@.prompt,
    {
        self.prompt.as_str()
    }

    /// The line and the history.
    pub fn editor(&self) -> (editor: &Editor)
        ensures
            editor@ == self@.edit,
    {
        &self.editor
    }

    /// The candidates that the user is choosing among.
    pub fn choices(&self) -> (choices: &Vec<Candidate>)
        ensures
            candidate_models(choices@) == self@.choices,
    {
        &self.choices
    }

    fn drop_choices(&mut self)
        ensures
            final(self)@ == (SessionModel { start: 0, choices: Seq::empty(), ..old(self)@ }),
    {
        self.choices = Vec::new();
        self.start = 0;
        assert(self@.choices =~= Seq::<CandidateModel>::empty());
    }

    fn leave_raw(&mut self, outcome: Result<String, ReadError>) -> (action: Action<T>)
        requires
            old(self).wf(),
            old(self)@.phase.is_raw(),
        ensures
            final(self).wf(),
            (final(self)@, action@) == old(self)@.leave_raw(
                match outcome {
                    Ok(text) => Ok(text@),
                    Err(e) => Err(e),
                },
            ),
    {
        self.phase = Phase::Restoring;
        self.outcome = Some(outcome);
        match self.saved.take() {
            Some(snapshot) => Action::Restore(snapshot),
            // Not reached: in every raw phase the session holds a snapshot.
            None => Action::Rejected,
        }
    }

    fn finish(&mut self, result: Result<String, ReadError>) -> (action: Action<T>)
        requires
            old(self)@.edit.valid(),
            pending_valid(old(self)@.pending),
            old(self)@.saved is None,
        ensures
            final(self).wf(),
            (final(self)@, action@) == old(self)@.finish(
                match result {
                    Ok(text) => Ok(text@),
                    Err(e) => Err(e),
                },
            ),
    {
        self.phase = Phase::Idle;
        self.outcome = None;
        Action::Finish(result)
    }

    /// Begins a read with the given prompt.
    pub fn start(&mut self, prompt: &str) -> (action: Action<T>)
        requires
            old(self).wf(),
        ensures
            final(self).wf(),
            (final(self)@, action@) == old(self)@.step(Signal::Start(prompt@)),
    {
        if self.phase != Phase::Idle {
            return Action::Rejected;
        }
        self.phase = Phase::Prompt;
        self.prompt = prompt.to_owned();
        self.decoder.reset();
        self.editor.begin_read();
        self.drop_choices();
        Action::WritePrompt
    }

    /// The prompt is written.
    pub fn prompt_written(&mut self) -> (action: Action<T>)
        requires
            old(self).wf(),
        ensures
            final(self).wf(),
            (final(self)@, action@) == old(self)@.step(Signal::PromptWritten),
    {
        if self.phase != Phase::Prompt {
            return Action::Rejected;
        }
        self.phase = Phase::Probe;
        Action::QueryTerminal
    }

    /// The terminal's type is `term`, and `is_tty` says whether standard
    /// input is an interactive device.
    pub fn terminal_probed(&mut self, term: &str, is_tty: bool) -> (action: Action<T>)
        requires
            old(self).wf(),
        ensures
            final(self).wf(),
            (final(self)@, action@) == old(self)@.step(Signal::Terminal(term@, is_tty)),
    {
        if self.phase != Phase::Probe {
            return Action::Rejected;
        }
        if is_unsupported_term(term) || !is_tty {
            self.phase = Phase::LineBuffered;
            Action::ReadLine
        } else {
            self.phase = Phase::Entering;
            Action::EnterRawMode
        }
    }

    /// Raw mode is on, and this is the snapshot of the terminal's own mode;
    /// or it could not be entered.
    pub fn raw_mode_entered(&mut self, entered: Result<T, TermError>) -> (action: Action<T>)
        requires
            old(self).wf(),
        ensures
            final(self).wf(),
            (final(self)@, action@) == old(self)@.step(Signal::RawMode(entered)),
    {
        if self.phase != Phase::Entering {
            return Action::Rejected;
        }
        match entered {
            Ok(snapshot) => {
                self.saved = Some(snapshot);
                self.phase = Phase::Raw;
                Action::ReadByte(Display::Keep)
            },
            Err(e) => self.finish(Err(e.to_read_error())),
        }
    }

    /// The next byte of the input is `byte`.
    pub fn byte_read(&mut self, byte: u8) -> (action: Action<T>)
        requires
            old(self).wf(),
        ensures
            final(self).wf(),
            (final(self)@, action@) == old(self)@.step(Signal::Byte(byte)),
    {
        if self.phase != Phase::Raw {
            return Action::Rejected;
        }
        let empty = self.editor.buffer().is_empty();
        match self.decoder.feed(byte, empty) {
            Decoded::Event(event) => {
                match self.editor.handle(event) {
                    Reaction::Redraw => Action::ReadByte(Display::Refresh),
                    Reaction::ClearScreen => Action::ReadByte(Display::Clear),
                    Reaction::Validate => {
                        self.phase = Phase::Validating;
                        Action::Validate
                    },
                    Reaction::Complete => {
                        self.phase = Phase::Completing;
                        Action::Complete
                    },
                    Reaction::Interrupted => self.leave_raw(Err(ReadError::Interrupted)),
                    Reaction::EndOfFile => self.leave_raw(Err(ReadError::Eof)),
                }
            },
            _ => Action::ReadByte(Display::Keep),
        }
    }

    /// The input has ended.
    pub fn end_of_input(&mut self) -> (action: Action<T>)
        requires
            old(self).wf(),
        ensures
            final(self).wf(),
            (final(self)@, action@) == old(self)@.step(Signal::EndOfInput),
    {
        if self.phase != Phase::Raw {
            return Action::Rejected;
        }
        self.leave_raw(Err(ReadError::Eof))
    }

    /// Reading or writing failed.
    pub fn io_failed(&mut self) -> (action: Action<T>)
        requires
            old(self).wf(),
        ensures
            final(self).wf(),
            (final(self)@, action@) == old(self)@.step(Signal::Failed),
    {
        if self.phase == Phase::Raw || self.phase == Phase::Choosing {
            self.leave_raw(Err(ReadError::IoFailure))
        } else if self.phase == Phase::Prompt || self.phase == Phase::LineBuffered {
            self.finish(Err(ReadError::IoFailure))
        } else {
            Action::Rejected
        }
    }

    /// The validator's verdict on the line is `verdict`.
    pub fn verdict(&mut self, verdict: ValidationResult) -> (action: Action<T>)
        requires
            old(self).wf(),
        ensures
            final(self).wf(),
            (final(self)@, action@) == old(self)@.step(Signal::Verdict(verdict)),
    {
        if self.phase != Phase::Validating {
            return Action::Rejected;
        }
        match self.editor.submit(verdict) {
            Some(text) => self.leave_raw(Ok(text)),
            None => {
                self.phase = Phase::Raw;
                if verdict == ValidationResult::Incomplete {
                    Action::ReadByte(Display::Refresh)
                } else {
                    Action::ReadByte(Display::Keep)
                }
            },
        }
    }

    /// The completer proposes `candidates`, each to replace the line from
    /// `start` to the cursor.
    pub fn candidates(&mut self, start: usize, candidates: Vec<Candidate>) -> (action: Action<T>)
        requires
            old(self).wf(),
        ensures
            final(self).wf(),
            (final(self)@, action@) == old(self)@.step(
                Signal::Candidates(start as int, candidate_models(candidates@)),
            ),
    {
        if self.phase != Phase::Completing {
            return Action::Rejected;
        }
        if candidates.len() == 0 {
            self.phase = Phase::Raw;
            Action::ReadByte(Display::Keep)
        } else if candidates.len() == 1 {
            self.editor.accept(start, candidates[0].replacement.as_str());
            self.phase = Phase::Raw;
            Action::ReadByte(Display::Refresh)
        } else {
            self.phase = Phase::Choosing;
            self.start = start;
            self.choices = candidates;
            Action::Choose
        }
    }

    /// The user took the choice with the given number, or none.
    pub fn choice(&mut self, choice: Option<usize>) -> (action: Action<T>)
        requires
            old(self).wf(),
        ensures
            final(self).wf(),
            (final(self)@, action@) == old(self)@.step(
                Signal::Choice(
                    match choice {
                        Some(i) => Some(i as int),
                        None => None,
                    },
                ),
            ),
    {
        if self.phase != Phase::Choosing {
            return Action::Rejected;
        }
        match choice {
            Some(i) => {
                if i < self.choices.len() {
                    self.editor.accept(self.start, self.choices[i].replacement.as_str());
                }
            },
            None => {},
        }
        self.drop_choices();
        self.phase = Phase::Raw;
        Action::ReadByte(Display::Refresh)
    }

    /// The line `line` was read, with the newline that ended it.
    pub fn line_read(&mut self, line: String) -> (action: Action<T>)
        requires
            old(self).wf(),
        ensures
            final(self).wf(),
            (final(self)@, action@) == old(self)@.step(Signal::Line(line@)),
    {
        if self.phase != Phase::LineBuffered {
            return Action::Rejected;
        }
        let stripped = without_newline(line);
        self.finish(Ok(stripped))
    }

    /// The terminal's own mode is restored, or could not be.
    pub fn restored(&mut self, ok: bool) -> (action: Action<T>)
        requires
            old(self).wf(),
        ensures
            final(self).wf(),
            (final(self)@, action@) == old(self)@.step(Signal::Restored(ok)),
    {
        if self.phase != Phase::Restoring {
            return Action::Rejected;
        }
        let outcome = self.outcome.take();
        match outcome {
            Some(result) => {
                if ok {
                    self.finish(result)
                } else {
                    self.finish(Err(ReadError::TermModeFailure))
                }
            },
            // Not reached: while restoring the session holds the result.
            None => Action::Rejected,
        }
    }

    /// Answers what the session asks of the capability ports: a request
    /// for a verdict with the verdict of the helper's validator on the text
    /// of the line, a request for candidates with those of its completer for
    /// the text and the cursor. Any other action is handed back as it is.
    pub fn consult<H: Helper>(&mut self, action: Action<T>, helper: &H) -> (next: Action<T>)
        requires
            old(self).wf(),
        ensures
            final(self).wf(),
            action@ is Validate ==> exists|verdict: ValidationResult|
                judged_by(helper, old(self)@.edit.line.text, verdict) && (final(self)@, next@)
                    == #[trigger] old(self)@.step(Signal::Verdict(verdict)),
            action@ is Complete ==> exists|found: (usize, Vec<Candidate>)|
                proposed_by(
                    helper,
                    old(self)@.edit.line.text,
                    old(self)@.edit.line.cursor as usize,
                    found,
                ) && (final(self)@, next@) == #[trigger] old(self)@.step(
                    Signal::Candidates(found.0 as int, candidate_models(found.1@)),
                ),
            !(action@ is Validate) && !(action@ is Complete) ==> final(self)@ == old(self)@
                && next@ == action@,
    {
        match action {
            Action::Validate => {
                let text = self.editor.text();
                let input = text.as_str();
                let verdict = helper.validate(input);
                assert(judged_by(helper, old(self)@.edit.line.text, verdict)) by {
                    assert(call_ensures(H::validate, (helper, input), verdict));
                }
                self.verdict(verdict)
            },
            Action::Complete => {
                let text = self.editor.text();
                let line = text.as_str();
                let pos = self.editor.cursor();
                let found = helper.complete(line, pos);
                let ghost proposal = found;
                assert(proposed_by(helper, old(self)@.edit.line.text, pos, proposal)) by {
                    assert(call_ensures(H::complete, (helper, line, pos), proposal));
                }
                let next = self.candidates(found.0, found.1);
                assert((self@, next@) == old(self)@.step(
                    Signal::Candidates(proposal.0 as int, candidate_models(proposal.1@)),
                ));
                next
            },
            other => other,
        }
    }

    /// What is to be shown of the session, as the helper wants it shown.
    /// The validator is asked where it judges while the user types, so that
    /// a driver which shows a frame after every change has the input judged
    /// after every change.
    pub fn frame<H: Helper>(&self, helper: &H) -> (frame: Frame)
        ensures
            shown_by(helper, self@, frame),
    {
        let text = self.editor.text();
        let line = text.as_str();
        let cursor = self.editor.cursor();
        let found = helper.hint(line, cursor);
        let ghost raw = found;
        let hint = match found {
            Some(hint) => {
                let plain = hint.as_str();
                let shown = helper.highlight_hint(plain);
                proof {
                    assert(plain@ == raw->0@);
                    assert(call_ensures(H::highlight_hint, (helper, plain), shown));
                    assert(hint_highlighted_by(helper, raw->0@, shown));
                }
                Some(shown)
            },
            None => None,
        };
        assert(hint_shown_by(helper, raw, hint));
        let always = helper.validate_while_typing();
        let verdict = if always {
            let verdict = helper.validate(line);
            assert(call_ensures(H::validate, (helper, line), verdict));
            Some(verdict)
        } else {
            None
        };
        let prompt = self.prompt.as_str();
        let frame = Frame {
            prompt: helper.highlight_prompt(prompt),
            line: helper.highlight(line, cursor),
            hint,
            cursor,
            verdict,
        };
        assert(call_ensures(H::highlight_prompt, (helper, prompt), frame.prompt));
        assert(call_ensures(H::highlight, (helper, line, frame.cursor), frame.line));
        assert(call_ensures(H::hint, (helper, line, frame.cursor), raw));
        assert(call_ensures(H::validate_while_typing, (helper,), always));
        frame
    }
}

impl<T> SessionModel<T> {
    /// The states and actions of a run: the state after the last of
    /// `signals`, and the action that each signal was answered with.
    pub open spec fn run(self, signals: Seq<Signal<T>>) -> (SessionModel<T>, Seq<ActionModel<T>>)
        decreases signals.len(),
    {
        if signals.len() == 0 {
            (self, Seq::empty())
        } else {
            let (next, action) = self.step(signals[0]);
            let (last, actions) = next.run(signals.drop_first());
            (last, seq![action] + actions)
        }
    }

    /// How often raw mode is entered in a run: the number of signals that
    /// report raw mode on to a session that asked for it.
    pub open spec fn entries(self, signals: Seq<Signal<T>>) -> nat
        decreases signals.len(),
    {
        if signals.len() == 0 {
            0
        } else {
            let entered: nat = if self.phase == Phase::Entering && signals[0] is RawMode
                && signals[0]->RawMode_0 is Ok {
                1
            } else {
                0
            };
            entered + self.step(signals[0]).0.entries(signals.drop_first())
        }
    }

    /// 1 while the session holds a snapshot, else 0.
    pub open spec fn held(self) -> nat {
        if self.saved is Some {
            1
        } else {
            0
        }
    }
}

/// How many of the actions hand a snapshot out for restoring.
pub open spec fn restores<T>(actions: Seq<ActionModel<T>>) -> nat
    decreases actions.len(),
{
    if actions.len() == 0 {
        0
    } else {
        let first: nat = if actions[0] is Restore {
            1
        } else {
            0
        };
        first + restores(actions.drop_first())
    }
}

/// Every report leaves the session in a valid state.
pub proof fn lemma_step_keeps_valid<T>(s: SessionModel<T>, signal: Signal<T>)
    requires
        s.valid(),
    ensures
        s.step(signal).0.valid(),
{
    match signal {
        Signal::Byte(byte) => {
            let empty = s.edit.line.text.len() == 0;
            lemma_decode_step_keeps_valid(s.pending, byte, empty);
            match decode_step(s.pending, byte, empty).1 {
                Decoded::Event(event) => {
                    lemma_apply_keeps_valid(s.edit, event);
                },
                _ => {},
            }
        },
        Signal::Verdict(verdict) => {
            lemma_submit_keeps_valid(s.edit, verdict);
        },
        _ => {},
    }
}

/// The snapshot is handed back as it was taken, when raw mode is left and
/// at no other time: a restoring action carries the snapshot that the
/// session held and leaves the session without one; a session that loses
/// its snapshot asks for restoring with it; a snapshot that the session
/// holds is the one it held before, or the one that was just reported; and
/// no read ends while the session holds one.
pub proof fn lemma_snapshot_discipline<T>(s: SessionModel<T>, signal: Signal<T>)
    requires
        s.valid(),
    ensures
        ({
            let (next, action) = s.step(signal);
            &&& action is Restore ==> s.saved == Some(action->Restore_0) && next.saved is None
                && next.phase == Phase::Restoring
            &&& s.saved is Some && next.saved is None ==> action == ActionModel::Restore(
                s.saved->0,
            )
            &&& next.saved is Some ==> next.saved == s.saved || (s.phase == Phase::Entering
                && signal == Signal::RawMode(Ok::<T, TermError>(next.saved->0)))
            &&& action is Finish ==> next.saved is None && next.phase == Phase::Idle
        }),
{
}

/// Restoring is asked for exactly once for each time that raw mode is
/// entered, whatever the driver reports and on every way out: in every run
/// the restoring actions, and the snapshot that the session holds at the
/// end, are as many as the entries into raw mode and the snapshot held at
/// the start.
pub proof fn lemma_restores_match_entries<T>(s: SessionModel<T>, signals: Seq<Signal<T>>)
    requires
        s.valid(),
    ensures
        restores(s.run(signals).1) + s.run(signals).0.held() == s.entries(signals) + s.held(),
        s.run(signals).0.valid(),
        s.run(signals).1.len() == signals.len(),
    decreases signals.len(),
{
    if signals.len() > 0 {
        let (next, action) = s.step(signals[0]);
        lemma_step_keeps_valid(s, signals[0]);
        lemma_snapshot_discipline(s, signals[0]);
        lemma_restores_match_entries(next, signals.drop_first());
        let actions = next.run(signals.drop_first()).1;
        assert((seq![action] + actions).drop_first() =~= actions);
    }
}

/// A read that begins and ends with the session idle asks for restoring
/// as often as it entered raw mode.
pub proof fn lemma_whole_read_restores_once<T>(s: SessionModel<T>, signals: Seq<Signal<T>>)
    requires
        s.valid(),
        s.phase == Phase::Idle,
        s.run(signals).0.phase == Phase::Idle,
    ensures
        restores(s.run(signals).1) == s.entries(signals),
{
    lemma_restores_match_entries(s, signals);
}

/// The interrupt byte ends a raw read at any point: whatever the line and
/// the key decoder hold, the session asks at once for restoring with the
/// snapshot it holds, without asking the validator and without touching the
/// line or the history; and once restoring is reported, the read ends with
/// `Interrupted`.
pub proof fn lemma_interrupt_ends_read<T>(s: SessionModel<T>)
    requires
        s.valid(),
        s.phase == Phase::Raw,
    ensures
        ({
            let (next, action) = s.step(Signal::Byte(3));
            &&& action == ActionModel::Restore(s.saved->0)
            &&& next == (SessionModel {
                phase: Phase::Restoring,
                pending: Seq::empty(),
                saved: None,
                outcome: Some(Err(ReadError::Interrupted)),
                ..s
            })
            &&& next.step(Signal::Restored(true)).1 == ActionModel::<T>::Finish(
                Err(ReadError::Interrupted),
            )
            &&& next.step(Signal::Restored(true)).0.phase == Phase::Idle
            &&& next.step(Signal::Restored(false)).1 == ActionModel::<T>::Finish(
                Err(ReadError::TermModeFailure),
            )
        }),
{
    lemma_command_byte_preempts(s.pending, 3, s.edit.line.text.len() == 0);
}

/// A terminal of an unsupported type, or an input that is no interactive
/// device, is read line by line: the session asks for one line and returns
/// it without its newline. It never asks for raw mode, for a byte or for a
/// capability, and the line, the history and the key decoder stay as they
/// are.
pub proof fn lemma_fallback_reads_line<T>(
    s: SessionModel<T>,
    term: Seq<char>,
    is_tty: bool,
    line: Seq<char>,
)
    requires
        s.valid(),
        s.phase == Phase::Probe,
        unsupported_term(term) || !is_tty,
    ensures
        ({
            let (reading, first) = s.step(Signal::Terminal(term, is_tty));
            let (done, second) = reading.step(Signal::Line(line));
            &&& first == ActionModel::<T>::ReadLine
            &&& reading == (SessionModel { phase: Phase::LineBuffered, ..s })
            &&& second == ActionModel::<T>::Finish(Ok(strip_newline(line)))
            &&& done == (SessionModel { phase: Phase::Idle, ..s })
        }),
{
}

/// While a line is read from a terminal in its own mode, the session
/// accepts only that line or the failure to read it; every other report is
/// rejected and changes nothing.
pub proof fn lemma_fallback_accepts_line_only<T>(s: SessionModel<T>, signal: Signal<T>)
    requires
        s.valid(),
        s.phase == Phase::LineBuffered,
    ensures
        ({
            let (next, action) = s.step(signal);
            &&& action is Finish || action is Rejected
            &&& action is Rejected ==> next == s
            &&& next.edit == s.edit && next.pending == s.pending
        }),
{
}

/// A valid verdict ends the read with the text of the line: the session
/// asks for restoring, and once that is reported the read returns the text
/// as it stood, which is then the newest line of the history.
pub proof fn lemma_valid_line_is_returned<T>(s: SessionModel<T>)
    requires
        s.valid(),
        s.phase == Phase::Validating,
    ensures
        ({
            let (next, action) = s.step(Signal::Verdict(ValidationResult::Valid));
            &&& action == ActionModel::Restore(s.saved->0)
            &&& next.edit.past.entries == s.edit.past.entries.push(s.edit.line.text)
            &&& next.step(Signal::Restored(true)).1 == ActionModel::<T>::Finish(
                Ok(s.edit.line.text),
            )
        }),
{
}

/// An incomplete line keeps the read open with a newline at the end of
/// the line; an invalid line keeps it open and changes nothing.
pub proof fn lemma_refused_line_stays_open<T>(s: SessionModel<T>)
    requires
        s.valid(),
        s.phase == Phase::Validating,
    ensures
        ({
            let (next, action) = s.step(Signal::Verdict(ValidationResult::Incomplete));
            &&& action == ActionModel::<T>::ReadByte(Display::Refresh)
            &&& next.phase == Phase::Raw
            &&& next.edit.line == Line::at_end_of(
                s.edit.line.text.push('\n'),
            )
            &&& next.saved == s.saved
        }),
        s.step(Signal::Verdict(ValidationResult::Invalid)) == (
            SessionModel { phase: Phase::Raw, ..s },
            ActionModel::<T>::ReadByte(Display::Keep),
        ),
{
    lemma_refused_submit(s.edit);
}

/// The history grows by the line that a valid verdict accepts, at its end,
/// and changes at no other time; and every read begins with the history
/// cursor live and with an empty line.
pub proof fn lemma_history_is_append_only<T>(s: SessionModel<T>, signal: Signal<T>)
    requires
        s.valid(),
    ensures
        ({
            let next = s.step(signal).0;
            let accepted = s.phase == Phase::Validating && signal == Signal::<T>::Verdict(
                ValidationResult::Valid,
            );
            &&& accepted ==> next.edit.past.entries == s.edit.past.entries.push(s.edit.line.text)
            &&& !accepted ==> next.edit.past.entries == s.edit.past.entries
            &&& s.phase == Phase::Idle && signal is Start ==> next.edit.past.at_live()
                && next.edit.line == Line::empty()
        }),
{
}

/// The reports of the bytes `bytes`, one after the other.
pub open spec fn byte_signals<T>(bytes: Seq<u8>) -> Seq<Signal<T>> {
    Seq::new(bytes.len(), |i: int| Signal::Byte(bytes[i]))
}

/// The line after `typed` was typed at the cursor.
pub open spec fn line_with(line: Line, typed: Seq<char>) -> Line {
    Line {
        text: line.text.take(line.cursor) + typed + line.text.skip(line.cursor),
        cursor: line.cursor + typed.len(),
    }
}

/// A run of two sequences of reports is the run of the first, followed by
/// the run of the second from where the first ended.
pub proof fn lemma_run_continues<T>(s: SessionModel<T>, first: Seq<Signal<T>>, second: Seq<Signal<T>>)
    ensures
        s.run(first + second).0 == s.run(first).0.run(second).0,
        s.run(first + second).1 == s.run(first).1 + s.run(first).0.run(second).1,
    decreases first.len(),
{
    if first.len() == 0 {
        assert(first + second =~= second);
        assert(s.run(first).1 + s.run(second).1 =~= s.run(second).1);
    } else {
        let next = s.step(first[0]).0;
        assert((first + second).drop_first() =~= first.drop_first() + second);
        lemma_run_continues(next, first.drop_first(), second);
        assert(seq![s.step(first[0]).1] + (next.run(first.drop_first()).1 + next.run(
            first.drop_first(),
        ).0.run(second).1) =~= (seq![s.step(first[0]).1] + next.run(first.drop_first()).1)
            + next.run(first.drop_first()).0.run(second).1);
    }
}

proof fn lemma_typing_begun<T>(s: SessionModel<T>, c: char, k: int)
    requires
        s.valid(),
        s.phase == Phase::Raw,
        s.pending.len() == 0,
        is_text(c),
        0 <= k < encoding(c).len(),
    ensures
        s.run(byte_signals(encoding(c).take(k))).0 == (SessionModel {
            pending: encoding(c).take(k),
            ..s
        }),
    decreases k,
{
    let e = encoding(c);
    if k == 0 {
        assert(byte_signals::<T>(e.take(0)) =~= Seq::<Signal<T>>::empty());
        assert(e.take(0) =~= s.pending);
    } else {
        lemma_typing_begun(s, c, k - 1);
        let before = s.run(byte_signals(e.take(k - 1))).0;
        lemma_decoder_reads_text(c, k - 1, s.edit.line.text.len() == 0);
        let last = seq![Signal::<T>::Byte(e[k - 1])];
        assert(byte_signals::<T>(e.take(k)) =~= byte_signals::<T>(e.take(k - 1)) + last);
        lemma_run_continues(s, byte_signals(e.take(k - 1)), last);
        reveal_with_fuel(SessionModel::run, 2);
        assert(last.drop_first() =~= Seq::<Signal<T>>::empty());
    }
}

/// A scalar value that is text, typed into a session that reads raw and
/// whose decoder holds nothing, is inserted at the cursor, and nothing else
/// changes.
pub proof fn lemma_typed_char_is_inserted<T>(s: SessionModel<T>, c: char)
    requires
        s.valid(),
        s.phase == Phase::Raw,
        s.pending.len() == 0,
        is_text(c),
    ensures
        s.run(byte_signals(encoding(c))).0 == (SessionModel {
            edit: s.edit.edit(Edit::Insert(c)),
            ..s
        }),
{
    let e = encoding(c);
    lemma_encoding_is_complete(c);
    let k = e.len() - 1;
    lemma_typing_begun(s, c, k);
    lemma_decoder_reads_text(c, k, s.edit.line.text.len() == 0);
    let last = seq![Signal::<T>::Byte(e[k])];
    assert(byte_signals::<T>(e) =~= byte_signals::<T>(e.take(k)) + last);
    lemma_run_continues(s, byte_signals(e.take(k)), last);
    reveal_with_fuel(SessionModel::run, 2);
    assert(last.drop_first() =~= Seq::<Signal<T>>::empty());
    assert(s.pending =~= Seq::<u8>::empty());
}

/// Text that is typed into a session that reads raw and whose decoder holds
/// nothing is inserted at the cursor, scalar value by scalar value, and
/// nothing else changes.
pub proof fn lemma_typed_text_is_inserted<T>(s: SessionModel<T>, text: Seq<char>)
    requires
        s.valid(),
        s.phase == Phase::Raw,
        s.pending.len() == 0,
        forall|i: int| 0 <= i < text.len() ==> is_text(#[trigger] text[i]),
    ensures
        s.run(byte_signals(encode_utf8(text))).0 == (SessionModel {
            edit: EditModel { line: line_with(s.edit.line, text), ..s.edit },
            ..s
        }),
    decreases text.len(),
{
    if text.len() == 0 {
        assert(byte_signals::<T>(encode_utf8(text)) =~= Seq::<Signal<T>>::empty());
        assert(line_with(s.edit.line, text).text =~= s.edit.line.text);
    } else {
        let c = text[0];
        let rest = text.drop_first();
        let first = encoding(c);
        let others = encode_utf8(rest);
        assert(byte_signals::<T>(encode_utf8(text)) =~= byte_signals::<T>(first)
            + byte_signals::<T>(others));
        lemma_run_continues(s, byte_signals(first), byte_signals(others));
        lemma_typed_char_is_inserted(s, c);
        let next = s.run(byte_signals(first)).0;
        lemma_edit_keeps_cursor_in_bounds(
            s.edit.line,
            Edit::Insert(c),
        );
        lemma_typed_text_is_inserted(next, rest);
        assert(line_with(next.edit.line, rest).text =~= line_with(s.edit.line, text).text);
    }
}

/// What is typed is what is returned: where text is typed into an empty
/// line and submitted, the validator is asked; and where it accepts, the
/// session asks for restoring with the snapshot it holds, and once that is
/// reported the read returns the text as it was typed.
pub proof fn lemma_typed_line_is_returned<T>(s: SessionModel<T>, text: Seq<char>)
    requires
        s.valid(),
        s.phase == Phase::Raw,
        s.pending.len() == 0,
        s.edit.line == Line::empty(),
        forall|i: int| 0 <= i < text.len() ==> is_text(#[trigger] text[i]),
    ensures
        ({
            let typed = s.run(byte_signals(encode_utf8(text))).0;
            let (asked, first) = typed.step(Signal::Byte(13));
            let (leaving, second) = asked.step(Signal::Verdict(ValidationResult::Valid));
            let (done, third) = leaving.step(Signal::Restored(true));
            &&& typed.edit.line == Line::at_end_of(text)
            &&& first == ActionModel::<T>::Validate
            &&& second == ActionModel::Restore(s.saved->0)
            &&& third == ActionModel::<T>::Finish(Ok(text))
            &&& done.phase == Phase::Idle
            &&& done.edit.past.entries == s.edit.past.entries.push(text)
        }),
{
    lemma_typed_text_is_inserted(s, text);
    let typed = s.run(byte_signals(encode_utf8(text))).0;
    assert(line_with(s.edit.line, text).text =~= text);
    lemma_command_byte_preempts(typed.pending, 13, typed.edit.line.text.len() == 0);
}

} // verus!

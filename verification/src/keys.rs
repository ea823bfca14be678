//! The logical events of editing and the fixed table that maps control
//! bytes to commands.

use vstd::prelude::*;

verus! {

/// The escape byte, which starts a multi-byte escape sequence.
pub const ESC: u8 = 27;

/// The commands that a single control byte stands for.
#[derive(Clone, Copy, Debug, PartialEq, Eq, Structural)]
pub enum ControlCommand {
    MoveStart,
    MoveEnd,
    MoveBack,
    MoveForward,
    DeleteBack,
    DeleteForward,
    KillToEnd,
    KillWholeLine,
    KillPrevWord,
    Transpose,
    ClearScreen,
    Interrupt,
    Submit,
    Complete,
    HistoryPrev,
    HistoryNext,
}

/// The keys that arrive as an escape sequence.
#[derive(Clone, Copy, Debug, PartialEq, Eq, Structural)]
pub enum EscapeSequence {
    Up,
    Down,
    Right,
    Left,
    Home,
    End,
    Delete,
}

/// One decoded keystroke.
#[derive(Clone, Copy, Debug, PartialEq, Eq, Structural)]
pub enum KeyEvent {
    Printable(char),
    Control(ControlCommand),
    Escape(EscapeSequence),
    Eof,
}

/// The command table: which command a byte stands for, if any.
pub open spec fn command_of_byte(byte: u8) -> Option<ControlCommand> {
    if byte == 1 {
        Some(ControlCommand::MoveStart)
    } else if byte == 2 {
        Some(ControlCommand::MoveBack)
    } else if byte == 3 {
        Some(ControlCommand::Interrupt)
    } else if byte == 4 {
        Some(ControlCommand::DeleteForward)
    } else if byte == 5 {
        Some(ControlCommand::MoveEnd)
    } else if byte == 6 {
        Some(ControlCommand::MoveForward)
    } else if byte == 8 || byte == 127 {
        Some(ControlCommand::DeleteBack)
    } else if byte == 9 {
        Some(ControlCommand::Complete)
    } else if byte == 11 {
        Some(ControlCommand::KillToEnd)
    } else if byte == 12 {
        Some(ControlCommand::ClearScreen)
    } else if byte == 13 {
        Some(ControlCommand::Submit)
    } else if byte == 14 {
        Some(ControlCommand::HistoryNext)
    } else if byte == 16 {
        Some(ControlCommand::HistoryPrev)
    } else if byte == 20 {
        Some(ControlCommand::Transpose)
    } else if byte == 21 {
        Some(ControlCommand::KillWholeLine)
    } else if byte == 23 {
        Some(ControlCommand::KillPrevWord)
    } else {
        None
    }
}

/// Looks a byte up in the command table.
pub fn control_command(byte: u8) -> (cmd: Option<ControlCommand>)
    ensures
        cmd == command_of_byte(byte),
{
    if byte == 1 {
        Some(ControlCommand::MoveStart)
    } else if byte == 2 {
        Some(ControlCommand::MoveBack)
    } else if byte == 3 {
        Some(ControlCommand::Interrupt)
    } else if byte == 4 {
        Some(ControlCommand::DeleteForward)
    } else if byte == 5 {
        Some(ControlCommand::MoveEnd)
    } else if byte == 6 {
        Some(ControlCommand::MoveForward)
    } else if byte == 8 || byte == 127 {
        Some(ControlCommand::DeleteBack)
    } else if byte == 9 {
        Some(ControlCommand::Complete)
    } else if byte == 11 {
        Some(ControlCommand::KillToEnd)
    } else if byte == 12 {
        Some(ControlCommand::ClearScreen)
    } else if byte == 13 {
        Some(ControlCommand::Submit)
    } else if byte == 14 {
        Some(ControlCommand::HistoryNext)
    } else if byte == 16 {
        Some(ControlCommand::HistoryPrev)
    } else if byte == 20 {
        Some(ControlCommand::Transpose)
    } else if byte == 21 {
        Some(ControlCommand::KillWholeLine)
    } else if byte == 23 {
        Some(ControlCommand::KillPrevWord)
    } else {
        None
    }
}

impl ControlCommand {
    /// The byte that a terminal sends for the command (for `DeleteBack`,
    /// which two bytes stand for, the lower one).
    pub open spec fn code(self) -> u8 {
        match self {
            ControlCommand::MoveStart => 1,
            ControlCommand::MoveBack => 2,
            ControlCommand::Interrupt => 3,
            ControlCommand::DeleteForward => 4,
            ControlCommand::MoveEnd => 5,
            ControlCommand::MoveForward => 6,
            ControlCommand::DeleteBack => 8,
            ControlCommand::Complete => 9,
            ControlCommand::KillToEnd => 11,
            ControlCommand::ClearScreen => 12,
            ControlCommand::Submit => 13,
            ControlCommand::HistoryNext => 14,
            ControlCommand::HistoryPrev => 16,
            ControlCommand::Transpose => 20,
            ControlCommand::KillWholeLine => 21,
            ControlCommand::KillPrevWord => 23,
        }
    }

    /// The byte that a terminal sends for the command.
    pub fn byte(self) -> (b: u8)
        ensures
            b == self.code(),
            command_of_byte(b) == Some(self),
    {
        match self {
            ControlCommand::MoveStart => 1,
            ControlCommand::MoveBack => 2,
            ControlCommand::Interrupt => 3,
            ControlCommand::DeleteForward => 4,
            ControlCommand::MoveEnd => 5,
            ControlCommand::MoveForward => 6,
            ControlCommand::DeleteBack => 8,
            ControlCommand::Complete => 9,
            ControlCommand::KillToEnd => 11,
            ControlCommand::ClearScreen => 12,
            ControlCommand::Submit => 13,
            ControlCommand::HistoryNext => 14,
            ControlCommand::HistoryPrev => 16,
            ControlCommand::Transpose => 20,
            ControlCommand::KillWholeLine => 21,
            ControlCommand::KillPrevWord => 23,
        }
    }
}

impl EscapeSequence {
    /// The command that the key carries out.
    pub open spec fn command_spec(self) -> ControlCommand {
        match self {
            EscapeSequence::Up => ControlCommand::HistoryPrev,
            EscapeSequence::Down => ControlCommand::HistoryNext,
            EscapeSequence::Right => ControlCommand::MoveForward,
            EscapeSequence::Left => ControlCommand::MoveBack,
            EscapeSequence::Home => ControlCommand::MoveStart,
            EscapeSequence::End => ControlCommand::MoveEnd,
            EscapeSequence::Delete => ControlCommand::DeleteForward,
        }
    }

    /// The command that the key carries out.
    pub fn command(self) -> (cmd: ControlCommand)
        ensures
            cmd == self.command_spec(),
    {
        match self {
            EscapeSequence::Up => ControlCommand::HistoryPrev,
            EscapeSequence::Down => ControlCommand::HistoryNext,
            EscapeSequence::Right => ControlCommand::MoveForward,
            EscapeSequence::Left => ControlCommand::MoveBack,
            EscapeSequence::Home => ControlCommand::MoveStart,
            EscapeSequence::End => ControlCommand::MoveEnd,
            EscapeSequence::Delete => ControlCommand::DeleteForward,
        }
    }
}

/// Every command has a byte of its own in the table: looking up the byte of
/// a command gives the command back.
pub proof fn lemma_command_has_its_byte(cmd: ControlCommand)
    ensures
        command_of_byte(cmd.code()) == Some(cmd),
{
}

/// No byte stands for two commands, and only `DeleteBack` has a second byte:
/// a byte that the table maps to a command is that command's own byte, or it
/// is 127 and the command is `DeleteBack`.
pub proof fn lemma_command_bytes_are_distinct(byte: u8, cmd: ControlCommand)
    requires
        command_of_byte(byte) == Some(cmd),
    ensures
        byte == cmd.code() || (byte == 127 && cmd == ControlCommand::DeleteBack),
{
}

/// The table holds control bytes only: nothing in it is the escape byte, a
/// printable ASCII value or part of a multi-byte encoding.
pub proof fn lemma_commands_are_control_bytes(byte: u8)
    requires
        command_of_byte(byte) is Some,
    ensures
        byte < 0x20 || byte == 127,
        byte != ESC,
{
}

} // verus!

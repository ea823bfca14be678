//! What can go wrong with the terminal and with a read.

use vstd::prelude::*;

verus! {

/// Why the terminal could not be put into raw mode, or back.
#[derive(Clone, Copy, Debug, PartialEq, Eq, Structural)]
pub enum TermError {
    /// Standard input is no interactive device.
    NotATty,
    /// Standard input is no open descriptor.
    BadDescriptor,
    /// The attributes could not be read or set for another reason.
    Unknown,
}

/// Why a read gave no line.
#[derive(Clone, Copy, Debug, PartialEq, Eq, Structural)]
pub enum ReadError {
    NotATty,
    BadDescriptor,
    /// Raw mode could not be entered, or the terminal's own mode could not
    /// be restored.
    TermModeFailure,
    /// The user gave the reading up.
    Interrupted,
    /// The input ended.
    Eof,
    /// Reading from or writing to the terminal failed.
    IoFailure,
}

impl TermError {
    /// The error of a read that could not enter raw mode for this reason.
    pub open spec fn read_error(self) -> ReadError {
        match self {
            TermError::NotATty => ReadError::NotATty,
            TermError::BadDescriptor => ReadError::BadDescriptor,
            TermError::Unknown => ReadError::TermModeFailure,
        }
    }

    /// The error of a read that could not enter raw mode for this reason.
    pub fn to_read_error(self) -> (e: ReadError)
        ensures
            e == self.read_error(),
    {
        match self {
            TermError::NotATty => ReadError::NotATty,
            TermError::BadDescriptor => ReadError::BadDescriptor,
            TermError::Unknown => ReadError::TermModeFailure,
        }
    }

    /// A sentence for the user.
    pub fn message(self) -> (text: String)
        ensures
            text@ == (match self {
                TermError::NotATty => "Not a TTY"@,
                TermError::BadDescriptor => "Not a file descriptor"@,
                TermError::Unknown => "Unknown Error"@,
            }),
    {
        match self {
            TermError::NotATty => "Not a TTY".to_owned(),
            TermError::BadDescriptor => "Not a file descriptor".to_owned(),
            TermError::Unknown => "Unknown Error".to_owned(),
        }
    }
}

impl ReadError {
    /// A sentence for the user.
    pub fn message(self) -> (text: String)
        ensures
            text@ == (match self {
                ReadError::NotATty => "Not a TTY"@,
                ReadError::BadDescriptor => "Not a file descriptor"@,
                ReadError::TermModeFailure => "Failed to set the terminal mode"@,
                ReadError::Interrupted => "Interrupted"@,
                ReadError::Eof => "End of input"@,
                ReadError::IoFailure => "Input or output failed"@,
            }),
    {
        match self {
            ReadError::NotATty => "Not a TTY".to_owned(),
            ReadError::BadDescriptor => "Not a file descriptor".to_owned(),
            ReadError::TermModeFailure => "Failed to set the terminal mode".to_owned(),
            ReadError::Interrupted => "Interrupted".to_owned(),
            ReadError::Eof => "End of input".to_owned(),
            ReadError::IoFailure => "Input or output failed".to_owned(),
        }
    }
}

} // verus!

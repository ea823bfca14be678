//! The terminal mode controller's decisions: which terminals get raw mode,
//! and what raw mode is.

use vstd::prelude::*;
use crate::error::TermError;

verus! {

/// The settings of a terminal that raw mode is about. A driver reads them
/// from the terminal's attributes and writes them back; what else the
/// attributes hold stays as it is.
#[derive(Clone, Copy, Debug, PartialEq, Eq, Structural)]
pub struct TerminalSettings {
    /// A break condition on input raises an interrupt.
    pub break_interrupt: bool,
    /// Carriage return becomes newline on input.
    pub cr_to_newline: bool,
    /// Parity of the input is checked.
    pub parity_check: bool,
    /// The eighth bit of every input byte is cleared.
    pub strip_eighth_bit: bool,
    /// Output stops and resumes on the flow control characters.
    pub output_flow_control: bool,
    /// Output is post-processed.
    pub output_processing: bool,
    /// Characters have eight bits.
    pub eight_bit_chars: bool,
    /// Input is echoed.
    pub echo: bool,
    /// Input is handed over line by line.
    pub canonical: bool,
    /// Extended input processing is on.
    pub extended_input: bool,
    /// The interrupt, quit and suspend characters raise signals.
    pub signals: bool,
    /// The least number of bytes that a read waits for.
    pub min_read: u8,
    /// How long a read waits, in tenths of a second; 0 for no limit.
    pub read_timeout: u8,
}

impl TerminalSettings {
    /// Raw mode: every keystroke reaches the program at once and as it is.
    pub open spec fn is_raw(self) -> bool {
        &&& !self.break_interrupt
        &&& !self.cr_to_newline
        &&& !self.parity_check
        &&& !self.strip_eighth_bit
        &&& !self.output_flow_control
        &&& !self.output_processing
        &&& self.eight_bit_chars
        &&& !self.echo
        &&& !self.canonical
        &&& !self.extended_input
        &&& !self.signals
        &&& self.min_read == 1
        &&& self.read_timeout == 0
    }

    /// The settings of raw mode.
    pub open spec fn raw_spec() -> TerminalSettings {
        TerminalSettings {
            break_interrupt: false,
            cr_to_newline: false,
            parity_check: false,
            strip_eighth_bit: false,
            output_flow_control: false,
            output_processing: false,
            eight_bit_chars: true,
            echo: false,
            canonical: false,
            extended_input: false,
            signals: false,
            min_read: 1,
            read_timeout: 0,
        }
    }

    /// The settings that put a terminal with these settings into raw mode.
    pub fn raw(&self) -> (raw: TerminalSettings)
        ensures
            raw.is_raw(),
            raw == TerminalSettings::raw_spec(),
    {
        TerminalSettings {
            break_interrupt: false,
            cr_to_newline: false,
            parity_check: false,
            strip_eighth_bit: false,
            output_flow_control: false,
            output_processing: false,
            eight_bit_chars: true,
            echo: false,
            canonical: false,
            extended_input: false,
            signals: false,
            min_read: 1,
            read_timeout: 0,
        }
    }
}

/// The terminal types that cannot do raw mode.
pub open spec fn unsupported_term(term: Seq<char>) -> bool {
    term == "dumb"@ || term == "cons25"@ || term == "emacs"@
}

/// Whether a terminal of the given type is left in its own mode and read
/// line by line.
pub fn is_unsupported_term(term: &str) -> (unsupported: bool)
    ensures
        unsupported == unsupported_term(term@),
{
    let term = term.to_owned();
    term == "dumb".to_owned() || term == "cons25".to_owned() || term == "emacs".to_owned()
}

/// What entering raw mode has to set, or why it cannot be entered: standard
/// input must be an interactive device, and its settings must have been
/// read.
pub open spec fn raw_mode_plan(is_tty: bool, current: Result<TerminalSettings, TermError>) -> Result<
    TerminalSettings,
    TermError,
> {
    if !is_tty {
        Err(TermError::NotATty)
    } else {
        match current {
            Ok(_) => Ok(TerminalSettings::raw_spec()),
            Err(e) => Err(e),
        }
    }
}

/// Decides what entering raw mode has to set. `is_tty` says whether standard
/// input is an interactive device, `current` what reading its settings gave.
pub fn plan_raw_mode(is_tty: bool, current: Result<TerminalSettings, TermError>) -> (plan: Result<
    TerminalSettings,
    TermError,
>)
    ensures
        plan == raw_mode_plan(is_tty, current),
        plan is Ok ==> plan->Ok_0.is_raw(),
{
    if !is_tty {
        Err(TermError::NotATty)
    } else {
        match current {
            Ok(settings) => Ok(settings.raw()),
            Err(e) => Err(e),
        }
    }
}

/// Raw mode leaves no choice: settings that are raw are the settings that
/// entering raw mode sets, so that entering it twice is entering it once.
pub proof fn lemma_raw_settings_are_unique(settings: TerminalSettings)
    requires
        settings.is_raw(),
    ensures
        settings == TerminalSettings::raw_spec(),
{
}

} // verus!

//! The power switch: which pin a request names, and how the pin is pulsed.
//!
//! The pins themselves are outside this library.

use crate::text::{parse_decimal, parse_unsigned};
use vstd::prelude::*;

verus! {

/// The first pin that can be pulsed.
pub const FIRST_PIN: u8 = 2;

/// The last pin that can be pulsed.
pub const LAST_PIN: u8 = 9;

/// How long a pulse lasts, in milliseconds.
pub const PULSE_MS: u64 = 500;

/// Why a pin was not pulsed.
#[derive(Clone, Copy, Debug, PartialEq, Eq, Structural)]
pub enum SwitchError {
    /// The text is no decimal number from 0 to 255.
    BadNumber,
    /// There is no pin of that number.
    NoSuchPin,
    /// The pin could not be driven.
    PinUnavailable,
}

/// The level of an output pin.
#[derive(Clone, Copy, Debug, PartialEq, Eq, Structural)]
pub enum Level {
    Low,
    High,
}

/// The pin that a text names: a decimal number from 2 to 9.
pub open spec fn named_pin(text: Seq<char>) -> Result<u8, SwitchError> {
    match parse_unsigned(text, 10, 255) {
        None => Err(SwitchError::BadNumber),
        Some(pin) => if FIRST_PIN <= pin <= LAST_PIN {
            Ok(pin as u8)
        } else {
            Err(SwitchError::NoSuchPin)
        },
    }
}

/// Reads the number of the pin to pulse.
pub fn select_pin(pin_str: &str) -> (r: Result<u8, SwitchError>)
    ensures
        r == named_pin(pin_str@),
{
    match parse_decimal(pin_str, 255) {
        None => Err(SwitchError::BadNumber),
        Some(pin) => if FIRST_PIN as u64 <= pin && pin <= LAST_PIN as u64 {
            Ok(pin as u8)
        } else {
            Err(SwitchError::NoSuchPin)
        },
    }
}

/// The two levels of a pulse, in their order: high then low if
/// `toggle_high`, low then high otherwise.
pub fn toggle_levels(toggle_high: bool) -> (levels: (Level, Level))
    ensures
        levels == if toggle_high {
            (Level::High, Level::Low)
        } else {
            (Level::Low, Level::High)
        },
{
    if toggle_high {
        (Level::High, Level::Low)
    } else {
        (Level::Low, Level::High)
    }
}

/// What follows one of the two level changes of a pulse.
#[derive(Clone, Copy, Debug, PartialEq, Eq, Structural)]
pub enum PulseStep {
    /// Hold the level for that many milliseconds, then set the second one.
    Hold { millis: u64 },
    /// The pulse is complete.
    Done,
    /// The pin could not be driven: the pulse is given up.
    Failed(SwitchError),
}

/// What follows a level change: `second` tells which of the two it was,
/// `set` whether the pin took the level. A pin that cannot be driven ends
/// the pulse at once, without a pause.
pub fn pulse_step(second: bool, set: bool) -> (step: PulseStep)
    ensures
        step == if !set {
            PulseStep::Failed(SwitchError::PinUnavailable)
        } else if second {
            PulseStep::Done
        } else {
            PulseStep::Hold { millis: PULSE_MS }
        },
{
    if !set {
        PulseStep::Failed(SwitchError::PinUnavailable)
    } else if second {
        PulseStep::Done
    } else {
        PulseStep::Hold { millis: PULSE_MS }
    }
}

} // verus!

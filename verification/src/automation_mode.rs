//! Track automation modes and their raw integer encoding.

use vstd::prelude::*;

verus! {

/// Global override of track automation modes.
#[derive(Clone, Copy, PartialEq, Eq, Structural, Debug, Hash)]
pub enum GlobalAutomationModeOverride {
    /// All automation is bypassed.
    Bypass,
    /// Automation mode of all tracks is overridden by this one.
    Mode(AutomationMode),
}

/// Automation mode of a track.
#[derive(Clone, Copy, PartialEq, Eq, Structural, Debug, Hash)]
pub enum AutomationMode {
    TrimRead,
    Read,
    Touch,
    Write,
    Latch,
    LatchPreview,
}

/// An error which occurs when a raw integer does not encode any automation
/// mode.
#[derive(Clone, Copy, PartialEq, Eq, Structural, Debug, Hash)]
pub struct ConversionFromRawFailed;

/// The raw integer the host uses for each automation mode.
pub open spec fn automation_mode_raw(m: AutomationMode) -> int {
    match m {
        AutomationMode::TrimRead => 0,
        AutomationMode::Read => 1,
        AutomationMode::Touch => 2,
        AutomationMode::Write => 3,
        AutomationMode::Latch => 4,
        AutomationMode::LatchPreview => 5,
    }
}

impl AutomationMode {
    /// Converts an integer as returned by the host's API to an automation
    /// mode. Exactly the integers 0 through 5 encode a mode.
    pub fn try_from_raw(v: i32) -> (r: Result<AutomationMode, ConversionFromRawFailed>)
        ensures
            match r {
                Ok(m) => automation_mode_raw(m) == v,
                Err(_) => !(0 <= v <= 5),
            },
    {
        match v {
            0 => Ok(AutomationMode::TrimRead),
            1 => Ok(AutomationMode::Read),
            2 => Ok(AutomationMode::Touch),
            3 => Ok(AutomationMode::Write),
            4 => Ok(AutomationMode::Latch),
            5 => Ok(AutomationMode::LatchPreview),
            _ => Err(ConversionFromRawFailed),
        }
    }

    /// Converts this mode to the integer the host's API expects.
    pub fn to_raw(&self) -> (r: i32)
        ensures
            r == automation_mode_raw(*self),
    {
        match self {
            AutomationMode::TrimRead => 0,
            AutomationMode::Read => 1,
            AutomationMode::Touch => 2,
            AutomationMode::Write => 3,
            AutomationMode::Latch => 4,
            AutomationMode::LatchPreview => 5,
        }
    }
}

/// Converting a mode to its raw integer and back yields the same mode.
pub proof fn lemma_automation_mode_raw_round_trip(m: AutomationMode)
    ensures
        0 <= automation_mode_raw(m) <= 5,
        forall|n: AutomationMode| automation_mode_raw(n) == automation_mode_raw(m) ==> n == m,
{
}

} // verus!

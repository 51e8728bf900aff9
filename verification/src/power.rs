//! wlr output power management: the power mode of outputs, and what becomes of a client's
//! power object when a mode change it asked for fails.

use vstd::prelude::*;

verus! {

/// Whether an output is powered.
#[derive(Clone, Copy, Debug, PartialEq, Eq, Structural)]
pub enum PowerMode {
    Off,
    On,
}

pub open spec fn spec_power_mode_from_protocol(v: u32) -> Option<PowerMode> {
    if v == 0 {
        Some(PowerMode::Off)
    } else if v == 1 {
        Some(PowerMode::On)
    } else {
        None
    }
}

impl PowerMode {
    pub fn from_protocol(v: u32) -> (r: Option<PowerMode>)
        ensures
            r == spec_power_mode_from_protocol(v),
    {
        if v == 0 {
            Some(PowerMode::Off)
        } else if v == 1 {
            Some(PowerMode::On)
        } else {
            None
        }
    }
}

/// Why a power mode change failed.
#[derive(Clone, Copy, Debug, PartialEq, Eq, Structural)]
pub enum WlrOutputPowerError {
    Unsupported,
    OutputNotFound,
    PermissionDenied,
    TransientFailure,
}

impl WlrOutputPowerError {
    /// What the error says.
    pub fn message(&self) -> (r: &'static str)
        ensures
            r@ == (match *self {
                WlrOutputPowerError::Unsupported => "Power management not supported on this output"@,
                WlrOutputPowerError::OutputNotFound => "Output not found"@,
                WlrOutputPowerError::PermissionDenied => "Permission denied; another client may have exclusive access to power management for this output"@,
                WlrOutputPowerError::TransientFailure => "Failed; try again later"@,
            }),
    {
        match self {
            WlrOutputPowerError::Unsupported => "Power management not supported on this output",
            WlrOutputPowerError::OutputNotFound => "Output not found",
            WlrOutputPowerError::PermissionDenied => "Permission denied; another client may have exclusive access to power management for this output",
            WlrOutputPowerError::TransientFailure => "Failed; try again later",
        }
    }
}

/// What becomes of a client's power object after a mode request.
#[derive(Clone, Copy, Debug, PartialEq, Eq, Structural)]
pub enum SetModeOutcome {
    /// The object stays.
    Keep,
    /// The request named no mode: a protocol error.
    InvalidMode(u32),
    /// The change failed for good: the object is dropped.
    Drop,
}

pub open spec fn spec_set_mode_outcome(mode: u32, result: Result<(), WlrOutputPowerError>) -> SetModeOutcome {
    if spec_power_mode_from_protocol(mode).is_none() {
        SetModeOutcome::InvalidMode(mode)
    } else {
        match result {
            Ok(()) => SetModeOutcome::Keep,
            Err(WlrOutputPowerError::TransientFailure) => SetModeOutcome::Keep,
            Err(_) => SetModeOutcome::Drop,
        }
    }
}

/// Decides what becomes of the power object, from the requested mode and what the handler
/// answered when asked to set it (the answer is ignored when the mode is unknown).
pub fn set_mode_outcome(mode: u32, result: Result<(), WlrOutputPowerError>) -> (r: SetModeOutcome)
    ensures
        r == spec_set_mode_outcome(mode, result),
{
    match PowerMode::from_protocol(mode) {
        None => SetModeOutcome::InvalidMode(mode),
        Some(_) => match result {
            Ok(()) => SetModeOutcome::Keep,
            Err(WlrOutputPowerError::TransientFailure) => SetModeOutcome::Keep,
            Err(_) => SetModeOutcome::Drop,
        },
    }
}

/// The power mode clients were last told of an output.
pub struct OutputPower {
    pub output: u64,
    pub cur_mode: PowerMode,
}

impl OutputPower {
    /// Records the output's mode; says whether it is announced (only when it changed).
    pub fn mode_changed(&mut self, new_mode: PowerMode) -> (r: bool)
        ensures
            r == (old(self).cur_mode != new_mode),
            final(self).cur_mode == new_mode,
            final(self).output == old(self).output,
    {
        if self.cur_mode != new_mode {
            self.cur_mode = new_mode;
            true
        } else {
            false
        }
    }
}

} // verus!

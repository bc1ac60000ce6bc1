//! The fan operating modes and their numeric codes on the sysfs wire.
//!
//! The driver's read-side and write-side codes are not the same table:
//! reading `fan_mode` yields `0` or the legacy alias `133` for super-silent
//! and `3` for efficient thermal dissipation, while a write of efficient
//! thermal dissipation must send `4`. The asymmetry is the driver's own and
//! is preserved here verbatim.

use vstd::prelude::*;

verus! {

/// A cooling profile of the device's embedded controller.
#[derive(Clone, Copy, Debug, PartialEq, Eq, Structural)]
pub enum FanMode {
    SuperSilent,
    Standard,
    DustCleaning,
    EfficientThermalDissipation,
}

/// The read-side table: the mode a raw `fan_mode` code denotes, or `None`
/// for a code the driver contract never produces.
pub open spec fn fan_mode_of_read_code(code: u8) -> Option<FanMode> {
    if code == 0 || code == 133 {
        Some(FanMode::SuperSilent)
    } else if code == 1 {
        Some(FanMode::Standard)
    } else if code == 2 {
        Some(FanMode::DustCleaning)
    } else if code == 3 {
        Some(FanMode::EfficientThermalDissipation)
    } else {
        None
    }
}

/// The write-side table: the code sent to `fan_mode` to request a mode.
pub open spec fn fan_write_code_of(mode: FanMode) -> u8 {
    match mode {
        FanMode::SuperSilent => 0,
        FanMode::Standard => 1,
        FanMode::DustCleaning => 2,
        FanMode::EfficientThermalDissipation => 4,
    }
}

impl FanMode {
    /// Decode a raw code read from the `fan_mode` file.
    pub fn from_read_code(code: u8) -> (r: Option<FanMode>)
        ensures
            r == fan_mode_of_read_code(code),
    {
        if code == 0 || code == 133 {
            Some(FanMode::SuperSilent)
        } else if code == 1 {
            Some(FanMode::Standard)
        } else if code == 2 {
            Some(FanMode::DustCleaning)
        } else if code == 3 {
            Some(FanMode::EfficientThermalDissipation)
        } else {
            None
        }
    }

    /// The code to send when requesting this mode.
    pub fn write_code(self) -> (code: u8)
        ensures
            code == fan_write_code_of(self),
    {
        match self {
            FanMode::SuperSilent => 0,
            FanMode::Standard => 1,
            FanMode::DustCleaning => 2,
            FanMode::EfficientThermalDissipation => 4,
        }
    }
}

/// Writing a mode by its write-side code and then decoding that same code
/// with the read-side table yields the mode again. Efficient thermal
/// dissipation is excluded: its write code `4` has no read-side entry (the
/// read-side table lists `3` for it), so the round trip is inapplicable
/// there by the driver's own asymmetry.
pub proof fn lemma_fan_code_round_trip(mode: FanMode)
    requires
        mode != FanMode::EfficientThermalDissipation,
    ensures
        fan_mode_of_read_code(fan_write_code_of(mode)) == Some(mode),
{
}

/// Exactly the raw codes the driver contract allows decode: 0, 1, 2, 3
/// and 133, and no others.
pub proof fn lemma_fan_read_codes(code: u8)
    ensures
        fan_mode_of_read_code(code) is Some <==> (code == 0 || code == 1 || code == 2
            || code == 3 || code == 133),
{
}

} // verus!

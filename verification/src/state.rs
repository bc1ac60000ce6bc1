//! The in-memory mirror of the driver's state and the write cycle.
//!
//! [`Model`] mirrors the two tunables as read from sysfs. A user request
//! ([`Input`]) is turned into a [`WriteRequest`]: which file to write and
//! which numeric code to send through the privilege-elevation helper. The
//! caller performs that one external operation and reports back whether it
//! succeeded; only a confirmed success moves the mirror, so it never claims
//! a value the driver rejected. [`Panel`] strings the steps together as the
//! per-setting cycle idle, writing, then applied or rejected, back to idle.

use vstd::prelude::*;
use crate::fan::FanMode;
use crate::fan::fan_mode_of_read_code;
use crate::fan::fan_write_code_of;
use crate::parse::parsed_u8;
use crate::parse::parse_trimmed_u8;

verus! {

/// The in-memory mirror of the two tunables.
#[derive(Clone, Copy, Debug, PartialEq, Eq, Structural)]
pub struct Model {
    pub conservation_mode: bool,
    pub fan_mode: FanMode,
}

/// A user request: toggle battery conservation, or switch the fan mode.
#[derive(Clone, Copy, Debug, PartialEq, Eq, Structural)]
pub enum Input {
    ToggleConservationMode(bool),
    SwitchFanState(FanMode),
}

/// Why startup state could not be decoded. Each is a driver-contract
/// violation and fatal at startup: with no decodable state there is nothing
/// to present.
#[derive(Clone, Copy, Debug, PartialEq, Eq, Structural)]
pub enum InitError {
    /// The `conservation_mode` file held no decodable 8-bit integer.
    BadConservationValue,
    /// The `fan_mode` file held no decodable 8-bit integer.
    BadFanValue,
    /// The `fan_mode` file held an integer outside the read-side table.
    UnknownFanCode(u8),
}

/// Which sysfs file a write goes to.
#[derive(Clone, Copy, Debug, PartialEq, Eq, Structural)]
pub enum SettingFile {
    Conservation,
    Fan,
}

/// One privileged write: the target file and the ASCII integer to send.
#[derive(Clone, Copy, Debug, PartialEq, Eq, Structural)]
pub struct WriteRequest {
    pub file: SettingFile,
    pub code: u8,
}

/// The conservation flag a raw code denotes: nonzero means on.
pub open spec fn conservation_of_code(code: u8) -> bool {
    code != 0
}

/// The code sent to `conservation_mode` to request a flag value.
pub open spec fn conservation_write_code_of(on: bool) -> u8 {
    if on {
        1
    } else {
        0
    }
}

/// The state the two raw file contents denote, or the first decode error,
/// `conservation_mode` checked first.
pub open spec fn state_of_raw(conservation_raw: Seq<u8>, fan_raw: Seq<u8>) -> Result<
    Model,
    InitError,
> {
    match parsed_u8(conservation_raw) {
        None => Err(InitError::BadConservationValue),
        Some(c) => match parsed_u8(fan_raw) {
            None => Err(InitError::BadFanValue),
            Some(f) => match fan_mode_of_read_code(f) {
                None => Err(InitError::UnknownFanCode(f)),
                Some(mode) => Ok(
                    Model { conservation_mode: conservation_of_code(c), fan_mode: mode },
                ),
            },
        },
    }
}

/// The write a request asks for.
pub open spec fn request_of_input(input: Input) -> WriteRequest {
    match input {
        Input::ToggleConservationMode(on) => WriteRequest {
            file: SettingFile::Conservation,
            code: conservation_write_code_of(on),
        },
        Input::SwitchFanState(mode) => WriteRequest {
            file: SettingFile::Fan,
            code: fan_write_code_of(mode),
        },
    }
}

/// The mirror after the write's outcome is known: moved to the requested
/// value on success, untouched on failure.
pub open spec fn applied(state: Model, input: Input, success: bool) -> Model {
    if success {
        match input {
            Input::ToggleConservationMode(on) => Model { conservation_mode: on, ..state },
            Input::SwitchFanState(mode) => Model { fan_mode: mode, ..state },
        }
    } else {
        state
    }
}

impl Input {
    /// The write that would carry this request to the driver.
    pub fn write_request(self) -> (r: WriteRequest)
        ensures
            r == request_of_input(self),
    {
        match self {
            Input::ToggleConservationMode(on) => WriteRequest {
                file: SettingFile::Conservation,
                code: if on {
                    1
                } else {
                    0
                },
            },
            Input::SwitchFanState(mode) => WriteRequest {
                file: SettingFile::Fan,
                code: mode.write_code(),
            },
        }
    }
}

impl Model {
    /// Decode startup state from the raw contents of the two files. Any
    /// undecodable value is an error; the caller aborts startup on it
    /// rather than presenting a default.
    pub fn init(conservation_raw: &[u8], fan_raw: &[u8]) -> (r: Result<Model, InitError>)
        ensures
            r == state_of_raw(conservation_raw@, fan_raw@),
    {
        let c = match parse_trimmed_u8(conservation_raw) {
            None => {
                return Err(InitError::BadConservationValue);
            },
            Some(c) => c,
        };
        let f = match parse_trimmed_u8(fan_raw) {
            None => {
                return Err(InitError::BadFanValue);
            },
            Some(f) => f,
        };
        match FanMode::from_read_code(f) {
            None => Err(InitError::UnknownFanCode(f)),
            Some(mode) => Ok(Model { conservation_mode: c != 0, fan_mode: mode }),
        }
    }

    /// Reconcile the mirror with a finished write: adopt the requested
    /// value only when the elevation helper reported success, else keep
    /// the prior value.
    pub fn apply_outcome(&mut self, input: Input, success: bool)
        ensures
            *final(self) == applied(*old(self), input, success),
    {
        if success {
            match input {
                Input::ToggleConservationMode(on) => {
                    self.conservation_mode = on;
                },
                Input::SwitchFanState(mode) => {
                    self.fan_mode = mode;
                },
            }
        }
    }
}

/// Where a setting's write cycle stands.
#[derive(Clone, Copy, Debug, PartialEq, Eq, Structural)]
pub enum WritePhase {
    /// No write in flight; controls live.
    Idle,
    /// A privileged write was issued and its outcome is not yet known;
    /// controls are disabled so a second request cannot race the first.
    Writing,
    /// The last write succeeded and the mirror was moved.
    Applied,
    /// The last write failed and the mirror was left untouched; the
    /// controls revert to the prior value.
    Rejected,
}

/// The panel's whole standing: the mirror, where the write cycle is, and
/// the request in flight while one is.
#[derive(Clone, Copy, Debug, PartialEq, Eq, Structural)]
pub struct Panel {
    pub state: Model,
    pub phase: WritePhase,
    pub pending: Option<Input>,
}

impl Panel {
    /// A request is remembered exactly while its write is in flight.
    pub open spec fn wf(self) -> bool {
        self.phase is Writing <==> self.pending is Some
    }

    /// A panel freshly built from decoded startup state: idle, nothing in
    /// flight.
    pub fn new(state: Model) -> (p: Panel)
        ensures
            p.wf(),
            p.state == state,
            p.phase is Idle,
    {
        Panel { state, phase: WritePhase::Idle, pending: None }
    }

    /// Take a user request: move to writing and hand back the privileged
    /// write to perform. Only an idle panel takes one, so requests cannot
    /// overlap. The mirror does not move yet.
    pub fn begin(&mut self, input: Input) -> (r: WriteRequest)
        requires
            old(self).wf(),
            old(self).phase is Idle,
        ensures
            final(self).wf(),
            final(self).phase is Writing,
            final(self).pending == Some(input),
            final(self).state == old(self).state,
            r == request_of_input(input),
    {
        self.phase = WritePhase::Writing;
        self.pending = Some(input);
        input.write_request()
    }

    /// Learn the write's outcome: the mirror adopts the pending request
    /// exactly on success, and the cycle lands in applied or rejected.
    pub fn finish(&mut self, success: bool)
        requires
            old(self).wf(),
            old(self).phase is Writing,
        ensures
            final(self).wf(),
            final(self).phase == if success {
                WritePhase::Applied
            } else {
                WritePhase::Rejected
            },
            final(self).pending is None,
            old(self).pending matches Some(input) ==> final(self).state == applied(
                old(self).state,
                input,
                success,
            ),
    {
        let input = self.pending.unwrap();
        self.state.apply_outcome(input, success);
        self.pending = None;
        self.phase = if success {
            WritePhase::Applied
        } else {
            WritePhase::Rejected
        };
    }

    /// Return to idle once the outcome has been shown; the mirror stays.
    pub fn settle(&mut self)
        requires
            old(self).wf(),
            !(old(self).phase is Writing),
        ensures
            final(self).wf(),
            final(self).phase is Idle,
            final(self).state == old(self).state,
    {
        self.phase = WritePhase::Idle;
    }
}

/// A failed write never moves the mirror: whatever was requested, the
/// state after a failure is the state before it, so the mirror cannot
/// claim success the driver did not confirm.
pub proof fn lemma_failed_write_keeps_state(state: Model, input: Input)
    ensures
        applied(state, input, false) == state,
{
}

/// A confirmed write moves exactly the requested tunable to the requested
/// value and leaves the other tunable alone.
pub proof fn lemma_confirmed_write_adopts_request(state: Model, input: Input)
    ensures
        input matches Input::ToggleConservationMode(on) ==> applied(state, input, true)
            == (Model { conservation_mode: on, fan_mode: state.fan_mode }),
        input matches Input::SwitchFanState(mode) ==> applied(state, input, true) == (Model {
            conservation_mode: state.conservation_mode,
            fan_mode: mode,
        }),
{
}

} // verus!

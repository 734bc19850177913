//! The binary LED state and the parsing of a brightness file's bytes.

use vstd::prelude::*;

verus! {

/// State of the numlock LED: off or on. No third state exists; any
/// brightness content other than the two literal forms is a parse
/// failure, not a default.
#[derive(Debug, Copy, Clone, Eq, PartialEq, Structural)]
pub enum State {
    OFF,
    ON,
}

/// The opposite LED state.
pub open spec fn spec_toggled(s: State) -> State {
    match s {
        State::OFF => State::ON,
        State::ON => State::OFF,
    }
}

impl State {
    /// Returns the opposite state.
    pub fn toggled(&self) -> (r: State)
        ensures
            r == spec_toggled(*self),
    {
        match self {
            State::OFF => State::ON,
            State::ON => State::OFF,
        }
    }
}

/// Toggling is an involution: toggling twice gives the state back.
pub proof fn lemma_toggled_involutive(s: State)
    ensures
        spec_toggled(spec_toggled(s)) == s,
{
}

/// Byte value of the character `0`.
pub const BYTE_DIGIT_ZERO: u8 = 48;

/// Byte value of the character `1`.
pub const BYTE_DIGIT_ONE: u8 = 49;

/// Byte value of the newline character.
pub const BYTE_NEWLINE: u8 = 10;

/// The state encoded by the raw bytes of a brightness file. Exactly
/// the two-byte forms `"0\n"` and `"1\n"` are valid; everything else
/// (no trailing newline, extra content, other digits, bytes that are
/// not text) is invalid.
pub open spec fn spec_led_state(bytes: Seq<u8>) -> Option<State> {
    if bytes.len() == 2 && bytes[0] == BYTE_DIGIT_ZERO && bytes[1] == BYTE_NEWLINE {
        Some(State::OFF)
    } else if bytes.len() == 2 && bytes[0] == BYTE_DIGIT_ONE && bytes[1] == BYTE_NEWLINE {
        Some(State::ON)
    } else {
        None
    }
}

/// Parses the raw content of a brightness file; `None` on anything but
/// the two valid forms.
pub fn parse_led_bytes(bytes: &Vec<u8>) -> (r: Option<State>)
    ensures
        r == spec_led_state(bytes@),
{
    if bytes.len() == 2 {
        let b0 = bytes[0];
        let b1 = bytes[1];
        if b0 == BYTE_DIGIT_ZERO && b1 == BYTE_NEWLINE {
            Some(State::OFF)
        } else if b0 == BYTE_DIGIT_ONE && b1 == BYTE_NEWLINE {
            Some(State::ON)
        } else {
            None
        }
    } else {
        None
    }
}

/// Parses the raw content of the brightness file at `path` (the path
/// is carried only into the error). Fails with `Error::InvalidLedState`
/// holding that path on anything but the two valid forms.
pub fn led_state_from_bytes(bytes: &Vec<u8>, path: Vec<u8>) -> (r: Res<State>)
    ensures
        r == match spec_led_state(bytes@) {
            Some(s) => Ok::<State, Error>(s),
            None => Err::<State, Error>(Error::InvalidLedState(path)),
        },
{
    match parse_led_bytes(bytes) {
        Some(s) => Ok(s),
        None => Err(Error::InvalidLedState(path)),
    }
}

/// A failure of the query or apply operation. Each condition is a
/// distinct kind; none is silently recovered from.
#[derive(Debug, Clone, PartialEq, Eq)]
pub enum Error {
    /// A directory or file read failed; carries the reported detail.
    IoError(Vec<u8>),
    /// A brightness file held something other than the two valid
    /// forms; carries the offending path.
    InvalidLedState(Vec<u8>),
    /// The virtual-input-device provider refused an operation; carries
    /// the reported detail.
    UInputError(Vec<u8>),
    /// The LED class directory held no qualifying entry.
    NoLedsFound,
    /// The key was pressed but no state change was observed within the
    /// polling budget.
    FailedToPressNumlock,
}

/// Result of the library's operations.
pub type Res<T> = Result<T, Error>;

} // verus!

use crate::error::Error;
use vstd::prelude::*;

verus! {

/// `0xFF`: all meta-events of a file begin with FF, followed by an event type
/// byte (always less than 128).
pub const FILE_META_EVENT: u8 = 0xFF;

/// `0xF0`: a file SysEx event, `F0 <length> <bytes to be transmitted after F0>`.
pub const FILE_SYSEX_F0: u8 = 0xF0;

/// `0xF7`: a file SysEx event, `F7 <length> <all bytes to be transmitted>`.
pub const FILE_SYSEX_F7: u8 = 0xF7;

/// The status byte types of Table I, "Summary of Status Bytes", of the MIDI
/// specification. Each type stands for one fixed 4-bit value, `0x8` to `0xF`.
#[derive(Clone, Copy, Debug, PartialEq, Eq, Structural, PartialOrd, Ord, Hash)]
pub enum StatusType {
    /// `0x8`: a `Note Off` message.
    NoteOff,
    /// `0x9`: a `Note On (a velocity of 0 = Note Off)` message.
    NoteOn,
    /// `0xA`: a `Polyphonic key pressure/Aftertouch` message.
    PolyPressure,
    /// `0xB`: a `Control change` message or a `Channel Mode` message. Channel Mode
    /// messages are sent under the same status byte as Control Change messages
    /// (BnH); they are told apart by the first data byte, which is 121 to 127
    /// for Channel Mode messages.
    ControlOrSelectChannelMode,
    /// `0xC`: a `Program change` message.
    Program,
    /// `0xD`: a `Channel pressure/After touch` message.
    ChannelPressure,
    /// `0xE`: a `Pitch bend change` message.
    PitchBend,
    /// `0xF`: a `System Message`.
    System,
}

/// The status type whose fixed value is `v`, if there is one.
pub open spec fn status_of(v: u8) -> Option<StatusType> {
    match v {
        0x8 => Some(StatusType::NoteOff),
        0x9 => Some(StatusType::NoteOn),
        0xA => Some(StatusType::PolyPressure),
        0xB => Some(StatusType::ControlOrSelectChannelMode),
        0xC => Some(StatusType::Program),
        0xD => Some(StatusType::ChannelPressure),
        0xE => Some(StatusType::PitchBend),
        0xF => Some(StatusType::System),
        _ => None,
    }
}

/// What classifying `v` yields when a failure is tagged with `site`.
pub open spec fn classified(v: u8, site: &'static str) -> Result<StatusType, Error> {
    match status_of(v) {
        Some(s) => Ok(s),
        None => Err(Error::OutOfRange { value: v, site }),
    }
}

/// The site that `StatusType::from_u8` gives its failures.
pub const SITE_FROM_U8: &'static str = "StatusType::from_u8";

/// The site that `StatusType::try_from` gives its failures.
pub const SITE_TRY_FROM: &'static str = "StatusType::try_from";

impl StatusType {
    /// The fixed 4-bit value of the status type.
    pub open spec fn status_value(self) -> u8 {
        match self {
            StatusType::NoteOff => 0x8,
            StatusType::NoteOn => 0x9,
            StatusType::PolyPressure => 0xA,
            StatusType::ControlOrSelectChannelMode => 0xB,
            StatusType::Program => 0xC,
            StatusType::ChannelPressure => 0xD,
            StatusType::PitchBend => 0xE,
            StatusType::System => 0xF,
        }
    }

    /// The fixed 4-bit value of the status type, for writing it back into a
    /// status byte.
    pub fn value_of(self) -> (r: u8)
        ensures
            r == self.status_value(),
    {
        match self {
            StatusType::NoteOff => 0x8,
            StatusType::NoteOn => 0x9,
            StatusType::PolyPressure => 0xA,
            StatusType::ControlOrSelectChannelMode => 0xB,
            StatusType::Program => 0xC,
            StatusType::ChannelPressure => 0xD,
            StatusType::PitchBend => 0xE,
            StatusType::System => 0xF,
        }
    }

    /// Classifies the status nibble `value`, tagging a failure with `site`.
    /// The nibble is matched as given: a caller holding a whole status byte
    /// passes its high nibble.
    pub fn from_u8_at(value: u8, site: &'static str) -> (r: Result<StatusType, Error>)
        ensures
            r == classified(value, site),
    {
        match value {
            0x8 => Ok(StatusType::NoteOff),
            0x9 => Ok(StatusType::NoteOn),
            0xA => Ok(StatusType::PolyPressure),
            0xB => Ok(StatusType::ControlOrSelectChannelMode),
            0xC => Ok(StatusType::Program),
            0xD => Ok(StatusType::ChannelPressure),
            0xE => Ok(StatusType::PitchBend),
            0xF => Ok(StatusType::System),
            _ => Err(Error::OutOfRange { value, site }),
        }
    }

    /// Classifies the status nibble `value`: the status type whose fixed value
    /// is `value`, or `Error::OutOfRange` carrying `value` when there is none.
    pub fn from_u8(value: u8) -> (r: Result<StatusType, Error>)
        ensures
            r == classified(value, SITE_FROM_U8),
            (0x8 <= value <= 0xF) <==> r is Ok,
            r matches Ok(s) ==> s.status_value() == value,
    {
        proof {
            lemma_status_of_valid(value);
        }
        StatusType::from_u8_at(value, SITE_FROM_U8)
    }
}

/// The default status type, `NoteOff`, is a placeholder for a value not yet
/// classified; classification never yields it for an invalid input.
impl Default for StatusType {
    fn default() -> (r: StatusType)
        ensures
            r == StatusType::NoteOff,
    {
        StatusType::NoteOff
    }
}

impl TryFrom<u8> for StatusType {
    type Error = Error;

    fn try_from(value: u8) -> (r: Result<StatusType, Error>) {
        StatusType::from_u8_at(value, SITE_TRY_FROM)
    }
}

impl vstd::std_specs::convert::TryFromSpecImpl<u8> for StatusType {
    open spec fn obeys_try_from_spec() -> bool {
        true
    }

    open spec fn try_from_spec(v: u8) -> Result<StatusType, Error> {
        classified(v, SITE_TRY_FROM)
    }
}

/// Every value from `0x8` to `0xF` is the value of exactly the status type
/// that classifies it, and every other value is the value of none.
pub proof fn lemma_status_of_valid(v: u8)
    ensures
        (0x8 <= v <= 0xF) <==> status_of(v) is Some,
        status_of(v) matches Some(s) ==> s.status_value() == v,
{
}

/// A value outside `0x8` to `0xF` is rejected, and the error carries it.
pub proof fn lemma_rejects_outside(v: u8, site: &'static str)
    requires
        !(0x8 <= v <= 0xF),
    ensures
        classified(v, site) == Err::<StatusType, Error>(Error::OutOfRange { value: v, site }),
{
}

/// Two different valid values never classify to the same status type.
pub proof fn lemma_classify_injective(v1: u8, v2: u8, site: &'static str)
    requires
        0x8 <= v1 <= 0xF,
        0x8 <= v2 <= 0xF,
        v1 != v2,
    ensures
        classified(v1, site) != classified(v2, site),
{
    lemma_status_of_valid(v1);
    lemma_status_of_valid(v2);
}

/// Classifying the value of a status type gives that status type back.
pub proof fn lemma_round_trip(s: StatusType, site: &'static str)
    ensures
        classified(s.status_value(), site) == Ok::<StatusType, Error>(s),
{
}

} // verus!

//! Classification of MIDI status nibbles into the eight status types of the
//! MIDI "Summary of Status Bytes".

pub mod constants;
pub mod error;

pub use constants::{StatusType, FILE_META_EVENT, FILE_SYSEX_F0, FILE_SYSEX_F7};
pub use error::Error;

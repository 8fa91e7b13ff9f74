use vstd::prelude::*;

verus! {

/// The failure of a status-type classification.
#[derive(Clone, Copy, Debug, PartialEq, Eq)]
pub enum Error {
    /// `value` is none of the eight status-type values; `site` names the place
    /// that asked for the classification.
    OutOfRange { value: u8, site: &'static str },
}

} // verus!

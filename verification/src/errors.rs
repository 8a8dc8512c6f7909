//! Error kinds the adapter reports. No kind carries structured payload:
//! callers receive the kind and a static description, matching the
//! granularity of the external codec's own errors.

use vstd::prelude::*;

verus! {

/// Everything that can go wrong in the adapter.
#[derive(Clone, Copy, Debug, PartialEq, Eq, Structural)]
pub enum AdapterError {
    /// The stream declares a channel layout other than mono or stereo
    /// (or declares none at all).
    UnsupportedConfiguration,
    /// Allocating the external decoder failed.
    ConstructionFailure,
    /// The external decoder rejected a packet as malformed or unsupported.
    DecodeFailure,
    /// The external decoder failed to clear its internal state.
    ResetFailure,
}

impl AdapterError {
    /// The static description attached to each kind.
    pub open spec fn description_spec(&self) -> Seq<char> {
        match self {
            AdapterError::UnsupportedConfiguration => "unsupported channel count"@,
            AdapterError::ConstructionFailure => "could not allocate the external decoder"@,
            AdapterError::DecodeFailure => "the external decoder rejected the packet"@,
            AdapterError::ResetFailure => "the external decoder failed to reset"@,
        }
    }

    /// A static description of the error; the only payload an error carries.
    pub fn description(&self) -> (r: &'static str)
        ensures
            r@ == self.description_spec(),
    {
        match self {
            AdapterError::UnsupportedConfiguration => "unsupported channel count",
            AdapterError::ConstructionFailure => "could not allocate the external decoder",
            AdapterError::DecodeFailure => "the external decoder rejected the packet",
            AdapterError::ResetFailure => "the external decoder failed to reset",
        }
    }
}

/// Outcome of finalizing a decode pass: whether the decoded output could be
/// confirmed bit-exact against an expected checksum. `None` means no such
/// confirmation mechanism exists.
#[derive(Clone, Copy, Debug)]
pub struct FinalizeResult {
    /// `Some(true)` / `Some(false)` would report a verified / failed check;
    /// this adapter can only ever report `None` ("unknown").
    pub verify_ok: Option<bool>,
}

} // verus!

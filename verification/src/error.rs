//! Error taxonomy of the core: configuration and storage failures. Hardware
//! bring-up, wireless and sink errors belong to the layers outside this crate.

use vstd::prelude::*;

verus! {

/// Failures the core can detect on its own inputs.
#[derive(Clone, Copy, Debug, PartialEq, Eq, Structural)]
pub enum Error {
    /// A wireless configuration was requested with an empty SSID.
    MissingSsid,
    /// The encoded settings record exceeds the fixed buffer capacity
    /// reserved for it; nothing is written, nothing is truncated.
    EncodedTooLarge,
    /// The stored bytes do not decode into a well-formed settings record.
    MalformedRecord,
}

} // verus!

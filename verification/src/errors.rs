//! Error values returned by the codec.

use vstd::prelude::*;

verus! {

/// Everything that can go wrong while decoding or building a PDU.
#[derive(Clone, Copy, Debug, PartialEq, Eq, Structural)]
pub enum DisError {
    /// The buffer is shorter than a required field or than the declared PDU length.
    InsufficientBytes { needed: usize, available: usize },
    /// The header's protocol version is neither 6 nor 7.
    UnsupportedProtocolVersion(u8),
    /// The declared `pdu_length` disagrees with what the body actually occupies.
    InconsistentLength { declared: u16, actual: usize },
    /// A builder was asked to build while a required field was still unset.
    MissingField,
}

} // verus!

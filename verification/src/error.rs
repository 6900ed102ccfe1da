//! Error vocabulary, kept in two distinct taxonomies: semantic matching
//! failures reported by the (external) matching logic, and local format
//! errors raised by the record codec and the identifier normalizer.

use vstd::prelude::*;

verus! {

/// Failure kinds reported by the instruction-matching layer when a
/// transaction does not contain what was expected.  These are semantic
/// failures: they propagate to the caller unmodified, and no local
/// recovery applies.
#[derive(Clone, Copy, Debug, PartialEq, Eq, Structural)]
pub enum MonitorError {
    /// The expected owning-program identifier could not be located.
    ProgramIdNotFound,
    /// The transaction's shape matches no known decodable layout.
    UnsupportedTransactionFormat,
    /// No instruction matched the target discriminator(s).
    NoMatchingInstruction,
}

/// Format-level failures: raw bytes or text did not conform to a fixed
/// layout or encoding.  Always caused by malformed input, never by the
/// environment, so the correct policy is to fail fast.
#[derive(Clone, Copy, Debug, PartialEq, Eq, Structural)]
pub enum DecodeError {
    /// Fewer bytes were supplied than the record's fixed layout requires.
    Truncated,
    /// More bytes were supplied than the record's fixed layout holds;
    /// decoding is strict, so surplus bytes are rejected rather than
    /// silently ignored.
    TrailingData,
    /// A textual identifier was not valid base-58 text denoting exactly
    /// 32 bytes.
    InvalidIdentifier,
}

} // verus!

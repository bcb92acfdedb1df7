//! The diagnostic categories of a failed handshake.
//!
//! Every error is fatal to its session: the caller surfaces the category and
//! discards the session.

use vstd::prelude::*;

verus! {

/// Why a session call failed.  All failures are terminal; no partial result
/// is retained beyond this category.
#[derive(Debug, Clone, Copy, PartialEq, Eq, Structural)]
pub enum SrdError {
    /// A packet header did not begin with the protocol signature.
    InvalidSignature,
    /// A packet carried the wrong sequence number, or the session was called
    /// again after reaching its terminal state.
    BadSequence,
    /// A proposed key size was not 256, 512 or 1024.
    InvalidKeySize,
    /// A channel-binding token was present when none was expected, or absent
    /// when one was expected.
    InvalidCert,
    /// A channel-binding token was present but did not match its
    /// recomputation.
    InvalidCbt,
    /// A transcript MAC did not match its recomputation.
    InvalidMac,
    /// The client reached its last state without a blob to delegate.
    MissingBlob,
    /// An underlying cryptographic operation could not be carried out.
    Crypto,
    /// A delivered blob could not be decoded.
    InvalidBlob,
    /// A buffer was too short, held trailing bytes, or was otherwise not a
    /// well-formed packet.
    Io,
}

} // verus!

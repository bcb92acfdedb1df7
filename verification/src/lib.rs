//! SRD: a secure remote delegation handshake.
//!
//! A client and a server run a four-message exchange (INITIATE, OFFER,
//! ACCEPT + CONFIRM, DELEGATE) over an untrusted transport that the caller
//! supplies.  A Diffie-Hellman agreement plus two fresh nonces yield a
//! delegation key, an integrity key and an initialization vector; the
//! credential blob travels encrypted under the delegation key and
//! authenticated, like every late packet, by an HMAC over the whole
//! transcript.

pub mod bignum;
pub mod crypto;
pub mod dh_params;
pub mod message_types;
pub mod wire;
pub mod srd;
pub mod srd_blob;
pub mod srd_errors;

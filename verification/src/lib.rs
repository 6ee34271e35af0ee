//! Secure-channel primitives for a client and a host that exchange JSON
//! payloads over an untrusted transport: persistence rules for the long-term
//! secret key, authenticated encryption of payloads under a shared secret,
//! and the record types that travel inside those payloads.

use vstd::prelude::*;

/// Primitives for encrypting and decrypting message bodies.
pub mod crypto;
/// Errors of a client's setup.
pub mod error;
/// Route URL paths.
pub mod route;
/// Records that can be sent between clients and hosts.
pub mod types;

verus! {

/// The required HTTP header containing the client ID.
pub const CLIENT_ID_HEADER: &'static str = "keybear-client-id";

} // verus!

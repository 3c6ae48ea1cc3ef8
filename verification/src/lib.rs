//! The client-side session layer of an MLS (RFC 9420) group messaging
//! core: credentials and key packages that bridge a caller-supplied
//! identity key to MLS signing keys, a registry of per-identity sessions
//! addressed by opaque numeric handles, and the group operations —
//! create, add, remove, encrypt, and a dispatcher for incoming messages —
//! that drive each group through its epochs with a strict stage-then-merge
//! discipline. The cryptography itself is delegated to an MLS provider
//! behind the trusted contracts of the `backend` module; everything else
//! is verified against those contracts.

use vstd::prelude::*;

pub mod backend;
pub mod errors;
pub mod group;
pub mod jsonfmt;
pub mod keypackage;
pub mod keys;
pub mod keystore;
pub mod session;

verus! {

/// Protocol profile reported by the version query.
pub fn mls_version() -> (r: String)
    ensures
        r@ == "RFC9420-v1"@,
{
    "RFC9420-v1".to_string()
}

/// The single ciphersuite this crate speaks, as a JSON array, so that
/// adding future suites does not break callers.
pub fn supported_ciphersuites() -> (r: String)
    ensures
        r@ == "[{\"name\":\"MLS_128_DHKEMX25519_AES128GCM_SHA256_Ed25519\",\"value\":1}]"@,
{
    "[{\"name\":\"MLS_128_DHKEMX25519_AES128GCM_SHA256_Ed25519\",\"value\":1}]".to_string()
}

} // verus!

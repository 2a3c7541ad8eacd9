//! Identities of callers and of registry instances.

use vstd::prelude::*;

verus! {

/// The longest identity, in bytes.
pub const MAX_PRINCIPAL_LEN: usize = 29;

/// `candid::Principal`, carried through as an opaque value.
#[verifier::external_type_specification]
#[verifier::external_body]
pub struct ExPrincipal(candid::Principal);

/// The significant bytes of an identity: what `Principal::as_slice` returns.
pub uninterp spec fn principal_bytes(p: candid::Principal) -> Seq<u8>;

/// Calls `Principal::as_slice` and copies the slice. Trusted: the result is
/// the identity's significant bytes, of which there are at most 29.
#[verifier::external_body]
pub(crate) fn principal_to_bytes(p: &candid::Principal) -> (bytes: Vec<u8>)
    ensures
        bytes@ == principal_bytes(*p),
        bytes@.len() <= MAX_PRINCIPAL_LEN,
{
    p.as_slice().to_vec()
}

/// Calls `Principal::from_slice`, which panics on more than 29 bytes.
/// Trusted: the identity made holds exactly the bytes given.
#[verifier::external_body]
pub(crate) fn principal_from_bytes(bytes: &Vec<u8>) -> (p: candid::Principal)
    requires
        bytes@.len() <= MAX_PRINCIPAL_LEN,
    ensures
        principal_bytes(p) == bytes@,
{
    candid::Principal::from_slice(bytes.as_slice())
}

} // verus!

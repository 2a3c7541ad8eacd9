//! Identifiers: the keys that anchors parse to, the instance that each
//! belongs to, and the composite key of a dapp.

use vstd::prelude::*;
use vstd::std_specs::convert::FromSpecImpl;
use candid::Principal;
use crate::codec::{be32, be32_value, be64, be64_value, bytes_eq, lemma_be32_round_trip, lemma_be64_round_trip, push_be32, push_be64, read_be32, read_be64};
use crate::error::StoreError;
use crate::principal::{principal_bytes, principal_to_bytes};

verus! {

/// A point in time, in milliseconds.
#[derive(Clone, Copy, Debug, PartialEq, Eq, Structural)]
pub struct TimestampMills(pub i64);

/// Whether two identities are the same.
pub fn same_principal(a: &Principal, b: &Principal) -> (same: bool)
    ensures
        same == (principal_bytes(*a) == principal_bytes(*b)),
{
    let left = principal_to_bytes(a);
    let right = principal_to_bytes(b);
    bytes_eq(&left, &right)
}

/// Accepts an identifier's instance where it is the registry's own.
pub fn check_scope(marker: &Principal, own: &Principal) -> (r: Result<(), StoreError>)
    ensures
        r is Ok <==> principal_bytes(*marker) == principal_bytes(*own),
        r matches Err(e) ==> e == StoreError::Scope,
{
    if same_principal(marker, own) {
        Ok(())
    } else {
        Err(StoreError::Scope)
    }
}

/// What a publisher's anchor parses to.
#[derive(Debug)]
pub struct PublisherParsedId {
    /// The instance that the anchor names.
    pub canister_id: Principal,
    /// The publisher's identifier, as the bytes under which it is stored.
    pub id: Vec<u8>,
}

/// What the anchor of a code record parses to.
#[derive(Debug)]
pub struct CodeDataParsedId {
    /// The instance that the anchor names.
    pub canister_id: Principal,
    /// The hash of the record's content.
    pub hash: Vec<u8>,
}

/// What the anchor of an API record parses to.
#[derive(Debug)]
pub struct ApiDataParsedId {
    /// The instance that the anchor names.
    pub canister_id: Principal,
    /// The hash of the record's content.
    pub hash: Vec<u8>,
}

/// What a bundle's anchor parses to.
#[derive(Debug)]
pub struct CombinedParsedId {
    /// The instance that the anchor names.
    pub canister_id: Principal,
    /// The hash of the bundle's content.
    pub hash: Vec<u8>,
}

/// The base identifier of a dapp.
#[derive(Clone, Copy, Debug, PartialEq, Eq, Structural)]
pub struct DappId(pub u64);

/// What a dapp's anchor parses to.
#[derive(Debug)]
pub struct DappParsedId {
    /// The instance that the anchor names.
    pub canister_id: Principal,
    /// The dapp's base identifier.
    pub id: DappId,
    /// What tells apart the dapps that share a base identifier.
    pub nonce: Option<u32>,
}

impl PublisherParsedId {
    /// Accepts the identifier where it belongs to the instance `own`.
    pub fn check_canister_id(&self, own: &Principal) -> (r: Result<(), StoreError>)
        ensures
            r is Ok <==> principal_bytes(self.canister_id) == principal_bytes(*own),
            r matches Err(e) ==> e == StoreError::Scope,
    {
        check_scope(&self.canister_id, own)
    }
}

impl CodeDataParsedId {
    /// Accepts the identifier where it belongs to the instance `own`.
    pub fn check_canister_id(&self, own: &Principal) -> (r: Result<(), StoreError>)
        ensures
            r is Ok <==> principal_bytes(self.canister_id) == principal_bytes(*own),
            r matches Err(e) ==> e == StoreError::Scope,
    {
        check_scope(&self.canister_id, own)
    }
}

impl ApiDataParsedId {
    /// Accepts the identifier where it belongs to the instance `own`.
    pub fn check_canister_id(&self, own: &Principal) -> (r: Result<(), StoreError>)
        ensures
            r is Ok <==> principal_bytes(self.canister_id) == principal_bytes(*own),
            r matches Err(e) ==> e == StoreError::Scope,
    {
        check_scope(&self.canister_id, own)
    }
}

impl CombinedParsedId {
    /// Accepts the identifier where it belongs to the instance `own`.
    pub fn check_canister_id(&self, own: &Principal) -> (r: Result<(), StoreError>)
        ensures
            r is Ok <==> principal_bytes(self.canister_id) == principal_bytes(*own),
            r matches Err(e) ==> e == StoreError::Scope,
    {
        check_scope(&self.canister_id, own)
    }
}

impl DappParsedId {
    /// Accepts the identifier where it belongs to the instance `own`.
    pub fn check_canister_id(&self, own: &Principal) -> (r: Result<(), StoreError>)
        ensures
            r is Ok <==> principal_bytes(self.canister_id) == principal_bytes(*own),
            r matches Err(e) ==> e == StoreError::Scope,
    {
        check_scope(&self.canister_id, own)
    }
}

/// The nonce as keys hold it: 0 stands for none.
pub open spec fn canonical_nonce(nonce: Option<u32>) -> Option<u32> {
    match nonce {
        Some(n) => if 0 < n { Some(n) } else { None },
        None => None,
    }
}

/// The twelve bytes under which a dapp is stored: the base identifier in
/// eight bytes, then the nonce in four, both big-endian, 0 for no nonce.
pub open spec fn dapp_key(id: u64, nonce: Option<u32>) -> Seq<u8> {
    be64(id) + be32(
        match nonce {
            Some(n) => n,
            None => 0u32,
        },
    )
}

/// The base identifier that a dapp's key holds.
pub open spec fn dapp_key_id(bytes: Seq<u8>) -> u64 {
    be64_value(bytes.subrange(0, 8))
}

/// The nonce that a dapp's key holds.
pub open spec fn dapp_key_nonce(bytes: Seq<u8>) -> Option<u32> {
    let n = be32_value(bytes.subrange(8, 12));
    if 0 < n {
        Some(n)
    } else {
        None
    }
}

/// The composite key of a dapp: its base identifier and its nonce.
#[derive(Clone, Copy, Debug, PartialEq, Eq, Structural)]
pub struct WrappedDappId(pub DappId, pub Option<u32>);

impl From<DappParsedId> for WrappedDappId {
    fn from(id: DappParsedId) -> (key: Self) {
        WrappedDappId(id.id, id.nonce)
    }
}

impl FromSpecImpl<DappParsedId> for WrappedDappId {
    open spec fn obeys_from_spec() -> bool {
        true
    }

    open spec fn from_spec(id: DappParsedId) -> Self {
        WrappedDappId(id.id, id.nonce)
    }
}

impl WrappedDappId {
    /// The key of the dapp that an identifier names.
    pub fn of(id: &DappParsedId) -> (key: Self)
        ensures
            key == WrappedDappId(id.id, id.nonce),
    {
        WrappedDappId(id.id, id.nonce)
    }

    /// The bytes under which the dapp is stored.
    pub open spec fn key(self) -> Seq<u8> {
        dapp_key(self.0.0, self.1)
    }

    /// Encodes the key in its twelve bytes.
    pub fn to_bytes(&self) -> (bytes: Vec<u8>)
        ensures
            bytes@ == self.key(),
            bytes@.len() == 12,
    {
        let mut bytes: Vec<u8> = Vec::new();
        push_be64(&mut bytes, self.0.0);
        let nonce: u32 = match self.1 {
            Some(n) => n,
            None => 0,
        };
        push_be32(&mut bytes, nonce);
        proof {
            lemma_be64_round_trip(self.0.0);
            lemma_be32_round_trip(nonce);
            assert(bytes@ =~= self.key());
        }
        bytes
    }

    /// Decodes a key from its twelve bytes.
    pub fn from_bytes(bytes: &Vec<u8>) -> (key: Self)
        requires
            bytes@.len() == 12,
        ensures
            key == WrappedDappId(DappId(dapp_key_id(bytes@)), dapp_key_nonce(bytes@)),
    {
        let id = read_be64(bytes, 0);
        let published = read_be32(bytes, 8);
        let nonce = if 0 < published {
            Some(published)
        } else {
            None
        };
        WrappedDappId(DappId(id), nonce)
    }

    /// Decoding an encoded key gives back the base identifier, and the nonce
    /// with 0 read as none; no nonce and the nonce 0 encode alike.
    pub proof fn lemma_key_round_trip(id: u64, nonce: Option<u32>)
        ensures
            dapp_key(id, nonce).len() == 12,
            dapp_key_id(dapp_key(id, nonce)) == id,
            dapp_key_nonce(dapp_key(id, nonce)) == canonical_nonce(nonce),
            dapp_key(id, Some(0u32)) == dapp_key(id, None),
            dapp_key(id, canonical_nonce(nonce)) == dapp_key(id, nonce),
    {
        let n: u32 = match nonce {
            Some(n) => n,
            None => 0u32,
        };
        lemma_be64_round_trip(id);
        lemma_be32_round_trip(n);
        let bytes = dapp_key(id, nonce);
        assert(bytes.subrange(0, 8) =~= be64(id));
        assert(bytes.subrange(8, 12) =~= be32(n));
    }

    /// Two keys are stored under the same bytes exactly when they have the
    /// same base identifier and the same nonce, 0 read as none.
    pub proof fn lemma_key_injective(a: WrappedDappId, b: WrappedDappId)
        ensures
            a.key() == b.key() <==> (a.0 == b.0 && canonical_nonce(a.1) == canonical_nonce(b.1)),
    {
        Self::lemma_key_round_trip(a.0.0, a.1);
        Self::lemma_key_round_trip(b.0.0, b.1);
        Self::lemma_key_round_trip(a.0.0, canonical_nonce(a.1));
        Self::lemma_key_round_trip(b.0.0, canonical_nonce(b.1));
    }
}

} // verus!

use candid::Principal;
use jelly_registry::error::StoreError;
use jelly_registry::types::{check_scope, same_principal, DappId, DappParsedId, PublisherParsedId, WrappedDappId};

#[test]
fn dapp_key_is_eight_bytes_of_id_then_four_of_nonce() {
    let key = WrappedDappId(DappId(0x0102_0304_0506_0708), Some(0x0a0b_0c0d));
    assert_eq!(key.to_bytes(), vec![1, 2, 3, 4, 5, 6, 7, 8, 0x0a, 0x0b, 0x0c, 0x0d]);
}

#[test]
fn dapp_key_without_nonce_ends_in_zeroes() {
    let key = WrappedDappId(DappId(1), None);
    assert_eq!(key.to_bytes(), vec![0, 0, 0, 0, 0, 0, 0, 1, 0, 0, 0, 0]);
}

#[test]
fn dapp_key_nonce_zero_encodes_as_absent() {
    let absent = WrappedDappId(DappId(77), None);
    let zero = WrappedDappId(DappId(77), Some(0));
    assert_eq!(absent.to_bytes(), zero.to_bytes());
    assert_eq!(WrappedDappId::from_bytes(&zero.to_bytes()), absent);
}

#[test]
fn dapp_key_round_trips() {
    for (id, nonce) in [(0u64, None), (1, Some(1u32)), (u64::MAX, Some(u32::MAX)), (123_456_789, Some(42))] {
        let key = WrappedDappId(DappId(id), nonce);
        let bytes = key.to_bytes();
        assert_eq!(bytes.len(), 12);
        assert_eq!(WrappedDappId::from_bytes(&bytes), key);
    }
}

#[test]
fn dapp_key_from_bytes_reads_big_endian() {
    let key = WrappedDappId::from_bytes(&vec![0, 0, 0, 0, 0, 0, 1, 0, 0, 0, 1, 1]);
    assert_eq!(key, WrappedDappId(DappId(256), Some(257)));
}

#[test]
fn dapp_key_from_parsed_id() {
    let parsed = DappParsedId { canister_id: Principal::anonymous(), id: DappId(5), nonce: Some(9) };
    assert_eq!(WrappedDappId::of(&parsed), WrappedDappId(DappId(5), Some(9)));
    assert_eq!(WrappedDappId::from(parsed), WrappedDappId(DappId(5), Some(9)));
}

#[test]
fn same_principal_compares_bytes() {
    let a = Principal::from_slice(&[1, 2, 3]);
    let b = Principal::from_slice(&[1, 2, 3]);
    let c = Principal::from_slice(&[1, 2]);
    assert!(same_principal(&a, &b));
    assert!(!same_principal(&a, &c));
    assert!(!same_principal(&Principal::management_canister(), &Principal::anonymous()));
}

#[test]
fn check_scope_rejects_other_instance() {
    let own = Principal::from_slice(&[7, 7]);
    let other = Principal::from_slice(&[7, 8]);
    assert_eq!(check_scope(&own, &own), Ok(()));
    assert_eq!(check_scope(&other, &own), Err(StoreError::Scope));
    let id = PublisherParsedId { canister_id: other, id: vec![1] };
    assert_eq!(id.check_canister_id(&own), Err(StoreError::Scope));
    assert_eq!(id.check_canister_id(&other), Ok(()));
}

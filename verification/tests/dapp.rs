use candid::Principal;
use jelly_registry::access::{DappAccess, DappAccessView, DappVerified};
use jelly_registry::dapp::{Dapp, DappView};
use jelly_registry::error::StoreError;
use jelly_registry::stable::State;
use jelly_registry::types::{DappId, DappParsedId, TimestampMills, WrappedDappId};

fn own() -> Principal {
    Principal::from_slice(&[1, 1, 1])
}

fn other() -> Principal {
    Principal::from_slice(&[2, 2, 2])
}

fn id(base: u64, nonce: Option<u32>) -> DappParsedId {
    DappParsedId { canister_id: own(), id: DappId(base), nonce }
}

fn now(t: i64) -> TimestampMills {
    TimestampMills(t)
}

fn token(text: &str) -> Option<DappVerified> {
    Some(DappVerified { token: text.to_string() })
}

fn open_access() -> DappAccess {
    DappAccess { earliest: None, latest: None, token: None }
}

fn dapp(access: DappAccess, accessed: u64, called: u64, collected: u64) -> Dapp {
    Dapp {
        id: "dapp-anchor".to_string(),
        info: "content".to_string(),
        frozen: None,
        reason: String::new(),
        access,
        accessed,
        called,
        collected,
    }
}

fn view(access: DappAccessView, accessed: u64, called: u64, collected: u64) -> DappView {
    DappView {
        id: "dapp-anchor".to_string(),
        info: "content".to_string(),
        access,
        accessed,
        called,
        collected,
    }
}

fn open_view() -> DappAccessView {
    DappAccessView { earliest: None, latest: None, token: false }
}

#[test]
fn dapp_update_then_admin_query_returns_what_was_submitted() {
    let mut state = State::new();
    assert_eq!(state.dapp_update(&own(), &id(1, None), dapp(open_access(), 3, 4, 5)), Ok(()));
    assert_eq!(state.dapp_query_by_admin(&own(), &id(1, None)), Ok(dapp(open_access(), 3, 4, 5)));
}

#[test]
fn dapp_update_overwrites_counters_and_policy() {
    let mut state = State::new();
    assert_eq!(state.dapp_update(&own(), &id(1, None), dapp(open_access(), 30, 40, 50)), Ok(()));
    assert_eq!(state.dapp_increment_called_by_admin(&own(), &id(1, None)), Ok(()));
    let restricted = DappAccess { earliest: Some(now(10)), latest: Some(now(20)), token: Some("T".to_string()) };
    assert_eq!(state.dapp_update(&own(), &id(1, None), dapp(restricted, 1, 2, 3)), Ok(()));
    let restricted = DappAccess { earliest: Some(now(10)), latest: Some(now(20)), token: Some("T".to_string()) };
    assert_eq!(state.dapp_query_by_admin(&own(), &id(1, None)), Ok(dapp(restricted, 1, 2, 3)));
}

#[test]
fn dapp_nonce_zero_is_the_key_without_nonce() {
    let mut state = State::new();
    assert_eq!(state.dapp_update(&own(), &id(1, Some(0)), dapp(open_access(), 1, 1, 1)), Ok(()));
    assert_eq!(state.dapp_query_by_admin(&own(), &id(1, None)), Ok(dapp(open_access(), 1, 1, 1)));
    assert_eq!(state.dapp_query_by_admin(&own(), &id(1, Some(1))), Err(StoreError::NotFound { id: 1 }));
    assert_eq!(state.dapp_update(&own(), &id(1, Some(1)), dapp(open_access(), 2, 2, 2)), Ok(()));
    assert_eq!(state.dapp_query_by_admin(&own(), &id(1, Some(0))), Ok(dapp(open_access(), 1, 1, 1)));
    assert_eq!(state.dapp_query_by_admin(&own(), &id(1, Some(1))), Ok(dapp(open_access(), 2, 2, 2)));
}

#[test]
fn dapp_missing_is_reported() {
    let state = State::new();
    assert_eq!(state.dapp_query_by_admin(&own(), &id(9, None)), Err(StoreError::NotFound { id: 9 }));
    assert_eq!(state.dapp_query_by_token(&own(), now(0), &id(9, None), None), Err(StoreError::NotFound { id: 9 }));
    assert_eq!(state.dapp_query_access(&own(), &id(9, None)), Err(StoreError::MissingAccess));
}

#[test]
fn dapp_of_other_instance_is_rejected() {
    let mut state = State::new();
    let foreign = DappParsedId { canister_id: other(), id: DappId(1), nonce: None };
    assert_eq!(state.dapp_update(&own(), &foreign, dapp(open_access(), 0, 0, 0)), Err(StoreError::Scope));
    assert_eq!(state.dapp_query_by_admin(&own(), &foreign), Err(StoreError::Scope));
    assert_eq!(state.dapp_query_access(&own(), &foreign), Err(StoreError::Scope));
    assert_eq!(state.dapp_query_by_token(&own(), now(0), &foreign, None), Err(StoreError::Scope));
    assert_eq!(state.dapp_increment_called_by_admin(&own(), &foreign), Err(StoreError::Scope));
    assert_eq!(state.dapp_update_collected(&own(), &foreign, 1), Err(StoreError::Scope));
    assert_eq!(state.dapp_increment_called_by_token(&own(), now(0), &foreign, None), Err(StoreError::Scope));
    assert_eq!(state.dapp_query_by_admin(&own(), &id(1, None)), Err(StoreError::NotFound { id: 1 }));
}

#[test]
fn increment_called_without_counter_row_creates_none() {
    let mut state = State::new();
    assert_eq!(state.dapp_increment_called_by_admin(&own(), &id(1, None)), Ok(()));
    assert_eq!(state.dapp_increment_called_by_token(&own(), now(0), &id(1, None), None), Ok(()));
    assert_eq!(state.dapp_update_collected(&own(), &id(1, None), 77), Ok(()));
    assert_eq!(state.dapp_query_by_admin(&own(), &id(1, None)), Err(StoreError::NotFound { id: 1 }));
    assert_eq!(state.dapp_update(&own(), &id(1, None), dapp(open_access(), 0, 0, 0)), Ok(()));
    assert_eq!(state.dapp_query_by_admin(&own(), &id(1, None)), Ok(dapp(open_access(), 0, 0, 0)));
}

#[test]
fn increment_called_by_admin_advances_called_only() {
    let mut state = State::new();
    assert_eq!(state.dapp_update(&own(), &id(1, None), dapp(open_access(), 3, 4, 5)), Ok(()));
    assert_eq!(state.dapp_update(&own(), &id(2, None), dapp(open_access(), 3, 4, 5)), Ok(()));
    assert_eq!(state.dapp_increment_called_by_admin(&own(), &id(1, None)), Ok(()));
    assert_eq!(state.dapp_query_by_admin(&own(), &id(1, None)), Ok(dapp(open_access(), 3, 5, 5)));
    assert_eq!(state.dapp_query_by_admin(&own(), &id(2, None)), Ok(dapp(open_access(), 3, 4, 5)));
}

#[test]
fn update_collected_sets_collected_only() {
    let mut state = State::new();
    assert_eq!(state.dapp_update(&own(), &id(1, None), dapp(open_access(), 3, 4, 5)), Ok(()));
    assert_eq!(state.dapp_update_collected(&own(), &id(1, None), 1000), Ok(()));
    assert_eq!(state.dapp_query_by_admin(&own(), &id(1, None)), Ok(dapp(open_access(), 3, 4, 1000)));
}

#[test]
fn public_query_returns_snapshot_and_changes_no_counter() {
    let mut state = State::new();
    assert_eq!(state.dapp_update(&own(), &id(1, None), dapp(open_access(), 3, 4, 5)), Ok(()));
    assert_eq!(state.dapp_query_by_token(&own(), now(0), &id(1, None), None), Ok(view(open_view(), 3, 4, 5)));
    assert_eq!(state.dapp_query_by_token(&own(), now(0), &id(1, None), token("x")), Ok(view(open_view(), 3, 4, 5)));
    assert_eq!(state.dapp_query_by_admin(&own(), &id(1, None)), Ok(dapp(open_access(), 3, 4, 5)));
}

#[test]
fn public_operations_respect_the_window() {
    let mut state = State::new();
    let policy = DappAccess { earliest: Some(now(100)), latest: Some(now(200)), token: None };
    assert_eq!(state.dapp_update(&own(), &id(1, None), dapp(policy, 0, 0, 0)), Ok(()));
    assert_eq!(state.dapp_query_by_token(&own(), now(99), &id(1, None), None), Err(StoreError::AccessDenied { id: 1 }));
    assert_eq!(state.dapp_query_by_token(&own(), now(201), &id(1, None), None), Err(StoreError::AccessDenied { id: 1 }));
    let shown = DappAccessView { earliest: Some(now(100)), latest: Some(now(200)), token: false };
    assert_eq!(state.dapp_query_by_token(&own(), now(100), &id(1, None), None), Ok(view(shown, 0, 0, 0)));
    assert_eq!(
        state.dapp_increment_called_by_token(&own(), now(99), &id(1, None), None),
        Err(StoreError::AccessDenied { id: 1 })
    );
    assert_eq!(state.dapp_increment_called_by_token(&own(), now(200), &id(1, None), None), Ok(()));
    let shown = DappAccessView { earliest: Some(now(100)), latest: Some(now(200)), token: false };
    assert_eq!(state.dapp_query_by_token(&own(), now(150), &id(1, None), None), Ok(view(shown, 0, 1, 0)));
}

#[test]
fn public_operations_respect_the_token() {
    let mut state = State::new();
    let policy = DappAccess { earliest: None, latest: None, token: Some("T".to_string()) };
    assert_eq!(state.dapp_update(&own(), &id(1, None), dapp(policy, 0, 0, 0)), Ok(()));
    assert_eq!(state.dapp_query_by_token(&own(), now(5), &id(1, None), None), Err(StoreError::AccessDenied { id: 1 }));
    assert_eq!(state.dapp_query_by_token(&own(), now(5), &id(1, None), token("X")), Err(StoreError::AccessDenied { id: 1 }));
    assert_eq!(
        state.dapp_increment_called_by_token(&own(), now(5), &id(1, None), token("X")),
        Err(StoreError::AccessDenied { id: 1 })
    );
    assert_eq!(state.dapp_increment_called_by_token(&own(), now(5), &id(1, None), token("T")), Ok(()));
    let shown = DappAccessView { earliest: None, latest: None, token: true };
    assert_eq!(state.dapp_query_by_token(&own(), now(5), &id(1, None), token("T")), Ok(view(shown, 0, 1, 0)));
}

#[test]
fn query_access_shows_the_public_part_of_the_policy() {
    let mut state = State::new();
    let policy = DappAccess { earliest: Some(now(1)), latest: None, token: Some("T".to_string()) };
    assert_eq!(state.dapp_update(&own(), &id(1, Some(3)), dapp(policy, 0, 0, 0)), Ok(()));
    assert_eq!(
        state.dapp_query_access(&own(), &id(1, Some(3))),
        Ok(DappAccessView { earliest: Some(now(1)), latest: None, token: true })
    );
    assert_eq!(state.dapp_query_access(&own(), &id(1, None)), Err(StoreError::MissingAccess));
}

#[test]
fn frozen_dapp_is_shown_to_admin_only() {
    let mut state = State::new();
    let mut frozen = dapp(open_access(), 1, 2, 3);
    frozen.frozen = Some(now(1_000));
    frozen.reason = "terms violated".to_string();
    assert_eq!(state.dapp_update(&own(), &id(1, None), frozen), Ok(()));
    let stored = state.dapp_query_by_admin(&own(), &id(1, None)).unwrap();
    assert_eq!(stored.reason, "terms violated");
    assert_eq!(stored.frozen, Some(now(1_000)));
    assert_eq!(stored.info, "content");
    assert_eq!(
        state.dapp_query_by_token(&own(), now(0), &id(1, None), None),
        Err(StoreError::Frozen { reason: "terms violated".to_string() })
    );
    assert_eq!(state.dapp_update(&own(), &id(1, None), dapp(open_access(), 1, 2, 3)), Ok(()));
    assert_eq!(state.dapp_query_by_token(&own(), now(0), &id(1, None), None), Ok(view(open_view(), 1, 2, 3)));
}

#[test]
fn frozen_dapp_behind_a_policy_reports_denial_first() {
    let mut state = State::new();
    let mut frozen = dapp(DappAccess { earliest: None, latest: None, token: Some("T".to_string()) }, 0, 0, 0);
    frozen.frozen = Some(now(1));
    frozen.reason = "r".to_string();
    assert_eq!(state.dapp_update(&own(), &id(1, None), frozen), Ok(()));
    assert_eq!(state.dapp_query_by_token(&own(), now(0), &id(1, None), None), Err(StoreError::AccessDenied { id: 1 }));
    assert_eq!(
        state.dapp_query_by_token(&own(), now(0), &id(1, None), token("T")),
        Err(StoreError::Frozen { reason: "r".to_string() })
    );
}

#[test]
fn access_check_without_policy_allows_everyone() {
    let state = State::new();
    let key = WrappedDappId(DappId(1), None);
    assert_eq!(state.inner_dapp_access_by_timestamp_and_token(&key, now(i64::MIN), None), Ok(()));
    let presented = DappVerified { token: "anything".to_string() };
    assert_eq!(state.inner_dapp_access_by_timestamp_and_token(&key, now(i64::MAX), Some(&presented)), Ok(()));
}

#[test]
fn query_with_increment_accessed_counts_the_access() {
    let mut state = State::new();
    let key = WrappedDappId(DappId(1), None);
    assert_eq!(state.inner_dapp_query_with_increment_accessed(&key), Err(StoreError::NotFound { id: 1 }));
    assert_eq!(state.dapp_update(&own(), &id(1, None), dapp(open_access(), 3, 4, 5)), Ok(()));
    assert_eq!(state.inner_dapp_query_with_increment_accessed(&key), Ok(view(open_view(), 3, 4, 5)));
    assert_eq!(state.inner_dapp_query_with_increment_accessed(&key), Ok(view(open_view(), 4, 4, 5)));
    assert_eq!(state.dapp_query_by_admin(&own(), &id(1, None)), Ok(dapp(open_access(), 5, 4, 5)));
}

#[test]
fn query_with_increment_accessed_hides_a_frozen_dapp() {
    let mut state = State::new();
    let key = WrappedDappId(DappId(1), None);
    let mut frozen = dapp(open_access(), 3, 4, 5);
    frozen.frozen = Some(now(7));
    frozen.reason = "why".to_string();
    assert_eq!(state.dapp_update(&own(), &id(1, None), frozen), Ok(()));
    let failure = state.inner_dapp_query_with_increment_accessed(&key);
    assert_eq!(failure, Err(StoreError::DappFrozen { id: 1 }));
    assert_eq!(failure.unwrap_err().message(), "dapp is frozen: 1");
    assert_eq!(state.dapp_query_by_admin(&own(), &id(1, None)).unwrap().accessed, 3);
}

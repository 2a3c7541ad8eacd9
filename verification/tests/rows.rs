use candid::Principal;
use jelly_registry::access::DappAccess;
use jelly_registry::apis;
use jelly_registry::dapp::Dapp;
use jelly_registry::error::StoreError;
use jelly_registry::records::{CodeData, Combined, Publisher};
use jelly_registry::stable::{
    State, MEMORY_ID_ADMIN, MEMORY_ID_APIS, MEMORY_ID_CODE, MEMORY_ID_COMBINED, MEMORY_ID_COMBINED_CALLED, MEMORY_ID_DAPP,
    MEMORY_ID_DAPP_ACCESSED, MEMORY_ID_DAPP_ACCESSES, MEMORY_ID_DAPP_CALLED, MEMORY_ID_DAPP_COLLECTED, MEMORY_ID_PUBLISHER,
};
use jelly_registry::types::{CodeDataParsedId, CombinedParsedId, DappId, DappParsedId, PublisherParsedId, TimestampMills};

const REGIONS: [u8; 11] = [
    MEMORY_ID_ADMIN,
    MEMORY_ID_PUBLISHER,
    MEMORY_ID_CODE,
    MEMORY_ID_APIS,
    MEMORY_ID_COMBINED,
    MEMORY_ID_COMBINED_CALLED,
    MEMORY_ID_DAPP,
    MEMORY_ID_DAPP_ACCESSES,
    MEMORY_ID_DAPP_ACCESSED,
    MEMORY_ID_DAPP_CALLED,
    MEMORY_ID_DAPP_COLLECTED,
];

fn own() -> Principal {
    Principal::from_slice(&[1, 1, 1])
}

fn dapp(called: u64) -> Dapp {
    Dapp {
        id: "dapp".to_string(),
        info: "content".to_string(),
        frozen: Some(TimestampMills(5)),
        reason: "why".to_string(),
        access: DappAccess { earliest: None, latest: Some(TimestampMills(9)), token: Some("T".to_string()) },
        accessed: 1,
        called,
        collected: 3,
    }
}

fn filled() -> State {
    let mut state = State::new();
    state.admin_add(Principal::from_slice(&[7]));
    state.admin_add(Principal::from_slice(&[3, 3]));
    let publisher = Publisher { anchor: "p".to_string(), info: "i".to_string() };
    assert_eq!(state.publisher_update(&own(), &PublisherParsedId { canister_id: own(), id: vec![1] }, publisher), Ok(()));
    let code = CodeData { anchor: "c".to_string(), code: "js".to_string(), js: "f()".to_string() };
    assert_eq!(state.code_update(&own(), &CodeDataParsedId { canister_id: own(), hash: vec![2] }, code), Ok(()));
    let combined = Combined { anchor: "b".to_string(), components: vec![vec![2]], called: 4 };
    let combined_id = CombinedParsedId { canister_id: own(), hash: vec![3] };
    assert_eq!(state.combined_update(&own(), &combined_id, combined), Ok(()));
    assert_eq!(state.combined_increment_called(&own(), &combined_id), Ok(()));
    let id = DappParsedId { canister_id: own(), id: DappId(9), nonce: Some(1) };
    assert_eq!(state.dapp_update(&own(), &id, dapp(2)), Ok(()));
    assert_eq!(state.dapp_increment_called_by_admin(&own(), &id), Ok(()));
    state
}

#[test]
fn regions_are_the_stable_ones() {
    assert_eq!(REGIONS, [0, 10, 20, 30, 40, 41, 50, 51, 52, 53, 54]);
}

#[test]
fn new_registry_keeps_no_row() {
    let state = State::new();
    for region in 0..=255u8 {
        assert!(state.rows(region).is_empty());
    }
}

#[test]
fn rows_lists_each_table_in_key_order() {
    let state = filled();
    assert_eq!(state.rows(MEMORY_ID_ADMIN), vec![(vec![3, 3], vec![]), (vec![7], vec![])]);
    assert_eq!(state.rows(MEMORY_ID_PUBLISHER), vec![(vec![1], vec![0, 0, 0, 1, b'p', 0, 0, 0, 1, b'i'])]);
    assert_eq!(state.rows(MEMORY_ID_COMBINED_CALLED), vec![(vec![3], vec![0, 0, 0, 0, 0, 0, 0, 5])]);
    let key = vec![0, 0, 0, 0, 0, 0, 0, 9, 0, 0, 0, 1];
    assert_eq!(state.rows(MEMORY_ID_DAPP_CALLED), vec![(key.clone(), vec![0, 0, 0, 0, 0, 0, 0, 3])]);
    assert_eq!(state.rows(MEMORY_ID_DAPP), vec![(key, dapp(2).encode().unwrap())]);
    assert!(state.rows(MEMORY_ID_APIS).is_empty());
    assert!(state.rows(1).is_empty());
}

#[test]
fn kept_rows_make_the_registry_again() {
    let state = filled();
    let mut again = State::new();
    for region in REGIONS {
        for (key, value) in state.rows(region) {
            assert_eq!(again.restore_row(region, key, value), Ok(()));
        }
    }
    for region in REGIONS {
        assert_eq!(again.rows(region), state.rows(region));
    }
    assert!(again.is_admin(&Principal::from_slice(&[7])));
    let id = DappParsedId { canister_id: own(), id: DappId(9), nonce: Some(1) };
    assert_eq!(again.dapp_query_by_admin(&own(), &id), Ok(dapp(3)));
    let combined_id = CombinedParsedId { canister_id: own(), hash: vec![3] };
    assert_eq!(again.combined_query(&own(), &combined_id).unwrap().called, 5);
}

#[test]
fn restore_row_refuses_what_the_table_cannot_hold() {
    let mut state = State::new();
    assert_eq!(state.restore_row(MEMORY_ID_ADMIN, vec![1; 30], vec![]), Err(StoreError::Validation));
    assert_eq!(state.restore_row(MEMORY_ID_ADMIN, vec![1], vec![0]), Err(StoreError::Validation));
    assert_eq!(state.restore_row(MEMORY_ID_PUBLISHER, vec![1], vec![1, 2, 3]), Err(StoreError::Validation));
    assert_eq!(state.restore_row(MEMORY_ID_CODE, vec![1], vec![]), Err(StoreError::Validation));
    assert_eq!(state.restore_row(MEMORY_ID_DAPP, vec![1], vec![0, 0, 0, 0]), Err(StoreError::Validation));
    assert_eq!(state.restore_row(MEMORY_ID_DAPP_ACCESSES, vec![1], vec![0]), Err(StoreError::Validation));
    assert_eq!(state.restore_row(MEMORY_ID_DAPP_CALLED, vec![1], vec![0; 7]), Err(StoreError::Validation));
    assert_eq!(state.restore_row(MEMORY_ID_COMBINED_CALLED, vec![1], vec![0; 9]), Err(StoreError::Validation));
    assert_eq!(state.restore_row(1, vec![1], vec![]), Err(StoreError::Validation));
    for region in REGIONS {
        assert!(state.rows(region).is_empty());
    }
    assert_eq!(state.restore_row(MEMORY_ID_ADMIN, vec![1; 29], vec![]), Ok(()));
    assert_eq!(state.restore_row(MEMORY_ID_DAPP_CALLED, vec![1], vec![0; 8]), Ok(()));
    assert!(state.is_admin(&Principal::from_slice(&[1; 29])));
}

#[test]
fn counters_are_ready_below_the_largest_number() {
    let mut state = State::new();
    let id = DappParsedId { canister_id: own(), id: DappId(9), nonce: None };
    assert!(state.dapp_called_can_advance(&id));
    assert_eq!(state.dapp_update(&own(), &id, dapp(u64::MAX - 1)), Ok(()));
    assert!(state.dapp_called_can_advance(&id));
    assert_eq!(state.dapp_increment_called_by_admin(&own(), &id), Ok(()));
    assert!(!state.dapp_called_can_advance(&id));
    let foreign = DappParsedId { canister_id: Principal::from_slice(&[2]), id: DappId(9), nonce: None };
    assert_eq!(state.dapp_increment_called_by_admin(&own(), &foreign), Err(StoreError::Scope));
    assert_eq!(
        state.dapp_increment_called_by_token(&own(), TimestampMills(10), &id, None),
        Err(StoreError::AccessDenied { id: 9 })
    );
    assert_eq!(state.dapp_query_by_admin(&own(), &id).unwrap().called, u64::MAX);
}

#[test]
fn ready_says_when_a_call_would_reach_a_full_counter() {
    let mut state = State::new();
    let admin = Principal::from_slice(&[7]);
    let stranger = Principal::from_slice(&[8]);
    apis::initial(&mut state, admin);
    let id = || Ok(DappParsedId { canister_id: own(), id: DappId(9), nonce: None });
    let foreign = Ok(DappParsedId { canister_id: stranger, id: DappId(9), nonce: None });
    assert_eq!(apis::dapp_update(&mut state, &admin, &own(), id(), dapp(u64::MAX)), Ok(()));
    let token = |t: &str| Ok(Some(jelly_registry::access::DappVerified { token: t.to_string() }));
    assert!(!apis::admin_call_ready(&state, &admin, &own(), &id()));
    assert!(apis::admin_call_ready(&state, &stranger, &own(), &id()));
    assert!(apis::admin_call_ready(&state, &admin, &own(), &foreign));
    assert!(apis::admin_call_ready(&state, &admin, &own(), &Err(StoreError::Validation)));
    assert!(!apis::public_call_ready(&state, &own(), TimestampMills(9), &id(), &token("T")));
    assert!(apis::public_call_ready(&state, &own(), TimestampMills(10), &id(), &token("T")));
    assert!(apis::public_call_ready(&state, &own(), TimestampMills(9), &id(), &token("X")));
    assert!(apis::public_call_ready(&state, &own(), TimestampMills(9), &id(), &Ok(None)));
    assert!(apis::public_call_ready(&state, &own(), TimestampMills(9), &id(), &Err(StoreError::Validation)));
    assert!(apis::public_call_ready(&state, &own(), TimestampMills(9), &foreign, &token("T")));
    apis::dapp_increment_called_by_token(&mut state, &own(), TimestampMills(9), id(), token("X"));
    assert_eq!(apis::dapp_increment_called_by_admin(&mut state, &stranger, &own(), id()), Err(StoreError::Permission));
    assert_eq!(state.dapp_query_by_admin(&own(), &id().unwrap()).unwrap().called, u64::MAX);

    let combined_id = || Ok(CombinedParsedId { canister_id: own(), hash: vec![3] });
    assert!(apis::combined_call_ready(&state, &own(), &combined_id()));
    let full = Combined { anchor: "b".to_string(), components: vec![], called: u64::MAX };
    assert_eq!(apis::combined_update(&mut state, &admin, &own(), combined_id(), full), Ok(()));
    assert!(!apis::combined_call_ready(&state, &own(), &combined_id()));
    assert!(state.combined_called_can_advance(&CombinedParsedId { canister_id: own(), hash: vec![4] }));
    assert!(apis::combined_call_ready(&state, &stranger, &combined_id()));
    assert!(apis::combined_call_ready(&state, &own(), &Err(StoreError::Validation)));
}

#[test]
fn access_counter_is_ready_below_the_largest_number() {
    let mut state = State::new();
    let id = DappParsedId { canister_id: own(), id: DappId(9), nonce: None };
    let key = jelly_registry::types::WrappedDappId(DappId(9), None);
    assert!(state.dapp_accessed_can_advance(&key));
    let mut full = dapp(0);
    full.accessed = u64::MAX;
    assert_eq!(state.dapp_update(&own(), &id, full), Ok(()));
    assert!(!state.dapp_accessed_can_advance(&key));
    assert_eq!(state.inner_dapp_query_with_increment_accessed(&key), Err(StoreError::DappFrozen { id: 9 }));
}

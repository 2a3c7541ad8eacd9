use jelly_registry::access::{DappAccess, DappAccessView};
use jelly_registry::dapp::{Dapp, DappView};
use jelly_registry::records::{lists_eq, ApiData, CodeData, Combined, Publisher};
use jelly_registry::text::{text_eq, text_to_bytes};
use jelly_registry::types::TimestampMills;

fn sample_dapp() -> Dapp {
    Dapp {
        id: "dapp-anchor".to_string(),
        info: "{\"title\":\"demo\"}".to_string(),
        frozen: Some(TimestampMills(1_700_000_000_000)),
        reason: "abuse".to_string(),
        access: DappAccess { earliest: Some(TimestampMills(1)), latest: None, token: Some("T".to_string()) },
        accessed: 1,
        called: 2,
        collected: 3,
    }
}

#[test]
fn publisher_row_layout() {
    let publisher = Publisher { anchor: "a".to_string(), info: "bc".to_string() };
    assert_eq!(publisher.encode().unwrap(), vec![0, 0, 0, 1, b'a', 0, 0, 0, 2, b'b', b'c']);
}

#[test]
fn publisher_row_round_trips() {
    let publisher = Publisher { anchor: "publisher#1".to_string(), info: "žluťoučký".to_string() };
    assert_eq!(Publisher::decode(&publisher.encode().unwrap()), Some(publisher));
}

#[test]
fn publisher_decode_rejects_other_rows() {
    assert_eq!(Publisher::decode(&vec![]), None);
    assert_eq!(Publisher::decode(&vec![0, 0, 0, 1, b'a']), None);
    assert_eq!(Publisher::decode(&vec![0, 0, 0, 1, 0xff, 0, 0, 0, 0]), None);
    assert_eq!(Publisher::decode(&vec![0, 0, 0, 1, b'a', 0, 0, 0, 0, 0, 0, 0, 0]), None);
}

#[test]
fn code_row_round_trips() {
    let code = CodeData { anchor: "code#x".to_string(), code: "js".to_string(), js: " let a = 1; ".to_string() };
    let row = code.encode().unwrap();
    assert_eq!(CodeData::decode(&row), Some(code));
    assert_eq!(CodeData::decode(&vec![0, 0, 0, 0, 0, 0, 0, 0]), None);
}

#[test]
fn code_identity_is_kind_and_source_text() {
    let a = CodeData { anchor: "x".to_string(), code: "js".to_string(), js: "f()".to_string() };
    let b = CodeData { anchor: "y".to_string(), code: "js".to_string(), js: "f()".to_string() };
    let c = CodeData { anchor: "x".to_string(), code: "js".to_string(), js: "f() ".to_string() };
    let d = CodeData { anchor: "x".to_string(), code: "ts".to_string(), js: "f()".to_string() };
    let e = CodeData { anchor: "x".to_string(), code: "js".to_string(), js: "\nf()".to_string() };
    assert!(a.same_content(&b));
    assert!(b.same_content(&a));
    assert!(!a.same_content(&c));
    assert!(!a.same_content(&d));
    assert!(!a.same_content(&e));
}

#[test]
fn api_row_round_trips_and_identity_is_content() {
    let api = ApiData { anchor: "api#1".to_string(), content: "{}".to_string() };
    assert_eq!(api.encode().unwrap(), vec![0, 0, 0, 5, b'a', b'p', b'i', b'#', b'1', 0, 0, 0, 2, b'{', b'}']);
    assert_eq!(ApiData::decode(&api.encode().unwrap()), Some(ApiData { anchor: "api#1".to_string(), content: "{}".to_string() }));
    let other_anchor = ApiData { anchor: "api#2".to_string(), content: "{}".to_string() };
    let other_content = ApiData { anchor: "api#1".to_string(), content: "{ }".to_string() };
    assert!(api.same_content(&other_anchor));
    assert!(!api.same_content(&other_content));
}

#[test]
fn combined_row_round_trips_and_identity_is_components() {
    let combined = Combined { anchor: "c".to_string(), components: vec![vec![1, 2], vec![3]], called: 5 };
    let row = combined.encode().unwrap();
    assert_eq!(
        row,
        vec![0, 0, 0, 1, b'c', 0, 0, 0, 11, 0, 0, 0, 2, 1, 2, 0, 0, 0, 1, 3, 0, 0, 0, 8, 0, 0, 0, 0, 0, 0, 0, 5]
    );
    assert_eq!(Combined::decode(&row), Some(Combined { anchor: "c".to_string(), components: vec![vec![1, 2], vec![3]], called: 5 }));
    let same = Combined { anchor: "other".to_string(), components: vec![vec![1, 2], vec![3]], called: 99 };
    let reordered = Combined { anchor: "c".to_string(), components: vec![vec![3], vec![1, 2]], called: 5 };
    assert!(combined.same_content(&same));
    assert!(!combined.same_content(&reordered));
}

#[test]
fn lists_eq_compares_element_by_element() {
    assert!(lists_eq(&vec![], &vec![]));
    assert!(lists_eq(&vec![vec![1], vec![]], &vec![vec![1], vec![]]));
    assert!(!lists_eq(&vec![vec![1]], &vec![vec![1], vec![]]));
    assert!(!lists_eq(&vec![vec![1]], &vec![vec![2]]));
}

#[test]
fn dapp_row_round_trips() {
    let row = sample_dapp().encode().unwrap();
    assert_eq!(Dapp::decode(&row), Some(sample_dapp()));
    let mut active = sample_dapp();
    active.frozen = None;
    active.access = DappAccess { earliest: None, latest: None, token: None };
    assert_eq!(Dapp::decode(&active.encode().unwrap()), Some(active));
}

#[test]
fn dapp_decode_rejects_other_rows() {
    assert_eq!(Dapp::decode(&vec![]), None);
    let publisher = Publisher { anchor: "a".to_string(), info: "b".to_string() };
    assert_eq!(Dapp::decode(&publisher.encode().unwrap()), None);
    let mut row = sample_dapp().encode().unwrap();
    row.pop();
    assert_eq!(Dapp::decode(&row), None);
}

#[test]
fn dapp_view_drops_frozen_state_and_token() {
    assert_eq!(
        sample_dapp().into_view(),
        DappView {
            id: "dapp-anchor".to_string(),
            info: "{\"title\":\"demo\"}".to_string(),
            access: DappAccessView { earliest: Some(TimestampMills(1)), latest: None, token: true },
            accessed: 1,
            called: 2,
            collected: 3,
        }
    );
}

#[test]
fn text_helpers() {
    assert_eq!(text_to_bytes(&"aé".to_string()), vec![b'a', 0xc3, 0xa9]);
    assert!(text_eq(&"abc".to_string(), &"abc".to_string()));
    assert!(!text_eq(&"abc".to_string(), &"abd".to_string()));
}

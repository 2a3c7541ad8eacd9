use candid::Principal;
use jelly_registry::error::StoreError;
use jelly_registry::records::{ApiData, CodeData, Combined, Publisher};
use jelly_registry::stable::State;
use jelly_registry::types::{ApiDataParsedId, CodeDataParsedId, CombinedParsedId, PublisherParsedId};

fn own() -> Principal {
    Principal::from_slice(&[1, 1, 1])
}

fn other() -> Principal {
    Principal::from_slice(&[2, 2, 2])
}

fn publisher_id(id: u8) -> PublisherParsedId {
    PublisherParsedId { canister_id: own(), id: vec![id] }
}

fn code_id(hash: &[u8]) -> CodeDataParsedId {
    CodeDataParsedId { canister_id: own(), hash: hash.to_vec() }
}

fn api_id(hash: &[u8]) -> ApiDataParsedId {
    ApiDataParsedId { canister_id: own(), hash: hash.to_vec() }
}

fn combined_id(hash: &[u8]) -> CombinedParsedId {
    CombinedParsedId { canister_id: own(), hash: hash.to_vec() }
}

fn publisher(info: &str) -> Publisher {
    Publisher { anchor: "publisher".to_string(), info: info.to_string() }
}

fn code(kind: &str, js: &str) -> CodeData {
    CodeData { anchor: "code".to_string(), code: kind.to_string(), js: js.to_string() }
}

fn api(content: &str) -> ApiData {
    ApiData { anchor: "api".to_string(), content: content.to_string() }
}

fn combined(components: &[&[u8]], called: u64) -> Combined {
    Combined { anchor: "combined".to_string(), components: components.iter().map(|c| c.to_vec()).collect(), called }
}

#[test]
fn publisher_update_overwrites() {
    let mut state = State::new();
    assert_eq!(state.publisher_query(&own(), &publisher_id(1)), None);
    assert_eq!(state.publisher_update(&own(), &publisher_id(1), publisher("first")), Ok(()));
    assert_eq!(state.publisher_query(&own(), &publisher_id(1)), Some(publisher("first")));
    assert_eq!(state.publisher_update(&own(), &publisher_id(1), publisher("second")), Ok(()));
    assert_eq!(state.publisher_query(&own(), &publisher_id(1)), Some(publisher("second")));
    assert_eq!(state.publisher_query(&own(), &publisher_id(2)), None);
}

#[test]
fn publisher_of_other_instance_is_rejected() {
    let mut state = State::new();
    let foreign = PublisherParsedId { canister_id: other(), id: vec![1] };
    assert_eq!(state.publisher_update(&own(), &foreign, publisher("x")), Err(StoreError::Scope));
    assert_eq!(state.publisher_query(&other(), &foreign), None);
    assert_eq!(state.publisher_update(&own(), &publisher_id(1), publisher("x")), Ok(()));
    assert_eq!(state.publisher_query(&own(), &foreign), None);
}

#[test]
fn code_update_is_idempotent() {
    let mut state = State::new();
    assert_eq!(state.code_update(&own(), &code_id(&[1]), code("js", "f()")), Ok(()));
    assert_eq!(state.code_update(&own(), &code_id(&[1]), code("js", "f()")), Ok(()));
    assert_eq!(state.code_query(&own(), &code_id(&[1])), Some(code("js", "f()")));
}

#[test]
fn code_update_with_other_content_is_a_conflict() {
    let mut state = State::new();
    assert_eq!(state.code_update(&own(), &code_id(&[1]), code("js", "f()")), Ok(()));
    let exists = |code: &str, js: &str| {
        Err(StoreError::CodeExists {
            stored_code: "js".to_string(),
            stored_js: "f()".to_string(),
            code: code.to_string(),
            js: js.to_string(),
        })
    };
    assert_eq!(state.code_update(&own(), &code_id(&[1]), code("js", "g()")), exists("js", "g()"));
    assert_eq!(state.code_update(&own(), &code_id(&[1]), code("js", " f() ")), exists("js", " f() "));
    assert_eq!(state.code_update(&own(), &code_id(&[1]), code("ts", "f()")), exists("ts", "f()"));
    assert_eq!(state.code_query(&own(), &code_id(&[1])), Some(code("js", "f()")));
    assert_eq!(state.code_update(&own(), &code_id(&[2]), code("js", "g()")), Ok(()));
    assert_eq!(state.code_query(&own(), &code_id(&[2])), Some(code("js", "g()")));
}

#[test]
fn code_of_other_instance_is_rejected() {
    let mut state = State::new();
    let foreign = CodeDataParsedId { canister_id: other(), hash: vec![1] };
    assert_eq!(state.code_update(&own(), &foreign, code("js", "f()")), Err(StoreError::Scope));
    assert_eq!(state.code_query(&own(), &code_id(&[1])), None);
}

#[test]
fn api_update_is_idempotent_and_detects_conflict() {
    let mut state = State::new();
    assert_eq!(state.apis_query(&own(), &api_id(&[9, 9])), None);
    assert_eq!(state.apis_update(&own(), &api_id(&[9, 9]), api("{}")), Ok(()));
    assert_eq!(state.apis_update(&own(), &api_id(&[9, 9]), api("{}")), Ok(()));
    assert_eq!(state.apis_update(&own(), &api_id(&[9, 9]), api("{ }")), Err(StoreError::ApiExists));
    assert_eq!(state.apis_query(&own(), &api_id(&[9, 9])), Some(api("{}")));
    let foreign = ApiDataParsedId { canister_id: other(), hash: vec![9, 9] };
    assert_eq!(state.apis_update(&own(), &foreign, api("{}")), Err(StoreError::Scope));
    assert_eq!(state.apis_query(&own(), &foreign), None);
}

#[test]
fn tables_do_not_share_keys() {
    let mut state = State::new();
    assert_eq!(state.code_update(&own(), &code_id(&[1]), code("js", "f()")), Ok(()));
    assert_eq!(state.apis_query(&own(), &api_id(&[1])), None);
    assert_eq!(state.combined_query(&own(), &combined_id(&[1])), None);
    assert_eq!(state.apis_update(&own(), &api_id(&[1]), api("{}")), Ok(()));
    assert_eq!(state.code_query(&own(), &code_id(&[1])), Some(code("js", "f()")));
}

#[test]
fn combined_update_seeds_the_counter() {
    let mut state = State::new();
    assert_eq!(state.combined_update(&own(), &combined_id(&[5]), combined(&[&[1], &[2]], 7)), Ok(()));
    assert_eq!(state.combined_query(&own(), &combined_id(&[5])), Some(combined(&[&[1], &[2]], 7)));
}

#[test]
fn combined_increment_called_advances_the_counter() {
    let mut state = State::new();
    assert_eq!(state.combined_update(&own(), &combined_id(&[5]), combined(&[&[1]], 7)), Ok(()));
    assert_eq!(state.combined_increment_called(&own(), &combined_id(&[5])), Ok(()));
    assert_eq!(state.combined_increment_called(&own(), &combined_id(&[5])), Ok(()));
    assert_eq!(state.combined_query(&own(), &combined_id(&[5])), Some(combined(&[&[1]], 9)));
}

#[test]
fn combined_increment_called_creates_no_counter() {
    let mut state = State::new();
    assert_eq!(state.combined_increment_called(&own(), &combined_id(&[5])), Ok(()));
    assert_eq!(state.combined_query(&own(), &combined_id(&[5])), None);
    assert_eq!(state.combined_update(&own(), &combined_id(&[5]), combined(&[&[1]], 0)), Ok(()));
    assert_eq!(state.combined_query(&own(), &combined_id(&[5])), Some(combined(&[&[1]], 0)));
}

#[test]
fn combined_resubmitted_keeps_its_counter() {
    let mut state = State::new();
    assert_eq!(state.combined_update(&own(), &combined_id(&[5]), combined(&[&[1]], 7)), Ok(()));
    assert_eq!(state.combined_increment_called(&own(), &combined_id(&[5])), Ok(()));
    assert_eq!(state.combined_update(&own(), &combined_id(&[5]), combined(&[&[1]], 100)), Ok(()));
    assert_eq!(state.combined_query(&own(), &combined_id(&[5])), Some(combined(&[&[1]], 8)));
}

#[test]
fn combined_with_other_components_is_a_conflict() {
    let mut state = State::new();
    assert_eq!(state.combined_update(&own(), &combined_id(&[5]), combined(&[&[1]], 7)), Ok(()));
    assert_eq!(state.combined_update(&own(), &combined_id(&[5]), combined(&[&[2]], 7)), Err(StoreError::CombinedExists));
    assert_eq!(state.combined_query(&own(), &combined_id(&[5])), Some(combined(&[&[1]], 7)));
}

#[test]
fn combined_of_other_instance_is_rejected() {
    let mut state = State::new();
    let foreign = CombinedParsedId { canister_id: other(), hash: vec![5] };
    assert_eq!(state.combined_update(&own(), &foreign, combined(&[&[1]], 7)), Err(StoreError::Scope));
    assert_eq!(state.combined_increment_called(&own(), &foreign), Err(StoreError::Scope));
    assert_eq!(state.combined_query(&own(), &foreign), None);
    assert_eq!(state.combined_query(&own(), &combined_id(&[5])), None);
}

#[test]
fn default_state_is_empty() {
    let state = State::default();
    assert_eq!(state.publisher_query(&own(), &publisher_id(0)), None);
    assert_eq!(state.code_query(&own(), &code_id(&[])), None);
    assert!(state.admin_query().is_empty());
}

//! What holds of the registry whatever it stores.

use vstd::prelude::*;
use crate::access::AccessModel;
use crate::dapp::{DappModel, DappViewModel};
use crate::error::ErrorModel;
use crate::fields::lemma_count_round_trip;
use crate::model::{bumped, count_at, lemma_put_row, reads_api, reads_bundle, reads_code, reads_count, reads_dapp, reads_policy, reads_publisher, Rows, StateModel};
use crate::principal::MAX_PRINCIPAL_LEN;
use crate::stable::{MEMORY_ID_ADMIN, MEMORY_ID_APIS, MEMORY_ID_CODE, MEMORY_ID_COMBINED, MEMORY_ID_DAPP, MEMORY_ID_DAPP_ACCESSES, MEMORY_ID_PUBLISHER};
use crate::records::{ApiModel, CodeModel, CombinedModel, PublisherModel};

verus! {

/// Submitting a code record a second time changes nothing: the registry
/// after two equal updates is the registry after the first, and the second
/// succeeds where the first did.
pub proof fn lemma_code_update_idempotent(s: StateModel, scope: bool, hash: Seq<u8>, code: CodeModel)
    ensures
        ({
            let once = s.after_code_update(scope, hash, code);
            &&& once.after_code_update(scope, hash, code) == once
            &&& s.code_update_result(scope, hash, code) is Ok ==> once.code_update_result(scope, hash, code) is Ok
        }),
{
    if scope && s.code_at(hash) is None && code.storable() {
        code.lemma_round_trip();
    }
}

/// Submitting an API record a second time changes nothing: the registry
/// after two equal updates is the registry after the first, and the second
/// succeeds where the first did.
pub proof fn lemma_api_update_idempotent(s: StateModel, scope: bool, hash: Seq<u8>, api: ApiModel)
    ensures
        ({
            let once = s.after_api_update(scope, hash, api);
            &&& once.after_api_update(scope, hash, api) == once
            &&& s.api_update_result(scope, hash, api) is Ok ==> once.api_update_result(scope, hash, api) is Ok
        }),
{
    if scope && s.api_at(hash) is None && api.storable() {
        api.lemma_round_trip();
    }
}

/// Submitting a bundle a second time changes nothing, its counter
/// included: the registry after two equal updates is the registry after
/// the first, and the second succeeds where the first did.
pub proof fn lemma_combined_update_idempotent(s: StateModel, scope: bool, hash: Seq<u8>, combined: CombinedModel)
    ensures
        ({
            let once = s.after_combined_update(scope, hash, combined);
            &&& once.after_combined_update(scope, hash, combined) == once
            &&& s.combined_update_result(scope, hash, combined) is Ok ==> once.combined_update_result(
                scope,
                hash,
                combined,
            ) is Ok
        }),
{
    if scope && s.combined_at(hash) is None && combined.storable() {
        combined.lemma_round_trip();
    }
}

/// Submitting a code record whose content differs from the one stored
/// under the hash is a conflict, and leaves every row of the registry as
/// it was.
pub proof fn lemma_code_conflict_changes_nothing(s: StateModel, hash: Seq<u8>, stored: CodeModel, code: CodeModel)
    requires
        s.code_at(hash) == Some(stored),
        !stored.same_content(code),
    ensures
        s.code_update_result(true, hash, code) == Err::<(), ErrorModel>(
            ErrorModel::CodeExists { stored_code: stored.code, stored_js: stored.js, code: code.code, js: code.js },
        ),
        s.after_code_update(true, hash, code) == s,
{
}

/// Submitting an API record whose content differs from the one stored
/// under the hash is a conflict, and leaves every row of the registry as
/// it was.
pub proof fn lemma_api_conflict_changes_nothing(s: StateModel, hash: Seq<u8>, stored: ApiModel, api: ApiModel)
    requires
        s.api_at(hash) == Some(stored),
        !stored.same_content(api),
    ensures
        s.api_update_result(true, hash, api) == Err::<(), ErrorModel>(ErrorModel::ApiExists),
        s.after_api_update(true, hash, api) == s,
{
}

/// Submitting a bundle whose components differ from those of the one
/// stored under the hash is a conflict, and leaves every row of the
/// registry as it was.
pub proof fn lemma_combined_conflict_changes_nothing(
    s: StateModel,
    hash: Seq<u8>,
    stored: CombinedModel,
    combined: CombinedModel,
)
    requires
        s.combined_at(hash) == Some(stored),
        !stored.same_content(combined),
    ensures
        s.combined_update_result(true, hash, combined) == Err::<(), ErrorModel>(ErrorModel::CombinedExists),
        s.after_combined_update(true, hash, combined) == s,
{
}

/// Advancing the counter of a key that has no row leaves the table as it
/// was: the key still has no row, not a row that holds 1.
pub proof fn lemma_increment_creates_no_row(rows: Rows, key: Seq<u8>)
    requires
        !rows.contains_key(key),
    ensures
        bumped(rows, key) == rows,
        !bumped(rows, key).contains_key(key),
        count_at(bumped(rows, key), key) is None,
{
}

/// Advancing the counter of a key that has a row moves that counter by
/// one and no other.
pub proof fn lemma_increment_advances(rows: Rows, key: Seq<u8>, n: u64, other: Seq<u8>)
    requires
        count_at(rows, key) == Some(n),
        n < u64::MAX,
        other != key,
    ensures
        count_at(bumped(rows, key), key) == Some((n + 1) as u64),
        count_at(bumped(rows, key), other) == count_at(rows, other),
{
    lemma_count_round_trip((n + 1) as u64);
}

/// A dapp that an administrator has stored is the dapp that an
/// administrator reads back: the record, its policy and its three counters
/// as submitted, whatever was stored under the key before.
pub proof fn lemma_dapp_update_then_query(s: StateModel, key: Seq<u8>, id: u64, dapp: DappModel)
    requires
        dapp.storable(),
    ensures
        s.dapp_update_result(true, dapp) is Ok,
        s.after_dapp_update(true, key, dapp).dapp_admin_query_result(true, key, id) == Ok::<DappModel, ErrorModel>(
            dapp,
        ),
{
    dapp.lemma_round_trip();
    dapp.access.lemma_round_trip();
    lemma_count_round_trip(dapp.accessed);
    lemma_count_round_trip(dapp.called);
    lemma_count_round_trip(dapp.collected);
}

/// A frozen dapp is hidden from the public and shown to an administrator:
/// the public's query fails, with the reason of the freeze where the
/// policy lets the caller through, and the administrator's query returns
/// the dapp where its policy is stored.
pub proof fn lemma_frozen_dapp_is_hidden(
    s: StateModel,
    key: Seq<u8>,
    id: u64,
    stored: DappModel,
    now: i64,
    presented: Option<Seq<char>>,
)
    requires
        s.dapp_at(key) == Some(stored),
        stored.frozen is Some,
    ensures
        s.dapp_query_result(key, id, false) == Err::<DappModel, ErrorModel>(
            ErrorModel::Frozen { reason: stored.reason },
        ),
        s.dapp_token_query_result(true, key, id, now, presented) is Err,
        s.allows(key, now, presented) ==> s.dapp_token_query_result(true, key, id, now, presented) == Err::<
            DappViewModel,
            ErrorModel,
        >(ErrorModel::Frozen { reason: stored.reason }),
        s.access_at(key) is Some ==> s.dapp_admin_query_result(true, key, id) == Ok::<DappModel, ErrorModel>(
            s.dapp_snapshot(key).unwrap(),
        ),
{
}

/// An identifier of another instance changes nothing, whatever the
/// operation.
pub proof fn lemma_out_of_scope_changes_nothing(
    s: StateModel,
    key: Seq<u8>,
    publisher: PublisherModel,
    code: CodeModel,
    api: ApiModel,
    combined: CombinedModel,
    dapp: DappModel,
    value: u64,
)
    ensures
        s.after_publisher_update(false, key, publisher) == s,
        s.after_code_update(false, key, code) == s,
        s.after_api_update(false, key, api) == s,
        s.after_combined_update(false, key, combined) == s,
        s.after_combined_called(false, key) == s,
        s.after_dapp_update(false, key, dapp) == s,
        s.after_dapp_collected(false, key, value) == s,
        s.publisher_update_result(false, key, publisher) is Err,
        s.code_update_result(false, key, code) is Err,
        s.api_update_result(false, key, api) is Err,
        s.combined_update_result(false, key, combined) is Err,
        s.dapp_update_result(false, dapp) is Err,
{
}

/// A dapp update puts the submitted record, policy and counters under the
/// key, each in its table, and touches nothing else: no other key of the
/// five tables and no other table.
pub proof fn lemma_dapp_update_stores(s: StateModel, key: Seq<u8>, dapp: DappModel, other: Seq<u8>)
    requires
        dapp.storable(),
        other != key,
    ensures
        ({
            let after = s.after_dapp_update(true, key, dapp);
            &&& after.dapp_at(key) == Some(dapp)
            &&& after.access_at(key) == Some(dapp.access)
            &&& count_at(after.dapp_accessed, key) == Some(dapp.accessed)
            &&& count_at(after.dapp_called, key) == Some(dapp.called)
            &&& count_at(after.dapp_collected, key) == Some(dapp.collected)
            &&& after.dapp_at(other) == s.dapp_at(other)
            &&& after.access_at(other) == s.access_at(other)
            &&& count_at(after.dapp_accessed, other) == count_at(s.dapp_accessed, other)
            &&& count_at(after.dapp_called, other) == count_at(s.dapp_called, other)
            &&& count_at(after.dapp_collected, other) == count_at(s.dapp_collected, other)
            &&& after.admin == s.admin
            &&& after.publisher == s.publisher
            &&& after.code == s.code
            &&& after.apis == s.apis
            &&& after.combined == s.combined
            &&& after.combined_called == s.combined_called
        }),
{
    dapp.lemma_round_trip();
    dapp.access.lemma_round_trip();
    lemma_count_round_trip(dapp.accessed);
    lemma_count_round_trip(dapp.called);
    lemma_count_round_trip(dapp.collected);
}

/// Every row that a registry holds can be put back: its table accepts it,
/// and putting it into the registry that holds it changes nothing.
pub proof fn lemma_kept_row_can_be_restored(s: StateModel, region: u8, key: Seq<u8>)
    requires
        s.wf(),
        s.rows_of(region).contains_key(key),
    ensures
        StateModel::row_fits(region, key, s.rows_of(region)[key]),
        s.with_row(region, key, s.rows_of(region)[key]) == s,
{
    let value = s.rows_of(region)[key];
    let after = s.with_row(region, key, value);
    assert(after.admin =~= s.admin);
    assert(after.publisher =~= s.publisher);
    assert(after.code =~= s.code);
    assert(after.apis =~= s.apis);
    assert(after.combined =~= s.combined);
    assert(after.combined_called =~= s.combined_called);
    assert(after.dapp =~= s.dapp);
    assert(after.dapp_accesses =~= s.dapp_accesses);
    assert(after.dapp_accessed =~= s.dapp_accessed);
    assert(after.dapp_called =~= s.dapp_called);
    assert(after.dapp_collected =~= s.dapp_collected);
}

/// A row that is put back is then held by the table of its region, which
/// keeps its other rows; the tables of the other regions keep theirs, and
/// every row still holds what its table is for.
pub proof fn lemma_restored_row_is_kept(s: StateModel, region: u8, key: Seq<u8>, value: Seq<u8>, other: u8)
    requires
        s.wf(),
        StateModel::row_fits(region, key, value),
        other != region,
    ensures
        s.with_row(region, key, value).wf(),
        s.with_row(region, key, value).rows_of(region) == s.rows_of(region).insert(key, value),
        s.with_row(region, key, value).rows_of(other) == s.rows_of(other),
{
    let after = s.with_row(region, key, value);
    if region == MEMORY_ID_ADMIN {
        assert(value =~= Seq::<u8>::empty());
        assert(after.rows_of(region) =~= s.rows_of(region).insert(key, value));
        assert forall|k: Seq<u8>| #[trigger] after.admin.contains(k) implies k.len() <= MAX_PRINCIPAL_LEN by {
            if k != key {
                assert(s.admin.contains(k));
            }
        }
    } else if region == MEMORY_ID_PUBLISHER {
        lemma_put_row(s.publisher, reads_publisher(), key, value);
    } else if region == MEMORY_ID_CODE {
        lemma_put_row(s.code, reads_code(), key, value);
    } else if region == MEMORY_ID_APIS {
        lemma_put_row(s.apis, reads_api(), key, value);
    } else if region == MEMORY_ID_COMBINED {
        lemma_put_row(s.combined, reads_bundle(), key, value);
    } else if region == MEMORY_ID_DAPP {
        lemma_put_row(s.dapp, reads_dapp(), key, value);
    } else if region == MEMORY_ID_DAPP_ACCESSES {
        lemma_put_row(s.dapp_accesses, reads_policy(), key, value);
    } else {
        lemma_put_row(s.rows_of(region), reads_count(), key, value);
    }
}

/// The query that counts the access fails on a frozen dapp with a failure
/// that names the key and not the reason, and counts nothing. On a dapp
/// that is not frozen and has a policy it shows the access counter as it
/// was, and the counter then stands one higher.
pub proof fn lemma_counted_query(s: StateModel, key: Seq<u8>, id: u64, stored: DappModel, policy: AccessModel, a: u64)
    requires
        s.dapp_at(key) == Some(stored),
        s.access_at(key) == Some(policy),
        count_at(s.dapp_accessed, key) == Some(a),
        a < u64::MAX,
    ensures
        stored.frozen is Some ==> s.dapp_counted_query_result(key, id) == Err::<DappViewModel, ErrorModel>(
            ErrorModel::DappFrozen { id },
        ),
        stored.frozen is Some ==> s.after_dapp_accessed(s.dapp_counted_query_result(key, id) is Ok, key) == s,
        stored.frozen is None ==> (s.dapp_counted_query_result(key, id) matches Ok(shown) && shown.accessed == a),
        stored.frozen is None ==> count_at(
            s.after_dapp_accessed(s.dapp_counted_query_result(key, id) is Ok, key).dapp_accessed,
            key,
        ) == Some((a + 1) as u64),
{
    lemma_count_round_trip((a + 1) as u64);
}

} // verus!

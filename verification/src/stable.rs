//! The registry: its tables and the operations on them.

use vstd::prelude::*;
use candid::Principal;
use crate::access::{presented, presented_token, DappAccess, DappAccessView, DappVerified};
use crate::admin::{principals_view, AdminUsers};
use crate::codec::copy_range;
use crate::counter::CounterTable;
use crate::dapp::{Dapp, DappView};
use crate::error::{done, outcome, StoreError};
use crate::model::{can_advance, count_at, lemma_put_row, reads_api, reads_bundle, reads_code, reads_dapp, reads_policy, reads_publisher, StateModel};
use crate::fields::decode_count;
use crate::principal::{principal_bytes, MAX_PRINCIPAL_LEN};
use crate::records::{ApiData, CodeData, Combined, Publisher};
use crate::table::{bytes_lt, fresh_regions, keys_of, lists_rows, max_entry_len, open_region, rows_view, table_dump, table_get, table_insert, table_rows, Table};
use crate::types::{ApiDataParsedId, CodeDataParsedId, CombinedParsedId, DappParsedId, PublisherParsedId, TimestampMills, WrappedDappId};

verus! {

/// The region of the administrators.
pub const MEMORY_ID_ADMIN: u8 = 0;

/// The region of the publishers.
pub const MEMORY_ID_PUBLISHER: u8 = 10;

/// The region of the code records.
pub const MEMORY_ID_CODE: u8 = 20;

/// The region of the API records.
pub const MEMORY_ID_APIS: u8 = 30;

/// The region of the bundles.
pub const MEMORY_ID_COMBINED: u8 = 40;

/// The region of the bundles' call counters.
pub const MEMORY_ID_COMBINED_CALLED: u8 = 41;

/// The region of the dapps.
pub const MEMORY_ID_DAPP: u8 = 50;

/// The region of the dapps' access policies.
pub const MEMORY_ID_DAPP_ACCESSES: u8 = 51;

/// The region of the dapps' access counters.
pub const MEMORY_ID_DAPP_ACCESSED: u8 = 52;

/// The region of the dapps' call counters.
pub const MEMORY_ID_DAPP_CALLED: u8 = 53;

/// The region of what the dapps have collected.
pub const MEMORY_ID_DAPP_COLLECTED: u8 = 54;

/// The registry. Each table lives in a region of its own.
pub struct State {
    admin: AdminUsers,
    publisher: Table,
    code: Table,
    apis: Table,
    combined: Table,
    combined_called: CounterTable,
    dapp: Table,
    dapp_accesses: Table,
    dapp_accessed: CounterTable,
    dapp_called: CounterTable,
    dapp_collected: CounterTable,
}

impl View for State {
    type V = StateModel;

    closed spec fn view(&self) -> StateModel {
        StateModel {
            admin: self.admin@,
            publisher: table_rows(self.publisher),
            code: table_rows(self.code),
            apis: table_rows(self.apis),
            combined: table_rows(self.combined),
            combined_called: self.combined_called@,
            dapp: table_rows(self.dapp),
            dapp_accesses: table_rows(self.dapp_accesses),
            dapp_accessed: self.dapp_accessed@,
            dapp_called: self.dapp_called@,
            dapp_collected: self.dapp_collected@,
        }
    }
}

impl Default for State {
    fn default() -> (state: State)
        ensures
            state.wf(),
            state@ == StateModel::empty(),
    {
        State::new()
    }
}

/// Whether an identifier's instance is the registry's own.
pub open spec fn in_scope(marker: Principal, own: Principal) -> bool {
    principal_bytes(marker) == principal_bytes(own)
}

/// A copy of a key, where the key is short enough to be stored.
fn key_that_fits(key: &Vec<u8>) -> (copy: Option<Vec<u8>>)
    ensures
        copy is Some <==> key@.len() <= max_entry_len(),
        copy matches Some(k) ==> k@ == key@,
{
    if key.len() > 0xffff_ffff {
        return None;
    }
    let copy = copy_range(key, 0, key.len());
    assert(copy@ =~= key@);
    Some(copy)
}

impl State {
    /// Every row holds what its table is for.
    pub open spec fn wf(&self) -> bool {
        self@.wf()
    }

    /// A registry without a row, its tables in the regions of a memory of
    /// its own. The memory is volatile: it ends with the registry. What is
    /// to outlast the registry is taken out with `rows` and put into a new
    /// registry with `restore_row`.
    pub fn new() -> (state: State)
        ensures
            state.wf(),
            state@ == StateModel::empty(),
    {
        let mut regions = fresh_regions();
        let admin = AdminUsers::new(open_region(&mut regions, MEMORY_ID_ADMIN));
        let publisher = open_region(&mut regions, MEMORY_ID_PUBLISHER);
        let code = open_region(&mut regions, MEMORY_ID_CODE);
        let apis = open_region(&mut regions, MEMORY_ID_APIS);
        let combined = open_region(&mut regions, MEMORY_ID_COMBINED);
        let combined_called = CounterTable::new(open_region(&mut regions, MEMORY_ID_COMBINED_CALLED));
        let dapp = open_region(&mut regions, MEMORY_ID_DAPP);
        let dapp_accesses = open_region(&mut regions, MEMORY_ID_DAPP_ACCESSES);
        let dapp_accessed = CounterTable::new(open_region(&mut regions, MEMORY_ID_DAPP_ACCESSED));
        let dapp_called = CounterTable::new(open_region(&mut regions, MEMORY_ID_DAPP_CALLED));
        let dapp_collected = CounterTable::new(open_region(&mut regions, MEMORY_ID_DAPP_COLLECTED));
        State {
            admin,
            publisher,
            code,
            apis,
            combined,
            combined_called,
            dapp,
            dapp_accesses,
            dapp_accessed,
            dapp_called,
            dapp_collected,
        }
    }

    fn read_publisher(&self, key: &Vec<u8>) -> (r: Option<Publisher>)
        requires
            self.wf(),
        ensures
            r is Some <==> self@.publisher_at(key@) is Some,
            r matches Some(p) ==> self@.publisher_at(key@) == Some(p@),
    {
        match table_get(&self.publisher, key) {
            Some(row) => Publisher::decode(&row),
            None => None,
        }
    }

    fn read_code(&self, key: &Vec<u8>) -> (r: Option<CodeData>)
        requires
            self.wf(),
        ensures
            r is Some <==> self@.code_at(key@) is Some,
            r matches Some(c) ==> self@.code_at(key@) == Some(c@),
    {
        match table_get(&self.code, key) {
            Some(row) => CodeData::decode(&row),
            None => None,
        }
    }

    fn read_api(&self, key: &Vec<u8>) -> (r: Option<ApiData>)
        requires
            self.wf(),
        ensures
            r is Some <==> self@.api_at(key@) is Some,
            r matches Some(a) ==> self@.api_at(key@) == Some(a@),
    {
        match table_get(&self.apis, key) {
            Some(row) => ApiData::decode(&row),
            None => None,
        }
    }

    fn read_combined(&self, key: &Vec<u8>) -> (r: Option<Combined>)
        requires
            self.wf(),
        ensures
            r is Some <==> self@.combined_at(key@) is Some,
            r matches Some(c) ==> self@.combined_at(key@) == Some(c@),
    {
        match table_get(&self.combined, key) {
            Some(row) => Combined::decode(&row),
            None => None,
        }
    }

    fn read_dapp(&self, key: &Vec<u8>) -> (r: Option<Dapp>)
        requires
            self.wf(),
        ensures
            r is Some <==> self@.dapp_at(key@) is Some,
            r matches Some(d) ==> self@.dapp_at(key@) == Some(d@),
    {
        match table_get(&self.dapp, key) {
            Some(row) => Dapp::decode(&row),
            None => None,
        }
    }

    fn read_access(&self, key: &Vec<u8>) -> (r: Option<DappAccess>)
        requires
            self.wf(),
        ensures
            r is Some <==> self@.access_at(key@) is Some,
            r matches Some(a) ==> self@.access_at(key@) == Some(a@),
    {
        match table_get(&self.dapp_accesses, key) {
            Some(row) => DappAccess::decode(&row),
            None => None,
        }
    }

    // ================== admin ==================

    /// Whether `caller` is an administrator.
    pub fn is_admin(&self, caller: &Principal) -> (member: bool)
        ensures
            member == self@.admin.contains(principal_bytes(*caller)),
    {
        self.admin.is_admin(caller)
    }

    /// Makes `user` an administrator.
    pub fn admin_add(&mut self, user: Principal)
        requires
            old(self).wf(),
        ensures
            final(self).wf(),
            final(self)@ == (StateModel { admin: old(self)@.admin.insert(principal_bytes(user)), ..old(self)@ }),
    {
        self.admin.insert(&user);
    }

    /// Takes `user` out of the administrators.
    pub fn admin_remove(&mut self, user: &Principal)
        requires
            old(self).wf(),
        ensures
            final(self).wf(),
            final(self)@ == (StateModel { admin: old(self)@.admin.remove(principal_bytes(*user)), ..old(self)@ }),
    {
        self.admin.remove(user);
    }

    /// The administrators, each once, in the ascending order of their
    /// bytes.
    pub fn admin_query(&self) -> (list: Vec<Principal>)
        requires
            self.wf(),
        ensures
            forall|k: Seq<u8>| self@.admin.contains(k) <==> principals_view(list).contains(k),
            forall|i: int, j: int|
                0 <= i < j < list@.len() ==> bytes_lt(
                    #[trigger] principals_view(list)[i],
                    #[trigger] principals_view(list)[j],
                ),
    {
        self.admin.list()
    }

    // ================== publisher ==================

    /// Stores a publisher under its identifier, in place of what was
    /// stored there.
    pub fn publisher_update(&mut self, own: &Principal, id: &PublisherParsedId, publisher: Publisher) -> (r: Result<
        (),
        StoreError,
    >)
        requires
            old(self).wf(),
        ensures
            final(self).wf(),
            done(r) == old(self)@.publisher_update_result(in_scope(id.canister_id, *own), id.id@, publisher@),
            final(self)@ == old(self)@.after_publisher_update(in_scope(id.canister_id, *own), id.id@, publisher@),
    {
        if id.check_canister_id(own).is_err() {
            return Err(StoreError::Scope);
        }
        let row = match publisher.encode() {
            Some(row) => row,
            None => return Err(StoreError::Validation),
        };
        let key = match key_that_fits(&id.id) {
            Some(key) => key,
            None => return Err(StoreError::Validation),
        };
        proof {
            publisher@.lemma_round_trip();
        }
        table_insert(&mut self.publisher, key, row);
        proof {
            lemma_put_row(old(self)@.publisher, reads_publisher(), id.id@, self@.publisher[id.id@]);
        }
        Ok(())
    }

    /// The publisher stored under an identifier in scope.
    pub fn publisher_query(&self, own: &Principal, id: &PublisherParsedId) -> (r: Option<Publisher>)
        requires
            self.wf(),
        ensures
            r is Some <==> in_scope(id.canister_id, *own) && self@.publisher_at(id.id@) is Some,
            r matches Some(p) ==> self@.publisher_at(id.id@) == Some(p@),
    {
        if id.check_canister_id(own).is_err() {
            return None;
        }
        self.read_publisher(&id.id)
    }

    // ================== code ==================

    /// Stores a code record under its hash. The record is immutable:
    /// submitting the same content again changes nothing, and submitting
    /// other content under the hash is a conflict that changes nothing.
    pub fn code_update(&mut self, own: &Principal, id: &CodeDataParsedId, code: CodeData) -> (r: Result<(), StoreError>)
        requires
            old(self).wf(),
        ensures
            final(self).wf(),
            done(r) == old(self)@.code_update_result(in_scope(id.canister_id, *own), id.hash@, code@),
            final(self)@ == old(self)@.after_code_update(in_scope(id.canister_id, *own), id.hash@, code@),
    {
        if id.check_canister_id(own).is_err() {
            return Err(StoreError::Scope);
        }
        if let Some(stored) = self.read_code(&id.hash) {
            return if stored.same_content(&code) {
                Ok(())
            } else {
                Err(StoreError::CodeExists { stored_code: stored.code, stored_js: stored.js, code: code.code, js: code.js })
            };
        }
        let row = match code.encode() {
            Some(row) => row,
            None => return Err(StoreError::Validation),
        };
        let key = match key_that_fits(&id.hash) {
            Some(key) => key,
            None => return Err(StoreError::Validation),
        };
        proof {
            code@.lemma_round_trip();
        }
        table_insert(&mut self.code, key, row);
        proof {
            lemma_put_row(old(self)@.code, reads_code(), id.hash@, self@.code[id.hash@]);
        }
        Ok(())
    }

    /// The code record stored under a hash in scope.
    pub fn code_query(&self, own: &Principal, id: &CodeDataParsedId) -> (r: Option<CodeData>)
        requires
            self.wf(),
        ensures
            r is Some <==> in_scope(id.canister_id, *own) && self@.code_at(id.hash@) is Some,
            r matches Some(c) ==> self@.code_at(id.hash@) == Some(c@),
    {
        if id.check_canister_id(own).is_err() {
            return None;
        }
        self.read_code(&id.hash)
    }

    // ================== apis ==================

    /// Stores an API record under its hash. The record is immutable:
    /// submitting the same content again changes nothing, and submitting
    /// other content under the hash is a conflict that changes nothing.
    pub fn apis_update(&mut self, own: &Principal, id: &ApiDataParsedId, api: ApiData) -> (r: Result<(), StoreError>)
        requires
            old(self).wf(),
        ensures
            final(self).wf(),
            done(r) == old(self)@.api_update_result(in_scope(id.canister_id, *own), id.hash@, api@),
            final(self)@ == old(self)@.after_api_update(in_scope(id.canister_id, *own), id.hash@, api@),
    {
        if id.check_canister_id(own).is_err() {
            return Err(StoreError::Scope);
        }
        if let Some(stored) = self.read_api(&id.hash) {
            return if stored.same_content(&api) {
                Ok(())
            } else {
                Err(StoreError::ApiExists)
            };
        }
        let row = match api.encode() {
            Some(row) => row,
            None => return Err(StoreError::Validation),
        };
        let key = match key_that_fits(&id.hash) {
            Some(key) => key,
            None => return Err(StoreError::Validation),
        };
        proof {
            api@.lemma_round_trip();
        }
        table_insert(&mut self.apis, key, row);
        proof {
            lemma_put_row(old(self)@.apis, reads_api(), id.hash@, self@.apis[id.hash@]);
        }
        Ok(())
    }

    /// The API record stored under a hash in scope.
    pub fn apis_query(&self, own: &Principal, id: &ApiDataParsedId) -> (r: Option<ApiData>)
        requires
            self.wf(),
        ensures
            r is Some <==> in_scope(id.canister_id, *own) && self@.api_at(id.hash@) is Some,
            r matches Some(a) ==> self@.api_at(id.hash@) == Some(a@),
    {
        if id.check_canister_id(own).is_err() {
            return None;
        }
        self.read_api(&id.hash)
    }

    // ================== combined ==================

    fn inner_combined_query(&self, key: &Vec<u8>) -> (r: Option<Combined>)
        requires
            self.wf(),
        ensures
            r is Some <==> self@.combined_snapshot(key@) is Some,
            r matches Some(c) ==> self@.combined_snapshot(key@) == Some(c@),
    {
        if let Some(mut combined) = self.read_combined(key) {
            combined.called = self.combined_called.get(key);
            return Some(combined);
        }
        None
    }

    /// Stores a bundle under its hash and starts its counter at the value
    /// submitted. The bundle is immutable: submitting the same components
    /// again changes nothing, and submitting other components under the
    /// hash is a conflict that changes nothing.
    pub fn combined_update(&mut self, own: &Principal, id: &CombinedParsedId, combined: Combined) -> (r: Result<
        (),
        StoreError,
    >)
        requires
            old(self).wf(),
        ensures
            final(self).wf(),
            done(r) == old(self)@.combined_update_result(in_scope(id.canister_id, *own), id.hash@, combined@),
            final(self)@ == old(self)@.after_combined_update(in_scope(id.canister_id, *own), id.hash@, combined@),
    {
        if id.check_canister_id(own).is_err() {
            return Err(StoreError::Scope);
        }
        if let Some(stored) = self.read_combined(&id.hash) {
            return if stored.same_content(&combined) {
                Ok(())
            } else {
                Err(StoreError::CombinedExists)
            };
        }
        let row = match combined.encode() {
            Some(row) => row,
            None => return Err(StoreError::Validation),
        };
        let key = match key_that_fits(&id.hash) {
            Some(key) => key,
            None => return Err(StoreError::Validation),
        };
        let side_key = copy_range(&id.hash, 0, id.hash.len());
        assert(side_key@ =~= id.hash@);
        proof {
            combined@.lemma_round_trip();
        }
        self.combined_called.seed(side_key, combined.called);
        table_insert(&mut self.combined, key, row);
        proof {
            lemma_put_row(old(self)@.combined, reads_bundle(), id.hash@, self@.combined[id.hash@]);
        }
        Ok(())
    }

    /// Counts a call of the bundle under a hash in scope. A bundle without
    /// a counter gets none.
    pub fn combined_increment_called(&mut self, own: &Principal, id: &CombinedParsedId) -> (r: Result<(), StoreError>)
        requires
            old(self).wf(),
            in_scope(id.canister_id, *own) ==> can_advance(old(self)@.combined_called, id.hash@),
        ensures
            final(self).wf(),
            r is Ok <==> in_scope(id.canister_id, *own),
            r matches Err(e) ==> e == StoreError::Scope,
            final(self)@ == old(self)@.after_combined_called(in_scope(id.canister_id, *own), id.hash@),
            count_at(old(self)@.combined_called, id.hash@) is None ==> final(self)@ == old(self)@,
    {
        if id.check_canister_id(own).is_err() {
            return Err(StoreError::Scope);
        }
        self.combined_called.increment_if_present(&id.hash);
        Ok(())
    }

    /// The bundle stored under a hash in scope, with the current value of
    /// its counter.
    pub fn combined_query(&self, own: &Principal, id: &CombinedParsedId) -> (r: Option<Combined>)
        requires
            self.wf(),
        ensures
            r is Some <==> in_scope(id.canister_id, *own) && self@.combined_snapshot(id.hash@) is Some,
            r matches Some(c) ==> self@.combined_snapshot(id.hash@) == Some(c@),
    {
        if id.check_canister_id(own).is_err() {
            return None;
        }
        self.inner_combined_query(&id.hash)
    }

    // ================== dapp ==================

    /// Checks the caller against the policy stored for the dapp under
    /// `key`: the time window and the token. A dapp without a stored policy
    /// is open to everyone.
    pub fn inner_dapp_access_by_timestamp_and_token(
        &self,
        key: &WrappedDappId,
        now: TimestampMills,
        verified: Option<&DappVerified>,
    ) -> (r: Result<(), StoreError>)
        requires
            self.wf(),
        ensures
            done(r) == self@.access_result(key.key(), key.0.0, now.0, presented_token(verified)),
    {
        let bytes = key.to_bytes();
        if let Some(access) = self.read_access(&bytes) {
            if !access.access_by_timestamp_and_token(now, verified) {
                return Err(StoreError::AccessDenied { id: key.0.0 });
            }
        }
        Ok(())
    }

    fn inner_dapp_query(&self, key: &WrappedDappId, admin: bool) -> (r: Result<Dapp, StoreError>)
        requires
            self.wf(),
        ensures
            outcome(r) == self@.dapp_query_result(key.key(), key.0.0, admin),
    {
        let bytes = key.to_bytes();
        let mut dapp = match self.read_dapp(&bytes) {
            Some(dapp) => dapp,
            None => return Err(StoreError::NotFound { id: key.0.0 }),
        };
        if !admin && dapp.frozen.is_some() {
            return Err(StoreError::Frozen { reason: dapp.reason });
        }
        dapp.access = match self.read_access(&bytes) {
            Some(access) => access,
            None => return Err(StoreError::MissingAccess),
        };
        dapp.accessed = self.dapp_accessed.get(&bytes);
        dapp.called = self.dapp_called.get(&bytes);
        dapp.collected = self.dapp_collected.get(&bytes);
        Ok(dapp)
    }

    /// The public snapshot of the dapp under `key`, counted as an access:
    /// where a snapshot is returned the access counter advances, if it has
    /// a row. The snapshot shows the counter as it was before. A frozen
    /// dapp is not shown; the failure names the key and not the reason.
    pub fn inner_dapp_query_with_increment_accessed(&mut self, key: &WrappedDappId) -> (r: Result<DappView, StoreError>)
        requires
            old(self).wf(),
            old(self)@.dapp_counted_query_result(key.key(), key.0.0) is Ok ==> can_advance(
                old(self)@.dapp_accessed,
                key.key(),
            ),
        ensures
            final(self).wf(),
            outcome(r) == old(self)@.dapp_counted_query_result(key.key(), key.0.0),
            final(self)@ == old(self)@.after_dapp_accessed(r is Ok, key.key()),
    {
        let dapp = match self.inner_dapp_query(key, false) {
            Ok(dapp) => dapp,
            Err(StoreError::Frozen { .. }) => return Err(StoreError::DappFrozen { id: key.0.0 }),
            Err(e) => return Err(e),
        };
        let bytes = key.to_bytes();
        self.dapp_accessed.increment_if_present(&bytes);
        Ok(dapp.into_view())
    }

    /// Stores a dapp under its key, in place of what was stored there: the
    /// record with its frozen state, its policy and its three counters.
    pub fn dapp_update(&mut self, own: &Principal, id: &DappParsedId, dapp: Dapp) -> (r: Result<(), StoreError>)
        requires
            old(self).wf(),
        ensures
            final(self).wf(),
            done(r) == old(self)@.dapp_update_result(in_scope(id.canister_id, *own), dapp@),
            final(self)@ == old(self)@.after_dapp_update(
                in_scope(id.canister_id, *own),
                WrappedDappId(id.id, id.nonce).key(),
                dapp@,
            ),
    {
        if id.check_canister_id(own).is_err() {
            return Err(StoreError::Scope);
        }
        let row = match dapp.encode() {
            Some(row) => row,
            None => return Err(StoreError::Validation),
        };
        let policy = match dapp.access.encode() {
            Some(policy) => policy,
            None => return Err(StoreError::Validation),
        };
        let key = WrappedDappId::of(id);
        let ghost stored = key.key();
        proof {
            dapp@.lemma_round_trip();
            dapp@.access.lemma_round_trip();
        }
        table_insert(&mut self.dapp_accesses, key.to_bytes(), policy);
        self.dapp_accessed.seed(key.to_bytes(), dapp.accessed);
        self.dapp_collected.seed(key.to_bytes(), dapp.collected);
        self.dapp_called.seed(key.to_bytes(), dapp.called);
        table_insert(&mut self.dapp, key.to_bytes(), row);
        proof {
            lemma_put_row(old(self)@.dapp, reads_dapp(), stored, self@.dapp[stored]);
            lemma_put_row(old(self)@.dapp_accesses, reads_policy(), stored, self@.dapp_accesses[stored]);
        }
        Ok(())
    }

    /// Counts a call of the dapp under an identifier in scope, on behalf of
    /// an administrator. A dapp without a counter gets none.
    pub fn dapp_increment_called_by_admin(&mut self, own: &Principal, id: &DappParsedId) -> (r: Result<(), StoreError>)
        requires
            old(self).wf(),
            in_scope(id.canister_id, *own) ==> can_advance(
                old(self)@.dapp_called,
                WrappedDappId(id.id, id.nonce).key(),
            ),
        ensures
            final(self).wf(),
            r is Ok <==> in_scope(id.canister_id, *own),
            r matches Err(e) ==> e == StoreError::Scope,
            final(self)@ == old(self)@.after_dapp_called(r is Ok, WrappedDappId(id.id, id.nonce).key()),
            count_at(old(self)@.dapp_called, WrappedDappId(id.id, id.nonce).key()) is None ==> final(self)@ == old(
                self,
            )@,
    {
        if id.check_canister_id(own).is_err() {
            return Err(StoreError::Scope);
        }
        let key = WrappedDappId::of(id);
        self.dapp_called.increment_if_present(&key.to_bytes());
        Ok(())
    }

    /// Sets what the dapp under an identifier in scope has collected. A
    /// dapp without that counter gets none.
    pub fn dapp_update_collected(&mut self, own: &Principal, id: &DappParsedId, collected: u64) -> (r: Result<
        (),
        StoreError,
    >)
        requires
            old(self).wf(),
        ensures
            final(self).wf(),
            r is Ok <==> in_scope(id.canister_id, *own),
            r matches Err(e) ==> e == StoreError::Scope,
            final(self)@ == old(self)@.after_dapp_collected(
                in_scope(id.canister_id, *own),
                WrappedDappId(id.id, id.nonce).key(),
                collected,
            ),
            !old(self)@.dapp_collected.contains_key(WrappedDappId(id.id, id.nonce).key()) ==> final(self)@ == old(
                self,
            )@,
    {
        if id.check_canister_id(own).is_err() {
            return Err(StoreError::Scope);
        }
        let key = WrappedDappId::of(id);
        self.dapp_collected.set_if_present(&key.to_bytes(), collected);
        Ok(())
    }

    /// The dapp under an identifier in scope as an administrator reads it:
    /// whole, frozen or not, with the current policy and counters.
    pub fn dapp_query_by_admin(&self, own: &Principal, id: &DappParsedId) -> (r: Result<Dapp, StoreError>)
        requires
            self.wf(),
        ensures
            outcome(r) == self@.dapp_admin_query_result(
                in_scope(id.canister_id, *own),
                WrappedDappId(id.id, id.nonce).key(),
                id.id.0,
            ),
    {
        if id.check_canister_id(own).is_err() {
            return Err(StoreError::Scope);
        }
        let key = WrappedDappId::of(id);
        self.inner_dapp_query(&key, true)
    }

    /// The public part of the policy of the dapp under an identifier in
    /// scope: the window, and whether a token is required.
    pub fn dapp_query_access(&self, own: &Principal, id: &DappParsedId) -> (r: Result<DappAccessView, StoreError>)
        requires
            self.wf(),
        ensures
            outcome(r) == self@.dapp_access_query_result(
                in_scope(id.canister_id, *own),
                WrappedDappId(id.id, id.nonce).key(),
            ),
    {
        if id.check_canister_id(own).is_err() {
            return Err(StoreError::Scope);
        }
        let key = WrappedDappId::of(id);
        match self.read_access(&key.to_bytes()) {
            Some(access) => Ok(access.to_view()),
            None => Err(StoreError::MissingAccess),
        }
    }

    /// Counts a call of the dapp under an identifier in scope, on behalf
    /// of a caller whom the policy lets through. A caller who is turned
    /// away changes nothing; a dapp without a counter gets none.
    pub fn dapp_increment_called_by_token(
        &mut self,
        own: &Principal,
        now: TimestampMills,
        id: &DappParsedId,
        verified: Option<DappVerified>,
    ) -> (r: Result<(), StoreError>)
        requires
            old(self).wf(),
            old(self)@.dapp_entry_result(
                in_scope(id.canister_id, *own),
                WrappedDappId(id.id, id.nonce).key(),
                id.id.0,
                now.0,
                presented(verified),
            ) is Ok ==> can_advance(old(self)@.dapp_called, WrappedDappId(id.id, id.nonce).key()),
        ensures
            final(self).wf(),
            done(r) == old(self)@.dapp_entry_result(
                in_scope(id.canister_id, *own),
                WrappedDappId(id.id, id.nonce).key(),
                id.id.0,
                now.0,
                presented(verified),
            ),
            final(self)@ == old(self)@.after_dapp_called(r is Ok, WrappedDappId(id.id, id.nonce).key()),
            count_at(old(self)@.dapp_called, WrappedDappId(id.id, id.nonce).key()) is None ==> final(self)@ == old(
                self,
            )@,
    {
        if id.check_canister_id(own).is_err() {
            return Err(StoreError::Scope);
        }
        let key = WrappedDappId::of(id);
        match self.inner_dapp_access_by_timestamp_and_token(&key, now, verified.as_ref()) {
            Ok(_) => {},
            Err(e) => return Err(e),
        }
        self.dapp_called.increment_if_present(&key.to_bytes());
        Ok(())
    }

    /// The dapp under an identifier in scope as the public reads it, for a
    /// caller whom the policy lets through. A frozen dapp is not shown. No
    /// counter changes.
    pub fn dapp_query_by_token(
        &self,
        own: &Principal,
        now: TimestampMills,
        id: &DappParsedId,
        verified: Option<DappVerified>,
    ) -> (r: Result<DappView, StoreError>)
        requires
            self.wf(),
        ensures
            outcome(r) == self@.dapp_token_query_result(
                in_scope(id.canister_id, *own),
                WrappedDappId(id.id, id.nonce).key(),
                id.id.0,
                now.0,
                presented(verified),
            ),
    {
        if id.check_canister_id(own).is_err() {
            return Err(StoreError::Scope);
        }
        let key = WrappedDappId::of(id);
        match self.inner_dapp_access_by_timestamp_and_token(&key, now, verified.as_ref()) {
            Ok(_) => {},
            Err(e) => return Err(e),
        }
        match self.inner_dapp_query(&key, false) {
            Ok(dapp) => Ok(dapp.into_view()),
            Err(e) => Err(e),
        }
    }

    // ================== rows ==================

    /// Every row of the table that lives in a region, in the ascending
    /// order of the keys: what has to be kept for the registry to be made
    /// again.
    pub fn rows(&self, region: u8) -> (list: Vec<(Vec<u8>, Vec<u8>)>)
        requires
            self.wf(),
        ensures
            lists_rows(rows_view(list), self@.rows_of(region)),
    {
        if region == MEMORY_ID_ADMIN {
            self.admin.dump()
        } else if region == MEMORY_ID_PUBLISHER {
            table_dump(&self.publisher)
        } else if region == MEMORY_ID_CODE {
            table_dump(&self.code)
        } else if region == MEMORY_ID_APIS {
            table_dump(&self.apis)
        } else if region == MEMORY_ID_COMBINED {
            table_dump(&self.combined)
        } else if region == MEMORY_ID_COMBINED_CALLED {
            self.combined_called.dump()
        } else if region == MEMORY_ID_DAPP {
            table_dump(&self.dapp)
        } else if region == MEMORY_ID_DAPP_ACCESSES {
            table_dump(&self.dapp_accesses)
        } else if region == MEMORY_ID_DAPP_ACCESSED {
            self.dapp_accessed.dump()
        } else if region == MEMORY_ID_DAPP_CALLED {
            self.dapp_called.dump()
        } else if region == MEMORY_ID_DAPP_COLLECTED {
            self.dapp_collected.dump()
        } else {
            let list: Vec<(Vec<u8>, Vec<u8>)> = Vec::new();
            assert(keys_of(rows_view(list)) =~= Seq::<Seq<u8>>::empty());
            list
        }
    }

    /// Puts a row that was kept back into the table of its region. A row
    /// that the table cannot hold is refused, and changes nothing.
    pub fn restore_row(&mut self, region: u8, key: Vec<u8>, value: Vec<u8>) -> (r: Result<(), StoreError>)
        requires
            old(self).wf(),
        ensures
            final(self).wf(),
            r is Ok <==> StateModel::row_fits(region, key@, value@),
            r matches Err(e) ==> e == StoreError::Validation,
            r is Ok ==> final(self)@ == old(self)@.with_row(region, key@, value@),
            r is Err ==> final(self)@ == old(self)@,
    {
        if key.len() > 0xffff_ffff || value.len() > 0xffff_ffff {
            return Err(StoreError::Validation);
        }
        let ghost k = key@;
        if region == MEMORY_ID_ADMIN {
            if key.len() > MAX_PRINCIPAL_LEN || value.len() != 0 {
                return Err(StoreError::Validation);
            }
            self.admin.insert_bytes(key);
        } else if region == MEMORY_ID_PUBLISHER {
            if Publisher::decode(&value).is_none() {
                return Err(StoreError::Validation);
            }
            table_insert(&mut self.publisher, key, value);
            proof {
                lemma_put_row(old(self)@.publisher, reads_publisher(), k, self@.publisher[k]);
            }
        } else if region == MEMORY_ID_CODE {
            if CodeData::decode(&value).is_none() {
                return Err(StoreError::Validation);
            }
            table_insert(&mut self.code, key, value);
            proof {
                lemma_put_row(old(self)@.code, reads_code(), k, self@.code[k]);
            }
        } else if region == MEMORY_ID_APIS {
            if ApiData::decode(&value).is_none() {
                return Err(StoreError::Validation);
            }
            table_insert(&mut self.apis, key, value);
            proof {
                lemma_put_row(old(self)@.apis, reads_api(), k, self@.apis[k]);
            }
        } else if region == MEMORY_ID_COMBINED {
            if Combined::decode(&value).is_none() {
                return Err(StoreError::Validation);
            }
            table_insert(&mut self.combined, key, value);
            proof {
                lemma_put_row(old(self)@.combined, reads_bundle(), k, self@.combined[k]);
            }
        } else if region == MEMORY_ID_DAPP {
            if Dapp::decode(&value).is_none() {
                return Err(StoreError::Validation);
            }
            table_insert(&mut self.dapp, key, value);
            proof {
                lemma_put_row(old(self)@.dapp, reads_dapp(), k, self@.dapp[k]);
            }
        } else if region == MEMORY_ID_DAPP_ACCESSES {
            if DappAccess::decode(&value).is_none() {
                return Err(StoreError::Validation);
            }
            table_insert(&mut self.dapp_accesses, key, value);
            proof {
                lemma_put_row(old(self)@.dapp_accesses, reads_policy(), k, self@.dapp_accesses[k]);
            }
        } else if region == MEMORY_ID_COMBINED_CALLED {
            if decode_count(&value).is_none() {
                return Err(StoreError::Validation);
            }
            self.combined_called.put_row(key, value);
        } else if region == MEMORY_ID_DAPP_ACCESSED {
            if decode_count(&value).is_none() {
                return Err(StoreError::Validation);
            }
            self.dapp_accessed.put_row(key, value);
        } else if region == MEMORY_ID_DAPP_CALLED {
            if decode_count(&value).is_none() {
                return Err(StoreError::Validation);
            }
            self.dapp_called.put_row(key, value);
        } else if region == MEMORY_ID_DAPP_COLLECTED {
            if decode_count(&value).is_none() {
                return Err(StoreError::Validation);
            }
            self.dapp_collected.put_row(key, value);
        } else {
            return Err(StoreError::Validation);
        }
        Ok(())
    }

    // ================== counters ==================

    /// Whether the call counter of the bundle under a hash can advance.
    pub fn combined_called_can_advance(&self, id: &CombinedParsedId) -> (ready: bool)
        requires
            self.wf(),
        ensures
            ready == can_advance(self@.combined_called, id.hash@),
    {
        match self.combined_called.find(&id.hash) {
            Some(n) => n < u64::MAX,
            None => true,
        }
    }

    /// Whether the call counter of the dapp under an identifier can
    /// advance.
    pub fn dapp_called_can_advance(&self, id: &DappParsedId) -> (ready: bool)
        requires
            self.wf(),
        ensures
            ready == can_advance(self@.dapp_called, WrappedDappId(id.id, id.nonce).key()),
    {
        match self.dapp_called.find(&WrappedDappId::of(id).to_bytes()) {
            Some(n) => n < u64::MAX,
            None => true,
        }
    }

    /// Whether the access counter of the dapp under a key can advance.
    pub fn dapp_accessed_can_advance(&self, key: &WrappedDappId) -> (ready: bool)
        requires
            self.wf(),
        ensures
            ready == can_advance(self@.dapp_accessed, key.key()),
    {
        match self.dapp_accessed.find(&key.to_bytes()) {
            Some(n) => n < u64::MAX,
            None => true,
        }
    }
}

/// Lets an administrator through and turns everyone else away.
pub fn must_be_admin(state: &State, caller: &Principal) -> (r: Result<(), StoreError>)
    ensures
        r is Ok <==> state@.admin.contains(principal_bytes(*caller)),
        r matches Err(e) ==> e == StoreError::Permission,
{
    if state.is_admin(caller) {
        Ok(())
    } else {
        Err(StoreError::Permission)
    }
}

} // verus!

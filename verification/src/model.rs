//! The registry as a mathematical value: the rows of its tables, what they
//! hold when read as records, and what each operation makes of them.

use vstd::prelude::*;
use crate::access::{access_allowed, AccessModel, AccessViewModel};
use crate::dapp::{DappModel, DappViewModel};
use crate::error::ErrorModel;
use crate::fields::{count_field, count_of_field};
use crate::principal::MAX_PRINCIPAL_LEN;
use crate::records::{ApiModel, CodeModel, CombinedModel, PublisherModel};
use crate::admin::member_rows;
use crate::stable::{MEMORY_ID_ADMIN, MEMORY_ID_APIS, MEMORY_ID_CODE, MEMORY_ID_COMBINED, MEMORY_ID_COMBINED_CALLED, MEMORY_ID_DAPP, MEMORY_ID_DAPP_ACCESSED, MEMORY_ID_DAPP_ACCESSES, MEMORY_ID_DAPP_CALLED, MEMORY_ID_DAPP_COLLECTED, MEMORY_ID_PUBLISHER};
use crate::table::max_entry_len;

verus! {

/// The rows of a table: from key bytes to value bytes.
pub type Rows = Map<Seq<u8>, Seq<u8>>;

/// The counter that a table of counters holds under a key.
pub open spec fn count_at(rows: Rows, key: Seq<u8>) -> Option<u64> {
    if rows.contains_key(key) {
        count_of_field(rows[key])
    } else {
        None
    }
}

/// Every row of the table holds a counter, in an entry that fits.
pub open spec fn holds_counts(rows: Rows) -> bool {
    holds_rows(rows, reads_count())
}

/// The counter under `key` can advance: it has no row, or its row holds
/// less than the largest number.
pub open spec fn can_advance(rows: Rows, key: Seq<u8>) -> bool {
    count_at(rows, key) != Some(u64::MAX)
}

/// The table after the counter under `key` has advanced by one; a key
/// without a counter gets none.
pub open spec fn bumped(rows: Rows, key: Seq<u8>) -> Rows {
    match count_at(rows, key) {
        Some(n) => rows.insert(key, count_field((n + 1) as u64)),
        None => rows,
    }
}

/// The table after the counter under `key` has been set; a key without a
/// counter gets none.
pub open spec fn reset(rows: Rows, key: Seq<u8>, value: u64) -> Rows {
    if rows.contains_key(key) {
        rows.insert(key, count_field(value))
    } else {
        rows
    }
}

/// Key and value are short enough for a table to store them.
pub open spec fn entry_fits(key: Seq<u8>, value: Seq<u8>) -> bool {
    key.len() <= max_entry_len() && value.len() <= max_entry_len()
}

/// Every row of the table holds a value that `readable` accepts, in an
/// entry that fits.
pub open spec fn holds_rows(rows: Rows, readable: spec_fn(Seq<u8>) -> bool) -> bool {
    forall|k: Seq<u8>| #[trigger] rows.contains_key(k) ==> readable(rows[k]) && entry_fits(k, rows[k])
}

/// A table keeps holding readable rows when a readable row is put in.
pub proof fn lemma_put_row(rows: Rows, readable: spec_fn(Seq<u8>) -> bool, key: Seq<u8>, value: Seq<u8>)
    requires
        holds_rows(rows, readable),
        readable(value),
        entry_fits(key, value),
    ensures
        holds_rows(rows.insert(key, value), readable),
{
    assert forall|k: Seq<u8>| #[trigger] rows.insert(key, value).contains_key(k) implies readable(
        rows.insert(key, value)[k],
    ) && entry_fits(k, rows.insert(key, value)[k]) by {
        if k != key {
            assert(rows.contains_key(k));
        }
    }
}

/// The values that hold a counter.
pub open spec fn reads_count() -> spec_fn(Seq<u8>) -> bool {
    |v: Seq<u8>| count_of_field(v) is Some
}

/// The values that hold a publisher.
pub open spec fn reads_publisher() -> spec_fn(Seq<u8>) -> bool {
    |v: Seq<u8>| PublisherModel::of_row(v) is Some
}

/// Every row of the table holds a publisher, in an entry that fits.
pub open spec fn holds_publishers(rows: Rows) -> bool {
    holds_rows(rows, reads_publisher())
}

/// The values that hold a code record.
pub open spec fn reads_code() -> spec_fn(Seq<u8>) -> bool {
    |v: Seq<u8>| CodeModel::of_row(v) is Some
}

/// Every row of the table holds a code record, in an entry that fits.
pub open spec fn holds_codes(rows: Rows) -> bool {
    holds_rows(rows, reads_code())
}

/// The values that hold an API record.
pub open spec fn reads_api() -> spec_fn(Seq<u8>) -> bool {
    |v: Seq<u8>| ApiModel::of_row(v) is Some
}

/// Every row of the table holds an API record, in an entry that fits.
pub open spec fn holds_apis(rows: Rows) -> bool {
    holds_rows(rows, reads_api())
}

/// The values that hold a bundle.
pub open spec fn reads_bundle() -> spec_fn(Seq<u8>) -> bool {
    |v: Seq<u8>| CombinedModel::of_row(v) is Some
}

/// Every row of the table holds a bundle, in an entry that fits.
pub open spec fn holds_bundles(rows: Rows) -> bool {
    holds_rows(rows, reads_bundle())
}

/// The values that hold a dapp.
pub open spec fn reads_dapp() -> spec_fn(Seq<u8>) -> bool {
    |v: Seq<u8>| DappModel::of_row(v) is Some
}

/// Every row of the table holds a dapp, in an entry that fits.
pub open spec fn holds_dapps(rows: Rows) -> bool {
    holds_rows(rows, reads_dapp())
}

/// The values that hold a policy.
pub open spec fn reads_policy() -> spec_fn(Seq<u8>) -> bool {
    |v: Seq<u8>| AccessModel::of_row(v) is Some
}

/// Every row of the table holds a policy, in an entry that fits.
pub open spec fn holds_policies(rows: Rows) -> bool {
    holds_rows(rows, reads_policy())
}

/// Every member of the set is short enough to be the bytes of an identity.
pub open spec fn holds_principals(members: Set<Seq<u8>>) -> bool {
    forall|k: Seq<u8>| #[trigger] members.contains(k) ==> k.len() <= MAX_PRINCIPAL_LEN
}

/// The rows of every table of the registry.
pub struct StateModel {
    pub admin: Set<Seq<u8>>,
    pub publisher: Rows,
    pub code: Rows,
    pub apis: Rows,
    pub combined: Rows,
    pub combined_called: Rows,
    pub dapp: Rows,
    pub dapp_accesses: Rows,
    pub dapp_accessed: Rows,
    pub dapp_called: Rows,
    pub dapp_collected: Rows,
}

impl StateModel {
    /// The registry without a row.
    pub open spec fn empty() -> StateModel {
        StateModel {
            admin: Set::empty(),
            publisher: Map::empty(),
            code: Map::empty(),
            apis: Map::empty(),
            combined: Map::empty(),
            combined_called: Map::empty(),
            dapp: Map::empty(),
            dapp_accesses: Map::empty(),
            dapp_accessed: Map::empty(),
            dapp_called: Map::empty(),
            dapp_collected: Map::empty(),
        }
    }

    /// Every row holds what its table is for.
    pub open spec fn wf(self) -> bool {
        &&& holds_principals(self.admin)
        &&& holds_publishers(self.publisher)
        &&& holds_codes(self.code)
        &&& holds_apis(self.apis)
        &&& holds_bundles(self.combined)
        &&& holds_counts(self.combined_called)
        &&& holds_dapps(self.dapp)
        &&& holds_policies(self.dapp_accesses)
        &&& holds_counts(self.dapp_accessed)
        &&& holds_counts(self.dapp_called)
        &&& holds_counts(self.dapp_collected)
    }

    /// The publisher stored under an identifier.
    pub open spec fn publisher_at(self, id: Seq<u8>) -> Option<PublisherModel> {
        if self.publisher.contains_key(id) {
            PublisherModel::of_row(self.publisher[id])
        } else {
            None
        }
    }

    /// The code record stored under a hash.
    pub open spec fn code_at(self, hash: Seq<u8>) -> Option<CodeModel> {
        if self.code.contains_key(hash) {
            CodeModel::of_row(self.code[hash])
        } else {
            None
        }
    }

    /// The API record stored under a hash.
    pub open spec fn api_at(self, hash: Seq<u8>) -> Option<ApiModel> {
        if self.apis.contains_key(hash) {
            ApiModel::of_row(self.apis[hash])
        } else {
            None
        }
    }

    /// The bundle stored under a hash, with the counter it was created
    /// with.
    pub open spec fn combined_at(self, hash: Seq<u8>) -> Option<CombinedModel> {
        if self.combined.contains_key(hash) {
            CombinedModel::of_row(self.combined[hash])
        } else {
            None
        }
    }

    /// The bundle stored under a hash as a query returns it: with the
    /// counter of the side table, 0 where that has none.
    pub open spec fn combined_snapshot(self, hash: Seq<u8>) -> Option<CombinedModel> {
        match self.combined_at(hash) {
            Some(c) => Some(
                c.with_called(
                    match count_at(self.combined_called, hash) {
                        Some(n) => n,
                        None => 0,
                    },
                ),
            ),
            None => None,
        }
    }

    /// The dapp stored under a key, with the policy and the counters it was
    /// last written with.
    pub open spec fn dapp_at(self, key: Seq<u8>) -> Option<DappModel> {
        if self.dapp.contains_key(key) {
            DappModel::of_row(self.dapp[key])
        } else {
            None
        }
    }

    /// The policy stored for the dapp under a key.
    pub open spec fn access_at(self, key: Seq<u8>) -> Option<AccessModel> {
        if self.dapp_accesses.contains_key(key) {
            AccessModel::of_row(self.dapp_accesses[key])
        } else {
            None
        }
    }

    /// The dapp under a key as a query returns it: with the policy and the
    /// counters of the side tables, 0 for a counter that has no row.
    pub open spec fn dapp_snapshot(self, key: Seq<u8>) -> Option<DappModel> {
        match (self.dapp_at(key), self.access_at(key)) {
            (Some(d), Some(a)) => Some(
                d.spliced(
                    a,
                    match count_at(self.dapp_accessed, key) {
                        Some(n) => n,
                        None => 0,
                    },
                    match count_at(self.dapp_called, key) {
                        Some(n) => n,
                        None => 0,
                    },
                    match count_at(self.dapp_collected, key) {
                        Some(n) => n,
                        None => 0,
                    },
                ),
            ),
            _ => None,
        }
    }

    /// Whether the policy stored under a key lets a caller through.
    pub open spec fn allows(self, key: Seq<u8>, now: i64, presented: Option<Seq<char>>) -> bool {
        access_allowed(self.access_at(key), now, presented)
    }
}

impl StateModel {
    /// What an update of a publisher returns: the identifier has to be in
    /// scope and the record small enough to be stored.
    pub open spec fn publisher_update_result(self, scope: bool, id: Seq<u8>, publisher: PublisherModel) -> Result<
        (),
        ErrorModel,
    > {
        if !scope {
            Err(ErrorModel::Scope)
        } else if !publisher.storable() || id.len() > max_entry_len() {
            Err(ErrorModel::Validation)
        } else {
            Ok(())
        }
    }

    /// The registry after an update of a publisher: the record replaces
    /// what was stored under the identifier.
    pub open spec fn after_publisher_update(self, scope: bool, id: Seq<u8>, publisher: PublisherModel) -> StateModel {
        if scope && publisher.storable() && id.len() <= max_entry_len() {
            StateModel { publisher: self.publisher.insert(id, publisher.row()), ..self }
        } else {
            self
        }
    }

    /// What an update of a code record returns. A record with the same
    /// content is accepted again; one with other content is a conflict.
    pub open spec fn code_update_result(self, scope: bool, hash: Seq<u8>, code: CodeModel) -> Result<(), ErrorModel> {
        if !scope {
            Err(ErrorModel::Scope)
        } else {
            match self.code_at(hash) {
                Some(c) => if c.same_content(code) {
                    Ok(())
                } else {
                    Err(ErrorModel::CodeExists { stored_code: c.code, stored_js: c.js, code: code.code, js: code.js })
                },
                None => if code.storable() && hash.len() <= max_entry_len() {
                    Ok(())
                } else {
                    Err(ErrorModel::Validation)
                },
            }
        }
    }

    /// The registry after an update of a code record: the record is added
    /// where the hash had none, and nothing changes otherwise.
    pub open spec fn after_code_update(self, scope: bool, hash: Seq<u8>, code: CodeModel) -> StateModel {
        if scope && self.code_at(hash) is None && code.storable() && hash.len() <= max_entry_len() {
            StateModel { code: self.code.insert(hash, code.row()), ..self }
        } else {
            self
        }
    }

    /// What an update of an API record returns. A record with the same
    /// content is accepted again; one with other content is a conflict.
    pub open spec fn api_update_result(self, scope: bool, hash: Seq<u8>, api: ApiModel) -> Result<(), ErrorModel> {
        if !scope {
            Err(ErrorModel::Scope)
        } else {
            match self.api_at(hash) {
                Some(a) => if a.same_content(api) {
                    Ok(())
                } else {
                    Err(ErrorModel::ApiExists)
                },
                None => if api.storable() && hash.len() <= max_entry_len() {
                    Ok(())
                } else {
                    Err(ErrorModel::Validation)
                },
            }
        }
    }

    /// The registry after an update of an API record: the record is added
    /// where the hash had none, and nothing changes otherwise.
    pub open spec fn after_api_update(self, scope: bool, hash: Seq<u8>, api: ApiModel) -> StateModel {
        if scope && self.api_at(hash) is None && api.storable() && hash.len() <= max_entry_len() {
            StateModel { apis: self.apis.insert(hash, api.row()), ..self }
        } else {
            self
        }
    }

    /// What an update of a bundle returns. A bundle of the same records is
    /// accepted again; one of other records is a conflict.
    pub open spec fn combined_update_result(self, scope: bool, hash: Seq<u8>, combined: CombinedModel) -> Result<
        (),
        ErrorModel,
    > {
        if !scope {
            Err(ErrorModel::Scope)
        } else {
            match self.combined_at(hash) {
                Some(c) => if c.same_content(combined) {
                    Ok(())
                } else {
                    Err(ErrorModel::CombinedExists)
                },
                None => if combined.storable() && hash.len() <= max_entry_len() {
                    Ok(())
                } else {
                    Err(ErrorModel::Validation)
                },
            }
        }
    }

    /// The registry after an update of a bundle: where the hash had none,
    /// the bundle is added and its counter starts at the value submitted;
    /// nothing changes otherwise.
    pub open spec fn after_combined_update(self, scope: bool, hash: Seq<u8>, combined: CombinedModel) -> StateModel {
        if scope && self.combined_at(hash) is None && combined.storable() && hash.len() <= max_entry_len() {
            StateModel {
                combined: self.combined.insert(hash, combined.row()),
                combined_called: self.combined_called.insert(hash, count_field(combined.called)),
                ..self
            }
        } else {
            self
        }
    }

    /// The registry after a call of a bundle was counted: the counter
    /// advances where it has a row.
    pub open spec fn after_combined_called(self, scope: bool, hash: Seq<u8>) -> StateModel {
        if scope {
            StateModel { combined_called: bumped(self.combined_called, hash), ..self }
        } else {
            self
        }
    }
}

impl StateModel {
    /// What an update of a dapp returns: the identifier has to be in scope
    /// and the record small enough to be stored.
    pub open spec fn dapp_update_result(self, scope: bool, dapp: DappModel) -> Result<(), ErrorModel> {
        if !scope {
            Err(ErrorModel::Scope)
        } else if !dapp.storable() {
            Err(ErrorModel::Validation)
        } else {
            Ok(())
        }
    }

    /// The registry after an update of a dapp: the record, its policy and
    /// its three counters replace what was stored under the key.
    pub open spec fn after_dapp_update(self, scope: bool, key: Seq<u8>, dapp: DappModel) -> StateModel {
        if scope && dapp.storable() {
            StateModel {
                dapp: self.dapp.insert(key, dapp.row()),
                dapp_accesses: self.dapp_accesses.insert(key, dapp.access.row()),
                dapp_accessed: self.dapp_accessed.insert(key, count_field(dapp.accessed)),
                dapp_called: self.dapp_called.insert(key, count_field(dapp.called)),
                dapp_collected: self.dapp_collected.insert(key, count_field(dapp.collected)),
                ..self
            }
        } else {
            self
        }
    }

    /// What the access check on a dapp returns.
    pub open spec fn access_result(self, key: Seq<u8>, id: u64, now: i64, presented: Option<Seq<char>>) -> Result<
        (),
        ErrorModel,
    > {
        if self.allows(key, now, presented) {
            Ok(())
        } else {
            Err(ErrorModel::AccessDenied { id })
        }
    }

    /// The registry after an access of a dapp was counted: the counter
    /// advances where it has a row.
    pub open spec fn after_dapp_accessed(self, counted: bool, key: Seq<u8>) -> StateModel {
        if counted {
            StateModel { dapp_accessed: bumped(self.dapp_accessed, key), ..self }
        } else {
            self
        }
    }

    /// The registry after a call of a dapp was counted: the counter
    /// advances where it has a row.
    pub open spec fn after_dapp_called(self, counted: bool, key: Seq<u8>) -> StateModel {
        if counted {
            StateModel { dapp_called: bumped(self.dapp_called, key), ..self }
        } else {
            self
        }
    }

    /// The registry after what a dapp has collected was set: the counter
    /// takes the value where it has a row.
    pub open spec fn after_dapp_collected(self, scope: bool, key: Seq<u8>, value: u64) -> StateModel {
        if scope {
            StateModel { dapp_collected: reset(self.dapp_collected, key, value), ..self }
        } else {
            self
        }
    }

    /// What a query for the dapp under a key returns. A frozen dapp is
    /// shown to an administrator only.
    pub open spec fn dapp_query_result(self, key: Seq<u8>, id: u64, admin: bool) -> Result<DappModel, ErrorModel> {
        match self.dapp_at(key) {
            None => Err(ErrorModel::NotFound { id }),
            Some(d) => if !admin && d.frozen is Some {
                Err(ErrorModel::Frozen { reason: d.reason })
            } else {
                match self.dapp_snapshot(key) {
                    Some(snapshot) => Ok(snapshot),
                    None => Err(ErrorModel::MissingAccess),
                }
            },
        }
    }

    /// What an administrator's query for a dapp returns.
    pub open spec fn dapp_admin_query_result(self, scope: bool, key: Seq<u8>, id: u64) -> Result<
        DappModel,
        ErrorModel,
    > {
        if !scope {
            Err(ErrorModel::Scope)
        } else {
            self.dapp_query_result(key, id, true)
        }
    }

    /// What a query for the policy of a dapp returns.
    pub open spec fn dapp_access_query_result(self, scope: bool, key: Seq<u8>) -> Result<
        AccessViewModel,
        ErrorModel,
    > {
        if !scope {
            Err(ErrorModel::Scope)
        } else {
            match self.access_at(key) {
                Some(a) => Ok(a.public()),
                None => Err(ErrorModel::MissingAccess),
            }
        }
    }

    /// What the check in front of the public operations on a dapp returns:
    /// the identifier has to be in scope and the policy has to let the
    /// caller through.
    pub open spec fn dapp_entry_result(
        self,
        scope: bool,
        key: Seq<u8>,
        id: u64,
        now: i64,
        presented: Option<Seq<char>>,
    ) -> Result<(), ErrorModel> {
        if !scope {
            Err(ErrorModel::Scope)
        } else {
            self.access_result(key, id, now, presented)
        }
    }

    /// What the public's query for a dapp returns.
    pub open spec fn dapp_token_query_result(
        self,
        scope: bool,
        key: Seq<u8>,
        id: u64,
        now: i64,
        presented: Option<Seq<char>>,
    ) -> Result<DappViewModel, ErrorModel> {
        match self.dapp_entry_result(scope, key, id, now, presented) {
            Err(e) => Err(e),
            Ok(_) => match self.dapp_query_result(key, id, false) {
                Ok(d) => Ok(d.public()),
                Err(e) => Err(e),
            },
        }
    }

    /// What a query that counts the access returns: the public snapshot,
    /// or the failure; of a frozen dapp it names the key and not the reason.
    pub open spec fn dapp_counted_query_result(self, key: Seq<u8>, id: u64) -> Result<DappViewModel, ErrorModel> {
        match self.dapp_at(key) {
            None => Err(ErrorModel::NotFound { id }),
            Some(d) => if d.frozen is Some {
                Err(ErrorModel::DappFrozen { id })
            } else {
                match self.dapp_snapshot(key) {
                    Some(snapshot) => Ok(snapshot.public()),
                    None => Err(ErrorModel::MissingAccess),
                }
            },
        }
    }
}

/// What a privileged write reports of what the registry returned: a caller
/// who is no administrator is turned away, a conflict is reported, and every
/// other failure is passed over in silence.
pub open spec fn write_outcome(admin: bool, inner: Result<(), ErrorModel>) -> Result<(), ErrorModel> {
    if !admin {
        Err(ErrorModel::Permission)
    } else {
        match inner {
            Err(e) => if e.is_conflict() {
                Err(e)
            } else {
                Ok(())
            },
            Ok(_) => Ok(()),
        }
    }
}

impl StateModel {
    /// The rows of the table that lives in a region; the administrators as
    /// keys with values of no bytes. A region without a table has no rows.
    pub open spec fn rows_of(self, region: u8) -> Rows {
        if region == MEMORY_ID_ADMIN {
            member_rows(self.admin)
        } else if region == MEMORY_ID_PUBLISHER {
            self.publisher
        } else if region == MEMORY_ID_CODE {
            self.code
        } else if region == MEMORY_ID_APIS {
            self.apis
        } else if region == MEMORY_ID_COMBINED {
            self.combined
        } else if region == MEMORY_ID_COMBINED_CALLED {
            self.combined_called
        } else if region == MEMORY_ID_DAPP {
            self.dapp
        } else if region == MEMORY_ID_DAPP_ACCESSES {
            self.dapp_accesses
        } else if region == MEMORY_ID_DAPP_ACCESSED {
            self.dapp_accessed
        } else if region == MEMORY_ID_DAPP_CALLED {
            self.dapp_called
        } else if region == MEMORY_ID_DAPP_COLLECTED {
            self.dapp_collected
        } else {
            Map::empty()
        }
    }

    /// The row is one that the table of the region may hold: key and value
    /// are short enough, and the value holds what the table is for.
    pub open spec fn row_fits(region: u8, key: Seq<u8>, value: Seq<u8>) -> bool {
        &&& key.len() <= max_entry_len()
        &&& value.len() <= max_entry_len()
        &&& if region == MEMORY_ID_ADMIN {
            key.len() <= MAX_PRINCIPAL_LEN && value.len() == 0
        } else if region == MEMORY_ID_PUBLISHER {
            PublisherModel::of_row(value) is Some
        } else if region == MEMORY_ID_CODE {
            CodeModel::of_row(value) is Some
        } else if region == MEMORY_ID_APIS {
            ApiModel::of_row(value) is Some
        } else if region == MEMORY_ID_COMBINED {
            CombinedModel::of_row(value) is Some
        } else if region == MEMORY_ID_DAPP {
            DappModel::of_row(value) is Some
        } else if region == MEMORY_ID_DAPP_ACCESSES {
            AccessModel::of_row(value) is Some
        } else if region == MEMORY_ID_COMBINED_CALLED || region == MEMORY_ID_DAPP_ACCESSED || region
            == MEMORY_ID_DAPP_CALLED || region == MEMORY_ID_DAPP_COLLECTED {
            count_of_field(value) is Some
        } else {
            false
        }
    }

    /// The registry with a row put into the table of a region, in place of
    /// the row that the key may have had there.
    pub open spec fn with_row(self, region: u8, key: Seq<u8>, value: Seq<u8>) -> StateModel {
        if region == MEMORY_ID_ADMIN {
            StateModel { admin: self.admin.insert(key), ..self }
        } else if region == MEMORY_ID_PUBLISHER {
            StateModel { publisher: self.publisher.insert(key, value), ..self }
        } else if region == MEMORY_ID_CODE {
            StateModel { code: self.code.insert(key, value), ..self }
        } else if region == MEMORY_ID_APIS {
            StateModel { apis: self.apis.insert(key, value), ..self }
        } else if region == MEMORY_ID_COMBINED {
            StateModel { combined: self.combined.insert(key, value), ..self }
        } else if region == MEMORY_ID_COMBINED_CALLED {
            StateModel { combined_called: self.combined_called.insert(key, value), ..self }
        } else if region == MEMORY_ID_DAPP {
            StateModel { dapp: self.dapp.insert(key, value), ..self }
        } else if region == MEMORY_ID_DAPP_ACCESSES {
            StateModel { dapp_accesses: self.dapp_accesses.insert(key, value), ..self }
        } else if region == MEMORY_ID_DAPP_ACCESSED {
            StateModel { dapp_accessed: self.dapp_accessed.insert(key, value), ..self }
        } else if region == MEMORY_ID_DAPP_CALLED {
            StateModel { dapp_called: self.dapp_called.insert(key, value), ..self }
        } else if region == MEMORY_ID_DAPP_COLLECTED {
            StateModel { dapp_collected: self.dapp_collected.insert(key, value), ..self }
        } else {
            self
        }
    }
}

} // verus!

//! The operations of the registry as callers reach them: each privileged
//! one behind the administrators' guard, each write silent about what it
//! could not use, each read telling why it has nothing to show.

use vstd::prelude::*;
use candid::Principal;
use crate::access::{presented, DappAccessView, DappVerified};
use crate::admin::principals_view;
use crate::dapp::{Dapp, DappView};
use crate::error::{done, outcome, ErrorModel, StoreError};
use crate::model::{can_advance, write_outcome, StateModel};
use crate::principal::principal_bytes;
use crate::records::{ApiData, CodeData, Combined, Publisher};
use crate::stable::{in_scope, must_be_admin, State};
use crate::table::bytes_lt;
use crate::types::{ApiDataParsedId, CodeDataParsedId, CombinedParsedId, DappParsedId, PublisherParsedId, TimestampMills, WrappedDappId};

verus! {

/// Whether `caller` is an administrator of the registry.
pub open spec fn is_admin(state: StateModel, caller: Principal) -> bool {
    state.admin.contains(principal_bytes(caller))
}

/// The key of the dapp that an identifier names.
pub open spec fn key_of(id: DappParsedId) -> Seq<u8> {
    WrappedDappId(id.id, id.nonce).key()
}

/// A call of a bundle can be counted: where the call reaches the counter,
/// the counter can advance.
pub open spec fn combined_call_fits(state: StateModel, own: Principal, id: Result<CombinedParsedId, StoreError>) -> bool {
    match id {
        Ok(id) => in_scope(id.canister_id, own) ==> can_advance(state.combined_called, id.hash@),
        Err(_) => true,
    }
}

/// An administrator's call of a dapp can be counted: where the call reaches
/// the counter, the counter can advance.
pub open spec fn admin_call_fits(
    state: StateModel,
    caller: Principal,
    own: Principal,
    id: Result<DappParsedId, StoreError>,
) -> bool {
    match id {
        Ok(id) => is_admin(state, caller) && in_scope(id.canister_id, own) ==> can_advance(
            state.dapp_called,
            key_of(id),
        ),
        Err(_) => true,
    }
}

/// The public's call of a dapp can be counted: where the call reaches the
/// counter, the counter can advance.
pub open spec fn public_call_fits(
    state: StateModel,
    own: Principal,
    now: TimestampMills,
    id: Result<DappParsedId, StoreError>,
    verified: Result<Option<DappVerified>, StoreError>,
) -> bool {
    match (id, verified) {
        (Ok(id), Ok(verified)) => state.dapp_entry_result(
            in_scope(id.canister_id, own),
            key_of(id),
            id.id.0,
            now.0,
            presented(verified),
        ) is Ok ==> can_advance(state.dapp_called, key_of(id)),
        _ => true,
    }
}

// ================== init ==================

/// Makes the deployer the first administrator.
pub fn initial(state: &mut State, deployer: Principal)
    requires
        old(state).wf(),
    ensures
        final(state).wf(),
        final(state)@ == (StateModel { admin: old(state)@.admin.insert(principal_bytes(deployer)), ..old(state)@ }),
{
    state.admin_add(deployer);
}

// ================== admin ==================

/// Makes `user` an administrator, on behalf of an administrator.
pub fn admin_add(state: &mut State, caller: &Principal, user: Principal) -> (r: Result<(), StoreError>)
    requires
        old(state).wf(),
    ensures
        final(state).wf(),
        r is Ok <==> is_admin(old(state)@, *caller),
        r matches Err(e) ==> e == StoreError::Permission,
        r is Ok ==> final(state)@ == (StateModel {
            admin: old(state)@.admin.insert(principal_bytes(user)),
            ..old(state)@
        }),
        r is Err ==> final(state)@ == old(state)@,
{
    match must_be_admin(state, caller) {
        Ok(_) => {},
        Err(e) => return Err(e),
    }
    state.admin_add(user);
    Ok(())
}

/// Takes `user` out of the administrators, on behalf of an administrator.
pub fn admin_remove(state: &mut State, caller: &Principal, user: &Principal) -> (r: Result<(), StoreError>)
    requires
        old(state).wf(),
    ensures
        final(state).wf(),
        r is Ok <==> is_admin(old(state)@, *caller),
        r matches Err(e) ==> e == StoreError::Permission,
        r is Ok ==> final(state)@ == (StateModel {
            admin: old(state)@.admin.remove(principal_bytes(*user)),
            ..old(state)@
        }),
        r is Err ==> final(state)@ == old(state)@,
{
    match must_be_admin(state, caller) {
        Ok(_) => {},
        Err(e) => return Err(e),
    }
    state.admin_remove(user);
    Ok(())
}

/// The administrators, for an administrator: each once, in the ascending
/// order of their bytes.
pub fn admin_query(state: &State, caller: &Principal) -> (r: Result<Vec<Principal>, StoreError>)
    requires
        state.wf(),
    ensures
        r is Ok <==> is_admin(state@, *caller),
        r matches Err(e) ==> e == StoreError::Permission,
        r matches Ok(list) ==> {
            &&& forall|k: Seq<u8>| state@.admin.contains(k) <==> principals_view(list).contains(k)
            &&& forall|i: int, j: int|
                0 <= i < j < list@.len() ==> bytes_lt(
                    #[trigger] principals_view(list)[i],
                    #[trigger] principals_view(list)[j],
                )
        },
{
    match must_be_admin(state, caller) {
        Ok(_) => {},
        Err(e) => return Err(e),
    }
    Ok(state.admin_query())
}

// ================== publisher ==================

/// Stores a publisher, on behalf of an administrator. An anchor that does
/// not parse, or one of another instance, is passed over in silence.
pub fn publisher_update(
    state: &mut State,
    caller: &Principal,
    own: &Principal,
    id: Result<PublisherParsedId, StoreError>,
    publisher: Publisher,
) -> (r: Result<(), StoreError>)
    requires
        old(state).wf(),
    ensures
        final(state).wf(),
        r is Ok <==> is_admin(old(state)@, *caller),
        r matches Err(e) ==> e == StoreError::Permission,
        final(state)@ == match id {
            Ok(id) if is_admin(old(state)@, *caller) => old(state)@.after_publisher_update(
                in_scope(id.canister_id, *own),
                id.id@,
                publisher@,
            ),
            _ => old(state)@,
        },
{
    match must_be_admin(state, caller) {
        Ok(_) => {},
        Err(e) => return Err(e),
    }
    if let Ok(id) = id {
        let _ = state.publisher_update(own, &id, publisher);
    }
    Ok(())
}

/// The publisher that an anchor names, if the anchor parses, belongs to
/// this instance and has a record.
pub fn publisher_query(state: &State, own: &Principal, id: Result<PublisherParsedId, StoreError>) -> (r: Option<
    Publisher,
>)
    requires
        state.wf(),
    ensures
        r is Some <==> (id matches Ok(id) && in_scope(id.canister_id, *own) && state@.publisher_at(id.id@) is Some),
        r matches Some(p) ==> (id matches Ok(id) && state@.publisher_at(id.id@) == Some(p@)),
{
    match id {
        Ok(id) => state.publisher_query(own, &id),
        Err(_) => None,
    }
}

// ================== code ==================

/// Stores a code record, on behalf of an administrator. A conflict with a
/// record of other content is reported; an anchor that does not parse, or
/// one of another instance, is passed over in silence.
pub fn code_update(
    state: &mut State,
    caller: &Principal,
    own: &Principal,
    id: Result<CodeDataParsedId, StoreError>,
    code: CodeData,
) -> (r: Result<(), StoreError>)
    requires
        old(state).wf(),
    ensures
        final(state).wf(),
        done(r) == write_outcome(
            is_admin(old(state)@, *caller),
            match id {
                Ok(id) => old(state)@.code_update_result(in_scope(id.canister_id, *own), id.hash@, code@),
                Err(_) => Err(ErrorModel::Validation),
            },
        ),
        final(state)@ == match id {
            Ok(id) if is_admin(old(state)@, *caller) => old(state)@.after_code_update(
                in_scope(id.canister_id, *own),
                id.hash@,
                code@,
            ),
            _ => old(state)@,
        },
{
    match must_be_admin(state, caller) {
        Ok(_) => {},
        Err(e) => return Err(e),
    }
    if let Ok(id) = id {
        if let Err(e) = state.code_update(own, &id, code) {
            if e.is_conflict() {
                return Err(e);
            }
        }
    }
    Ok(())
}

/// The code record that an anchor names, if the anchor parses, belongs to
/// this instance and has a record.
pub fn code_query(state: &State, own: &Principal, id: Result<CodeDataParsedId, StoreError>) -> (r: Option<CodeData>)
    requires
        state.wf(),
    ensures
        r is Some <==> (id matches Ok(id) && in_scope(id.canister_id, *own) && state@.code_at(id.hash@) is Some),
        r matches Some(c) ==> (id matches Ok(id) && state@.code_at(id.hash@) == Some(c@)),
{
    match id {
        Ok(id) => state.code_query(own, &id),
        Err(_) => None,
    }
}

// ================== apis ==================

/// Stores an API record, on behalf of an administrator. A conflict with a
/// record of other content is reported; an anchor that does not parse, or
/// one of another instance, is passed over in silence.
pub fn api_update(
    state: &mut State,
    caller: &Principal,
    own: &Principal,
    id: Result<ApiDataParsedId, StoreError>,
    api: ApiData,
) -> (r: Result<(), StoreError>)
    requires
        old(state).wf(),
    ensures
        final(state).wf(),
        done(r) == write_outcome(
            is_admin(old(state)@, *caller),
            match id {
                Ok(id) => old(state)@.api_update_result(in_scope(id.canister_id, *own), id.hash@, api@),
                Err(_) => Err(ErrorModel::Validation),
            },
        ),
        final(state)@ == match id {
            Ok(id) if is_admin(old(state)@, *caller) => old(state)@.after_api_update(
                in_scope(id.canister_id, *own),
                id.hash@,
                api@,
            ),
            _ => old(state)@,
        },
{
    match must_be_admin(state, caller) {
        Ok(_) => {},
        Err(e) => return Err(e),
    }
    if let Ok(id) = id {
        if let Err(e) = state.apis_update(own, &id, api) {
            if e.is_conflict() {
                return Err(e);
            }
        }
    }
    Ok(())
}

/// The API record that an anchor names, if the anchor parses, belongs to
/// this instance and has a record.
pub fn api_query(state: &State, own: &Principal, id: Result<ApiDataParsedId, StoreError>) -> (r: Option<ApiData>)
    requires
        state.wf(),
    ensures
        r is Some <==> (id matches Ok(id) && in_scope(id.canister_id, *own) && state@.api_at(id.hash@) is Some),
        r matches Some(a) ==> (id matches Ok(id) && state@.api_at(id.hash@) == Some(a@)),
{
    match id {
        Ok(id) => state.apis_query(own, &id),
        Err(_) => None,
    }
}

// ================== combined ==================

/// Stores a bundle, on behalf of an administrator. A conflict with a
/// bundle of other components is reported; an anchor that does not parse,
/// or one of another instance, is passed over in silence.
pub fn combined_update(
    state: &mut State,
    caller: &Principal,
    own: &Principal,
    id: Result<CombinedParsedId, StoreError>,
    combined: Combined,
) -> (r: Result<(), StoreError>)
    requires
        old(state).wf(),
    ensures
        final(state).wf(),
        done(r) == write_outcome(
            is_admin(old(state)@, *caller),
            match id {
                Ok(id) => old(state)@.combined_update_result(in_scope(id.canister_id, *own), id.hash@, combined@),
                Err(_) => Err(ErrorModel::Validation),
            },
        ),
        final(state)@ == match id {
            Ok(id) if is_admin(old(state)@, *caller) => old(state)@.after_combined_update(
                in_scope(id.canister_id, *own),
                id.hash@,
                combined@,
            ),
            _ => old(state)@,
        },
{
    match must_be_admin(state, caller) {
        Ok(_) => {},
        Err(e) => return Err(e),
    }
    if let Ok(id) = id {
        if let Err(e) = state.combined_update(own, &id, combined) {
            if e.is_conflict() {
                return Err(e);
            }
        }
    }
    Ok(())
}

/// Counts a call of the bundle that an anchor names. An anchor that does
/// not parse, or one of another instance, is passed over in silence.
pub fn combined_increment_called(state: &mut State, own: &Principal, id: Result<CombinedParsedId, StoreError>)
    requires
        old(state).wf(),
        combined_call_fits(old(state)@, *own, id),
    ensures
        final(state).wf(),
        final(state)@ == match id {
            Ok(id) => old(state)@.after_combined_called(in_scope(id.canister_id, *own), id.hash@),
            Err(_) => old(state)@,
        },
{
    if let Ok(id) = id {
        let _ = state.combined_increment_called(own, &id);
    }
}

/// The bundle that an anchor names, with the current value of its counter,
/// if the anchor parses, belongs to this instance and has a record.
pub fn combined_query(state: &State, own: &Principal, id: Result<CombinedParsedId, StoreError>) -> (r: Option<
    Combined,
>)
    requires
        state.wf(),
    ensures
        r is Some <==> (id matches Ok(id) && in_scope(id.canister_id, *own) && state@.combined_snapshot(id.hash@)
            is Some),
        r matches Some(c) ==> (id matches Ok(id) && state@.combined_snapshot(id.hash@) == Some(c@)),
{
    match id {
        Ok(id) => state.combined_query(own, &id),
        Err(_) => None,
    }
}

// ================== dapp ==================

/// Stores a dapp, on behalf of an administrator. An anchor that does not
/// parse, or one of another instance, is passed over in silence.
pub fn dapp_update(
    state: &mut State,
    caller: &Principal,
    own: &Principal,
    id: Result<DappParsedId, StoreError>,
    dapp: Dapp,
) -> (r: Result<(), StoreError>)
    requires
        old(state).wf(),
    ensures
        final(state).wf(),
        r is Ok <==> is_admin(old(state)@, *caller),
        r matches Err(e) ==> e == StoreError::Permission,
        final(state)@ == match id {
            Ok(id) if is_admin(old(state)@, *caller) => old(state)@.after_dapp_update(
                in_scope(id.canister_id, *own),
                key_of(id),
                dapp@,
            ),
            _ => old(state)@,
        },
{
    match must_be_admin(state, caller) {
        Ok(_) => {},
        Err(e) => return Err(e),
    }
    if let Ok(id) = id {
        let _ = state.dapp_update(own, &id, dapp);
    }
    Ok(())
}

/// Counts a call of the dapp that an anchor names, on behalf of an
/// administrator. An anchor that does not parse, or one of another
/// instance, is passed over in silence.
pub fn dapp_increment_called_by_admin(
    state: &mut State,
    caller: &Principal,
    own: &Principal,
    id: Result<DappParsedId, StoreError>,
) -> (r: Result<(), StoreError>)
    requires
        old(state).wf(),
        admin_call_fits(old(state)@, *caller, *own, id),
    ensures
        final(state).wf(),
        r is Ok <==> is_admin(old(state)@, *caller),
        r matches Err(e) ==> e == StoreError::Permission,
        final(state)@ == match id {
            Ok(id) if is_admin(old(state)@, *caller) => old(state)@.after_dapp_called(
                in_scope(id.canister_id, *own),
                key_of(id),
            ),
            _ => old(state)@,
        },
{
    match must_be_admin(state, caller) {
        Ok(_) => {},
        Err(e) => return Err(e),
    }
    if let Ok(id) = id {
        let _ = state.dapp_increment_called_by_admin(own, &id);
    }
    Ok(())
}

/// Sets what the dapp that an anchor names has collected, on behalf of an
/// administrator. An anchor that does not parse, or one of another
/// instance, is passed over in silence.
pub fn dapp_update_collected(
    state: &mut State,
    caller: &Principal,
    own: &Principal,
    id: Result<DappParsedId, StoreError>,
    collected: u64,
) -> (r: Result<(), StoreError>)
    requires
        old(state).wf(),
    ensures
        final(state).wf(),
        r is Ok <==> is_admin(old(state)@, *caller),
        r matches Err(e) ==> e == StoreError::Permission,
        final(state)@ == match id {
            Ok(id) if is_admin(old(state)@, *caller) => old(state)@.after_dapp_collected(
                in_scope(id.canister_id, *own),
                key_of(id),
                collected,
            ),
            _ => old(state)@,
        },
{
    match must_be_admin(state, caller) {
        Ok(_) => {},
        Err(e) => return Err(e),
    }
    if let Ok(id) = id {
        let _ = state.dapp_update_collected(own, &id, collected);
    }
    Ok(())
}

/// The dapp that an anchor names as an administrator reads it: whole,
/// frozen or not. Every failure is reported.
pub fn dapp_query_by_admin(
    state: &State,
    caller: &Principal,
    own: &Principal,
    id: Result<DappParsedId, StoreError>,
) -> (r: Result<Dapp, StoreError>)
    requires
        state.wf(),
    ensures
        outcome(r) == if !is_admin(state@, *caller) {
            Err(ErrorModel::Permission)
        } else {
            match id {
                Ok(id) => state@.dapp_admin_query_result(in_scope(id.canister_id, *own), key_of(id), id.id.0),
                Err(e) => Err(e@),
            }
        },
{
    match must_be_admin(state, caller) {
        Ok(_) => {},
        Err(e) => return Err(e),
    }
    match id {
        Ok(id) => state.dapp_query_by_admin(own, &id),
        Err(e) => Err(e),
    }
}

/// The public part of the policy of the dapp that an anchor names. Every
/// failure is reported.
pub fn dapp_query_access(state: &State, own: &Principal, id: Result<DappParsedId, StoreError>) -> (r: Result<
    DappAccessView,
    StoreError,
>)
    requires
        state.wf(),
    ensures
        outcome(r) == match id {
            Ok(id) => state@.dapp_access_query_result(in_scope(id.canister_id, *own), key_of(id)),
            Err(e) => Err(e@),
        },
{
    match id {
        Ok(id) => state.dapp_query_access(own, &id),
        Err(e) => Err(e),
    }
}

/// Counts a call of the dapp that an anchor names, for a caller whom the
/// policy lets through. An anchor or a token that does not parse, an
/// anchor of another instance and a caller who is turned away are passed
/// over in silence, and change nothing.
pub fn dapp_increment_called_by_token(
    state: &mut State,
    own: &Principal,
    now: TimestampMills,
    id: Result<DappParsedId, StoreError>,
    verified: Result<Option<DappVerified>, StoreError>,
)
    requires
        old(state).wf(),
        public_call_fits(old(state)@, *own, now, id, verified),
    ensures
        final(state).wf(),
        final(state)@ == match (id, verified) {
            (Ok(id), Ok(verified)) => old(state)@.after_dapp_called(
                old(state)@.dapp_entry_result(
                    in_scope(id.canister_id, *own),
                    key_of(id),
                    id.id.0,
                    now.0,
                    presented(verified),
                ) is Ok,
                key_of(id),
            ),
            _ => old(state)@,
        },
{
    let verified = match verified {
        Ok(verified) => verified,
        Err(_) => return ,
    };
    if let Ok(id) = id {
        let _ = state.dapp_increment_called_by_token(own, now, &id, verified);
    }
}

/// The dapp that an anchor names as the public reads it, for a caller whom
/// the policy lets through. Every failure is reported: an anchor or a
/// token that does not parse, an anchor of another instance, a caller who
/// is turned away, a dapp that is missing or frozen.
pub fn dapp_query_by_token(
    state: &State,
    own: &Principal,
    now: TimestampMills,
    id: Result<DappParsedId, StoreError>,
    verified: Result<Option<DappVerified>, StoreError>,
) -> (r: Result<DappView, StoreError>)
    requires
        state.wf(),
    ensures
        outcome(r) == match id {
            Err(e) => Err(e@),
            Ok(id) => match verified {
                Err(e) => Err(e@),
                Ok(verified) => state@.dapp_token_query_result(
                    in_scope(id.canister_id, *own),
                    key_of(id),
                    id.id.0,
                    now.0,
                    presented(verified),
                ),
            },
        },
{
    let id = match id {
        Ok(id) => id,
        Err(e) => return Err(e),
    };
    let verified = match verified {
        Ok(verified) => verified,
        Err(e) => return Err(e),
    };
    state.dapp_query_by_token(own, now, &id, verified)
}

// ================== counters ==================

/// Whether a call of a bundle can be counted.
pub fn combined_call_ready(state: &State, own: &Principal, id: &Result<CombinedParsedId, StoreError>) -> (ready: bool)
    requires
        state.wf(),
    ensures
        ready == combined_call_fits(state@, *own, *id),
{
    match id {
        Ok(id) => id.check_canister_id(own).is_err() || state.combined_called_can_advance(id),
        Err(_) => true,
    }
}

/// Whether an administrator's call of a dapp can be counted.
pub fn admin_call_ready(
    state: &State,
    caller: &Principal,
    own: &Principal,
    id: &Result<DappParsedId, StoreError>,
) -> (ready: bool)
    requires
        state.wf(),
    ensures
        ready == admin_call_fits(state@, *caller, *own, *id),
{
    match id {
        Ok(id) => !state.is_admin(caller) || id.check_canister_id(own).is_err() || state.dapp_called_can_advance(id),
        Err(_) => true,
    }
}

/// Whether the public's call of a dapp can be counted.
pub fn public_call_ready(
    state: &State,
    own: &Principal,
    now: TimestampMills,
    id: &Result<DappParsedId, StoreError>,
    verified: &Result<Option<DappVerified>, StoreError>,
) -> (ready: bool)
    requires
        state.wf(),
    ensures
        ready == public_call_fits(state@, *own, now, *id, *verified),
{
    match (id, verified) {
        (Ok(id), Ok(verified)) => {
            if id.check_canister_id(own).is_err() {
                return true;
            }
            let key = WrappedDappId::of(id);
            if state.inner_dapp_access_by_timestamp_and_token(&key, now, verified.as_ref()).is_err() {
                return true;
            }
            state.dapp_called_can_advance(id)
        },
        _ => true,
    }
}

} // verus!

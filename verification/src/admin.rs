//! The administrators: the identities that may call privileged operations.

use vstd::prelude::*;
use candid::Principal;
use crate::codec::{copy_range, fields_view};
use crate::model::holds_principals;
use crate::principal::{principal_bytes, principal_from_bytes, principal_to_bytes, MAX_PRINCIPAL_LEN};
use crate::table::{bytes_lt, keys_of, lists_rows, no_rows, rows_view, table_get, table_insert, table_keys, table_remove, table_rows, Table};

verus! {

/// The set of administrators, kept in a table under the bytes of each
/// identity.
pub struct AdminUsers {
    users: Table,
}

/// The bytes of each identity of a list, in the list's order.
pub open spec fn principals_view(list: Vec<Principal>) -> Seq<Seq<u8>> {
    list@.map_values(|p: Principal| principal_bytes(p))
}

impl View for AdminUsers {
    type V = Set<Seq<u8>>;

    closed spec fn view(&self) -> Set<Seq<u8>> {
        table_rows(self.users).dom()
    }
}

impl AdminUsers {
    /// Every member is the bytes of an identity.
    pub open spec fn wf(&self) -> bool {
        holds_principals(self@)
    }

    /// The set of administrators over an empty table.
    pub(crate) fn new(users: Table) -> (admins: AdminUsers)
        requires
            table_rows(users) == no_rows(),
        ensures
            admins@ == Set::<Seq<u8>>::empty(),
            admins.wf(),
    {
        let admins = AdminUsers { users };
        assert(admins@ =~= Set::<Seq<u8>>::empty());
        admins
    }

    /// Whether `caller` is an administrator.
    pub fn is_admin(&self, caller: &Principal) -> (member: bool)
        ensures
            member == self@.contains(principal_bytes(*caller)),
    {
        let key = principal_to_bytes(caller);
        table_get(&self.users, &key).is_some()
    }

    /// Makes `user` an administrator.
    pub fn insert(&mut self, user: &Principal)
        requires
            old(self).wf(),
        ensures
            final(self).wf(),
            final(self)@ == old(self)@.insert(principal_bytes(*user)),
    {
        let key = principal_to_bytes(user);
        table_insert(&mut self.users, key, Vec::new());
        assert(self@ =~= old(self)@.insert(principal_bytes(*user)));
    }

    /// Takes `user` out of the administrators.
    pub fn remove(&mut self, user: &Principal)
        requires
            old(self).wf(),
        ensures
            final(self).wf(),
            final(self)@ == old(self)@.remove(principal_bytes(*user)),
    {
        let key = principal_to_bytes(user);
        table_remove(&mut self.users, &key);
        assert(self@ =~= old(self)@.remove(principal_bytes(*user)));
    }

    /// The administrators, each once, in the ascending order of their
    /// bytes.
    pub fn list(&self) -> (list: Vec<Principal>)
        requires
            self.wf(),
        ensures
            forall|k: Seq<u8>| self@.contains(k) <==> principals_view(list).contains(k),
            forall|i: int, j: int|
                0 <= i < j < list@.len() ==> bytes_lt(
                    #[trigger] principals_view(list)[i],
                    #[trigger] principals_view(list)[j],
                ),
    {
        let keys = table_keys(&self.users);
        let mut list: Vec<Principal> = Vec::new();
        let mut i: usize = 0;
        while i < keys.len()
            invariant
                i <= keys@.len(),
                list@.len() == i,
                self.wf(),
                forall|k: Seq<u8>| self@.contains(k) <==> fields_view(keys).contains(k),
                forall|j: int| 0 <= j < i ==> principals_view(list)[j] == fields_view(keys)[j],
            decreases keys@.len() - i,
        {
            let key = &keys[i];
            assert(fields_view(keys)[i as int] == key@);
            assert(fields_view(keys).contains(key@));
            let p = principal_from_bytes(key);
            let ghost before = principals_view(list);
            list.push(p);
            assert(principals_view(list) =~= before.push(principal_bytes(p)));
            i += 1;
        }
        assert(principals_view(list) =~= fields_view(keys));
        list
    }

    /// The rows that hold the administrators: each member as a key, with a
    /// value of no bytes.
    pub open spec fn rows(&self) -> Map<Seq<u8>, Seq<u8>> {
        member_rows(self@)
    }

    /// The rows that hold the administrators, in the ascending order of the
    /// keys.
    pub(crate) fn dump(&self) -> (list: Vec<(Vec<u8>, Vec<u8>)>)
        ensures
            lists_rows(rows_view(list), self.rows()),
    {
        let keys = table_keys(&self.users);
        let mut list: Vec<(Vec<u8>, Vec<u8>)> = Vec::new();
        let mut i: usize = 0;
        while i < keys.len()
            invariant
                i <= keys@.len(),
                list@.len() == i,
                forall|k: Seq<u8>| self@.contains(k) <==> fields_view(keys).contains(k),
                forall|a: int, b: int|
                    0 <= a < b < keys@.len() ==> bytes_lt(
                        #[trigger] fields_view(keys)[a],
                        #[trigger] fields_view(keys)[b],
                    ),
                forall|j: int| 0 <= j < i ==> (#[trigger] rows_view(list)[j]).0 == fields_view(keys)[j],
                forall|j: int| 0 <= j < i ==> (#[trigger] rows_view(list)[j]).1 == Seq::<u8>::empty(),
            decreases keys@.len() - i,
        {
            let key = copy_range(&keys[i], 0, keys[i].len());
            assert(key@ =~= fields_view(keys)[i as int]);
            let ghost before = rows_view(list);
            list.push((key, Vec::new()));
            assert(rows_view(list) =~= before.push((key@, Seq::<u8>::empty())));
            i += 1;
        }
        assert(keys_of(rows_view(list)) =~= fields_view(keys));
        list
    }

    /// Makes the identity with the given bytes an administrator.
    pub(crate) fn insert_bytes(&mut self, key: Vec<u8>)
        requires
            old(self).wf(),
            key@.len() <= MAX_PRINCIPAL_LEN,
        ensures
            final(self).wf(),
            final(self)@ == old(self)@.insert(key@),
    {
        table_insert(&mut self.users, key, Vec::new());
        assert(self@ =~= old(self)@.insert(key@));
    }
}

/// The rows that hold a set of members: each member as a key, with a value
/// of no bytes.
pub open spec fn member_rows(members: Set<Seq<u8>>) -> Map<Seq<u8>, Seq<u8>> {
    Map::new(|k: Seq<u8>| members.contains(k), |k: Seq<u8>| Seq::<u8>::empty())
}

} // verus!

//! The storage engine: byte tables in the regions of a memory that lives
//! and ends with the registry that made it.

use vstd::prelude::*;
use crate::codec::fields_view;

verus! {

/// A `BTreeMap` of `ic_stable_structures`, from key bytes to value bytes, in
/// a region of a `VectorMemory` that is its own: nothing else writes there.
/// Proofs do not look inside; `table_rows` names what it holds.
#[verifier::external_body]
pub struct Table {
    inner: ic_stable_structures::BTreeMap<
        Vec<u8>,
        Vec<u8>,
        ic_stable_structures::memory_manager::VirtualMemory<ic_stable_structures::VectorMemory>,
    >,
}

/// The `MemoryManager` of `ic_stable_structures` over a `VectorMemory`,
/// which hands out the regions of that memory. Proofs do not look inside;
/// `opened_regions` names the regions that hold pages.
#[verifier::external_body]
pub struct Regions {
    inner: ic_stable_structures::memory_manager::MemoryManager<ic_stable_structures::VectorMemory>,
}

/// The rows that a table holds.
pub uninterp spec fn table_rows(t: Table) -> Map<Seq<u8>, Seq<u8>>;

/// The regions of a memory manager that hold pages: those in which a table
/// was made.
pub uninterp spec fn opened_regions(r: Regions) -> Set<u8>;

/// The table without rows.
pub open spec fn no_rows() -> Map<Seq<u8>, Seq<u8>> {
    Map::empty()
}

/// The largest key or value, in bytes, that a table stores: the engine
/// writes each length as a `u32`.
pub open spec fn max_entry_len() -> int {
    0xffff_ffff
}

/// Byte strings in the order in which a table keeps its keys: the
/// lexicographic order of `Vec<u8>`.
pub open spec fn bytes_lt(a: Seq<u8>, b: Seq<u8>) -> bool
    decreases a.len(),
{
    if b.len() == 0 {
        false
    } else if a.len() == 0 {
        true
    } else if a[0] != b[0] {
        a[0] < b[0]
    } else {
        bytes_lt(a.skip(1), b.skip(1))
    }
}

/// Calls `MemoryManager::init` on a `VectorMemory::default()`, which is a new
/// and empty vector on every target. Trusted: on an empty memory `init` makes
/// a manager whose regions all have size 0.
#[verifier::external_body]
pub(crate) fn fresh_regions() -> (regions: Regions)
    ensures
        opened_regions(regions) == Set::<u8>::empty(),
{
    Regions {
        inner: ic_stable_structures::memory_manager::MemoryManager::init(
            ic_stable_structures::VectorMemory::default(),
        ),
    }
}

/// Calls `MemoryManager::get` and `BTreeMap::new` on the region. `MemoryId::new`
/// panics on 255. Trusted: `BTreeMap::new` writes a header into the region,
/// which from then on holds pages, and the table starts without rows.
#[verifier::external_body]
pub(crate) fn open_region(regions: &mut Regions, id: u8) -> (table: Table)
    requires
        id < 255,
        !opened_regions(*old(regions)).contains(id),
    ensures
        opened_regions(*final(regions)) == opened_regions(*old(regions)).insert(id),
        table_rows(table) == no_rows(),
{
    Table {
        inner: ic_stable_structures::BTreeMap::new(
            regions.inner.get(ic_stable_structures::memory_manager::MemoryId::new(id)),
        ),
    }
}

/// Calls `BTreeMap::get`. Trusted: the value stored under the key, if any.
#[verifier::external_body]
pub(crate) fn table_get(t: &Table, key: &Vec<u8>) -> (value: Option<Vec<u8>>)
    ensures
        value is Some <==> table_rows(*t).contains_key(key@),
        value matches Some(v) ==> v@ == table_rows(*t)[key@],
{
    t.inner.get(key)
}

/// Calls `BTreeMap::insert`, which writes each length as a `u32` and
/// panics only where the memory cannot grow. Trusted: the row is added or
/// replaced, and every other row stays.
#[verifier::external_body]
pub(crate) fn table_insert(t: &mut Table, key: Vec<u8>, value: Vec<u8>)
    requires
        key@.len() <= max_entry_len(),
        value@.len() <= max_entry_len(),
    ensures
        table_rows(*final(t)) == table_rows(*old(t)).insert(key@, value@),
{
    t.inner.insert(key, value);
}

/// Calls `BTreeMap::remove`. Trusted: the row under the key leaves, and
/// every other row stays.
#[verifier::external_body]
pub(crate) fn table_remove(t: &mut Table, key: &Vec<u8>)
    ensures
        table_rows(*final(t)) == table_rows(*old(t)).remove(key@),
{
    t.inner.remove(key);
}

/// Calls `BTreeMap::keys` and collects. Trusted: every key of the table
/// once, in ascending order.
#[verifier::external_body]
pub(crate) fn table_keys(t: &Table) -> (keys: Vec<Vec<u8>>)
    ensures
        forall|k: Seq<u8>| table_rows(*t).contains_key(k) <==> fields_view(keys).contains(k),
        forall|i: int, j: int|
            0 <= i < j < keys@.len() ==> bytes_lt(#[trigger] fields_view(keys)[i], #[trigger] fields_view(keys)[j]),
{
    t.inner.keys().collect()
}

/// The rows of a list, each key and value by its view.
pub open spec fn rows_view(list: Vec<(Vec<u8>, Vec<u8>)>) -> Seq<(Seq<u8>, Seq<u8>)> {
    list@.map_values(|row: (Vec<u8>, Vec<u8>)| (row.0@, row.1@))
}

/// The keys of a list of rows, in the list's order.
pub open spec fn keys_of(list: Seq<(Seq<u8>, Seq<u8>)>) -> Seq<Seq<u8>> {
    list.map_values(|row: (Seq<u8>, Seq<u8>)| row.0)
}

/// The list holds the rows of the table and no others, each once, in the
/// ascending order of the keys.
pub open spec fn lists_rows(list: Seq<(Seq<u8>, Seq<u8>)>, rows: Map<Seq<u8>, Seq<u8>>) -> bool {
    &&& forall|k: Seq<u8>| rows.contains_key(k) <==> keys_of(list).contains(k)
    &&& forall|i: int| 0 <= i < list.len() ==> rows[(#[trigger] list[i]).0] == list[i].1
    &&& forall|i: int, j: int| 0 <= i < j < list.len() ==> bytes_lt(#[trigger] keys_of(list)[i], #[trigger] keys_of(list)[j])
}

/// Every row of a table, in the ascending order of the keys.
pub(crate) fn table_dump(t: &Table) -> (list: Vec<(Vec<u8>, Vec<u8>)>)
    ensures
        lists_rows(rows_view(list), table_rows(*t)),
{
    let keys = table_keys(t);
    let mut list: Vec<(Vec<u8>, Vec<u8>)> = Vec::new();
    let mut i: usize = 0;
    while i < keys.len()
        invariant
            i <= keys@.len(),
            list@.len() == i,
            forall|k: Seq<u8>| table_rows(*t).contains_key(k) <==> fields_view(keys).contains(k),
            forall|a: int, b: int|
                0 <= a < b < keys@.len() ==> bytes_lt(#[trigger] fields_view(keys)[a], #[trigger] fields_view(keys)[b]),
            forall|j: int| 0 <= j < i ==> (#[trigger] rows_view(list)[j]).0 == fields_view(keys)[j],
            forall|j: int| 0 <= j < i ==> table_rows(*t)[(#[trigger] rows_view(list)[j]).0] == rows_view(list)[j].1,
        decreases keys@.len() - i,
    {
        let key = crate::codec::copy_range(&keys[i], 0, keys[i].len());
        assert(key@ =~= fields_view(keys)[i as int]);
        assert(fields_view(keys).contains(key@));
        let value = table_get(t, &key);
        let ghost before = rows_view(list);
        list.push((key, value.unwrap()));
        assert(rows_view(list) =~= before.push((key@, table_rows(*t)[key@])));
        i += 1;
    }
    assert(keys_of(rows_view(list)) =~= fields_view(keys));
    list
}

} // verus!

//! Tables of counters, kept beside the tables of records under the same
//! keys.

use vstd::prelude::*;
use crate::codec::copy_range;
use crate::fields::{count_field, count_of_field, decode_count, encode_count, lemma_count_round_trip};
use crate::model::{bumped, can_advance, count_at, holds_counts, reset, Rows};
use crate::table::{lists_rows, max_entry_len, no_rows, rows_view, table_dump, table_get, table_insert, table_rows, Table};

verus! {

/// A table from keys to counters. A key without a row counts as 0.
pub struct CounterTable {
    rows: Table,
}

impl View for CounterTable {
    type V = Rows;

    closed spec fn view(&self) -> Rows {
        table_rows(self.rows)
    }
}

impl CounterTable {
    /// Every row holds a counter.
    pub open spec fn wf(&self) -> bool {
        holds_counts(self@)
    }

    /// The table of counters over an empty table.
    pub(crate) fn new(rows: Table) -> (table: CounterTable)
        requires
            table_rows(rows) == no_rows(),
        ensures
            table@ == no_rows(),
            table.wf(),
    {
        CounterTable { rows }
    }

    /// The counter under `key`, if it has a row.
    pub fn find(&self, key: &Vec<u8>) -> (count: Option<u64>)
        requires
            self.wf(),
        ensures
            count == count_at(self@, key@),
    {
        match table_get(&self.rows, key) {
            Some(bytes) => decode_count(&bytes),
            None => None,
        }
    }

    /// The counter under `key`, 0 where it has no row.
    pub fn get(&self, key: &Vec<u8>) -> (count: u64)
        requires
            self.wf(),
        ensures
            count == match count_at(self@, key@) {
                Some(n) => n,
                None => 0,
            },
    {
        match self.find(key) {
            Some(n) => n,
            None => 0,
        }
    }

    /// Advances the counter under `key` by one if it has a row, and leaves
    /// the table as it is if it has none.
    pub fn increment_if_present(&mut self, key: &Vec<u8>)
        requires
            old(self).wf(),
            can_advance(old(self)@, key@),
        ensures
            final(self).wf(),
            final(self)@ == bumped(old(self)@, key@),
            count_at(old(self)@, key@) is None ==> final(self)@ == old(self)@,
    {
        if let Some(n) = self.find(key) {
            let copy = copy_range(key, 0, key.len());
            assert(copy@ =~= key@);
            proof {
                lemma_count_round_trip((n + 1) as u64);
            }
            table_insert(&mut self.rows, copy, encode_count(n + 1));
        }
    }

    /// Sets the counter under `key` if it has a row, and leaves the table
    /// as it is if it has none.
    pub fn set_if_present(&mut self, key: &Vec<u8>, value: u64)
        requires
            old(self).wf(),
        ensures
            final(self).wf(),
            final(self)@ == reset(old(self)@, key@, value),
            !old(self)@.contains_key(key@) ==> final(self)@ == old(self)@,
    {
        if self.find(key).is_some() {
            let copy = copy_range(key, 0, key.len());
            assert(copy@ =~= key@);
            proof {
                lemma_count_round_trip(value);
            }
            table_insert(&mut self.rows, copy, encode_count(value));
        }
    }

    /// Gives `key` a row that holds `value`, in place of the row it may
    /// have had.
    pub fn seed(&mut self, key: Vec<u8>, value: u64)
        requires
            old(self).wf(),
            key@.len() <= max_entry_len(),
        ensures
            final(self).wf(),
            final(self)@ == old(self)@.insert(key@, count_field(value)),
    {
        proof {
            lemma_count_round_trip(value);
        }
        table_insert(&mut self.rows, key, encode_count(value));
    }

    /// The rows of the table, in the ascending order of the keys.
    pub(crate) fn dump(&self) -> (list: Vec<(Vec<u8>, Vec<u8>)>)
        ensures
            lists_rows(rows_view(list), self@),
    {
        table_dump(&self.rows)
    }

    /// Gives `key` the row `value`, which holds a counter, in place of the
    /// row it may have had.
    pub(crate) fn put_row(&mut self, key: Vec<u8>, value: Vec<u8>)
        requires
            old(self).wf(),
            key@.len() <= max_entry_len(),
            count_of_field(value@) is Some,
        ensures
            final(self).wf(),
            final(self)@ == old(self)@.insert(key@, value@),
    {
        table_insert(&mut self.rows, key, value);
    }
}

} // verus!

//! The table from names to numbered slots.

use crate::text;
use dashmap::DashMap;
use vstd::prelude::*;

verus! {

/// `dashmap::DashMap`, a hash map.
#[verifier::external_type_specification]
#[verifier::external_body]
#[verifier::reject_recursive_types(K)]
#[verifier::reject_recursive_types(V)]
#[verifier::reject_recursive_types(S)]
pub struct ExDashMap<K, V, S>(DashMap<K, V, S>);

/// The slot that a table holds for each of its names.
pub uninterp spec fn slots_of(table: DashMap<String, usize>) -> Map<Seq<char>, usize>;

/// `DashMap::new`: a table without names.
#[verifier::external_body]
pub(crate) fn table_new() -> (r: DashMap<String, usize>)
    ensures
        slots_of(r).dom() == Set::<Seq<char>>::empty(),
{
    DashMap::new()
}

/// `DashMap::insert`: the name gets the slot, in place of any that it had.
/// All other names keep theirs.
#[verifier::external_body]
pub(crate) fn table_insert(table: &mut DashMap<String, usize>, name: String, slot: usize)
    ensures
        slots_of(*final(table)) == slots_of(*old(table)).insert(name@, slot),
{
    table.insert(name, slot);
}

/// `DashMap::get`: the slot of the name, where it has one.
#[verifier::external_body]
pub(crate) fn table_get(table: &DashMap<String, usize>, name: &str) -> (r: Option<usize>)
    ensures
        match r {
            Some(slot) => slots_of(*table).contains_key(name@) && slots_of(*table)[name@] == slot,
            None => !slots_of(*table).contains_key(name@),
        },
{
    table.get(name).map(|entry| *entry.value())
}

/// `DashMap::len`: how many names the table holds.
#[verifier::external_body]
pub(crate) fn table_len(table: &DashMap<String, usize>) -> (r: usize)
    ensures
        r == slots_of(*table).dom().len(),
{
    table.len()
}

/// `DashMap::iter`: the names of the table, each of them once. Their order is
/// left open.
#[verifier::external_body]
pub(crate) fn table_names(table: &DashMap<String, usize>) -> (r: Vec<String>)
    ensures
        text::texts(r@).no_duplicates(),
        text::texts(r@).to_set() == slots_of(*table).dom(),
{
    table.iter().map(|entry| entry.key().clone()).collect()
}

} // verus!

//! Maps keyed by a 32-bit value that keep insertion order, held in
//! `indexmap::IndexMap`.
use crate::model::{PropertyModel, PropertyTemplate};
use crate::schema::has_key;
use indexmap::IndexMap;
use vstd::prelude::*;

verus! {

/// `indexmap::IndexMap`, opaque; what it holds is named below for each use.
#[verifier::external_type_specification]
#[verifier::external_body]
#[verifier::reject_recursive_types(K)]
#[verifier::reject_recursive_types(V)]
#[verifier::reject_recursive_types(S)]
pub struct ExIndexMap<K, V, S>(IndexMap<K, V, S>);

/// The entries of a map of properties, in insertion order.
pub uninterp spec fn property_entries(m: IndexMap<u32, PropertyTemplate>) -> Seq<(u32, PropertyModel)>;

/// Relies on `IndexMap::new`: a new map has no entries.
#[verifier::external_body]
pub(crate) fn new_property_map() -> (r: IndexMap<u32, PropertyTemplate>)
    ensures
        property_entries(r) == Seq::<(u32, PropertyModel)>::empty(),
{
    IndexMap::new()
}

/// Relies on `IndexMap::len`: the number of entries.
#[verifier::external_body]
pub(crate) fn property_map_len(m: &IndexMap<u32, PropertyTemplate>) -> (r: usize)
    ensures
        r == property_entries(*m).len(),
{
    m.len()
}

/// Relies on `IndexMap::contains_key`: whether an entry has the key.
#[verifier::external_body]
pub(crate) fn property_map_contains(m: &IndexMap<u32, PropertyTemplate>, k: u32) -> (r: bool)
    ensures
        r == has_key(property_entries(*m), k),
{
    m.contains_key(&k)
}

/// Relies on `IndexMap::insert`: a new key goes last; an existing key keeps
/// its place and takes the new value.
#[verifier::external_body]
pub(crate) fn property_map_insert(m: &mut IndexMap<u32, PropertyTemplate>, k: u32, v: PropertyTemplate)
    ensures
        !has_key(property_entries(*old(m)), k) ==> property_entries(*final(m)) == property_entries(*old(m)).push(
            (k, v@),
        ),
        has_key(property_entries(*old(m)), k) ==> exists|i: int|
            0 <= i < property_entries(*old(m)).len() && property_entries(*old(m))[i].0 == k && property_entries(*final(m))
                == property_entries(*old(m)).update(i, (k, v@)),
{
    m.insert(k, v);
}

/// Relies on `IndexMap::get_index`: the entry at a position below the length.
#[verifier::external_body]
pub(crate) fn property_map_entry(m: &IndexMap<u32, PropertyTemplate>, i: usize) -> (r: (u32, &PropertyTemplate))
    requires
        i < property_entries(*m).len(),
    ensures
        (r.0, r.1@) == property_entries(*m)[i as int],
{
    let (k, v) = m.get_index(i).unwrap();
    (*k, v)
}

/// The entries of a map of names, in insertion order.
pub uninterp spec fn name_entries(m: IndexMap<u32, String>) -> Seq<(u32, Seq<char>)>;

/// Relies on `IndexMap::new`: a new map has no entries.
#[verifier::external_body]
pub(crate) fn new_name_map() -> (r: IndexMap<u32, String>)
    ensures
        name_entries(r) == Seq::<(u32, Seq<char>)>::empty(),
{
    IndexMap::new()
}

/// Relies on `IndexMap::len`: the number of entries.
#[verifier::external_body]
pub(crate) fn name_map_len(m: &IndexMap<u32, String>) -> (r: usize)
    ensures
        r == name_entries(*m).len(),
{
    m.len()
}

/// Relies on `IndexMap::contains_key`: whether an entry has the key.
#[verifier::external_body]
pub(crate) fn name_map_contains(m: &IndexMap<u32, String>, k: u32) -> (r: bool)
    ensures
        r == has_key(name_entries(*m), k),
{
    m.contains_key(&k)
}

/// Relies on `IndexMap::insert`: a new key goes last; an existing key keeps
/// its place and takes the new value.
#[verifier::external_body]
pub(crate) fn name_map_insert(m: &mut IndexMap<u32, String>, k: u32, v: String)
    ensures
        !has_key(name_entries(*old(m)), k) ==> name_entries(*final(m)) == name_entries(*old(m)).push(
            (k, v@),
        ),
        has_key(name_entries(*old(m)), k) ==> exists|i: int|
            0 <= i < name_entries(*old(m)).len() && name_entries(*old(m))[i].0 == k && name_entries(*final(m))
                == name_entries(*old(m)).update(i, (k, v@)),
{
    m.insert(k, v);
}

/// Relies on `IndexMap::get_index`: the entry at a position below the length.
#[verifier::external_body]
pub(crate) fn name_map_entry(m: &IndexMap<u32, String>, i: usize) -> (r: (u32, &String))
    requires
        i < name_entries(*m).len(),
    ensures
        (r.0, r.1@) == name_entries(*m)[i as int],
{
    let (k, v) = m.get_index(i).unwrap();
    (*k, v)
}

} // verus!

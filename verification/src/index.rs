//! The two lookup tables of an object, kept in hash maps of `hashbrown`.
//!
//! Verus does not see inside the maps. What they hold is named by
//! `role_index_entries` and `name_index_entries`, and the functions below are
//! believed to do to those entries what `hashbrown` documents.

use vstd::prelude::*;

verus! {

/// A map from the position of a standard section to the index of the section
/// that stands for it.
#[verifier::external_body]
#[derive(Debug)]
pub struct RoleIndex {
    map: hashbrown::HashMap<usize, usize>,
}

/// What a `RoleIndex` holds.
pub uninterp spec fn role_index_entries(index: RoleIndex) -> Map<usize, usize>;

/// `hashbrown::HashMap::new`: a new map holds nothing.
#[verifier::external_body]
pub(crate) fn role_index_new() -> (index: RoleIndex)
    ensures
        role_index_entries(index) == (Map::<usize, usize>::empty()),
{
    RoleIndex { map: hashbrown::HashMap::new() }
}

/// `hashbrown::HashMap::get`: the value stored under `key`, if there is one.
#[verifier::external_body]
pub(crate) fn role_index_get(index: &RoleIndex, key: usize) -> (value: Option<usize>)
    ensures
        value == (if role_index_entries(*index).contains_key(key) {
            Some(role_index_entries(*index)[key])
        } else {
            None
        }),
{
    index.map.get(&key).copied()
}

/// `hashbrown::HashMap::insert`: afterwards `key` maps to `value`, and every
/// other key to what it mapped to before.
#[verifier::external_body]
pub(crate) fn role_index_insert(index: &mut RoleIndex, key: usize, value: usize)
    ensures
        role_index_entries(*final(index)) == role_index_entries(*old(index)).insert(key, value),
{
    index.map.insert(key, value);
}

/// A map from the name of a symbol to the index of the symbol.
#[verifier::external_body]
#[derive(Debug)]
pub struct NameIndex {
    map: hashbrown::HashMap<Vec<u8>, usize>,
}

/// What a `NameIndex` holds.
pub uninterp spec fn name_index_entries(index: NameIndex) -> Map<Seq<u8>, usize>;

/// `hashbrown::HashMap::new`: a new map holds nothing.
#[verifier::external_body]
pub(crate) fn name_index_new() -> (index: NameIndex)
    ensures
        name_index_entries(index) == (Map::<Seq<u8>, usize>::empty()),
{
    NameIndex { map: hashbrown::HashMap::new() }
}

/// `hashbrown::HashMap::get`: the value stored under the name, if there is
/// one. Two names are the same key when their bytes are equal.
#[verifier::external_body]
pub(crate) fn name_index_get(index: &NameIndex, name: &[u8]) -> (value: Option<usize>)
    ensures
        value == (if name_index_entries(*index).contains_key(name@) {
            Some(name_index_entries(*index)[name@])
        } else {
            None
        }),
{
    index.map.get(name).copied()
}

/// `hashbrown::HashMap::insert`: afterwards the name maps to `value`, and
/// every other name to what it mapped to before.
#[verifier::external_body]
pub(crate) fn name_index_insert(index: &mut NameIndex, name: Vec<u8>, value: usize)
    ensures
        name_index_entries(*final(index)) == name_index_entries(*old(index)).insert(name@, value),
{
    index.map.insert(name, value);
}

} // verus!

//! The ordered map that holds a run's environment variables.
//!
//! The map is an `indexmap::IndexMap`. Verus does not look inside it: what it
//! holds is the sequence `env_entries`, and each operation that the library
//! uses is declared here with what it does to that sequence. These
//! declarations are taken on trust from the map's documentation; everything
//! built on them is proved.

use crate::model::{set_var, set_vars};
use indexmap::IndexMap;
use vstd::prelude::*;

verus! {

/// `indexmap::IndexMap`, declared as an opaque type so that it can stand in
/// fields and signatures.
#[verifier::external_type_specification]
#[verifier::external_body]
#[verifier::reject_recursive_types(K)]
#[verifier::reject_recursive_types(V)]
#[verifier::reject_recursive_types(S)]
pub struct ExIndexMap<K, V, S>(IndexMap<K, V, S>);

/// The variables that `m` holds, as (name, value) pairs in the map's own
/// order: the pair at place `i` is the one that `IndexMap::get_index` gives
/// for `i`.
pub uninterp spec fn env_entries(m: IndexMap<String, String>) -> Seq<(Seq<char>, Seq<char>)>;

/// `IndexMap::default`: a map that holds nothing.
#[verifier::external_body]
pub(crate) fn env_new() -> (m: IndexMap<String, String>)
    ensures
        env_entries(m) == Seq::<(Seq<char>, Seq<char>)>::empty(),
{
    IndexMap::default()
}

/// `IndexMap::insert`: a name that the map already holds keeps its place and
/// gets the new value; a new name is added last.
#[verifier::external_body]
pub(crate) fn env_insert(m: &mut IndexMap<String, String>, name: String, value: String)
    ensures
        env_entries(*final(m)) == set_var(env_entries(*old(m)), name@, value@),
{
    m.insert(name, value);
}

/// `IndexMap::extend`: the same as inserting each pair in turn.
#[verifier::external_body]
pub(crate) fn env_extend(m: &mut IndexMap<String, String>, vars: Vec<(String, String)>)
    ensures
        env_entries(*final(m)) == set_vars(env_entries(*old(m)), vars.deep_view()),
{
    m.extend(vars);
}

/// `IndexMap::clone`: a map with the same variables in the same order.
#[verifier::external_body]
pub(crate) fn env_clone(m: &IndexMap<String, String>) -> (copy: IndexMap<String, String>)
    ensures
        env_entries(copy) == env_entries(*m),
{
    m.clone()
}

/// `IndexMap::len`: the number of variables.
#[verifier::external_body]
pub(crate) fn env_len(m: &IndexMap<String, String>) -> (n: usize)
    ensures
        n == env_entries(*m).len(),
{
    m.len()
}

/// `IndexMap::get_index`: the name and value at position `i` of the map's
/// order, or nothing when `i` is not a position.
#[verifier::external_body]
pub(crate) fn env_get_index(m: &IndexMap<String, String>, i: usize) -> (r: Option<(&String, &String)>)
    ensures
        match r {
            Some(pair) => i < env_entries(*m).len() && pair.0@ == env_entries(*m)[i as int].0
                && pair.1@ == env_entries(*m)[i as int].1,
            None => i >= env_entries(*m).len(),
        },
{
    m.get_index(i)
}

} // verus!

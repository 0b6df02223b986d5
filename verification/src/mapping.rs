//! `Mapping`: a YAML mapping (key/value block).

use vstd::prelude::*;
use yaml_edit::{Mapping, MappingEntry, Sequence, YamlNode};
use crate::error::BindingError;
use crate::node::{PyNode, node_texts, wrap_nodes, wrap_pairs};
use crate::scalar_arg::ScalarArg;
use crate::sequence::PySequence;
use crate::text::{count_repr, decimal};

verus! {

/// `Mapping::clone`: another handle to the same mapping node. Claimed: the
/// clone equals the handle (the editor's handles compare by node identity).
#[verifier::external_body]
pub fn mapping_handle(m: &Mapping) -> (r: Mapping)
    ensures
        r == *m,
{
    m.clone()
}

/// `Mapping::len`. Read from the shared tree; nothing is stated.
#[verifier::external_body]
fn mapping_len(m: &Mapping) -> usize {
    m.len()
}

/// `Mapping::is_empty`. Read from the shared tree; nothing is stated.
#[verifier::external_body]
fn mapping_is_empty(m: &Mapping) -> bool {
    m.is_empty()
}

/// `Mapping::is_flow_style`. Read from the shared tree; nothing is stated.
#[verifier::external_body]
fn mapping_is_flow_style(m: &Mapping) -> bool {
    m.is_flow_style()
}

/// `Mapping::contains_key` with a string key. Read from the shared tree;
/// nothing is stated.
#[verifier::external_body]
fn mapping_contains_key(m: &Mapping, key: &str) -> bool {
    m.contains_key(key)
}

/// `Mapping::get` with a string key. Read from the shared tree; nothing is stated.
#[verifier::external_body]
fn mapping_get(m: &Mapping, key: &str) -> Option<YamlNode> {
    m.get(key)
}

/// `Mapping::get_mapping` with a string key. Read from the shared tree;
/// nothing is stated.
#[verifier::external_body]
fn mapping_get_mapping(m: &Mapping, key: &str) -> Option<Mapping> {
    m.get_mapping(key)
}

/// `Mapping::get_sequence` with a string key. Read from the shared tree;
/// nothing is stated.
#[verifier::external_body]
fn mapping_get_sequence(m: &Mapping, key: &str) -> Option<Sequence> {
    m.get_sequence(key)
}

/// `Mapping::set` with a string value: edits the shared tree.
#[verifier::external_body]
fn mapping_set_str(m: &Mapping, key: &str, value: &str) {
    m.set(key, value)
}

/// `Mapping::set` with an integer value: edits the shared tree.
#[verifier::external_body]
fn mapping_set_int(m: &Mapping, key: &str, value: i64) {
    m.set(key, value)
}

/// `Mapping::set` with a boolean value: edits the shared tree.
#[verifier::external_body]
fn mapping_set_bool(m: &Mapping, key: &str, value: bool) {
    m.set(key, value)
}

/// `Mapping::remove` with a string key: edits the shared tree and hands back
/// the removed entry, if any. Nothing is stated.
#[verifier::external_body]
fn mapping_remove(m: &Mapping, key: &str) -> Option<MappingEntry> {
    m.remove(key)
}

/// `Mapping::rename_key` with string keys: edits the shared tree. Nothing is stated.
#[verifier::external_body]
fn mapping_rename_key(m: &Mapping, old_key: &str, new_key: &str) -> bool {
    m.rename_key(old_key, new_key)
}

/// `Mapping::clear`: edits the shared tree.
#[verifier::external_body]
fn mapping_clear(m: &Mapping) {
    m.clear()
}

/// `Mapping::keys`, collected: the key nodes in document order. Read from the
/// shared tree; nothing is stated.
#[verifier::external_body]
fn mapping_keys(m: &Mapping) -> Vec<YamlNode> {
    m.keys().collect()
}

/// `Mapping::values`, collected: the value nodes in document order. Read from
/// the shared tree; nothing is stated.
#[verifier::external_body]
fn mapping_values(m: &Mapping) -> Vec<YamlNode> {
    m.values().collect()
}

/// `Mapping::iter`, collected: the (key, value) node pairs in document order.
/// Read from the shared tree; nothing is stated.
#[verifier::external_body]
fn mapping_pairs(m: &Mapping) -> Vec<(YamlNode, YamlNode)> {
    m.iter().collect()
}

/// `Mapping`'s `Display`: its source text. Read from the shared tree; nothing
/// is stated.
#[verifier::external_body]
fn mapping_text(m: &Mapping) -> String {
    m.to_string()
}

/// The `KeyError` for an absent key: its message is the key.
pub fn key_error(key: &str) -> (r: BindingError)
    ensures
        r matches BindingError::Key(m) && m@ == key@,
{
    BindingError::Key(String::from_str(key))
}

/// `m[key]`: the node found, or a `KeyError` naming the key when there is none.
pub fn found_or_key_error(found: Option<PyNode>, key: &str) -> (r: Result<PyNode, BindingError>)
    ensures
        found is Some <==> r is Ok,
        found matches Some(n) ==> r == Ok::<PyNode, BindingError>(n),
        found is None ==> (r matches Err(BindingError::Key(m)) && m@ == key@),
{
    match found {
        Some(n) => Ok(n),
        None => Err(key_error(key)),
    }
}

/// `del m[key]`: nothing when an entry was removed, a `KeyError` naming the
/// key when there was none.
pub fn removed_or_key_error(removed: bool, key: &str) -> (r: Result<(), BindingError>)
    ensures
        r is Ok <==> removed,
        !removed ==> (r matches Err(BindingError::Key(m)) && m@ == key@),
{
    if removed {
        Ok(())
    } else {
        Err(key_error(key))
    }
}

/// A YAML mapping (key/value block).
pub struct PyMapping {
    inner: Mapping,
}

impl PyMapping {
    /// The editor's handle that this value holds.
    pub closed spec fn held(&self) -> Mapping {
        self.inner
    }

    /// Wraps a mapping handle of the editor.
    pub fn new(inner: Mapping) -> (r: PyMapping)
        ensures
            r.held() == inner,
    {
        PyMapping { inner }
    }

    /// The editor's mapping, for calls that this crate does not make (floats).
    pub fn handle(&self) -> (r: &Mapping)
        ensures
            *r == self.held(),
    {
        &self.inner
    }

    pub fn __len__(&self) -> usize {
        mapping_len(&self.inner)
    }

    pub fn is_empty(&self) -> bool {
        mapping_is_empty(&self.inner)
    }

    pub fn is_flow_style(&self) -> bool {
        mapping_is_flow_style(&self.inner)
    }

    pub fn contains_key(&self, key: &str) -> bool {
        mapping_contains_key(&self.inner, key)
    }

    pub fn __contains__(&self, key: &str) -> bool {
        mapping_contains_key(&self.inner, key)
    }

    /// Look up a key, returning its value node or `None` if absent.
    pub fn get(&self, key: &str) -> Option<PyNode> {
        match mapping_get(&self.inner, key) {
            Some(n) => Some(PyNode::new(n)),
            None => None,
        }
    }

    /// Look up a key; a `KeyError` naming it when it is absent.
    pub fn __getitem__(&self, key: &str) -> (r: Result<PyNode, BindingError>)
        ensures
            r matches Err(e) ==> (e matches BindingError::Key(m) && m@ == key@),
    {
        let found = self.get(key);
        found_or_key_error(found, key)
    }

    /// Look up a key whose value is a nested mapping.
    pub fn get_mapping(&self, key: &str) -> Option<PyMapping> {
        match mapping_get_mapping(&self.inner, key) {
            Some(m) => Some(PyMapping::new(m)),
            None => None,
        }
    }

    /// Look up a key whose value is a nested sequence.
    pub fn get_sequence(&self, key: &str) -> Option<PySequence> {
        match mapping_get_sequence(&self.inner, key) {
            Some(s) => Some(PySequence::new(s)),
            None => None,
        }
    }

    /// Set `key` to `value`, inserting a new entry or updating an existing one.
    pub fn set(&self, key: &str, value: &ScalarArg) {
        match value {
            ScalarArg::Str(s) => mapping_set_str(&self.inner, key, s.as_str()),
            ScalarArg::Int(i) => mapping_set_int(&self.inner, key, *i),
            ScalarArg::Bool(b) => mapping_set_bool(&self.inner, key, *b),
        }
    }

    pub fn __setitem__(&self, key: &str, value: &ScalarArg) {
        self.set(key, value)
    }

    /// Remove `key`, returning `true` if it was present.
    pub fn remove(&self, key: &str) -> bool {
        mapping_remove(&self.inner, key).is_some()
    }

    /// Remove `key`; a `KeyError` naming it when it was absent.
    pub fn __delitem__(&self, key: &str) -> (r: Result<(), BindingError>)
        ensures
            r matches Err(e) ==> (e matches BindingError::Key(m) && m@ == key@),
    {
        let removed = mapping_remove(&self.inner, key).is_some();
        removed_or_key_error(removed, key)
    }

    /// Rename `old_key` to `new_key`, returning `true` on success.
    pub fn rename_key(&self, old_key: &str, new_key: &str) -> bool {
        mapping_rename_key(&self.inner, old_key, new_key)
    }

    pub fn clear(&self) {
        mapping_clear(&self.inner)
    }

    /// The mapping's keys, in document order.
    pub fn keys(&self) -> (r: Vec<String>)
        ensures
            exists|ks: Seq<YamlNode>| r.len() == ks.len(),
    {
        let ks = mapping_keys(&self.inner);
        let r = node_texts(&ks);
        assert(r.len() == ks@.len());
        r
    }

    /// The mapping's value nodes, in document order.
    pub fn values(&self) -> (r: Vec<PyNode>)
        ensures
            exists|vs: Seq<YamlNode>|
                r.len() == vs.len() && forall|i: int|
                    0 <= i < vs.len() ==> (#[trigger] r@[i]).held() == vs[i],
    {
        let vs = mapping_values(&self.inner);
        let ghost s = vs@;
        let r = wrap_nodes(vs);
        assert(r.len() == s.len() && forall|i: int|
            0 <= i < s.len() ==> (#[trigger] r@[i]).held() == s[i]);
        r
    }

    /// (key, value) pairs, in document order.
    pub fn items(&self) -> (r: Vec<(String, PyNode)>)
        ensures
            exists|p: Seq<(YamlNode, YamlNode)>|
                r.len() == p.len() && forall|i: int|
                    0 <= i < p.len() ==> (#[trigger] r@[i]).1.held() == p[i].1,
    {
        let pairs = mapping_pairs(&self.inner);
        let ghost p = pairs@;
        let r = wrap_pairs(pairs);
        assert(r.len() == p.len() && forall|i: int|
            0 <= i < p.len() ==> (#[trigger] r@[i]).1.held() == p[i].1);
        r
    }

    pub fn __str__(&self) -> String {
        mapping_text(&self.inner)
    }

    /// `<yaml_edit.Mapping len=N>`.
    pub fn __repr__(&self) -> (r: String)
        ensures
            exists|n: usize| r@ == "<yaml_edit.Mapping len="@ + decimal(n as nat) + ">"@,
    {
        count_repr("<yaml_edit.Mapping len=", mapping_len(&self.inner))
    }
}

} // verus!

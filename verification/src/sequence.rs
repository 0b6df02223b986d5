//! `Sequence`: a YAML sequence (list).

use vstd::prelude::*;
use yaml_edit::{Sequence, YamlNode};
use crate::error::BindingError;
use crate::node::{PyNode, wrap_nodes};
use crate::scalar_arg::ScalarArg;
use crate::text::{count_repr, decimal};

verus! {

/// `Sequence::clone`: another handle to the same sequence node. Claimed: the
/// clone equals the handle (the editor's handles compare by node identity).
#[verifier::external_body]
pub fn sequence_handle(s: &Sequence) -> (r: Sequence)
    ensures
        r == *s,
{
    s.clone()
}

/// `Sequence::len`. Read from the shared tree; nothing is stated.
#[verifier::external_body]
fn sequence_len(s: &Sequence) -> usize {
    s.len()
}

/// `Sequence::is_empty`. Read from the shared tree; nothing is stated.
#[verifier::external_body]
fn sequence_is_empty(s: &Sequence) -> bool {
    s.is_empty()
}

/// `Sequence::is_flow_style`. Read from the shared tree; nothing is stated.
#[verifier::external_body]
fn sequence_is_flow_style(s: &Sequence) -> bool {
    s.is_flow_style()
}

/// `Sequence::get`. Read from the shared tree; nothing is stated.
#[verifier::external_body]
fn sequence_get(s: &Sequence, index: usize) -> Option<YamlNode> {
    s.get(index)
}

/// `Sequence::first`. Read from the shared tree; nothing is stated.
#[verifier::external_body]
fn sequence_first(s: &Sequence) -> Option<YamlNode> {
    s.first()
}

/// `Sequence::last`. Read from the shared tree; nothing is stated.
#[verifier::external_body]
fn sequence_last(s: &Sequence) -> Option<YamlNode> {
    s.last()
}

/// `Sequence::push` with a string value: edits the shared tree.
#[verifier::external_body]
fn sequence_push_str(s: &Sequence, value: &str) {
    s.push(value)
}

/// `Sequence::push` with an integer value: edits the shared tree.
#[verifier::external_body]
fn sequence_push_int(s: &Sequence, value: i64) {
    s.push(value)
}

/// `Sequence::push` with a boolean value: edits the shared tree.
#[verifier::external_body]
fn sequence_push_bool(s: &Sequence, value: bool) {
    s.push(value)
}

/// `Sequence::insert` with a string value: edits the shared tree (past the
/// end, it appends).
#[verifier::external_body]
fn sequence_insert_str(s: &Sequence, index: usize, value: &str) {
    s.insert(index, value)
}

/// `Sequence::insert` with an integer value: edits the shared tree.
#[verifier::external_body]
fn sequence_insert_int(s: &Sequence, index: usize, value: i64) {
    s.insert(index, value)
}

/// `Sequence::insert` with a boolean value: edits the shared tree.
#[verifier::external_body]
fn sequence_insert_bool(s: &Sequence, index: usize, value: bool) {
    s.insert(index, value)
}

/// `Sequence::set` with a string value: edits the shared tree; whether the
/// index was in range is read from it, so nothing is stated.
#[verifier::external_body]
fn sequence_set_str(s: &Sequence, index: usize, value: &str) -> bool {
    s.set(index, value)
}

/// `Sequence::set` with an integer value; as `sequence_set_str`.
#[verifier::external_body]
fn sequence_set_int(s: &Sequence, index: usize, value: i64) -> bool {
    s.set(index, value)
}

/// `Sequence::set` with a boolean value; as `sequence_set_str`.
#[verifier::external_body]
fn sequence_set_bool(s: &Sequence, index: usize, value: bool) -> bool {
    s.set(index, value)
}

/// `Sequence::remove`: edits the shared tree, handing back the removed item.
/// Nothing is stated.
#[verifier::external_body]
fn sequence_remove(s: &Sequence, index: usize) -> Option<YamlNode> {
    s.remove(index)
}

/// `Sequence::pop`: edits the shared tree, handing back the removed item.
/// Nothing is stated.
#[verifier::external_body]
fn sequence_pop(s: &Sequence) -> Option<YamlNode> {
    s.pop()
}

/// `Sequence::clear`: edits the shared tree.
#[verifier::external_body]
fn sequence_clear(s: &Sequence) {
    s.clear()
}

/// `Sequence::values`, collected: the items in order. Read from the shared
/// tree; nothing is stated.
#[verifier::external_body]
fn sequence_values(s: &Sequence) -> Vec<YamlNode> {
    s.values().collect()
}

/// `Sequence`'s `Display`: its source text. Read from the shared tree; nothing
/// is stated.
#[verifier::external_body]
fn sequence_text(s: &Sequence) -> String {
    s.to_string()
}

/// The message of the `IndexError` for an index past the end.
pub open spec fn index_message() -> Seq<char> {
    "sequence index out of range"@
}

/// The `IndexError` for an index past the end.
pub fn index_error() -> (r: BindingError)
    ensures
        r matches BindingError::Index(m) && m@ == index_message(),
{
    BindingError::Index(String::from_str("sequence index out of range"))
}

/// `s[i]`: the node found, or an `IndexError` when there is none.
pub fn found_or_index_error(found: Option<PyNode>) -> (r: Result<PyNode, BindingError>)
    ensures
        found is Some <==> r is Ok,
        found matches Some(n) ==> r == Ok::<PyNode, BindingError>(n),
        found is None ==> (r matches Err(BindingError::Index(m)) && m@ == index_message()),
{
    match found {
        Some(n) => Ok(n),
        None => Err(index_error()),
    }
}

/// `s[i] = v`: nothing when the item was replaced, an `IndexError` when the
/// index was out of range.
pub fn replaced_or_index_error(replaced: bool) -> (r: Result<(), BindingError>)
    ensures
        r is Ok <==> replaced,
        !replaced ==> (r matches Err(BindingError::Index(m)) && m@ == index_message()),
{
    if replaced {
        Ok(())
    } else {
        Err(index_error())
    }
}

fn wrap_found(found: Option<YamlNode>) -> (r: Option<PyNode>)
    ensures
        r is Some <==> found is Some,
        r matches Some(n) ==> found == Some(n.held()),
{
    match found {
        Some(n) => Some(PyNode::new(n)),
        None => None,
    }
}

/// A YAML sequence (list).
pub struct PySequence {
    inner: Sequence,
}

impl PySequence {
    /// The editor's handle that this value holds.
    pub closed spec fn held(&self) -> Sequence {
        self.inner
    }

    /// Wraps a sequence handle of the editor.
    pub fn new(inner: Sequence) -> (r: PySequence)
        ensures
            r.held() == inner,
    {
        PySequence { inner }
    }

    /// The editor's sequence, for calls that this crate does not make (floats).
    pub fn handle(&self) -> (r: &Sequence)
        ensures
            *r == self.held(),
    {
        &self.inner
    }

    pub fn __len__(&self) -> usize {
        sequence_len(&self.inner)
    }

    pub fn is_empty(&self) -> bool {
        sequence_is_empty(&self.inner)
    }

    pub fn is_flow_style(&self) -> bool {
        sequence_is_flow_style(&self.inner)
    }

    /// Element at `index`, or `None` if out of range.
    pub fn get(&self, index: usize) -> Option<PyNode> {
        wrap_found(sequence_get(&self.inner, index))
    }

    /// Element at `index`; an `IndexError` when out of range.
    pub fn __getitem__(&self, index: usize) -> (r: Result<PyNode, BindingError>)
        ensures
            r matches Err(e) ==> (e matches BindingError::Index(m) && m@ == index_message()),
    {
        found_or_index_error(self.get(index))
    }

    pub fn first(&self) -> Option<PyNode> {
        wrap_found(sequence_first(&self.inner))
    }

    pub fn last(&self) -> Option<PyNode> {
        wrap_found(sequence_last(&self.inner))
    }

    /// Append `value` to the end of the sequence.
    pub fn push(&self, value: &ScalarArg) {
        match value {
            ScalarArg::Str(s) => sequence_push_str(&self.inner, s.as_str()),
            ScalarArg::Int(i) => sequence_push_int(&self.inner, *i),
            ScalarArg::Bool(b) => sequence_push_bool(&self.inner, *b),
        }
    }

    /// Insert `value` before `index`.
    pub fn insert(&self, index: usize, value: &ScalarArg) {
        match value {
            ScalarArg::Str(s) => sequence_insert_str(&self.inner, index, s.as_str()),
            ScalarArg::Int(i) => sequence_insert_int(&self.inner, index, *i),
            ScalarArg::Bool(b) => sequence_insert_bool(&self.inner, index, *b),
        }
    }

    /// Replace the element at `index`, returning `true` on success.
    pub fn set(&self, index: usize, value: &ScalarArg) -> bool {
        match value {
            ScalarArg::Str(s) => sequence_set_str(&self.inner, index, s.as_str()),
            ScalarArg::Int(i) => sequence_set_int(&self.inner, index, *i),
            ScalarArg::Bool(b) => sequence_set_bool(&self.inner, index, *b),
        }
    }

    /// Replace the element at `index`; an `IndexError` when out of range.
    pub fn __setitem__(&self, index: usize, value: &ScalarArg) -> (r: Result<(), BindingError>)
        ensures
            r matches Err(e) ==> (e matches BindingError::Index(m) && m@ == index_message()),
    {
        let replaced = self.set(index, value);
        replaced_or_index_error(replaced)
    }

    /// Remove and return the element at `index`.
    pub fn remove(&self, index: usize) -> Option<PyNode> {
        wrap_found(sequence_remove(&self.inner, index))
    }

    /// Remove and return the last element.
    pub fn pop(&self) -> Option<PyNode> {
        wrap_found(sequence_pop(&self.inner))
    }

    pub fn clear(&self) {
        sequence_clear(&self.inner)
    }

    /// The sequence's element nodes, in order.
    pub fn values(&self) -> (r: Vec<PyNode>)
        ensures
            exists|vs: Seq<YamlNode>|
                r.len() == vs.len() && forall|i: int|
                    0 <= i < vs.len() ==> (#[trigger] r@[i]).held() == vs[i],
    {
        let vs = sequence_values(&self.inner);
        let ghost s = vs@;
        let r = wrap_nodes(vs);
        assert(r.len() == s.len() && forall|i: int|
            0 <= i < s.len() ==> (#[trigger] r@[i]).held() == s[i]);
        r
    }

    pub fn __str__(&self) -> String {
        sequence_text(&self.inner)
    }

    /// `<yaml_edit.Sequence len=N>`.
    pub fn __repr__(&self) -> (r: String)
        ensures
            exists|n: usize| r@ == "<yaml_edit.Sequence len="@ + decimal(n as nat) + ">"@,
    {
        count_repr("<yaml_edit.Sequence len=", sequence_len(&self.inner))
    }
}

} // verus!

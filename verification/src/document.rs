//! `Document`: a single YAML document.

use vstd::prelude::*;
use yaml_edit::{Document, Mapping, MappingEntry, Scalar, Sequence, YamlError, YamlNode};
use crate::error::{BindingError, value_error};
use crate::mapping::{PyMapping, found_or_key_error, removed_or_key_error};
use crate::merged::PyMergedMapping;
use crate::node::{PyNode, node_texts};
use crate::scalar::PyScalar;
use crate::scalar_arg::ScalarArg;
use crate::sequence::PySequence;
use crate::text::{quoted_repr, str_debug};

verus! {

/// `YamlError`'s `Display`: the error's message. Nothing is stated of it.
#[verifier::external_body]
fn yaml_error_message(err: &YamlError) -> String {
    err.to_string()
}

/// An error of the editor, raised as a `ValueError` with the error's message.
pub fn map_err(err: YamlError) -> (r: BindingError)
    ensures
        r is Value,
{
    value_error(yaml_error_message(&err))
}

/// `Document::clone`: another handle to the same document node. Claimed: the
/// clone equals the handle (the editor's handles compare by node identity).
#[verifier::external_body]
pub fn document_handle(d: &Document) -> (r: Document)
    ensures
        r == *d,
{
    d.clone()
}

/// `Document::new`: a fresh, empty document.
#[verifier::external_body]
fn document_new() -> Document {
    Document::new()
}

/// Whether the editor's `Document::from_str` accepts `text`: a function of
/// the text alone (it refuses syntax errors, several documents, and content
/// outside the document).
pub uninterp spec fn document_parses(text: Seq<char>) -> bool;

/// `Document`'s `FromStr`: parses one document, or gives the editor's error.
/// Claimed: whether it succeeds is a function of the text, named `document_parses`.
#[verifier::external_body]
fn document_from_str(text: &str) -> (r: Result<Document, YamlError>)
    ensures
        r is Ok <==> document_parses(text@),
{
    text.parse::<Document>()
}

/// `Document::is_empty`. Read from the shared tree; nothing is stated.
#[verifier::external_body]
fn document_is_empty(d: &Document) -> bool {
    d.is_empty()
}

/// `Document::as_mapping`. Read from the shared tree; nothing is stated.
#[verifier::external_body]
fn document_as_mapping(d: &Document) -> Option<Mapping> {
    d.as_mapping()
}

/// `Document::as_sequence`. Read from the shared tree; nothing is stated.
#[verifier::external_body]
fn document_as_sequence(d: &Document) -> Option<Sequence> {
    d.as_sequence()
}

/// `Document::as_scalar`. Read from the shared tree; nothing is stated.
#[verifier::external_body]
fn document_as_scalar(d: &Document) -> Option<Scalar> {
    d.as_scalar()
}

/// `Document::contains_key` with a string key. Read from the shared tree;
/// nothing is stated.
#[verifier::external_body]
fn document_contains_key(d: &Document, key: &str) -> bool {
    d.contains_key(key)
}

/// `Document::get` with a string key. Read from the shared tree; nothing is stated.
#[verifier::external_body]
fn document_get(d: &Document, key: &str) -> Option<YamlNode> {
    d.get(key)
}

/// `Document::get_string` with a string key. Read from the shared tree;
/// nothing is stated.
#[verifier::external_body]
fn document_get_string(d: &Document, key: &str) -> Option<String> {
    d.get_string(key)
}

/// `Document::set` with a string value: edits the shared tree.
#[verifier::external_body]
fn document_set_str(d: &Document, key: &str, value: &str) -> bool {
    d.set(key, value)
}

/// `Document::set` with an integer value: edits the shared tree.
#[verifier::external_body]
fn document_set_int(d: &Document, key: &str, value: i64) -> bool {
    d.set(key, value)
}

/// `Document::set` with a boolean value: edits the shared tree.
#[verifier::external_body]
fn document_set_bool(d: &Document, key: &str, value: bool) -> bool {
    d.set(key, value)
}

/// `Document::remove` with a string key: edits the shared tree, handing back
/// the removed entry. Nothing is stated.
#[verifier::external_body]
fn document_remove(d: &Document, key: &str) -> Option<MappingEntry> {
    d.remove(key)
}

/// `Document::rename_key` with string keys: edits the shared tree. Nothing is stated.
#[verifier::external_body]
fn document_rename_key(d: &Document, old_key: &str, new_key: &str) -> bool {
    d.rename_key(old_key, new_key)
}

/// `Document::keys`, collected: the top-level key nodes in document order.
/// Read from the shared tree; nothing is stated.
#[verifier::external_body]
fn document_keys(d: &Document) -> Vec<YamlNode> {
    d.keys().collect()
}

/// `Document`'s `Display`: its source text. Read from the shared tree; nothing
/// is stated.
#[verifier::external_body]
fn document_text(d: &Document) -> String {
    d.to_string()
}

/// A single YAML document.
pub struct PyDocument {
    inner: Document,
}

impl PyDocument {
    /// The editor's handle that this value holds.
    pub closed spec fn held(&self) -> Document {
        self.inner
    }

    /// Create an empty document.
    pub fn new() -> PyDocument {
        PyDocument { inner: document_new() }
    }

    /// Wraps a document handle of the editor (such as one read from a file).
    pub fn from_handle(inner: Document) -> (r: PyDocument)
        ensures
            r.held() == inner,
    {
        PyDocument { inner }
    }

    /// The editor's document, for calls that this crate does not make (files, floats).
    pub fn handle(&self) -> (r: &Document)
        ensures
            *r == self.held(),
    {
        &self.inner
    }

    /// Parse a document from a YAML string; a `ValueError` when the editor refuses it.
    pub fn parse(text: &str) -> (r: Result<PyDocument, BindingError>)
        ensures
            r is Ok <==> document_parses(text@),
            r matches Err(e) ==> e is Value,
    {
        match document_from_str(text) {
            Ok(d) => Ok(PyDocument { inner: d }),
            Err(e) => Err(map_err(e)),
        }
    }

    pub fn is_empty(&self) -> bool {
        document_is_empty(&self.inner)
    }

    /// The document root as a mapping, or `None` if it is not a mapping.
    pub fn as_mapping(&self) -> Option<PyMapping> {
        match document_as_mapping(&self.inner) {
            Some(m) => Some(PyMapping::new(m)),
            None => None,
        }
    }

    /// The document root as a sequence, or `None` if it is not a sequence.
    pub fn as_sequence(&self) -> Option<PySequence> {
        match document_as_sequence(&self.inner) {
            Some(s) => Some(PySequence::new(s)),
            None => None,
        }
    }

    /// The document root as a scalar, or `None` if it is not a scalar.
    pub fn as_scalar(&self) -> Option<PyScalar> {
        match document_as_scalar(&self.inner) {
            Some(s) => Some(PyScalar::new(s)),
            None => None,
        }
    }

    pub fn contains_key(&self, key: &str) -> bool {
        document_contains_key(&self.inner, key)
    }

    pub fn __contains__(&self, key: &str) -> bool {
        document_contains_key(&self.inner, key)
    }

    /// Look up a top-level key, returning its value node or `None`.
    pub fn get(&self, key: &str) -> Option<PyNode> {
        match document_get(&self.inner, key) {
            Some(n) => Some(PyNode::new(n)),
            None => None,
        }
    }

    /// Look up a top-level key; a `KeyError` naming it when it is absent.
    pub fn __getitem__(&self, key: &str) -> (r: Result<PyNode, BindingError>)
        ensures
            r matches Err(e) ==> (e matches BindingError::Key(m) && m@ == key@),
    {
        let found = self.get(key);
        found_or_key_error(found, key)
    }

    /// The value of a top-level key as a string, or `None`.
    pub fn get_string(&self, key: &str) -> Option<String> {
        document_get_string(&self.inner, key)
    }

    /// Set a top-level key, treating the document root as a mapping.
    pub fn set(&self, key: &str, value: &ScalarArg) {
        let _ = match value {
            ScalarArg::Str(s) => document_set_str(&self.inner, key, s.as_str()),
            ScalarArg::Int(i) => document_set_int(&self.inner, key, *i),
            ScalarArg::Bool(b) => document_set_bool(&self.inner, key, *b),
        };
    }

    pub fn __setitem__(&self, key: &str, value: &ScalarArg) {
        self.set(key, value)
    }

    /// Remove a top-level key, returning `true` if it was present.
    pub fn remove(&self, key: &str) -> bool {
        document_remove(&self.inner, key).is_some()
    }

    /// Remove a top-level key; a `KeyError` naming it when it was absent.
    pub fn __delitem__(&self, key: &str) -> (r: Result<(), BindingError>)
        ensures
            r matches Err(e) ==> (e matches BindingError::Key(m) && m@ == key@),
    {
        let removed = document_remove(&self.inner, key).is_some();
        removed_or_key_error(removed, key)
    }

    pub fn rename_key(&self, old_key: &str, new_key: &str) -> bool {
        document_rename_key(&self.inner, old_key, new_key)
    }

    /// The top-level keys, in document order.
    pub fn keys(&self) -> (r: Vec<String>)
        ensures
            exists|ks: Seq<YamlNode>| r.len() == ks.len(),
    {
        let ks = document_keys(&self.inner);
        let r = node_texts(&ks);
        assert(r.len() == ks@.len());
        r
    }

    /// A read-only view of the root mapping that resolves aliases and merge
    /// keys; `None` when the root is not a mapping, a `ValueError` when an
    /// alias or merge key does not resolve.
    pub fn merged(&self) -> (r: Result<Option<PyMergedMapping>, BindingError>)
        ensures
            r matches Err(e) ==> e is Value,
    {
        PyMergedMapping::of_document(&self.inner)
    }

    /// Serialize the document back to a string, preserving formatting.
    pub fn __str__(&self) -> String {
        document_text(&self.inner)
    }

    /// `<yaml_edit.Document "text">`, the text in debug quoting.
    pub fn __repr__(&self) -> (r: String)
        ensures
            exists|t: Seq<char>| r@ == "<yaml_edit.Document "@ + str_debug(t) + ">"@,
    {
        let text = self.__str__();
        quoted_repr("<yaml_edit.Document ", text.as_str())
    }
}

} // verus!

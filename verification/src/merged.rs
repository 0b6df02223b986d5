//! `MergedMapping`: a read-only view of a mapping that resolves aliases and
//! merge keys (`<<`), as the editor's anchor resolution gives it.

use std::rc::Rc;
use vstd::prelude::*;
use yaml_edit::anchor_resolution::{DocumentMergedExt, MergedMapping, MergedView, ResolveError};
use yaml_edit::{Document, Mapping, YamlNode};
use crate::error::{BindingError, value_error};
use crate::mapping::{found_or_key_error, mapping_handle};
use crate::node::{PyNode, node_texts, wrap_nodes, wrap_pairs};

verus! {

/// `ResolveError`'s `Display`: the error's message. Nothing is stated of it.
#[verifier::external_body]
fn resolve_error_message(err: &ResolveError) -> String {
    err.to_string()
}

/// An alias or merge key that does not resolve, raised as a `ValueError`
/// with the error's message.
pub fn map_resolve_err(err: ResolveError) -> (r: BindingError)
    ensures
        r is Value,
{
    value_error(resolve_error_message(&err))
}

/// `Document::merged` (`DocumentMergedExt`): the merged view of the root
/// mapping, `None` when the root is not a mapping. Read from the shared tree;
/// nothing is stated.
#[verifier::external_body]
fn document_merged(d: &Document) -> Result<Option<MergedView>, ResolveError> {
    d.merged()
}

/// `MergedView::as_mapping`: the view as a `MergedMapping`.
#[verifier::external_body]
fn merged_view_mapping<'a>(v: &'a MergedView) -> MergedMapping<'a> {
    v.as_mapping()
}

/// `MergedMapping::base`, cloned: the mapping the view is over.
#[verifier::external_body]
fn merged_base(m: &MergedMapping) -> Mapping {
    m.base().clone()
}

/// `MergedMapping::new` over `base`, with the registry of `v`
/// (`MergedView::registry`). Nothing is stated: it reads the shared tree.
#[verifier::external_body]
fn merged_mapping_new<'a>(base: Mapping, v: &'a MergedView) -> Result<MergedMapping<'a>, ResolveError> {
    MergedMapping::new(base, v.registry())
}

/// `MergedMapping::get` with a string key. Nothing is stated.
#[verifier::external_body]
fn merged_get(m: &MergedMapping, key: &str) -> Option<YamlNode> {
    m.get(key)
}

/// `MergedMapping::contains_key` with a string key. Nothing is stated.
#[verifier::external_body]
fn merged_contains_key(m: &MergedMapping, key: &str) -> bool {
    m.contains_key(key)
}

/// `MergedMapping::len`. Nothing is stated.
#[verifier::external_body]
fn merged_len(m: &MergedMapping) -> usize {
    m.len()
}

/// `MergedMapping::keys`, collected: direct keys in document order, then
/// merged-in keys. Nothing is stated.
#[verifier::external_body]
fn merged_keys(m: &MergedMapping) -> Vec<YamlNode> {
    m.keys().collect()
}

/// `MergedMapping::values`, collected, in the order of `keys`. Nothing is stated.
#[verifier::external_body]
fn merged_values(m: &MergedMapping) -> Vec<YamlNode> {
    m.values().collect()
}

/// `MergedMapping::iter`, collected: the (key, value) pairs. Nothing is stated.
#[verifier::external_body]
fn merged_pairs(m: &MergedMapping) -> Vec<(YamlNode, YamlNode)> {
    m.iter().collect()
}

/// `MergedMapping::get_merged` with a string key: the nested mapping's
/// merged view, `None` when the key is absent or not a mapping. Nothing is stated.
#[verifier::external_body]
fn merged_get_merged<'a>(m: &MergedMapping<'a>, key: &str) -> Result<Option<MergedMapping<'a>>, ResolveError> {
    m.get_merged(key)
}

/// A read-only view of a mapping that resolves aliases and merge keys:
/// direct entries win over merged ones, and `<<` itself is hidden. The
/// anchors are those collected when the view was made; the entries are
/// resolved again at each call, so a later edit of the tree shows through.
pub struct PyMergedMapping {
    view: Rc<MergedView>,
    base: Mapping,
}

impl PyMergedMapping {
    /// The mapping that the view is over.
    pub closed spec fn held(&self) -> Mapping {
        self.base
    }

    /// The merged view of the document's root mapping, `None` when the root
    /// is not a mapping; a `ValueError` when an alias or merge key does not
    /// resolve.
    pub fn of_document(d: &Document) -> (r: Result<Option<PyMergedMapping>, BindingError>)
        ensures
            r matches Err(e) ==> e is Value,
    {
        match document_merged(d) {
            Err(e) => Err(map_resolve_err(e)),
            Ok(None) => Ok(None),
            Ok(Some(v)) => {
                let base = merged_base(&merged_view_mapping(&v));
                Ok(Some(PyMergedMapping { view: Rc::new(v), base }))
            },
        }
    }

    fn resolved(&self) -> (r: Result<MergedMapping<'_>, BindingError>)
        ensures
            r matches Err(e) ==> e is Value,
    {
        match merged_mapping_new(mapping_handle(&self.base), &*self.view) {
            Ok(m) => Ok(m),
            Err(e) => Err(map_resolve_err(e)),
        }
    }

    /// Look up a key through the view, `None` when it is not visible.
    pub fn get(&self, key: &str) -> (r: Result<Option<PyNode>, BindingError>)
        ensures
            r matches Err(e) ==> e is Value,
    {
        let m = self.resolved()?;
        match merged_get(&m, key) {
            Some(n) => Ok(Some(PyNode::new(n))),
            None => Ok(None),
        }
    }

    /// Look up a key through the view; a `KeyError` naming it when it is not visible.
    pub fn __getitem__(&self, key: &str) -> (r: Result<PyNode, BindingError>)
        ensures
            r matches Err(e) ==> (e is Value || (e matches BindingError::Key(m) && m@ == key@)),
    {
        let found = self.get(key)?;
        found_or_key_error(found, key)
    }

    pub fn contains_key(&self, key: &str) -> (r: Result<bool, BindingError>)
        ensures
            r matches Err(e) ==> e is Value,
    {
        let m = self.resolved()?;
        Ok(merged_contains_key(&m, key))
    }

    pub fn __contains__(&self, key: &str) -> (r: Result<bool, BindingError>)
        ensures
            r matches Err(e) ==> e is Value,
    {
        self.contains_key(key)
    }

    /// The number of keys visible through the view.
    pub fn __len__(&self) -> (r: Result<usize, BindingError>)
        ensures
            r matches Err(e) ==> e is Value,
    {
        let m = self.resolved()?;
        Ok(merged_len(&m))
    }

    /// The visible keys: direct ones in document order, then merged-in ones.
    pub fn keys(&self) -> (r: Result<Vec<String>, BindingError>)
        ensures
            r matches Err(e) ==> e is Value,
            r matches Ok(v) ==> exists|ks: Seq<YamlNode>| v.len() == ks.len(),
    {
        let m = self.resolved()?;
        let ks = merged_keys(&m);
        let v = node_texts(&ks);
        assert(v.len() == ks@.len());
        Ok(v)
    }

    /// The visible values, in the order of `keys`.
    pub fn values(&self) -> (r: Result<Vec<PyNode>, BindingError>)
        ensures
            r matches Err(e) ==> e is Value,
            r matches Ok(v) ==> exists|vs: Seq<YamlNode>|
                v.len() == vs.len() && forall|i: int|
                    0 <= i < vs.len() ==> (#[trigger] v@[i]).held() == vs[i],
    {
        let m = self.resolved()?;
        let vs = merged_values(&m);
        let ghost s = vs@;
        let v = wrap_nodes(vs);
        assert(v.len() == s.len() && forall|i: int|
            0 <= i < s.len() ==> (#[trigger] v@[i]).held() == s[i]);
        Ok(v)
    }

    /// The visible (key, value) pairs, in the order of `keys`.
    pub fn items(&self) -> (r: Result<Vec<(String, PyNode)>, BindingError>)
        ensures
            r matches Err(e) ==> e is Value,
            r matches Ok(v) ==> exists|p: Seq<(YamlNode, YamlNode)>|
                v.len() == p.len() && forall|i: int|
                    0 <= i < p.len() ==> (#[trigger] v@[i]).1.held() == p[i].1,
    {
        let m = self.resolved()?;
        let pairs = merged_pairs(&m);
        let ghost p = pairs@;
        let v = wrap_pairs(pairs);
        assert(v.len() == p.len() && forall|i: int|
            0 <= i < p.len() ==> (#[trigger] v@[i]).1.held() == p[i].1);
        Ok(v)
    }

    /// The merged view of the nested mapping under `key`, sharing this
    /// view's anchors; `None` when the key is absent or not a mapping.
    pub fn get_merged(&self, key: &str) -> (r: Result<Option<PyMergedMapping>, BindingError>)
        ensures
            r matches Err(e) ==> e is Value,
    {
        let m = self.resolved()?;
        match merged_get_merged(&m, key) {
            Err(e) => Err(map_resolve_err(e)),
            Ok(None) => Ok(None),
            Ok(Some(nested)) => {
                let base = merged_base(&nested);
                Ok(Some(PyMergedMapping { view: Rc::clone(&self.view), base }))
            },
        }
    }
}

} // verus!

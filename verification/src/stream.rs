//! `YamlFile`: a YAML stream, which may hold several documents and directives.

use vstd::prelude::*;
use yaml_edit::{Directive, Document, YamlError, YamlFile};
use crate::document::{PyDocument, document_handle, map_err};
use crate::error::BindingError;
use crate::text::{count_repr, decimal};

verus! {

/// `YamlFile::new`: a fresh, empty stream.
#[verifier::external_body]
fn yaml_file_new() -> YamlFile {
    YamlFile::new()
}

/// Whether the editor's `YamlFile::from_str` accepts `text`: a function of
/// the text alone (it refuses text with a syntax error).
pub uninterp spec fn stream_parses(text: Seq<char>) -> bool;

/// `YamlFile`'s `FromStr`: parses a stream, or gives the editor's error.
/// Claimed: whether it succeeds is a function of the text, named `stream_parses`.
#[verifier::external_body]
fn yaml_file_from_str(text: &str) -> (r: Result<YamlFile, YamlError>)
    ensures
        r is Ok <==> stream_parses(text@),
{
    text.parse::<YamlFile>()
}

/// `YamlFile::documents`, collected: the documents in order. Read from the
/// shared tree; nothing is stated.
#[verifier::external_body]
fn yaml_file_documents(f: &YamlFile) -> Vec<Document> {
    f.documents().collect()
}

/// `YamlFile::document`: the first document. Read from the shared tree;
/// nothing is stated.
#[verifier::external_body]
fn yaml_file_document(f: &YamlFile) -> Option<Document> {
    f.document()
}

/// `YamlFile::ensure_document`: the first document, after adding an empty one
/// to a stream that has none. Nothing is stated.
#[verifier::external_body]
fn yaml_file_ensure_document(f: &YamlFile) -> Document {
    f.ensure_document()
}

/// `YamlFile::push_document`: appends a document to the shared tree.
#[verifier::external_body]
fn yaml_file_push_document(f: &YamlFile, document: Document) {
    f.push_document(document)
}

/// `YamlFile::directives`, collected: the directive lines in order. Read from
/// the shared tree; nothing is stated.
#[verifier::external_body]
fn yaml_file_directives(f: &YamlFile) -> Vec<Directive> {
    f.directives().collect()
}

/// `YamlFile::add_directive`: puts a directive line in the shared tree.
#[verifier::external_body]
fn yaml_file_add_directive(f: &YamlFile, directive_text: &str) {
    f.add_directive(directive_text)
}

/// `Directive`'s `Display`: its source text. Nothing is stated.
#[verifier::external_body]
fn directive_text(d: &Directive) -> String {
    d.to_string()
}

/// `YamlFile`'s `Display`: the stream's source text. Read from the shared
/// tree; nothing is stated.
#[verifier::external_body]
fn yaml_file_text(f: &YamlFile) -> String {
    f.to_string()
}

/// Each document wrapped as a `Document`, in order.
pub fn wrap_documents(docs: Vec<Document>) -> (r: Vec<PyDocument>)
    ensures
        r.len() == docs.len(),
        forall|i: int| 0 <= i < r.len() ==> (#[trigger] r@[i]).held() == docs@[i],
{
    let mut out: Vec<PyDocument> = Vec::new();
    let ghost all = docs@;
    let mut rest = docs;
    while rest.len() > 0
        invariant
            out.len() + rest.len() == all.len(),
            rest@ == all.subrange(out.len() as int, all.len() as int),
            forall|i: int| 0 <= i < out.len() ==> (#[trigger] out@[i]).held() == all[i],
        decreases rest.len(),
    {
        let d = rest.remove(0);
        assert(rest@ =~= all.subrange(out.len() + 1, all.len() as int));
        out.push(PyDocument::from_handle(d));
    }
    out
}

/// The text of each directive, in order.
pub fn directive_texts(ds: &Vec<Directive>) -> (r: Vec<String>)
    ensures
        r.len() == ds.len(),
{
    let mut out: Vec<String> = Vec::new();
    let n = ds.len();
    for i in 0..n
        invariant
            n == ds.len(),
            out.len() == i,
    {
        out.push(directive_text(&ds[i]));
    }
    out
}

/// A YAML stream, which may hold several documents and directives.
pub struct PyYamlFile {
    inner: YamlFile,
}

impl PyYamlFile {
    /// The editor's handle that this value holds.
    pub closed spec fn held(&self) -> YamlFile {
        self.inner
    }

    /// Create an empty YAML stream.
    pub fn new() -> PyYamlFile {
        PyYamlFile { inner: yaml_file_new() }
    }

    /// Wraps a stream handle of the editor (such as one read from a file).
    pub fn from_handle(inner: YamlFile) -> (r: PyYamlFile)
        ensures
            r.held() == inner,
    {
        PyYamlFile { inner }
    }

    /// Parse a YAML stream from a string; a `ValueError` when the editor refuses it.
    pub fn parse(text: &str) -> (r: Result<PyYamlFile, BindingError>)
        ensures
            r is Ok <==> stream_parses(text@),
            r matches Err(e) ==> e is Value,
    {
        match yaml_file_from_str(text) {
            Ok(f) => Ok(PyYamlFile { inner: f }),
            Err(e) => Err(map_err(e)),
        }
    }

    /// The number of documents.
    pub fn __len__(&self) -> usize {
        yaml_file_documents(&self.inner).len()
    }

    /// Whether the stream holds no document.
    pub fn is_empty(&self) -> bool {
        yaml_file_documents(&self.inner).len() == 0
    }

    /// The documents in this stream.
    pub fn documents(&self) -> (r: Vec<PyDocument>)
        ensures
            exists|ds: Seq<Document>|
                r.len() == ds.len() && forall|i: int|
                    0 <= i < ds.len() ==> (#[trigger] r@[i]).held() == ds[i],
    {
        let ds = yaml_file_documents(&self.inner);
        let ghost s = ds@;
        let r = wrap_documents(ds);
        assert(r.len() == s.len() && forall|i: int|
            0 <= i < s.len() ==> (#[trigger] r@[i]).held() == s[i]);
        r
    }

    /// The first document, or `None` if the stream is empty.
    pub fn document(&self) -> Option<PyDocument> {
        match yaml_file_document(&self.inner) {
            Some(d) => Some(PyDocument::from_handle(d)),
            None => None,
        }
    }

    /// Return the first document, creating one if the stream is empty.
    pub fn ensure_document(&self) -> PyDocument {
        PyDocument::from_handle(yaml_file_ensure_document(&self.inner))
    }

    /// Append a document to the stream.
    pub fn push_document(&self, document: &PyDocument) {
        yaml_file_push_document(&self.inner, document_handle(document.handle()))
    }

    /// The directive lines (e.g. "%YAML 1.2") in this stream.
    pub fn directives(&self) -> (r: Vec<String>)
        ensures
            exists|ds: Seq<Directive>| r.len() == ds.len(),
    {
        let ds = yaml_file_directives(&self.inner);
        let r = directive_texts(&ds);
        assert(r.len() == ds@.len());
        r
    }

    /// Add a directive line such as "%YAML 1.2".
    pub fn add_directive(&self, directive_text: &str) {
        yaml_file_add_directive(&self.inner, directive_text)
    }

    /// Serialize the whole stream back to a string, preserving formatting.
    pub fn __str__(&self) -> String {
        yaml_file_text(&self.inner)
    }

    /// `<yaml_edit.YamlFile docs=N>`.
    pub fn __repr__(&self) -> (r: String)
        ensures
            exists|n: usize| r@ == "<yaml_edit.YamlFile docs="@ + decimal(n as nat) + ">"@,
    {
        count_repr("<yaml_edit.YamlFile docs=", self.__len__())
    }
}

} // verus!

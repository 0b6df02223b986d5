//! `Scalar`: a scalar YAML value (string, number, boolean).

use vstd::prelude::*;
use yaml_edit::Scalar;
use crate::text::{quoted, quoted_repr, str_debug, unquote};

verus! {

/// `Scalar::clone`: another handle to the same scalar node. Claimed: the
/// clone equals the handle (the editor's handles compare by node identity).
#[verifier::external_body]
pub fn scalar_handle(s: &Scalar) -> (r: Scalar)
    ensures
        r == *s,
{
    s.clone()
}

/// `Scalar::value`: the raw source text. Read from the shared tree; nothing is stated.
#[verifier::external_body]
fn scalar_value(s: &Scalar) -> String {
    s.value()
}

/// `Scalar::as_string`: the text unquoted and unescaped. Read from the shared
/// tree; nothing is stated.
#[verifier::external_body]
fn scalar_as_string(s: &Scalar) -> String {
    s.as_string()
}

/// `Scalar::is_null`. Read from the shared tree; nothing is stated.
#[verifier::external_body]
fn scalar_is_null(s: &Scalar) -> bool {
    s.is_null()
}

/// `Scalar::as_i64`. Read from the shared tree; nothing is stated.
#[verifier::external_body]
fn scalar_as_i64(s: &Scalar) -> Option<i64> {
    s.as_i64()
}

/// `Scalar::as_bool`. Read from the shared tree; nothing is stated.
#[verifier::external_body]
fn scalar_as_bool(s: &Scalar) -> Option<bool> {
    s.as_bool()
}

/// `Scalar::set_value`: replaces the scalar's text in the shared tree.
#[verifier::external_body]
fn scalar_set_value(s: &Scalar, value: &str) {
    s.set_value(value)
}

/// A scalar YAML value.
pub struct PyScalar {
    inner: Scalar,
}

impl PyScalar {
    /// The editor's handle that this value holds.
    pub closed spec fn held(&self) -> Scalar {
        self.inner
    }

    /// Wraps a scalar handle of the editor.
    pub fn new(inner: Scalar) -> (r: PyScalar)
        ensures
            r.held() == inner,
    {
        PyScalar { inner }
    }

    /// The editor's scalar, for calls that this crate does not make (floats).
    pub fn handle(&self) -> (r: &Scalar)
        ensures
            *r == self.held(),
    {
        &self.inner
    }

    /// The raw scalar text, preserving any surrounding quotes.
    pub fn value(&self) -> String {
        scalar_value(&self.inner)
    }

    /// The scalar's value as a string, with quotes stripped if present.
    pub fn as_string(&self) -> String {
        scalar_as_string(&self.inner)
    }

    /// Whether the scalar's raw text is enclosed in quotes.
    pub fn is_quoted(&self) -> (r: bool)
        ensures
            exists|t: Seq<char>| r == crate::text::is_quoted_text(t),
    {
        let text = scalar_value(&self.inner);
        let r = quoted(text.as_str());
        assert(r == crate::text::is_quoted_text(text@));
        r
    }

    /// The raw text with its enclosing quotes removed, escapes left as they are.
    pub fn unquoted_value(&self) -> (r: String)
        ensures
            exists|t: Seq<char>| r@ == crate::text::unquote_text(t),
    {
        let text = scalar_value(&self.inner);
        let r = unquote(text.as_str());
        assert(r@ == crate::text::unquote_text(text@));
        r
    }

    pub fn is_null(&self) -> bool {
        scalar_is_null(&self.inner)
    }

    pub fn as_int(&self) -> Option<i64> {
        scalar_as_i64(&self.inner)
    }

    pub fn as_bool(&self) -> Option<bool> {
        scalar_as_bool(&self.inner)
    }

    /// Replace the scalar's value in place, preserving surrounding formatting.
    pub fn set_value(&self, value: &str) {
        scalar_set_value(&self.inner, value)
    }

    pub fn __str__(&self) -> String {
        scalar_as_string(&self.inner)
    }

    /// `<yaml_edit.Scalar "text">`, the unquoted text in debug quoting.
    pub fn __repr__(&self) -> (r: String)
        ensures
            exists|t: Seq<char>| r@ == "<yaml_edit.Scalar "@ + str_debug(t) + ">"@,
    {
        let text = scalar_as_string(&self.inner);
        quoted_repr("<yaml_edit.Scalar ", text.as_str())
    }
}

} // verus!

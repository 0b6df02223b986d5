//! The errors that the binding raises, by the Python exception they become.

use vstd::prelude::*;

verus! {

/// An error raised to Python: the exception class and its message.
#[derive(Debug, PartialEq, Eq)]
pub enum BindingError {
    /// `TypeError`: a value of a type that YAML cannot hold here.
    Type(String),
    /// `ValueError`: the YAML editor refused the input.
    Value(String),
    /// `KeyError`: the key is absent; the message is the key.
    Key(String),
    /// `IndexError`: the index is out of range.
    Index(String),
}

/// A `ValueError` carrying `message`.
pub fn value_error(message: String) -> (r: BindingError)
    ensures
        r == BindingError::Value(message),
{
    BindingError::Value(message)
}

} // verus!

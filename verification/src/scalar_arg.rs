//! The scalar values that `set`, `push` and `insert` accept, and the choice of
//! which one a Python value is.

use vstd::prelude::*;
use crate::error::BindingError;

verus! {

/// What the Python side knows of a value passed where a scalar is expected:
/// which of the relevant types it is an instance of, and its type's name.
/// A Python `bool` is also an instance of `int`.
pub struct PyValueInfo {
    pub is_none: bool,
    pub is_bool: bool,
    pub is_int: bool,
    pub is_float: bool,
    pub is_str: bool,
    pub class_name: String,
}

/// The scalar type that a Python value is written as.
#[derive(PartialEq, Eq, Structural, Clone, Copy, Debug)]
pub enum ScalarKind {
    Str,
    Int,
    Float,
    Bool,
}

/// A scalar value to write into the document. Floats are written by the
/// Python module itself (see `ScalarKind::Float`).
#[derive(Debug, PartialEq, Eq)]
pub enum ScalarArg {
    Str(String),
    Int(i64),
    Bool(bool),
}

/// The message of the error for `None`.
pub open spec fn none_message() -> Seq<char> {
    "None is not supported as a YAML value; the editor cannot write null scalars"@
}

/// The message of the error for a value of another type, named `class_name`.
pub open spec fn wrong_type_message(class_name: Seq<char>) -> Seq<char> {
    "expected str, int, float or bool, got "@ + class_name
}

/// Which scalar type a value is taken as: `None` is refused, `bool` is
/// checked before `int` (a Python `bool` is an `int` too), then `int`,
/// `float` and `str`; any other type is refused with its name.
pub open spec fn spec_extract_kind(info: PyValueInfo) -> Option<ScalarKind> {
    if info.is_none {
        None
    } else if info.is_bool {
        Some(ScalarKind::Bool)
    } else if info.is_int {
        Some(ScalarKind::Int)
    } else if info.is_float {
        Some(ScalarKind::Float)
    } else if info.is_str {
        Some(ScalarKind::Str)
    } else {
        None
    }
}

impl ScalarArg {
    /// Decides which scalar type a Python value is written as, or the
    /// `TypeError` that it raises.
    pub fn extract_kind(info: &PyValueInfo) -> (r: Result<ScalarKind, BindingError>)
        ensures
            spec_extract_kind(*info) matches Some(k) ==> r == Ok::<ScalarKind, BindingError>(k),
            info.is_none ==> (r matches Err(BindingError::Type(m)) && m@ == none_message()),
            spec_extract_kind(*info) is None && !info.is_none ==> (r matches Err(
                BindingError::Type(m),
            ) && m@ == wrong_type_message(info.class_name@)),
    {
        if info.is_none {
            return Err(
                BindingError::Type(
                    String::from_str(
                        "None is not supported as a YAML value; the editor cannot write null scalars",
                    ),
                ),
            );
        }
        if info.is_bool {
            return Ok(ScalarKind::Bool);
        }
        if info.is_int {
            return Ok(ScalarKind::Int);
        }
        if info.is_float {
            return Ok(ScalarKind::Float);
        }
        if info.is_str {
            return Ok(ScalarKind::Str);
        }
        let mut msg = String::from_str("expected str, int, float or bool, got ");
        msg.append(info.class_name.as_str());
        Err(BindingError::Type(msg))
    }
}

/// A value that is both a `bool` and an `int` is written as a `bool`, and
/// `None` is never written.
pub proof fn lemma_bool_before_int(info: PyValueInfo)
    ensures
        !info.is_none && info.is_bool && info.is_int ==> spec_extract_kind(info) == Some(
            ScalarKind::Bool,
        ),
        info.is_none ==> spec_extract_kind(info) is None,
{
}

} // verus!

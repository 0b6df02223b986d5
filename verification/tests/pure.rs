use yaml_edit_py::error::BindingError;
use yaml_edit_py::mapping::{found_or_key_error, removed_or_key_error};
use yaml_edit_py::node::{kind_str, node_repr, NodeKind};
use yaml_edit_py::scalar_arg::{PyValueInfo, ScalarArg, ScalarKind};
use yaml_edit_py::sequence::{found_or_index_error, replaced_or_index_error};
use yaml_edit_py::text::{count_repr, debug_string, decimal_string, quoted, quoted_repr, unquote};

fn info(none: bool, b: bool, i: bool, f: bool, s: bool, name: &str) -> PyValueInfo {
    PyValueInfo { is_none: none, is_bool: b, is_int: i, is_float: f, is_str: s, class_name: name.to_string() }
}

#[test]
fn extract_kind_prefers_bool_over_int() {
    assert_eq!(ScalarArg::extract_kind(&info(false, true, true, false, false, "bool")), Ok(ScalarKind::Bool));
    assert_eq!(ScalarArg::extract_kind(&info(false, false, true, false, false, "int")), Ok(ScalarKind::Int));
    assert_eq!(ScalarArg::extract_kind(&info(false, false, false, true, false, "float")), Ok(ScalarKind::Float));
    assert_eq!(ScalarArg::extract_kind(&info(false, false, false, false, true, "str")), Ok(ScalarKind::Str));
}

#[test]
fn extract_kind_rejects_none_and_other_types() {
    assert_eq!(
        ScalarArg::extract_kind(&info(true, false, false, false, false, "NoneType")),
        Err(BindingError::Type(
            "None is not supported as a YAML value; the editor cannot write null scalars".to_string()
        ))
    );
    assert_eq!(
        ScalarArg::extract_kind(&info(false, false, false, false, false, "list")),
        Err(BindingError::Type("expected str, int, float or bool, got list".to_string()))
    );
}

#[test]
fn decimal_rendering() {
    assert_eq!(decimal_string(0), "0");
    assert_eq!(decimal_string(7), "7");
    assert_eq!(decimal_string(10), "10");
    assert_eq!(decimal_string(4096), "4096");
    assert_eq!(decimal_string(usize::MAX), usize::MAX.to_string());
    assert_eq!(count_repr("<x n=", 12), "<x n=12>");
}

#[test]
fn debug_quoting() {
    assert_eq!(debug_string("a\"b\n"), "\"a\\\"b\\n\"");
    assert_eq!(quoted_repr("<q ", "t"), "<q \"t\">");
}

#[test]
fn quote_detection() {
    assert!(quoted("\"a\""));
    assert!(quoted("'a'"));
    assert!(quoted("''"));
    assert!(!quoted("\"a'"));
    assert!(!quoted("\""));
    assert!(!quoted("abc"));
    assert_eq!(unquote("'héllo'"), "héllo");
    assert_eq!(unquote("\"\""), "");
    assert_eq!(unquote("plain"), "plain");
    assert_eq!(unquote("\"x"), "\"x");
}

#[test]
fn kind_names() {
    assert_eq!(kind_str(NodeKind::Scalar), "scalar");
    assert_eq!(kind_str(NodeKind::Mapping), "mapping");
    assert_eq!(kind_str(NodeKind::Sequence), "sequence");
    assert_eq!(kind_str(NodeKind::Alias), "alias");
    assert_eq!(kind_str(NodeKind::Tagged), "tagged");
    assert_eq!(node_repr("scalar", "a b"), "<yaml_edit.Node kind=scalar \"a b\">");
}

#[test]
fn lookup_outcomes() {
    assert_eq!(removed_or_key_error(true, "k"), Ok(()));
    assert_eq!(removed_or_key_error(false, "k"), Err(BindingError::Key("k".to_string())));
    assert_eq!(replaced_or_index_error(true), Ok(()));
    assert_eq!(
        replaced_or_index_error(false),
        Err(BindingError::Index("sequence index out of range".to_string()))
    );
    assert!(matches!(found_or_key_error(None, "k"), Err(BindingError::Key(m)) if m == "k"));
    assert!(matches!(found_or_index_error(None), Err(BindingError::Index(_))));
}

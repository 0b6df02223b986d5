use yaml_edit_py::document::PyDocument;
use yaml_edit_py::error::BindingError;
use yaml_edit_py::scalar_arg::ScalarArg;
use yaml_edit_py::stream::PyYamlFile;

#[test]
fn node_kinds_and_views() {
    let doc = PyDocument::parse("s: text\nm:\n  a: 1\nq:\n  - x\na: &anc 3\nb: *anc\n").unwrap();
    let s = doc.get("s").unwrap();
    assert_eq!(s.kind(), "scalar");
    assert!(s.is_scalar() && !s.is_mapping() && !s.is_sequence());
    assert!(s.as_scalar().is_some() && s.as_mapping().is_none() && s.as_sequence().is_none());
    let m = doc.get("m").unwrap();
    assert_eq!(m.kind(), "mapping");
    assert!(m.as_mapping().is_some());
    let q = doc.get("q").unwrap();
    assert_eq!(q.kind(), "sequence");
    assert!(q.as_sequence().is_some());
    let b = doc.get("b").unwrap();
    assert_eq!(b.kind(), "alias");
}

#[test]
fn typed_scalar_reads() {
    let doc = PyDocument::parse("n: 42\nt: true\nq: \"42\"\nz: ~\n").unwrap();
    assert_eq!(doc.get("n").unwrap().as_int(), Some(42));
    assert_eq!(doc.get("t").unwrap().as_bool(), Some(true));
    assert_eq!(doc.get("q").unwrap().as_int(), None);
    let q = doc.get("q").unwrap().as_scalar().unwrap();
    assert!(q.is_quoted());
    assert_eq!(q.value(), "\"42\"");
    assert_eq!(q.unquoted_value(), "42");
    assert_eq!(q.as_string(), "42");
    assert_eq!(q.as_int(), None);
    let z = doc.get("z").unwrap().as_scalar().unwrap();
    assert!(z.is_null());
    let n = doc.get("n").unwrap().as_scalar().unwrap();
    assert!(!n.is_quoted());
    assert_eq!(n.unquoted_value(), "42");
    assert_eq!(n.as_int(), Some(42));
}

#[test]
fn scalar_set_value_edits_document() {
    let doc = PyDocument::parse("a: 1\n").unwrap();
    let a = doc.get("a").unwrap().as_scalar().unwrap();
    a.set_value("2");
    assert_eq!(doc.__str__(), "a: 2\n");
}

#[test]
fn getitem_and_delitem_errors() {
    let doc = PyDocument::parse("a: 1\nb: 2\n").unwrap();
    assert!(matches!(doc.__getitem__("zz"), Err(BindingError::Key(k)) if k == "zz"));
    assert!(doc.__getitem__("a").is_ok());
    assert_eq!(doc.__delitem__("zz"), Err(BindingError::Key("zz".to_string())));
    assert_eq!(doc.__delitem__("a"), Ok(()));
    assert!(!doc.contains_key("a"));
    assert!(!doc.remove("a"));
    assert!(doc.remove("b"));
    let m = PyDocument::parse("x: 1\n").unwrap().as_mapping().unwrap();
    assert!(matches!(m.__getitem__("y"), Err(BindingError::Key(k)) if k == "y"));
    assert_eq!(m.__delitem__("y"), Err(BindingError::Key("y".to_string())));
    assert!(m.__contains__("x"));
    assert_eq!(m.__delitem__("x"), Ok(()));
    assert!(m.is_empty());
}

#[test]
fn mapping_operations() {
    let doc = PyDocument::parse("a: 1\nb: two\n").unwrap();
    let m = doc.as_mapping().unwrap();
    assert_eq!(m.__len__(), 2);
    assert!(!m.is_flow_style());
    assert_eq!(m.keys(), vec!["a".to_string(), "b".to_string()]);
    m.set("c", &ScalarArg::Bool(true));
    m.__setitem__("a", &ScalarArg::Int(7));
    assert_eq!(doc.__str__(), "a: 7\nb: two\nc: true\n");
    let items = m.items();
    assert_eq!(items.len(), 3);
    assert_eq!(items[1].0, "b");
    assert_eq!(items[1].1.__str__(), "two");
    assert_eq!(m.values().len(), 3);
    assert!(m.rename_key("b", "bee"));
    assert_eq!(m.keys(), vec!["a".to_string(), "bee".to_string(), "c".to_string()]);
    assert_eq!(m.__repr__(), "<yaml_edit.Mapping len=3>");
    m.clear();
    assert_eq!(m.__len__(), 0);
}

#[test]
fn sequence_operations() {
    let doc = PyDocument::parse("- a\n- b\n").unwrap();
    let q = doc.as_sequence().unwrap();
    assert_eq!(q.__len__(), 2);
    assert_eq!(q.first().unwrap().__str__(), "a");
    assert_eq!(q.last().unwrap().__str__(), "b");
    assert!(q.get(5).is_none());
    assert!(matches!(q.__getitem__(5), Err(BindingError::Index(m)) if m == "sequence index out of range"));
    q.insert(0, &ScalarArg::Int(1));
    assert_eq!(q.__str__(), "- 1\n- a\n- b\n");
    assert!(q.set(2, &ScalarArg::Str("c".to_string())));
    assert!(!q.set(9, &ScalarArg::Str("c".to_string())));
    assert_eq!(
        q.__setitem__(9, &ScalarArg::Bool(false)),
        Err(BindingError::Index("sequence index out of range".to_string()))
    );
    assert_eq!(q.__setitem__(0, &ScalarArg::Bool(false)), Ok(()));
    assert_eq!(q.values().len(), 3);
    assert_eq!(q.pop().unwrap().__str__(), "c");
    assert_eq!(q.remove(0).unwrap().__str__(), "false");
    assert!(q.remove(7).is_none());
    assert_eq!(q.__repr__(), "<yaml_edit.Sequence len=1>");
    q.clear();
    assert!(q.is_empty());
}

#[test]
fn parse_errors_are_value_errors() {
    assert!(matches!(PyDocument::parse("a: 1\n---\nb: 2\n"), Err(BindingError::Value(_))));
    assert!(matches!(PyDocument::parse("a: [1, 2\n"), Err(BindingError::Value(_))));
}

#[test]
fn stream_operations() {
    let f = PyYamlFile::new();
    assert!(f.is_empty());
    assert_eq!(f.__len__(), 0);
    assert!(f.document().is_none());
    let d = f.ensure_document();
    d.set("k", &ScalarArg::Str("v".to_string()));
    assert_eq!(f.__len__(), 1);
    let other = PyDocument::parse("x: 1\n").unwrap();
    f.push_document(&other);
    assert_eq!(f.__len__(), 2);
    assert_eq!(f.__repr__(), "<yaml_edit.YamlFile docs=2>");
    f.add_directive("%YAML 1.2");
    assert_eq!(f.directives(), vec!["%YAML 1.2".to_string()]);
    assert!(f.__str__().starts_with("%YAML 1.2\n"));
}

#[test]
fn reprs_quote_text() {
    let doc = PyDocument::parse("a: \"x y\"\n").unwrap();
    assert_eq!(doc.__repr__(), "<yaml_edit.Document \"a: \\\"x y\\\"\\n\">");
    let node = doc.get("a").unwrap();
    assert_eq!(node.__repr__(), "<yaml_edit.Node kind=scalar \"\\\"x y\\\"\">");
    let sc = node.as_scalar().unwrap();
    assert_eq!(sc.__repr__(), "<yaml_edit.Scalar \"x y\">");
    assert_eq!(sc.__str__(), "x y");
}

#[test]
fn new_document_is_empty() {
    let d = PyDocument::new();
    assert!(d.is_empty());
    assert_eq!(d.get_string("a"), None);
}

#[test]
fn get_string_reads_value() {
    let d = PyDocument::parse("name: Alice\n").unwrap();
    assert_eq!(d.get_string("name"), Some("Alice".to_string()));
    assert!(d.rename_key("name", "who"));
    assert_eq!(d.keys(), vec!["who".to_string()]);
}

#[test]
fn merged_view_of_non_mapping_root_is_none() {
    let doc = PyDocument::parse("- a\n- b\n").unwrap();
    assert!(doc.merged().unwrap().is_none());
    let d = PyDocument::parse("a:\n  <<: *missing\n").unwrap();
    let root = d.merged().unwrap().unwrap();
    assert!(matches!(root.get_merged("a"), Err(BindingError::Value(_))));
}

#[test]
fn collections_keep_document_order() {
    let doc = PyDocument::parse("z: 1\na: 2\nm: 3\n").unwrap();
    let m = doc.as_mapping().unwrap();
    let items = m.items();
    let keys: Vec<String> = items.iter().map(|(k, _)| k.clone()).collect();
    assert_eq!(keys, vec!["z", "a", "m"]);
    let vals: Vec<String> = m.values().iter().map(|v| v.__str__()).collect();
    assert_eq!(vals, vec!["1", "2", "3"]);
    let stream = PyYamlFile::parse("a: 1\n---\nb: 2\n---\nc: 3\n").unwrap();
    let firsts: Vec<Vec<String>> = stream.documents().iter().map(|d| d.keys()).collect();
    assert_eq!(firsts, vec![vec!["a".to_string()], vec!["b".to_string()], vec!["c".to_string()]]);
    let seq = PyDocument::parse("- x\n- y\n").unwrap().as_sequence().unwrap();
    let vs: Vec<String> = seq.values().iter().map(|v| v.__str__()).collect();
    assert_eq!(vs, vec!["x", "y"]);
}

#[test]
fn node_views_hold_the_node_itself() {
    let doc = PyDocument::parse("m:\n  k: v\n").unwrap();
    let node = doc.get("m").unwrap();
    let m = node.as_mapping().unwrap();
    assert_eq!(m.__str__(), node.__str__());
    m.set("k", &ScalarArg::Str("w".to_string()));
    assert_eq!(doc.__str__(), "m:\n  k: w\n");
}

use yaml_edit_py::document::PyDocument;
use yaml_edit_py::scalar_arg::ScalarArg;
use yaml_edit_py::stream::PyYamlFile;

fn s(text: &str) -> ScalarArg {
    ScalarArg::Str(text.to_string())
}

#[test]
fn readme_set_top_level_keys() {
    let doc = PyDocument::parse("name: old-project\nversion: 1.0.0\n").unwrap();
    doc.set("name", &s("new-project"));
    doc.set("version", &s("2.0.0"));
    assert_eq!(doc.__str__(), "name: new-project\nversion: 2.0.0\n");
}

#[test]
fn readme_edit_preserves_comments() {
    let doc = PyDocument::parse(
        "# project config\nname: demo   # the name\ntags:\n  - a\n  - b\n",
    )
    .unwrap();
    let mapping = doc.as_mapping().unwrap();
    mapping.set("name", &s("renamed"));
    assert_eq!(
        doc.__str__(),
        "# project config\nname: renamed   # the name\ntags:\n  - a\n  - b\n"
    );
}

#[test]
fn readme_push_into_nested_sequence() {
    let doc = PyDocument::parse("servers:\n  - web\n  - db\n").unwrap();
    let servers = doc.as_mapping().unwrap().get_sequence("servers").unwrap();
    servers.push(&s("cache"));
    assert_eq!(doc.__str__(), "servers:\n  - web\n  - db\n  - cache\n");
}

#[test]
fn readme_multi_document_stream() {
    let stream = PyYamlFile::parse("a: 1\n---\nb: 2\n").unwrap();
    let docs = stream.documents();
    assert_eq!(docs.len(), 2);
    assert_eq!(docs[0].keys(), vec!["a".to_string()]);
    assert_eq!(docs[1].keys(), vec!["b".to_string()]);
    assert_eq!(stream.__len__(), 2);
    assert!(!stream.is_empty());
}

#[test]
fn parse_renders_back_to_input() {
    let text = "# lead\nkey:   value  # note\n\nlist: [1, 2]\n";
    let doc = PyDocument::parse(text).unwrap();
    assert_eq!(doc.__str__(), text);
}

#[test]
fn readme_merged_view_resolves_merge_keys() {
    let doc = PyDocument::parse(
        "defaults: &d\n  timeout: 30\n  retries: 3\nprod:\n  <<: *d\n  host: prod.example.com\n  timeout: 60\n",
    )
    .unwrap();
    let prod = doc.merged().unwrap().unwrap().get_merged("prod").unwrap().unwrap();
    assert_eq!(
        prod.keys().unwrap(),
        vec!["host".to_string(), "timeout".to_string(), "retries".to_string()]
    );
    assert_eq!(prod.__getitem__("timeout").unwrap().__str__(), "60");
    assert_eq!(prod.get("retries").unwrap().unwrap().as_int(), Some(3));
    assert!(prod.get("<<").unwrap().is_none());
    assert_eq!(prod.__len__().unwrap(), 3);
    assert!(prod.contains_key("host").unwrap());
    assert!(matches!(prod.__getitem__("nope"), Err(yaml_edit_py::error::BindingError::Key(k)) if k == "nope"));
    assert_eq!(prod.values().unwrap().len(), 3);
    assert_eq!(prod.items().unwrap()[0].0, "host");
}

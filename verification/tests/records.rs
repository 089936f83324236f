use dunno::records::{ensure_one_of_record_ids, ensure_record_id, record_key, record_table};

#[test]
fn ensure_one_of_record_ids_accepts_expected_tables() {
    let table = ensure_one_of_record_ids(&["module", "submodule"], "module:1")
        .expect("should accept module record id");
    assert_eq!(table, "module");

    let table = ensure_one_of_record_ids(&["module", "submodule"], "submodule:1")
        .expect("should accept submodule record id");
    assert_eq!(table, "submodule");
}

#[test]
fn ensure_one_of_record_ids_rejects_other_tables_or_missing_prefix() {
    let err = ensure_one_of_record_ids(&["module", "submodule"], "project:1")
        .expect_err("should reject project record id");
    assert!(err.message().contains("Expected record id"));

    let err =
        ensure_one_of_record_ids(&["module"], "1").expect_err("should reject missing prefix");
    assert!(err.message().contains("Expected record id"));
}

#[test]
fn project_id_must_have_project_prefix_for_module_ops() {
    ensure_record_id("project", "project:abc")
        .expect("list_modules_by_project accepts project:id");
    let err = ensure_record_id("project", "module:1").expect_err("wrong table rejected");
    assert!(err.message().contains("Expected record id"));
}

#[test]
fn module_id_must_have_module_prefix_for_submodule_ops() {
    ensure_record_id("module", "module:xyz")
        .expect("list_submodules_by_module accepts module:id");
    let err = ensure_record_id("module", "project:1").expect_err("wrong table rejected");
    assert!(err.message().contains("Expected record id"));
}

#[test]
fn project_id_must_have_project_prefix_for_todo_ops() {
    ensure_record_id("project", "project:abc")
        .expect("list_todos_by_project accepts project:id");
    let err = ensure_record_id("project", "module:1").expect_err("wrong table rejected");
    assert!(err.message().contains("Expected record id"));
}

#[test]
fn record_id_error_message_lists_tables_as_debug() {
    let err = ensure_one_of_record_ids(&["module", "submodule"], "project:1").unwrap_err();
    assert_eq!(
        err.message(),
        "Expected record id for one of [\"module\", \"submodule\"], got \"project:1\""
    );
    assert!(ensure_record_id("module", "module:").is_ok());
    assert!(ensure_record_id("module", "module").is_err());
    assert!(ensure_record_id("module", "modules:1").is_err());
}

#[test]
fn record_keys_and_tables() {
    assert_eq!(record_key("task:abc"), "abc");
    assert_eq!(record_key("task:a:b"), "a:b");
    assert_eq!(record_key("plain"), "plain");
    assert_eq!(record_table("task:abc"), "task");
    assert_eq!(record_table("plain"), "");
}

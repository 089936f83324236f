use dunno::json::Json;
use dunno::hierarchy::StructuralHierarchy;
use dunno::store::{
    edge_rows_statement, update_fields,
    context_levels, file_parent_next, file_parent_start, structure_document, update_plan, ParentStep, UpdatePlan,
    ancestors, belongs_to_queries, content_members, of_type, check_new_project, context_document, created_table, creation_links, delete_statement,
    file_parent_queries, first_text, graph_items, inherited_links, parent_lookup, graph_list_query, method_table, task_link_query, task_submodule_query, linked_knowledge_query, pair_links, patch_members, project_by_name_query,
    purge_tables, record_id_text, relate_statement, structure_parts, StoreError,
    record_fields, record_owners, update_patch,
};
use dunno::runner::Arg;

fn s(x: &str) -> Json {
    Json::Str(x.to_string())
}

#[test]
fn record_ids_take_string_keys_from_quotes() {
    assert_eq!(record_id_text("project", "String(\"abc\")"), "project:abc");
    assert_eq!(record_id_text("task", "Number(7)"), "task:Number(7)");
    assert_eq!(record_id_text("task", "String(\"x"), "task:String(\"x");
    assert_eq!(record_id_text("t", ""), "t:");
}

#[test]
fn graph_rows_flatten_one_level() {
    let row = Json::Object(vec![
        ("id".to_string(), s("task:1")),
        (
            "modules".to_string(),
            Json::Array(vec![
                Json::Array(vec![s("module:a"), s("module:b")]),
                s("module:c"),
                Json::Array(vec![]),
            ]),
        ),
    ]);
    assert_eq!(
        graph_items(Some(row), "modules"),
        vec![s("module:a"), s("module:b"), s("module:c")]
    );
}

#[test]
fn graph_rows_without_the_field_are_empty() {
    let row = Json::Object(vec![("modules".to_string(), s("module:a"))]);
    assert!(graph_items(Some(row), "modules").is_empty());
    assert!(graph_items(None, "modules").is_empty());
    let row = Json::Object(vec![]);
    assert!(graph_items(Some(row), "files").is_empty());
}

#[test]
fn project_lookup_query_follows_case_flag() {
    assert_eq!(
        project_by_name_query(false),
        "SELECT * FROM project WHERE name == $name LIMIT 1"
    );
    assert!(project_by_name_query(true).contains("string::lowercase(name)"));
}

fn r(a: &str, b: &str, c: &str) -> (String, String, String) {
    (a.to_string(), b.to_string(), c.to_string())
}

#[test]
fn creation_links_tie_records_to_project_and_parent() {
    assert_eq!(
        creation_links("create_task", "task:1", Some("project:p"), Some("module:m")).unwrap(),
        vec![
            r("project:p", "has_task", "task:1"),
            r("task:1", "belongs_to_project", "project:p"),
            r("task:1", "belongs_to_module", "module:m"),
        ]
    );
    assert_eq!(
        creation_links("create_module", "module:2", Some("project:p"), Some("module:1")).unwrap(),
        vec![
            r("project:p", "contains", "module:2"),
            r("module:2", "belongs_to_project", "project:p"),
            r("module:1", "contains", "module:2"),
        ]
    );
    assert_eq!(
        creation_links("create_file", "file:f", Some("project:p"), Some("submodule:s")).unwrap(),
        vec![
            r("project:p", "contains", "file:f"),
            r("file:f", "belongs_to_project", "project:p"),
            r("submodule:s", "contains", "file:f"),
            r("file:f", "belongs_to_submodule", "submodule:s"),
        ]
    );
    assert_eq!(
        creation_links("create_todo", "todo_item:t", None, None).unwrap(),
        Vec::<(String, String, String)>::new()
    );
    assert!(creation_links("create_project", "project:p", None, None).unwrap().is_empty());
}

#[test]
fn file_parent_must_be_module_or_submodule() {
    let err = creation_links("create_file", "file:f", Some("project:p"), Some("task:t")).unwrap_err();
    assert_eq!(err.tables, vec!["module".to_string(), "submodule".to_string()]);
    assert_eq!(err.id, "task:t");
    assert_eq!(err.message(), "Expected record id for one of [\"module\", \"submodule\"], got \"task:t\"");
}

#[test]
fn pair_links_go_both_ways() {
    assert_eq!(
        pair_links("link_task_to_epic", "task:1", "epic:2"),
        vec![r("epic:2", "has_task", "task:1"), r("task:1", "belongs_to_epic", "epic:2")]
    );
    assert_eq!(
        pair_links("link_user_story_to_epic", "user_story:1", "epic:2"),
        vec![r("epic:2", "has_user_story", "user_story:1"), r("user_story:1", "belongs_to_epic", "epic:2")]
    );
    assert!(pair_links("link", "a:1", "b:2").is_empty());
}

#[test]
fn tables_and_statements() {
    assert_eq!(created_table("create_todo"), Some("todo_item"));
    assert_eq!(created_table("list_todos"), None);
    assert_eq!(purge_tables().len(), 13);
    assert_eq!(purge_tables()[0], "project");
    assert_eq!(delete_statement("task"), "DELETE task");
    assert_eq!(
        relate_statement("has_task"),
        "LET $f = type::record($from); LET $t = type::record($to); RELATE $f->has_task->$t;"
    );
    assert_eq!(file_parent_queries().len(), 3);
    assert_eq!(file_parent_queries()[1].1, "m");
}

#[test]
fn duplicate_project_names_are_refused() {
    assert!(check_new_project("Alpha", None).is_ok());
    let existing = Json::Object(vec![("id".to_string(), s("project:a")), ("name".to_string(), s("Alpha"))]);
    let err = check_new_project("Alpha", Some(&existing)).unwrap_err();
    assert_eq!(err.message(), "Project with name 'Alpha' already exists (id: project:a)");
    let anonymous = Json::Object(vec![]);
    match check_new_project("Beta", Some(&anonymous)) {
        Err(StoreError::DuplicateProject { name, id }) => {
            assert_eq!(name, "Beta");
            assert_eq!(id, "unknown");
        }
        other => panic!("unexpected {:?}", other),
    }
}

#[test]
fn knowledge_queries_by_table() {
    assert_eq!(
        linked_knowledge_query("style_rule").unwrap(),
        "SELECT ->has_style->style_rule.* AS items FROM ONLY type::record('task', $key)"
    );
    let err = linked_knowledge_query("note").unwrap_err();
    assert_eq!(err.message(), "get_linked_knowledge: unknown table note");
}

#[test]
fn patches_keep_given_fields_in_order() {
    let p = patch_members(vec![
        ("name", Some("N".to_string())),
        ("description", None),
        ("status", Some("finished".to_string())),
    ]);
    assert_eq!(p, vec![("name".to_string(), s("N")), ("status".to_string(), s("finished"))]);
    assert!(patch_members(vec![("name", None)]).is_empty());
}

#[test]
fn ancestors_nearest_first_without_the_record() {
    let h = StructuralHierarchy {
        project_id: Some("project:p".to_string()),
        module_id: Some("module:m".to_string()),
        submodule_id: None,
        task_id: Some("task:t".to_string()),
        subtask_id: None,
    };
    assert_eq!(ancestors(&h, "task:t"), vec!["module:m".to_string(), "project:p".to_string()]);
}

#[test]
fn context_documents_hold_record_then_knowledge() {
    let doc = context_document("task", s("task:t"), vec![s("context:1")]);
    assert_eq!(
        doc,
        Json::Object(vec![
            ("task".to_string(), s("task:t")),
            ("contexts".to_string(), Json::Array(vec![s("context:1")])),
        ])
    );
}

#[test]
fn operations_name_their_tables_and_queries() {
    assert_eq!(method_table("delete_todo"), Some("todo_item"));
    assert_eq!(method_table("list_user_stories"), Some("user_story"));
    assert_eq!(method_table("update_issue"), Some("issue"));
    assert_eq!(method_table("create_issue"), None);
    assert_eq!(
        graph_list_query("list_files_by_project"),
        Some("SELECT <-belongs_to_project<-file.* AS items FROM ONLY type::record($id)")
    );
    assert_eq!(graph_list_query("list_files"), None);
    assert_eq!(
        task_link_query(dunno::hierarchy::Linked::Module),
        "SELECT ->belongs_to_module->module.* AS module FROM ONLY type::record($tid)"
    );
    assert!(task_submodule_query().contains("->contains->submodule"));
}

#[test]
fn owners_must_be_of_the_right_table() {
    let err = creation_links("create_module", "module:m", Some("task:t"), None).unwrap_err();
    assert_eq!(err.tables, vec!["project".to_string()]);
    let err = creation_links("create_submodule", "submodule:s", None, Some("project:p")).unwrap_err();
    assert_eq!(err.message(), "Expected record id for one of [\"module\"], got \"project:p\"");
    let err = creation_links("create_todo", "todo_item:t", Some("module:m"), None).unwrap_err();
    assert_eq!(err.id, "module:m");
    assert_eq!(
        creation_links("create_submodule", "submodule:s", None, Some("module:m")).unwrap(),
        vec![r("module:m", "contains", "submodule:s"), r("submodule:s", "belongs_to_module", "module:m")]
    );
}

#[test]
fn records_inherit_what_lies_above_their_parent() {
    assert_eq!(
        parent_lookup("create_file", None, Some("submodule:s")),
        Some("SELECT ->belongs_to_module->module.id AS mid, ->belongs_to_project->project.id AS pid FROM ONLY type::record($id)")
    );
    assert_eq!(
        parent_lookup("create_submodule", None, Some("module:m")),
        Some("SELECT ->belongs_to_project->project.id AS pid FROM ONLY type::record($id)")
    );
    assert_eq!(parent_lookup("create_file", Some("project:p"), Some("module:m")), None);
    assert_eq!(parent_lookup("create_task", None, Some("module:m")), None);

    let row = Json::Object(vec![
        ("mid".to_string(), Json::Array(vec![s("module:m")])),
        ("pid".to_string(), Json::Array(vec![s("project:p"), s("project:q")])),
    ]);
    assert_eq!(first_text(&Some(row), "pid"), Some("project:p".to_string()));
    let row = Json::Object(vec![
        ("mid".to_string(), Json::Array(vec![s("module:m")])),
        ("pid".to_string(), Json::Array(vec![s("project:p")])),
    ]);
    assert_eq!(
        inherited_links("create_file", "file:f", "submodule:s", Some(row)),
        vec![r("file:f", "belongs_to_module", "module:m"), r("file:f", "belongs_to_project", "project:p")]
    );
    let row = Json::Object(vec![("pid".to_string(), Json::Array(vec![]))]);
    assert!(inherited_links("create_submodule", "submodule:s", "module:m", Some(row)).is_empty());
    assert!(first_text(&None, "pid").is_none());
}

#[test]
fn content_leaves_out_a_null_id() {
    let members = vec![
        ("id".to_string(), Json::Null),
        ("name".to_string(), s("A")),
        ("id".to_string(), s("x:1")),
    ];
    assert_eq!(content_members(members), vec![("name".to_string(), s("A")), ("id".to_string(), s("x:1"))]);
}

#[test]
fn missing_records_and_structure_parts() {
    let err = StoreError::NotFound { kind: "Epic", id: "epic:e".to_string() };
    assert_eq!(err.message(), "Epic not found: epic:e");
    let parts = structure_parts();
    assert_eq!(parts.len(), 5);
    assert_eq!(parts[3], ("todos", "list_todos_by_project"));
}

#[test]
fn subtasks_hang_below_their_task() {
    assert_eq!(
        creation_links("create_subtask", "subtask:s", None, Some("task:t")).unwrap(),
        vec![r("task:t", "has_subtask", "subtask:s"), r("subtask:s", "belongs_to_task", "task:t")]
    );
    assert_eq!(created_table("create_subtask"), Some("subtask"));
}

#[test]
fn knowledge_by_type_and_its_owners() {
    let a = Json::Object(vec![("id".to_string(), s("context:a")), ("type".to_string(), s("mistake"))]);
    let b = Json::Object(vec![("id".to_string(), s("context:b")), ("type".to_string(), s("style"))]);
    let c = Json::Object(vec![("type".to_string(), s("mistake"))]);
    let kept = of_type(vec![a, b, c, s("mistake")], "mistake");
    assert_eq!(kept.len(), 2);
    assert_eq!(kept[1], Json::Object(vec![("type".to_string(), s("mistake"))]));
    let q = belongs_to_queries();
    assert_eq!(q.len(), 3);
    assert_eq!(q[2], "SELECT ->belongs_to_task->task.* AS out FROM ONLY type::record($kid)");
}

#[test]
fn file_parent_search_tries_submodule_module_project() {
    match file_parent_start() {
        ParentStep::Ask { index, alias, .. } => {
            assert_eq!(index, 0);
            assert_eq!(alias, "s");
        }
        other => panic!("unexpected {other:?}"),
    }
    match file_parent_next(0, None) {
        ParentStep::Ask { index, sql, alias } => {
            assert_eq!(index, 1);
            assert_eq!(alias, "m");
            assert_eq!(sql, "SELECT <-contains<-module AS m FROM ONLY type::record($id)");
        }
        other => panic!("unexpected {other:?}"),
    }
    assert_eq!(
        file_parent_next(1, Some("module:m".to_string())),
        ParentStep::Found { parent: "module:m".to_string() }
    );
    assert_eq!(file_parent_next(2, None), ParentStep::NoParent);
}

#[test]
fn context_levels_start_with_the_record() {
    let h = StructuralHierarchy {
        project_id: Some("project:p".to_string()),
        module_id: Some("module:m".to_string()),
        submodule_id: None,
        task_id: None,
        subtask_id: None,
    };
    assert_eq!(
        context_levels("file:f", Some("module:m"), Some(&h)),
        vec!["file:f".to_string(), "module:m".to_string(), "project:p".to_string()]
    );
    assert_eq!(context_levels("epic:e", Some("project:p"), None), vec!["epic:e".to_string(), "project:p".to_string()]);
    assert_eq!(context_levels("task:t", None, None), vec!["task:t".to_string()]);
}

#[test]
fn empty_updates_leave_records_unchanged() {
    assert!(matches!(update_plan(vec![]), UpdatePlan::Unchanged));
    match update_plan(vec![("name".to_string(), s("N"))]) {
        UpdatePlan::Merge { patch } => assert_eq!(patch, vec![("name".to_string(), s("N"))]),
        other => panic!("unexpected {other:?}"),
    }
}

#[test]
fn project_structure_names_its_parts() {
    let doc = structure_document(s("project:p"), vec![vec![s("module:m")], vec![]], vec![s("context:c")]);
    assert_eq!(
        doc,
        Json::Object(vec![
            ("project".to_string(), s("project:p")),
            ("modules".to_string(), Json::Array(vec![s("module:m")])),
            ("files".to_string(), Json::Array(vec![])),
            ("contexts".to_string(), Json::Array(vec![s("context:c")])),
        ])
    );
}

#[test]
fn interface_updates_take_their_fields() {
    assert_eq!(update_fields("update_file"), Some(vec!["name", "path", "description", "notes"]));
    assert_eq!(update_fields("update_todo"), Some(vec!["content"]));
    assert_eq!(update_fields("update_context"), None);
    assert_eq!(method_table("update_epic"), Some("epic"));
    assert_eq!(edge_rows_statement("contains"), "SELECT in, out FROM contains");
}

fn t(x: &str) -> Arg {
    Arg::Text(x.to_string())
}

fn m(x: Option<&str>) -> Arg {
    Arg::MaybeText(x.map(|v| v.to_string()))
}

fn pairs(v: &[(&str, &str)]) -> Vec<(String, Json)> {
    v.iter().map(|(k, x)| (k.to_string(), s(x))).collect()
}

#[test]
fn new_tasks_start_not_started() {
    let a = vec![t("Write docs"), t("All of them"), m(None), m(Some("project:p"))];
    assert_eq!(
        record_fields("create_task", &a),
        Some(pairs(&[("name", "Write docs"), ("description", "All of them"), ("status", "not_started")]))
    );
    assert_eq!(record_owners("create_task", &a), (Some("project:p".to_string()), None));
}

#[test]
fn new_todos_hold_only_their_content() {
    let a = vec![t("Buy milk"), m(Some("project:p"))];
    assert_eq!(record_fields("create_todo", &a), Some(pairs(&[("content", "Buy milk")])));
    assert_eq!(record_owners("create_todo", &a), (Some("project:p".to_string()), None));
}

#[test]
fn new_files_leave_out_what_was_not_given() {
    let a = vec![t("main.rs"), t("src/main.rs"), m(None), m(Some("entry")), m(Some("project:p")), m(Some("module:m"))];
    assert_eq!(
        record_fields("create_file", &a),
        Some(pairs(&[("name", "main.rs"), ("path", "src/main.rs"), ("notes", "entry")]))
    );
    assert_eq!(record_owners("create_file", &a), (Some("project:p".to_string()), Some("module:m".to_string())));
}

#[test]
fn new_issues_start_pending() {
    let a = vec![t("Crash"), m(Some("task:t")), m(Some("Fix it")), t("project:p"), m(None)];
    assert_eq!(
        record_fields("create_issue", &a),
        Some(pairs(&[("description", "Crash"), ("plan", "Fix it"), ("status", "pending")]))
    );
    assert_eq!(record_owners("create_issue", &a), (Some("project:p".to_string()), Some("task:t".to_string())));
}

#[test]
fn other_operations_create_no_record() {
    assert_eq!(record_fields("list_tasks", &[]), None);
    assert_eq!(record_fields("create_context", &[t("x")]), None);
    assert_eq!(record_owners("list_tasks", &[]), (None, None));
}

#[test]
fn updates_patch_the_fields_given() {
    let a = vec![t("task:t"), m(None), m(Some("New")), m(Some("active"))];
    assert_eq!(update_patch("update_task", &a), Some(pairs(&[("description", "New"), ("status", "active")])));
    let b = vec![t("issue:i"), m(None), m(None), m(None), m(Some("tests pass"))];
    assert_eq!(update_patch("update_issue", &b), Some(pairs(&[("verification", "tests pass")])));
    let c = vec![t("todo_item:x"), m(None), m(None)];
    assert_eq!(update_patch("update_todo", &c), Some(vec![]));
    assert_eq!(update_patch("update_project", &c), None);
}

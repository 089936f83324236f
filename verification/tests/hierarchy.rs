use dunno::hierarchy::{
    first_record_id, parse_linked, parse_submodule, resolve_next, resolve_start, HierarchyAnswer,
    HierarchyAsk, HierarchyError, HierarchyStep, Linked,
};
use dunno::json::Json;

fn text(s: &str) -> Json {
    Json::Str(s.to_string())
}

fn obj(members: Vec<(&str, Json)>) -> Json {
    Json::Object(members.into_iter().map(|(k, v)| (k.to_string(), v)).collect())
}

#[test]
fn projects_resolve_at_once() {
    let (_, step) = resolve_start("project:p");
    match step {
        HierarchyStep::Done(h) => {
            assert_eq!(h.project_id.as_deref(), Some("project:p"));
            assert!(h.module_id.is_none() && h.task_id.is_none());
        }
        other => panic!("unexpected {other:?}"),
    }
}

#[test]
fn submodules_resolve_through_their_module() {
    let (state, step) = resolve_start("submodule:s");
    match step {
        HierarchyStep::Ask(HierarchyAsk::FirstRecordId { sql, bind_key, bind_value, alias }) => {
            assert_eq!(sql, "SELECT <-contains<-module AS m FROM ONLY type::record($sid)");
            assert_eq!(bind_key, "sid");
            assert_eq!(bind_value, "submodule:s");
            assert_eq!(alias, "m");
        }
        other => panic!("unexpected {other:?}"),
    }
    let (state, step) = resolve_next(state, HierarchyAnswer::RecordId(Some("module:m".to_string())));
    match &step {
        HierarchyStep::Ask(HierarchyAsk::FirstRecordId { bind_value, alias, .. }) => {
            assert_eq!(bind_value, "module:m");
            assert_eq!(*alias, "p");
        }
        other => panic!("unexpected {other:?}"),
    }
    let (_, step) = resolve_next(state, HierarchyAnswer::RecordId(Some("project:p".to_string())));
    match step {
        HierarchyStep::Done(h) => {
            assert_eq!(h.project_id.as_deref(), Some("project:p"));
            assert_eq!(h.module_id.as_deref(), Some("module:m"));
            assert_eq!(h.submodule_id.as_deref(), Some("submodule:s"));
        }
        other => panic!("unexpected {other:?}"),
    }
}

#[test]
fn subtasks_resolve_through_their_task() {
    let (state, _) = resolve_start("subtask:x");
    let (state, step) = resolve_next(state, HierarchyAnswer::RecordId(Some("task:t".to_string())));
    assert!(matches!(step, HierarchyStep::Ask(HierarchyAsk::TaskHierarchy { ref task_id }) if task_id == "task:t"));
    let (_, step) = resolve_next(
        state,
        HierarchyAnswer::Task {
            project_id: "project:p".to_string(),
            module_id: "module:m".to_string(),
            submodule_id: None,
        },
    );
    match step {
        HierarchyStep::Done(h) => {
            assert_eq!(h.task_id.as_deref(), Some("task:t"));
            assert_eq!(h.subtask_id.as_deref(), Some("subtask:x"));
            assert_eq!(h.module_id.as_deref(), Some("module:m"));
        }
        other => panic!("unexpected {other:?}"),
    }
}

#[test]
fn other_records_are_refused() {
    let (_, step) = resolve_start("file:f");
    match step {
        HierarchyStep::Fail(e) => assert_eq!(
            e.message(),
            "resolve_structural_hierarchy: from_id must be project, module, submodule, task, or subtask; got \"file\""
        ),
        other => panic!("unexpected {other:?}"),
    }
    let (state, _) = resolve_start("module:m");
    let (_, step) = resolve_next(state, HierarchyAnswer::Task {
        project_id: "p".to_string(),
        module_id: "m".to_string(),
        submodule_id: None,
    });
    assert!(matches!(step, HierarchyStep::Fail(HierarchyError::UnexpectedAnswer)));
}

#[test]
fn rows_of_task_queries() {
    let row = obj(vec![(
        "project",
        Json::Array(vec![obj(vec![("id", text("project:p")), ("name", text("P"))])]),
    )]);
    assert_eq!(
        parse_linked(Some(row), Linked::Project).unwrap(),
        ("project:p".to_string(), "P".to_string())
    );
    assert_eq!(
        parse_linked(None, Linked::Module).unwrap_err().message(),
        "No module linked to task"
    );
    let empty = obj(vec![("module", Json::Array(vec![]))]);
    assert_eq!(
        parse_linked(Some(empty), Linked::Module).unwrap_err().message(),
        "Failed to parse module from graph query"
    );
    let no_id = obj(vec![("project", Json::Array(vec![obj(vec![("name", text("P"))])]))]);
    assert_eq!(
        parse_linked(Some(no_id), Linked::Project).unwrap_err().message(),
        "Project missing id"
    );
    let sub = obj(vec![("submodule", Json::Array(vec![obj(vec![("id", text("submodule:s"))])]))]);
    let info = parse_submodule(Some(sub)).unwrap().unwrap();
    assert_eq!(info.id, "submodule:s");
    assert_eq!(info.name, "");
    assert!(parse_submodule(Some(obj(vec![]))).unwrap().is_none());
    assert_eq!(parse_submodule(None).unwrap_err().message(), "Query failed");
    let r = obj(vec![("p", Json::Array(vec![obj(vec![("id", text("project:q"))])]))]);
    assert_eq!(first_record_id(Some(r), "p").as_deref(), Some("project:q"));
    assert_eq!(first_record_id(None, "p"), None);
}

use dunno::hierarchy::StructuralHierarchy;
use dunno::ingest::{check_context_id, knowledge_links, knowledge_summary, reverse_edges, IngestError};
use dunno::json::Json;

#[test]
fn summaries_and_links() {
    let fields = vec![
        ("type".to_string(), Json::Str("mistake".to_string())),
        ("content".to_string(), Json::Str("Avoid unwrap".to_string())),
    ];
    assert_eq!(
        knowledge_summary(&fields).unwrap(),
        ("mistake".to_string(), "Avoid unwrap".to_string())
    );
    let other = vec![("severity".to_string(), Json::Str("high".to_string()))];
    assert_eq!(knowledge_summary(&other).unwrap(), ("unknown".to_string(), String::new()));
    assert!(matches!(knowledge_summary(&vec![]), Err(IngestError::NoFields)));

    let created = Json::Object(vec![("id".to_string(), Json::Str("context:1".to_string()))]);
    let targets = vec!["module:a".to_string(), "task:b".to_string()];
    let (links, linked) = knowledge_links(&created, &targets);
    assert!(linked);
    assert_eq!(links[1], ("task:b".to_string(), "context:1".to_string()));
    let (links, linked) = knowledge_links(&Json::Null, &targets);
    assert!(links.is_empty() && !linked);
}

#[test]
fn knowledge_links_go_back_up_the_structure() {
    assert!(check_context_id("context:1").is_ok());
    assert_eq!(
        check_context_id("task:1").unwrap_err().message(),
        "link_context: to_context_id must be a context record id; got \"task:1\""
    );
    let h = StructuralHierarchy {
        project_id: Some("project:p".to_string()),
        module_id: None,
        submodule_id: Some("submodule:s".to_string()),
        task_id: Some("task:t".to_string()),
        subtask_id: None,
    };
    assert_eq!(
        reverse_edges(&h),
        vec![
            ("belongs_to_project", "project:p".to_string()),
            ("belongs_to_task", "task:t".to_string())
        ]
    );
}

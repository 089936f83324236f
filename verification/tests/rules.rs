use dunno::rules::{validate_persona_params, PersonaError};

#[test]
fn validate_persona_params_accepts_valid_input() {
    validate_persona_params("Valid Name", "Valid content")
        .expect("should accept valid params");
}

#[test]
fn validate_persona_params_rejects_empty_name() {
    let err = validate_persona_params("", "content").expect_err("empty name should fail");
    assert!(err.message().contains("name"));
}

#[test]
fn validate_persona_params_rejects_whitespace_only_name() {
    let err =
        validate_persona_params("   ", "content").expect_err("whitespace name should fail");
    assert!(err.message().contains("name"));
}

#[test]
fn validate_persona_params_rejects_empty_content() {
    let err = validate_persona_params("Name", "").expect_err("empty content should fail");
    assert!(err.message().contains("content"));
}

#[test]
fn validate_persona_params_rejects_long_name() {
    let long_name = "a".repeat(256);
    let err =
        validate_persona_params(&long_name, "content").expect_err("long name should fail");
    assert!(err.message().contains("too long"));
}

#[test]
fn persona_name_limit_counts_bytes() {
    assert!(validate_persona_params(&"a".repeat(255), "c").is_ok());
    // 128 two-byte characters: 256 bytes.
    let err = validate_persona_params(&"é".repeat(128), "c").unwrap_err();
    assert_eq!(err, PersonaError::NameTooLong);
    assert_eq!(
        validate_persona_params("\u{2003}\t", "c").unwrap_err(),
        PersonaError::EmptyName
    );
    assert_eq!(
        validate_persona_params("n", " \n ").unwrap_err(),
        PersonaError::EmptyContent
    );
}

#[test]
fn task_parents_are_none_or_one_of_each() {
    let none: Vec<String> = vec![];
    let one_module = vec!["module:m".to_string()];
    let one_project = vec!["project:p".to_string()];
    let two = vec!["project:a".to_string(), "project:b".to_string()];
    assert_eq!(dunno::rules::validate_task_parents(&none, &none).unwrap(), (None, None));
    assert_eq!(
        dunno::rules::validate_task_parents(&one_module, &one_project).unwrap(),
        (Some("module:m"), Some("project:p"))
    );
    let err = dunno::rules::validate_task_parents(&none, &one_project).unwrap_err();
    assert_eq!(
        err.message(),
        "Task create: provide either no module/project IDs (freestanding) or exactly one of each (linked). Got 0 module_ids and 1 project_ids"
    );
    let err = dunno::rules::validate_task_parents(&one_module, &two).unwrap_err();
    assert_eq!((err.modules, err.projects), (1, 2));
}

#[test]
fn optional_task_statuses() {
    assert_eq!(dunno::rules::parse_optional_status(None).unwrap(), None);
    assert_eq!(
        dunno::rules::parse_optional_status(Some("finished".to_string())).unwrap(),
        Some(dunno::models::TaskStatus::Finished)
    );
    let err = dunno::rules::parse_optional_status(Some("done".to_string())).unwrap_err();
    assert_eq!(err.message(), "Invalid status 'done'. Expected: not_started, started, finished");
}

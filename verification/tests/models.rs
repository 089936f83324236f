use dunno::models::TaskStatus;

#[test]
fn task_status_parse_accepts_known_values() {
    assert_eq!(
        TaskStatus::parse("not_started"),
        Some(TaskStatus::NotStarted)
    );
    assert_eq!(TaskStatus::parse("started"), Some(TaskStatus::Started));
    assert_eq!(TaskStatus::parse("finished"), Some(TaskStatus::Finished));
}

#[test]
fn task_status_parse_rejects_unknown_values() {
    assert_eq!(TaskStatus::parse("in_progress"), None);
    assert_eq!(TaskStatus::parse(""), None);
    assert_eq!(TaskStatus::parse("NOT_STARTED"), None);
}

#[test]
fn task_status_names_read_back() {
    for s in [TaskStatus::NotStarted, TaskStatus::Started, TaskStatus::Finished] {
        assert_eq!(TaskStatus::parse(s.as_str()), Some(s));
    }
    assert_eq!(TaskStatus::NotStarted.as_str(), "not_started");
}

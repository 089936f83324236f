use dunno::args::Args;
use dunno::dunno_cli::start;
use dunno::json::Json;
use dunno::runner::{step, Action, Arg, DbCall, Reply};

fn text(s: &str) -> Json {
    Json::Str(s.to_string())
}

fn obj(members: Vec<(&str, Json)>) -> Json {
    Json::Object(members.into_iter().map(|(k, v)| (k.to_string(), v)).collect())
}

fn texts(call: &DbCall) -> Vec<String> {
    call.args
        .iter()
        .map(|a| match a {
            Arg::Text(s) => s.clone(),
            Arg::MaybeText(Some(s)) => format!("some:{s}"),
            Arg::MaybeText(None) => "none".to_string(),
            Arg::Flag(b) => format!("flag:{b}"),
            Arg::Fields(f) => format!("{f:?}"),
            Arg::Texts(t) => format!("{t:?}"),
        })
        .collect()
}

fn run(argv: &[&str], replies: Vec<Reply>) -> (Vec<DbCall>, Action) {
    let args = Args::try_parse_from(argv).expect("parses");
    let (mut stage, mut action) = start(args.command, args.ignore_case);
    let mut calls = Vec::new();
    let mut replies = replies.into_iter();
    loop {
        match action {
            Action::Call(c) => {
                calls.push(c);
                let reply = replies.next().expect("a reply for each call");
                let (s, a) = step(stage, reply);
                stage = s;
                action = a;
            }
            other => return (calls, other),
        }
    }
}

#[test]
fn freestanding_task_needs_no_parents() {
    let created = obj(vec![("id", text("task:t"))]);
    let (calls, end) = run(&["dunno", "task", "add", "Name", "Desc"], vec![Reply::Value(created)]);
    assert_eq!(calls.len(), 1);
    assert_eq!(calls[0].method, "create_task");
    assert_eq!(texts(&calls[0]), vec!["Name", "Desc", "none", "none"]);
    assert!(matches!(end, Action::Print(_)));
}

#[test]
fn linked_task_takes_one_module_and_one_project() {
    let created = obj(vec![("id", text("task:t"))]);
    let (calls, _) = run(
        &[
            "dunno", "task", "add", "--module-ids", "module:m", "--project-ids", "project:p", "--epic-ids",
            "epic:e", "Name", "Desc",
        ],
        vec![Reply::Value(created), Reply::Done],
    );
    assert_eq!(texts(&calls[0]), vec!["Name", "Desc", "some:module:m", "some:project:p"]);
    assert_eq!(calls[1].method, "link_task_to_epic");
    assert_eq!(texts(&calls[1]), vec!["task:t", "epic:e"]);
}

#[test]
fn task_with_a_module_but_no_project_is_refused() {
    let (calls, end) = run(&["dunno", "task", "add", "--module-ids", "module:m", "Name", "Desc"], vec![]);
    assert!(calls.is_empty());
    match end {
        Action::Fail(e) => assert_eq!(
            e.message(),
            "Task create: provide either no module/project IDs (freestanding) or exactly one of each (linked). Got 1 module_ids and 0 project_ids"
        ),
        other => panic!("unexpected {other:?}"),
    }
}

#[test]
fn task_statuses_are_the_task_lifecycle() {
    let (_, end) = run(&["dunno", "task", "update", "task:t", "--status", "active"], vec![]);
    match end {
        Action::Fail(e) => {
            assert_eq!(e.message(), "Invalid status 'active'. Expected: not_started, started, finished")
        }
        other => panic!("unexpected {other:?}"),
    }
    let (calls, end) = run(
        &["dunno", "task", "update", "task:t", "--status", "started"],
        vec![Reply::Found(Some(obj(vec![("id", text("task:t"))])))],
    );
    assert_eq!(texts(&calls[0]), vec!["task:t", "none", "none", "some:started"]);
    assert!(matches!(end, Action::Print(_)));
}

#[test]
fn deleting_one_task_reports_it_or_fails() {
    let (calls, end) = run(&["dunno", "task", "rm", "task:t"], vec![Reply::Flag(true)]);
    assert_eq!(calls[0].method, "delete_task");
    match end {
        Action::Print(doc) => {
            assert_eq!(doc, obj(vec![("status", text("ok")), ("deleted", text("task:t"))]))
        }
        other => panic!("unexpected {other:?}"),
    }
    let (_, end) = run(&["dunno", "task", "rm", "task:t"], vec![Reply::Flag(false)]);
    match end {
        Action::Fail(e) => assert_eq!(e.message(), "Task not found: task:t"),
        other => panic!("unexpected {other:?}"),
    }
}

#[test]
fn links_need_a_known_edge_and_a_target() {
    let (calls, end) = run(
        &["dunno", "link", "--from-id", "project:p", "--edge", "contains", "--to-ids", "module:a", "--to-ids", "module:b"],
        vec![Reply::Done, Reply::Done],
    );
    assert_eq!(calls.len(), 2);
    assert_eq!(texts(&calls[1]), vec!["project:p", "contains", "module:b"]);
    match end {
        Action::Print(doc) => assert_eq!(doc, obj(vec![("status", text("ok"))])),
        other => panic!("unexpected {other:?}"),
    }
    let (_, end) = run(&["dunno", "link", "--from-id", "task:t", "--edge", "has_issue", "--to-ids", "x:1"], vec![]);
    match end {
        Action::Fail(e) => assert!(e.message().starts_with("Unknown edge \"has_issue\". Allowed: [\"contains\", ")),
        other => panic!("unexpected {other:?}"),
    }
    let (_, end) = run(&["dunno", "link", "--from-id", "task:t", "--edge", "contains"], vec![]);
    match end {
        Action::Fail(e) => assert_eq!(e.message(), "At least one --to ID is required"),
        other => panic!("unexpected {other:?}"),
    }
}

#[test]
fn modules_may_be_created_without_a_project() {
    let created = obj(vec![("id", text("module:m"))]);
    let (calls, end) = run(&["dunno", "module", "add", "Core", "The core"], vec![Reply::Value(created)]);
    assert_eq!(calls[0].method, "create_module");
    assert_eq!(texts(&calls[0]), vec!["Core", "The core", "none", "none", "none"]);
    assert!(matches!(end, Action::Print(_)));
}

#[test]
fn submodules_and_files_link_their_other_parents() {
    let created = obj(vec![("id", text("submodule:s"))]);
    let (calls, _) = run(
        &["dunno", "submodule", "add", "--module-ids", "module:a", "--module-ids", "module:b", "Sub", "D"],
        vec![Reply::Value(created), Reply::Done],
    );
    assert_eq!(texts(&calls[0]), vec!["Sub", "D", "some:module:a", "none"]);
    assert_eq!(texts(&calls[1]), vec!["module:b", "contains", "submodule:s"]);

    let created = obj(vec![("id", text("file:f"))]);
    let (calls, _) = run(
        &["dunno", "file", "add", "--parent-ids", "module:a", "main.rs", "src/main.rs"],
        vec![Reply::Value(created)],
    );
    assert_eq!(texts(&calls[0]), vec!["main.rs", "src/main.rs", "none", "none", "none", "some:module:a"]);
}

#[test]
fn context_needs_a_record() {
    let (_, end) = run(&["dunno", "ctx"], vec![]);
    match end {
        Action::Fail(e) => assert_eq!(e.message(), "One of --task-id, --file-id, or --epic-id must be provided"),
        other => panic!("unexpected {other:?}"),
    }
    let (calls, end) = run(&["dunno", "ctx", "--epic-id", "epic:e"], vec![Reply::Value(Json::Null)]);
    assert_eq!(calls[0].method, "epic_context");
    assert_eq!(texts(&calls[0]), vec!["epic:e", "flag:false"]);
    match end {
        Action::Print(doc) => assert_eq!(doc, obj(vec![("results", Json::Null)])),
        other => panic!("unexpected {other:?}"),
    }
}

#[test]
fn purge_reports_success() {
    let (calls, end) = run(&["dunno", "purge"], vec![Reply::Done]);
    assert_eq!(calls[0].method, "purge_database");
    match end {
        Action::Print(doc) => assert_eq!(
            doc,
            obj(vec![("status", text("ok")), ("message", text("Database purged successfully"))])
        ),
        other => panic!("unexpected {other:?}"),
    }
}

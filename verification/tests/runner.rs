use dunno::dn_args::{Args, Commands};
use dunno::json::Json;
use dunno::runner::{start, step, Action, Arg, CliError, DbCall, Reply, Stage};

fn text(s: &str) -> Json {
    Json::Str(s.to_string())
}

fn obj(members: Vec<(&str, Json)>) -> Json {
    Json::Object(members.into_iter().map(|(k, v)| (k.to_string(), v)).collect())
}

fn command(argv: &[&str]) -> (Commands, bool) {
    let args = Args::try_parse_from(argv).expect("parses");
    (args.command, args.ignore_case)
}

fn expect_call(action: &Action) -> &DbCall {
    match action {
        Action::Call(c) => c,
        other => panic!("expected a call, got {other:?}"),
    }
}

fn texts(call: &DbCall) -> Vec<String> {
    call.args
        .iter()
        .map(|a| match a {
            Arg::Text(s) => s.clone(),
            Arg::MaybeText(Some(s)) => format!("some:{s}"),
            Arg::MaybeText(None) => "none".to_string(),
            Arg::Flag(b) => format!("flag:{b}"),
            Arg::Fields(f) => format!("{f:?}"),
            Arg::Texts(t) => format!("{t:?}"),
        })
        .collect()
}

fn run(argv: &[&str], replies: Vec<Reply>) -> (Vec<DbCall>, Action) {
    let (cmd, ic) = command(argv);
    let (mut stage, mut action) = start(cmd, ic);
    let mut calls = Vec::new();
    let mut replies = replies.into_iter();
    loop {
        match action {
            Action::Call(c) => {
                calls.push(c);
                let reply = replies.next().expect("a reply for each call");
                let (s, a) = step(stage, reply);
                stage = s;
                action = a;
            }
            other => return (calls, other),
        }
    }
}

#[test]
fn module_add_resolves_the_project_name_then_links_the_other_projects() {
    let (calls, end) = run(
        &["dn", "-i", "module", "add", "--project", "Demo", "core", "Core module"],
        vec![
            Reply::Found(Some(obj(vec![("id", text("project:p"))]))),
            Reply::Value(obj(vec![("id", text("module:m")), ("name", text("core"))])),
        ],
    );
    assert_eq!(calls[0].method, "get_project_by_name");
    assert_eq!(texts(&calls[0]), vec!["Demo", "flag:true"]);
    assert_eq!(calls[1].method, "create_module");
    assert_eq!(texts(&calls[1]), vec!["core", "Core module", "none", "project:p", "none"]);
    assert_eq!(calls.len(), 2);
    assert!(matches!(end, Action::Print(_)));

    let (calls, _) = run(
        &["dn", "module", "add", "--pids", "project:a", "--pids", "project:b", "n", "d"],
        vec![
            Reply::Value(obj(vec![("id", text("module:m"))])),
            Reply::Done,
        ],
    );
    assert_eq!(calls[0].method, "create_module");
    assert_eq!(calls[1].method, "link");
    assert_eq!(texts(&calls[1]), vec!["project:b", "contains", "module:m"]);
}

#[test]
fn module_add_without_project_fails() {
    let (calls, end) = run(&["dn", "module", "add", "n", "d"], vec![]);
    assert!(calls.is_empty());
    match end {
        Action::Fail(e) => assert_eq!(
            e.message(),
            "Either --project-ids/--pids or --project/-p must be provided"
        ),
        other => panic!("unexpected {other:?}"),
    }
}

#[test]
fn unknown_project_name_fails() {
    let (_, end) = run(&["dn", "todo", "ls", "--project", "Nope"], vec![Reply::Found(None)]);
    match end {
        Action::Fail(CliError::ProjectNotFound { name }) => assert_eq!(name, "Nope"),
        other => panic!("unexpected {other:?}"),
    }
    let (_, end) = run(&["dn", "todo", "ls", "--project", "Nope"], vec![Reply::Failed("down".to_string())]);
    match end {
        Action::Fail(e) => assert_eq!(e.message(), "Failed to lookup project by name: down"),
        other => panic!("unexpected {other:?}"),
    }
}

#[test]
fn task_add_requires_one_project() {
    let (_, end) = run(
        &["dn", "task", "add", "--mids", "module:m", "--mids", "module:n", "--pid", "project:p", "n", "d"],
        vec![],
    );
    match end {
        Action::Fail(e) => assert_eq!(
            e.message(),
            "Task create: provide exactly one project ID (with an optional module ID). Got 2 module_ids and 1 project_ids"
        ),
        other => panic!("unexpected {other:?}"),
    }
    let (calls, _) = run(
        &["dn", "task", "add", "--pid", "project:p", "--usids", "user_story:u", "--eids", "epic:e", "n", "d"],
        vec![
            Reply::Value(obj(vec![("id", text("task:t"))])),
            Reply::Done,
            Reply::Done,
        ],
    );
    assert_eq!(texts(&calls[0]), vec!["n", "d", "none", "some:project:p"]);
    assert_eq!(calls[1].method, "link_task_to_user_story");
    assert_eq!(texts(&calls[1]), vec!["task:t", "user_story:u"]);
    assert_eq!(calls[2].method, "link_task_to_epic");
}

#[test]
fn deletions_are_tallied() {
    let (calls, end) = run(
        &["dn", "task", "rm", "task:a", "task:b", "task:c"],
        vec![Reply::Flag(true), Reply::Flag(false), Reply::Flag(true)],
    );
    assert_eq!(calls.len(), 3);
    assert!(calls.iter().all(|c| c.method == "delete_task"));
    match end {
        Action::Print(Json::Object(m)) => {
            assert_eq!(m[0], ("status".to_string(), text("ok")));
            assert_eq!(
                m[1],
                ("deleted".to_string(), Json::Array(vec![text("task:a"), text("task:c")]))
            );
            assert_eq!(m[2], ("not_found".to_string(), Json::Array(vec![text("task:b")])));
        }
        other => panic!("unexpected {other:?}"),
    }
}

#[test]
fn link_modes() {
    let (calls, _) = run(
        &["dn", "link", "--from-id", "project:p", "--edge", "contains", "--to-id", "module:a", "--to-id", "module:b"],
        vec![Reply::Done, Reply::Done],
    );
    assert_eq!(texts(&calls[1]), vec!["project:p", "contains", "module:b"]);
    let (calls, _) = run(
        &[
            "dn", "link", "-f", "a:1", "-e", "contains", "-t", "b:1", "-f", "a:2", "-e", "has_task", "-t", "b:2",
        ],
        vec![Reply::Done, Reply::Done],
    );
    assert_eq!(texts(&calls[1]), vec!["a:2", "has_task", "b:2"]);
    let (_, end) = run(&["dn", "link", "-f", "a:1", "-e", "likes", "-t", "b:1"], vec![]);
    match end {
        Action::Fail(e) => assert!(e.message().starts_with("Unknown edge \"likes\". Allowed: [\"contains\", \"has_file\"")),
        other => panic!("unexpected {other:?}"),
    }
    let (_, end) = run(&["dn", "link", "-f", "a:1", "-e", "contains"], vec![]);
    assert!(matches!(end, Action::Fail(CliError::NoTargets)));
    let (_, end) = run(
        &["dn", "link", "-f", "a:1", "-f", "a:2", "-e", "contains", "-t", "b:1"],
        vec![],
    );
    match end {
        Action::Fail(e) => assert!(e.message().starts_with("Mismatched argument counts: --from-id (2), --edge (1), --to-id (1).")),
        other => panic!("unexpected {other:?}"),
    }
}

#[test]
fn add_pairs_fields_with_values() {
    let (calls, end) = run(
        &["dn", "add", "-f", "type", "-v", "mistake", "-f", "content", "-v", "Avoid unwrap"],
        vec![Reply::Done],
    );
    match &calls[0].args[0] {
        Arg::Fields(f) => assert_eq!(
            f,
            &vec![
                ("type".to_string(), "mistake".to_string()),
                ("content".to_string(), "Avoid unwrap".to_string())
            ]
        ),
        other => panic!("unexpected {other:?}"),
    }
    assert!(matches!(end, Action::Print(_)));
    let (_, end) = run(&["dn", "add", "-f", "type", "-f", "x", "-v", "mistake"], vec![]);
    match end {
        Action::Fail(e) => assert_eq!(
            e.message(),
            "Number of --field flags (2) must match number of --value flags (1)"
        ),
        other => panic!("unexpected {other:?}"),
    }
}

#[test]
fn statuses_and_missing_records() {
    let (_, end) = run(&["dn", "task", "update", "task:t", "--status", "done"], vec![]);
    match end {
        Action::Fail(e) => assert_eq!(
            e.message(),
            "Invalid status 'done'. Expected: pending, active, completed"
        ),
        other => panic!("unexpected {other:?}"),
    }
    let (calls, end) = run(
        &["dn", "task", "update", "task:t", "--status", "active"],
        vec![Reply::Found(None)],
    );
    assert_eq!(texts(&calls[0]), vec!["task:t", "none", "none", "some:active"]);
    match end {
        Action::Fail(e) => assert_eq!(e.message(), "Task not found: task:t"),
        other => panic!("unexpected {other:?}"),
    }
    let (calls, _) = run(
        &["dn", "todo", "update", "todo_item:1", "--status", "active"],
        vec![Reply::Value(Json::Null)],
    );
    assert_eq!(texts(&calls[0]), vec!["todo_item:1", "none", "some:active"]);
}

#[test]
fn context_targets() {
    let (calls, end) = run(&["dn", "ctx", "--task-id", "task:t", "--full"], vec![Reply::Value(text("x"))]);
    assert_eq!(calls[0].method, "task_context");
    assert_eq!(texts(&calls[0]), vec!["task:t", "flag:true"]);
    match end {
        Action::Print(Json::Object(m)) => assert_eq!(m, vec![("results".to_string(), text("x"))]),
        other => panic!("unexpected {other:?}"),
    }
    let (calls, _) = run(
        &["dn", "ctx", "--general", "-p", "Demo"],
        vec![Reply::Found(Some(obj(vec![("id", text("project:d"))]))), Reply::Value(Json::Null)],
    );
    assert_eq!(calls[0].method, "get_project_by_name");
    assert_eq!(texts(&calls[1]), vec!["project:d"]);
    let (calls, _) = run(&["dn", "ctx", "--general", "-p", "project:d"], vec![Reply::Value(Json::Null)]);
    assert_eq!(calls[0].method, "project_structure");
    let (_, end) = run(&["dn", "ctx"], vec![]);
    assert!(matches!(end, Action::Fail(CliError::NoContextTarget)));
    let (_, end) = run(&["dn", "ctx", "--general"], vec![]);
    assert!(matches!(end, Action::Fail(CliError::GeneralNeedsProject)));
}

#[test]
fn config_needs_no_store_and_replies_after_the_end_are_refused() {
    let (cmd, ic) = command(&["dn", "config", "show"]);
    let (stage, action) = start(cmd, ic);
    assert!(matches!(action, Action::ShowConfig));
    assert!(matches!(stage, Stage::Finished));
    let (_, action) = step(stage, Reply::Done);
    assert!(matches!(action, Action::Fail(CliError::Unexpected)));
}

#[test]
fn purge_prints_its_message() {
    let (calls, end) = run(&["dn", "purge"], vec![Reply::Done]);
    assert_eq!(calls[0].method, "purge_database");
    match end {
        Action::Print(Json::Object(m)) => {
            assert_eq!(m[1], ("message".to_string(), text("Database purged successfully")))
        }
        other => panic!("unexpected {other:?}"),
    }
}

//! The `dunno` command line: for each command, the first operation it asks
//! of the store and what it then waits for. The run goes on with
//! `runner::step`, as the `dn` command line's does.

use vstd::prelude::*;
use crate::args::{
    Commands, EpicCommands, FileCommands, ModuleCommands, ProjectCommands, SubmoduleCommands, TaskCommands,
    TodoCommands, UserStoryCommands,
};
use crate::cli;
use crate::records::strings_view;
use crate::runner::{
    Action, ActionView, Arg, ArgView, CallView, CliError, CliErrorView, DbCall, LinkPlan, LinkPlanView, Pending,
    PendingView, Requirement, Stage, StageView, add_exec, arg_views, call, call_exec, calls_view, fail, fail_exec,
    first_exec, first_id, link_call, link_call_exec, link_edges, link_edges_spec, ok_doc, ok_json, one_arg, other_ids,
    others_exec, ov, print_call, print_call_exec, purge_doc, purge_json, resolve, resolve_spec, run_calls,
    run_calls_exec, status_arg, status_exec,
};
use crate::text::str_eq;

verus! {

/// Delete the one record `id` of a kind, and report it.
pub open spec fn delete_one(kind: Seq<char>, method: Seq<char>, id: Seq<char>) -> (StageView, ActionView) {
    (StageView::DeleteOne(kind, id), call(method, seq![ArgView::Text(id)]))
}

/// How `link` runs: the edge must be one that this command line links with,
/// and a target must be given; then the edge goes from the source to every
/// target, and `{"status": "ok"}` is printed.
pub open spec fn link_one_spec(from: Seq<char>, edge: Seq<char>, to: Seq<Seq<char>>) -> (StageView, ActionView) {
    if !link_edges_spec().contains(edge) {
        fail(CliErrorView::UnknownLinkEdge(edge))
    } else if to.len() == 0 {
        fail(CliErrorView::NoToIds)
    } else {
        run_calls(Seq::new(to.len(), |i: int| link_call(from, edge, to[i])), ok_doc())
    }
}

/// How a command of the `dunno` command line starts.
pub open spec fn start_spec(cmd: Commands, ic: bool) -> (StageView, ActionView) {
    match cmd {
        Commands::Add { field_names, field_values, link_to } => crate::runner::start_spec(
            crate::dn_args::Commands::Add { field_names, field_values, link_to },
            ic,
        ),
        Commands::Link { from_id, edge, to_ids } => link_one_spec(from_id@, edge@, strings_view(to_ids@)),
        Commands::Project { command } => match command {
            ProjectCommands::Create { name, description } => print_call(
                "create_project"@,
                seq![ArgView::Text(name@), ArgView::Text(description@)],
            ),
            ProjectCommands::List => print_call("list_projects"@, Seq::empty()),
            ProjectCommands::Delete { project_id } => delete_one("Project"@, "delete_project"@, project_id@),
        },
        Commands::Module { command } => match command {
            ModuleCommands::Create { project_ids, project, name, description, notes } => resolve_spec(
                first_id(strings_view(project_ids@)),
                ov(project),
                ic,
                PendingView::Create(
                    Requirement::Optional,
                    "create_module"@,
                    seq![ArgView::Text(name@), ArgView::Text(description@), ArgView::MaybeText(ov(notes))],
                    seq![ArgView::MaybeText(None)],
                    LinkPlanView::FromEach(other_ids(strings_view(project_ids@)), "contains"@),
                ),
            ),
            ModuleCommands::List { project_id, project } => resolve_spec(
                ov(project_id),
                ov(project),
                ic,
                PendingView::ListBy("list_modules_by_project"@, "list_modules"@),
            ),
            ModuleCommands::Delete { module_id } => delete_one("Module"@, "delete_module"@, module_id@),
        },
        Commands::Submodule { command } => match command {
            SubmoduleCommands::Create { module_ids, name, description, notes } => (
                StageView::Created(LinkPlanView::FromEach(other_ids(strings_view(module_ids@)), "contains"@)),
                call(
                    "create_submodule"@,
                    seq![
                        ArgView::Text(name@),
                        ArgView::Text(description@),
                        ArgView::MaybeText(first_id(strings_view(module_ids@))),
                        ArgView::MaybeText(ov(notes)),
                    ],
                ),
            ),
            SubmoduleCommands::List { project_id, project, module_id } => match module_id {
                Some(m) => print_call("list_submodules_by_module"@, seq![ArgView::Text(m@)]),
                None => resolve_spec(
                    ov(project_id),
                    ov(project),
                    ic,
                    PendingView::ListBy("list_submodules_by_project"@, "list_submodules"@),
                ),
            },
            SubmoduleCommands::Delete { submodule_id } => delete_one(
                "Submodule"@,
                "delete_submodule"@,
                submodule_id@,
            ),
        },
        Commands::File { command } => match command {
            FileCommands::Create { parent_ids, name, path, description, notes } => (
                StageView::Created(LinkPlanView::FromEach(other_ids(strings_view(parent_ids@)), "contains"@)),
                call(
                    "create_file"@,
                    seq![
                        ArgView::Text(name@),
                        ArgView::Text(path@),
                        ArgView::MaybeText(ov(description)),
                        ArgView::MaybeText(ov(notes)),
                        ArgView::MaybeText(None),
                        ArgView::MaybeText(first_id(strings_view(parent_ids@))),
                    ],
                ),
            ),
            FileCommands::List { project_id, project, module_id, submodule_id } => match module_id {
                Some(m) => print_call("list_files_by_module"@, seq![ArgView::Text(m@)]),
                None => match submodule_id {
                    Some(sm) => print_call("list_files_by_submodule"@, seq![ArgView::Text(sm@)]),
                    None => resolve_spec(
                        ov(project_id),
                        ov(project),
                        ic,
                        PendingView::ListBy("list_files_by_project"@, "list_files"@),
                    ),
                },
            },
            FileCommands::Delete { file_id } => delete_one("File"@, "delete_file"@, file_id@),
        },
        Commands::Task { command } => match command {
            TaskCommands::Create { module_ids, project_ids, project, user_story_ids, epic_ids, name, description } =>
                resolve_spec(
                first_id(strings_view(project_ids@)),
                ov(project),
                ic,
                PendingView::FreeTaskCreate(
                    strings_view(module_ids@),
                    name@,
                    description@,
                    strings_view(user_story_ids@),
                    strings_view(epic_ids@),
                ),
            ),
            TaskCommands::Update { task_id, name, description, status } => match status_arg(status, false) {
                None => fail(CliErrorView::TaskStatusName(status->0@)),
                Some(st) => (
                    StageView::MustExist("Task"@, task_id@),
                    call(
                        "update_task"@,
                        seq![
                            ArgView::Text(task_id@),
                            ArgView::MaybeText(ov(name)),
                            ArgView::MaybeText(ov(description)),
                            ArgView::MaybeText(st),
                        ],
                    ),
                ),
            },
            TaskCommands::Delete { task_id } => delete_one("Task"@, "delete_task"@, task_id@),
            TaskCommands::List { project_id, project } => resolve_spec(
                ov(project_id),
                ov(project),
                ic,
                PendingView::ListBy("list_tasks_by_project"@, "list_tasks"@),
            ),
        },
        Commands::UserStory { command } => match command {
            UserStoryCommands::Create { project_id, project, epic_ids, title, description } => resolve_spec(
                ov(project_id),
                ov(project),
                ic,
                PendingView::Create(
                    Requirement::ProjectId,
                    "create_user_story"@,
                    seq![ArgView::Text(title@), ArgView::Text(description@)],
                    Seq::empty(),
                    LinkPlanView::StoryEpics(strings_view(epic_ids@)),
                ),
            ),
            UserStoryCommands::List { project_id, project, epic_id } => resolve_spec(
                ov(project_id),
                ov(project),
                ic,
                PendingView::StoriesList(ov(epic_id)),
            ),
            UserStoryCommands::Delete { user_story_id } => delete_one(
                "User story"@,
                "delete_user_story"@,
                user_story_id@,
            ),
        },
        Commands::Epic { command } => match command {
            EpicCommands::Create { project_id, project, title, description } => resolve_spec(
                ov(project_id),
                ov(project),
                ic,
                PendingView::Create(
                    Requirement::ProjectId,
                    "create_epic"@,
                    seq![ArgView::Text(title@), ArgView::Text(description@)],
                    Seq::empty(),
                    LinkPlanView::Nothing,
                ),
            ),
            EpicCommands::List { project_id, project } => resolve_spec(
                ov(project_id),
                ov(project),
                ic,
                PendingView::ListBy("list_epics_by_project"@, "list_epics"@),
            ),
            EpicCommands::Delete { epic_id } => delete_one("Epic"@, "delete_epic"@, epic_id@),
        },
        Commands::Todo { command } => match command {
            TodoCommands::Create { project_ids, project, content } => resolve_spec(
                first_id(strings_view(project_ids@)),
                ov(project),
                ic,
                PendingView::TodoCreate(content@, other_ids(strings_view(project_ids@))),
            ),
            TodoCommands::List { project_id, project } => resolve_spec(
                ov(project_id),
                ov(project),
                ic,
                PendingView::TodoList,
            ),
            TodoCommands::Delete { todo_id } => delete_one("Todo"@, "delete_todo"@, todo_id@),
        },
        Commands::Config { command } => (StageView::Finished, ActionView::ShowConfig),
        Commands::Context { task_id, file_id, epic_id, full } => match task_id {
            Some(t) => (StageView::Wrap, call("task_context"@, seq![ArgView::Text(t@), ArgView::Flag(full)])),
            None => match file_id {
                Some(f) => (StageView::Wrap, call("file_context"@, seq![ArgView::Text(f@), ArgView::Flag(full)])),
                None => match epic_id {
                    Some(e) => (
                        StageView::Wrap,
                        call("epic_context"@, seq![ArgView::Text(e@), ArgView::Flag(full)]),
                    ),
                    None => fail(CliErrorView::NoContextRecord),
                },
            },
        },
        Commands::Purge => (StageView::Calls(Seq::empty(), purge_doc()), call("purge_database"@, Seq::empty())),
    }
}

fn delete_one_exec(kind: &'static str, method: &'static str, id: String) -> (r: (Stage, Action))
    ensures
        (r.0@, r.1@) == delete_one(kind@, method@, id@),
{
    let args = vec![Arg::Text(id.clone())];
    assert(arg_views(args@) =~= seq![ArgView::Text(id@)]);
    (Stage::DeleteOne { kind, id }, call_exec(method, args))
}

fn link_edge_known(edge: &str) -> (r: bool)
    ensures
        r == link_edges_spec().contains(edge@),
{
    let edges = link_edges();
    let ghost t = link_edges_spec();
    let mut i: usize = 0;
    assert(edges@.len() == t.len()) by {
        assert(edges@.map_values(|s: &'static str| s@).len() == edges@.len());
    }
    while i < edges.len()
        invariant
            i <= edges@.len(),
            t == link_edges_spec(),
            edges@.len() == t.len(),
            edges@.map_values(|s: &'static str| s@) == t,
            forall|j: int| 0 <= j < i ==> t[j] != edge@,
        decreases edges@.len() - i,
    {
        assert(t[i as int] == edges@[i as int]@);
        if str_eq(edges[i], edge) {
            assert(t[i as int] == edge@);
            return true;
        }
        i = i + 1;
    }
    false
}

fn link_one_exec(from: String, edge: String, to: Vec<String>) -> (r: (Stage, Action))
    ensures
        (r.0@, r.1@) == link_one_spec(from@, edge@, strings_view(to@)),
{
    if !link_edge_known(edge.as_str()) {
        return fail_exec(CliError::UnknownLinkEdge { edge });
    }
    if to.len() == 0 {
        return fail_exec(CliError::NoToIds);
    }
    let ghost tv = strings_view(to@);
    let mut calls: Vec<DbCall> = Vec::new();
    let mut i: usize = 0;
    while i < to.len()
        invariant
            i <= to@.len(),
            tv == strings_view(to@),
            calls_view(calls@) =~= Seq::new(i as nat, |j: int| link_call(from@, edge@, tv[j])),
        decreases to@.len() - i,
    {
        let ghost before = calls_view(calls@);
        calls.push(link_call_exec(from.clone(), edge.clone(), to[i].clone()));
        assert(calls_view(calls@) =~= before.push(link_call(from@, edge@, tv[i as int])));
        i = i + 1;
    }
    run_calls_exec(calls, ok_json())
}

/// Starts running a command of the `dunno` command line: the first step,
/// and what the run then waits for.
pub fn start(cmd: Commands, ignore_case: bool) -> (r: (Stage, Action))
    ensures
        (r.0@, r.1@) == start_spec(cmd, ignore_case),
{
    match cmd {
        Commands::Add { field_names, field_values, link_to } => add_exec(field_names, field_values, link_to, ignore_case),
        Commands::Link { from_id, edge, to_ids } => link_one_exec(from_id, edge, to_ids),
        Commands::Project { command } => match command {
            ProjectCommands::Create { name, description } => {
                let args = vec![Arg::Text(name), Arg::Text(description)];
                assert(arg_views(args@) =~= seq![ArgView::Text(name@), ArgView::Text(description@)]);
                print_call_exec("create_project", args)
            },
            ProjectCommands::List => {
                let args: Vec<Arg> = Vec::new();
                assert(arg_views(args@) =~= Seq::<ArgView>::empty());
                print_call_exec("list_projects", args)
            },
            ProjectCommands::Delete { project_id } => delete_one_exec("Project", "delete_project", project_id),
        },
        Commands::Module { command } => match command {
            ModuleCommands::Create { project_ids, project, name, description, notes } => {
                let first = first_exec(&project_ids);
                let before = vec![Arg::Text(name), Arg::Text(description), Arg::MaybeText(notes)];
                let after = vec![Arg::MaybeText(None)];
                assert(arg_views(before@) =~= seq![
                    ArgView::Text(name@),
                    ArgView::Text(description@),
                    ArgView::MaybeText(ov(notes)),
                ]);
                assert(arg_views(after@) =~= seq![ArgView::MaybeText(None)]);
                let links = LinkPlan::FromEach { ids: others_exec(project_ids), edge: "contains" };
                resolve(
                    first,
                    project,
                    ignore_case,
                    Pending::Create { require: Requirement::Optional, method: "create_module", before, after, links },
                )
            },
            ModuleCommands::List { project_id, project } => resolve(
                project_id,
                project,
                ignore_case,
                Pending::ListBy { by_project: "list_modules_by_project", all: "list_modules" },
            ),
            ModuleCommands::Delete { module_id } => delete_one_exec("Module", "delete_module", module_id),
        },
        Commands::Submodule { command } => match command {
            SubmoduleCommands::Create { module_ids, name, description, notes } => {
                let first = first_exec(&module_ids);
                let args = vec![Arg::Text(name), Arg::Text(description), Arg::MaybeText(first), Arg::MaybeText(notes)];
                assert(arg_views(args@) =~= seq![
                    ArgView::Text(name@),
                    ArgView::Text(description@),
                    ArgView::MaybeText(first_id(strings_view(module_ids@))),
                    ArgView::MaybeText(ov(notes)),
                ]);
                let links = LinkPlan::FromEach { ids: others_exec(module_ids), edge: "contains" };
                (Stage::Created { links }, call_exec("create_submodule", args))
            },
            SubmoduleCommands::List { project_id, project, module_id } => match module_id {
                Some(m) => print_call_exec("list_submodules_by_module", one_arg(m)),
                None => resolve(
                    project_id,
                    project,
                    ignore_case,
                    Pending::ListBy { by_project: "list_submodules_by_project", all: "list_submodules" },
                ),
            },
            SubmoduleCommands::Delete { submodule_id } => delete_one_exec(
                "Submodule",
                "delete_submodule",
                submodule_id,
            ),
        },
        Commands::File { command } => match command {
            FileCommands::Create { parent_ids, name, path, description, notes } => {
                let first = first_exec(&parent_ids);
                let args = vec![
                    Arg::Text(name),
                    Arg::Text(path),
                    Arg::MaybeText(description),
                    Arg::MaybeText(notes),
                    Arg::MaybeText(None),
                    Arg::MaybeText(first),
                ];
                assert(arg_views(args@) =~= seq![
                    ArgView::Text(name@),
                    ArgView::Text(path@),
                    ArgView::MaybeText(ov(description)),
                    ArgView::MaybeText(ov(notes)),
                    ArgView::MaybeText(None),
                    ArgView::MaybeText(first_id(strings_view(parent_ids@))),
                ]);
                let links = LinkPlan::FromEach { ids: others_exec(parent_ids), edge: "contains" };
                (Stage::Created { links }, call_exec("create_file", args))
            },
            FileCommands::List { project_id, project, module_id, submodule_id } => match module_id {
                Some(m) => print_call_exec("list_files_by_module", one_arg(m)),
                None => match submodule_id {
                    Some(sm) => print_call_exec("list_files_by_submodule", one_arg(sm)),
                    None => resolve(
                        project_id,
                        project,
                        ignore_case,
                        Pending::ListBy { by_project: "list_files_by_project", all: "list_files" },
                    ),
                },
            },
            FileCommands::Delete { file_id } => delete_one_exec("File", "delete_file", file_id),
        },
        Commands::Task { command } => match command {
            TaskCommands::Create { module_ids, project_ids, project, user_story_ids, epic_ids, name, description } => {
                let first = first_exec(&project_ids);
                resolve(
                    first,
                    project,
                    ignore_case,
                    Pending::FreeTaskCreate { module_ids, name, description, user_story_ids, epic_ids },
                )
            },
            TaskCommands::Update { task_id, name, description, status } => match status_exec(&status, false) {
                None => fail_exec(CliError::TaskStatusName { value: status.unwrap() }),
                Some(st) => {
                    let args = vec![
                        Arg::Text(task_id.clone()),
                        Arg::MaybeText(name),
                        Arg::MaybeText(description),
                        Arg::MaybeText(st),
                    ];
                    assert(arg_views(args@) =~= seq![
                        ArgView::Text(task_id@),
                        ArgView::MaybeText(ov(name)),
                        ArgView::MaybeText(ov(description)),
                        ArgView::MaybeText(status_arg(status, false)->0),
                    ]);
                    (Stage::MustExist { kind: "Task", id: task_id }, call_exec("update_task", args))
                },
            },
            TaskCommands::Delete { task_id } => delete_one_exec("Task", "delete_task", task_id),
            TaskCommands::List { project_id, project } => resolve(
                project_id,
                project,
                ignore_case,
                Pending::ListBy { by_project: "list_tasks_by_project", all: "list_tasks" },
            ),
        },
        Commands::UserStory { command } => match command {
            UserStoryCommands::Create { project_id, project, epic_ids, title, description } => {
                let before = vec![Arg::Text(title), Arg::Text(description)];
                let after: Vec<Arg> = Vec::new();
                assert(arg_views(before@) =~= seq![ArgView::Text(title@), ArgView::Text(description@)]);
                assert(arg_views(after@) =~= Seq::<ArgView>::empty());
                resolve(
                    project_id,
                    project,
                    ignore_case,
                    Pending::Create {
                        require: Requirement::ProjectId,
                        method: "create_user_story",
                        before,
                        after,
                        links: LinkPlan::StoryEpics { epic_ids },
                    },
                )
            },
            UserStoryCommands::List { project_id, project, epic_id } => resolve(
                project_id,
                project,
                ignore_case,
                Pending::StoriesList { epic_id },
            ),
            UserStoryCommands::Delete { user_story_id } => delete_one_exec(
                "User story",
                "delete_user_story",
                user_story_id,
            ),
        },
        Commands::Epic { command } => match command {
            EpicCommands::Create { project_id, project, title, description } => {
                let before = vec![Arg::Text(title), Arg::Text(description)];
                let after: Vec<Arg> = Vec::new();
                assert(arg_views(before@) =~= seq![ArgView::Text(title@), ArgView::Text(description@)]);
                assert(arg_views(after@) =~= Seq::<ArgView>::empty());
                resolve(
                    project_id,
                    project,
                    ignore_case,
                    Pending::Create {
                        require: Requirement::ProjectId,
                        method: "create_epic",
                        before,
                        after,
                        links: LinkPlan::Nothing,
                    },
                )
            },
            EpicCommands::List { project_id, project } => resolve(
                project_id,
                project,
                ignore_case,
                Pending::ListBy { by_project: "list_epics_by_project", all: "list_epics" },
            ),
            EpicCommands::Delete { epic_id } => delete_one_exec("Epic", "delete_epic", epic_id),
        },
        Commands::Todo { command } => match command {
            TodoCommands::Create { project_ids, project, content } => {
                let first = first_exec(&project_ids);
                resolve(
                    first,
                    project,
                    ignore_case,
                    Pending::TodoCreate { content, other_projects: others_exec(project_ids) },
                )
            },
            TodoCommands::List { project_id, project } => resolve(project_id, project, ignore_case, Pending::TodoList),
            TodoCommands::Delete { todo_id } => delete_one_exec("Todo", "delete_todo", todo_id),
        },
        Commands::Config { command } => (Stage::Finished, Action::ShowConfig),
        Commands::Context { task_id, file_id, epic_id, full } => {
            let (method, id) = match task_id {
                Some(t) => ("task_context", t),
                None => match file_id {
                    Some(f) => ("file_context", f),
                    None => match epic_id {
                        Some(e) => ("epic_context", e),
                        None => {
                            return fail_exec(CliError::NoContextRecord);
                        },
                    },
                },
            };
            let args = vec![Arg::Text(id), Arg::Flag(full)];
            assert(arg_views(args@) =~= seq![ArgView::Text(id@), ArgView::Flag(full)]);
            (Stage::Wrap, call_exec(method, args))
        },
        Commands::Purge => {
            let args: Vec<Arg> = Vec::new();
            assert(arg_views(args@) =~= Seq::<ArgView>::empty());
            let rest: Vec<DbCall> = Vec::new();
            assert(calls_view(rest@) =~= Seq::<CallView>::empty());
            (Stage::Calls { rest, output: purge_json() }, call_exec("purge_database", args))
        },
    }
}

} // verus!

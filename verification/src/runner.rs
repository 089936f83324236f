//! How each command of the `dn` tool runs against the store. A run is a
//! conversation: the run asks for one store operation at a time, is told
//! what the store answered, and ends by printing a JSON document or failing.

use vstd::prelude::*;
use crate::cli;
use crate::dn_args::{
    Commands, EpicCommands, FileCommands, IssueCommands, ModuleCommands, PersonaCommands,
    ProjectCommands, TaskCommands, TodoCommands, UserStoryCommands, WorkflowCommands,
};
use crate::graph::rec_members;
use crate::json::{Json, JsonView, member_text, members_view, values_view, lemma_array_view, lemma_object_view, member_text_of};
use crate::models::{ItemStatus, TaskStatus, item_status_name, item_status_of, status_name, status_of};
use crate::records::{debug_str, str_debug, strings_view, tables_debug};
use crate::text;
use crate::text::{owned, push_decimal, str_eq};

verus! {

// ---------------------------------------------------------------------------
// Store operations and their answers
// ---------------------------------------------------------------------------

/// An argument of a store operation.
#[derive(Debug)]
pub enum Arg {
    Text(String),
    MaybeText(Option<String>),
    Flag(bool),
    Fields(Vec<(String, String)>),
    Texts(Vec<String>),
}

/// An argument as character sequences.
pub enum ArgView {
    Text(Seq<char>),
    MaybeText(Option<Seq<char>>),
    Flag(bool),
    Fields(Seq<(Seq<char>, Seq<char>)>),
    Texts(Seq<Seq<char>>),
}

/// The views of pairs of strings.
pub open spec fn pairs_view(v: Seq<(String, String)>) -> Seq<(Seq<char>, Seq<char>)> {
    v.map_values(|p: (String, String)| (p.0@, p.1@))
}

impl View for Arg {
    type V = ArgView;

    open spec fn view(&self) -> ArgView {
        match self {
            Arg::Text(s) => ArgView::Text(s@),
            Arg::MaybeText(o) => ArgView::MaybeText(cli::opt_string_view(*o)),
            Arg::Flag(b) => ArgView::Flag(*b),
            Arg::Fields(f) => ArgView::Fields(pairs_view(f@)),
            Arg::Texts(t) => ArgView::Texts(strings_view(t@)),
        }
    }
}

/// A store operation: the name of the operation and its arguments.
#[derive(Debug)]
pub struct DbCall {
    pub method: &'static str,
    pub args: Vec<Arg>,
}

/// A store operation as character sequences.
pub struct CallView {
    pub method: Seq<char>,
    pub args: Seq<ArgView>,
}

impl View for DbCall {
    type V = CallView;

    open spec fn view(&self) -> CallView {
        CallView { method: self.method@, args: self.args@.map_values(|a: Arg| a@) }
    }
}

/// The views of store operations.
pub open spec fn calls_view(v: Seq<DbCall>) -> Seq<CallView> {
    v.map_values(|c: DbCall| c@)
}

/// What the store answered.
#[derive(Debug)]
pub enum Reply {
    /// A record or a list of records.
    Value(Json),
    /// A record looked up by id or name, if there is one.
    Found(Option<Json>),
    /// Whether a record was there to delete.
    Flag(bool),
    /// The operation is done.
    Done,
    /// The operation failed, with this message.
    Failed(String),
}

/// An answer as character sequences.
pub enum ReplyView {
    Value(JsonView),
    Found(Option<JsonView>),
    Flag(bool),
    Done,
    Failed(Seq<char>),
}

impl View for Reply {
    type V = ReplyView;

    open spec fn view(&self) -> ReplyView {
        match self {
            Reply::Value(j) => ReplyView::Value(j@),
            Reply::Found(o) => ReplyView::Found(
                match o {
                    Some(j) => Some(j@),
                    None => None,
                },
            ),
            Reply::Flag(b) => ReplyView::Flag(*b),
            Reply::Done => ReplyView::Done,
            Reply::Failed(m) => ReplyView::Failed(m@),
        }
    }
}

// ---------------------------------------------------------------------------
// Errors
// ---------------------------------------------------------------------------

/// Why a command failed.
#[derive(Debug)]
pub enum CliError {
    FieldCount { names: usize, values: usize },
    UnknownEdge { edge: String },
    NoTargets,
    LinkCounts { from: usize, edge: usize, to: usize },
    ProjectIdsRequired,
    ProjectRequired,
    TaskParents { modules: usize, projects: usize },
    InvalidStatus { value: String },
    NotFound { kind: &'static str, id: String },
    ProjectNotFound { name: String },
    LookupFailed { message: String },
    ProjectWithoutId,
    GeneralNeedsProject,
    NoContextTarget,
    Store { message: String },
    Unexpected,
    /// A task's parents that are neither none nor one module and one project.
    FreeTaskParents { modules: usize, projects: usize },
    /// A status that is not one of `not_started`, `started`, `finished`.
    TaskStatusName { value: String },
    /// An edge that the `dunno` command line does not link with.
    UnknownLinkEdge { edge: String },
    /// A link with no target.
    NoToIds,
    /// A context command that names no task, file or epic.
    NoContextRecord,
}

/// An error as character sequences.
pub enum CliErrorView {
    FieldCount(nat, nat),
    UnknownEdge(Seq<char>),
    NoTargets,
    LinkCounts(nat, nat, nat),
    ProjectIdsRequired,
    ProjectRequired,
    TaskParents(nat, nat),
    InvalidStatus(Seq<char>),
    NotFound(Seq<char>, Seq<char>),
    ProjectNotFound(Seq<char>),
    LookupFailed(Seq<char>),
    ProjectWithoutId,
    GeneralNeedsProject,
    NoContextTarget,
    Store(Seq<char>),
    Unexpected,
    FreeTaskParents(nat, nat),
    TaskStatusName(Seq<char>),
    UnknownLinkEdge(Seq<char>),
    NoToIds,
    NoContextRecord,
}

impl View for CliError {
    type V = CliErrorView;

    open spec fn view(&self) -> CliErrorView {
        match self {
            CliError::FieldCount { names, values } => CliErrorView::FieldCount(*names as nat, *values as nat),
            CliError::UnknownEdge { edge } => CliErrorView::UnknownEdge(edge@),
            CliError::NoTargets => CliErrorView::NoTargets,
            CliError::LinkCounts { from, edge, to } => CliErrorView::LinkCounts(
                *from as nat,
                *edge as nat,
                *to as nat,
            ),
            CliError::ProjectIdsRequired => CliErrorView::ProjectIdsRequired,
            CliError::ProjectRequired => CliErrorView::ProjectRequired,
            CliError::TaskParents { modules, projects } => CliErrorView::TaskParents(
                *modules as nat,
                *projects as nat,
            ),
            CliError::InvalidStatus { value } => CliErrorView::InvalidStatus(value@),
            CliError::NotFound { kind, id } => CliErrorView::NotFound(kind@, id@),
            CliError::ProjectNotFound { name } => CliErrorView::ProjectNotFound(name@),
            CliError::LookupFailed { message } => CliErrorView::LookupFailed(message@),
            CliError::ProjectWithoutId => CliErrorView::ProjectWithoutId,
            CliError::GeneralNeedsProject => CliErrorView::GeneralNeedsProject,
            CliError::NoContextTarget => CliErrorView::NoContextTarget,
            CliError::Store { message } => CliErrorView::Store(message@),
            CliError::Unexpected => CliErrorView::Unexpected,
            CliError::FreeTaskParents { modules, projects } => CliErrorView::FreeTaskParents(
                *modules as nat,
                *projects as nat,
            ),
            CliError::TaskStatusName { value } => CliErrorView::TaskStatusName(value@),
            CliError::UnknownLinkEdge { edge } => CliErrorView::UnknownLinkEdge(edge@),
            CliError::NoToIds => CliErrorView::NoToIds,
            CliError::NoContextRecord => CliErrorView::NoContextRecord,
        }
    }
}

/// The edges that `link` may create.
pub open spec fn allowed_edges_spec() -> Seq<Seq<char>> {
    seq![
        "contains"@,
        "has_file"@,
        "has_module"@,
        "has_task"@,
        "has_todo"@,
        "has_context"@,
        "has_user_story"@,
        "has_epic"@,
        "has_issue"@,
        "belongs_to_project"@,
        "belongs_to_module"@,
        "belongs_to_task"@,
        "belongs_to_story"@,
        "belongs_to_user_story"@,
        "belongs_to_epic"@,
    ]
}

/// The edges that `link` may create.
pub fn allowed_edges() -> (r: Vec<&'static str>)
    ensures
        r@.map_values(|s: &'static str| s@) == allowed_edges_spec(),
{
    let r = vec![
        "contains",
        "has_file",
        "has_module",
        "has_task",
        "has_todo",
        "has_context",
        "has_user_story",
        "has_epic",
        "has_issue",
        "belongs_to_project",
        "belongs_to_module",
        "belongs_to_task",
        "belongs_to_story",
        "belongs_to_user_story",
        "belongs_to_epic",
    ];
    assert(r@.map_values(|s: &'static str| s@) =~= allowed_edges_spec());
    r
}

/// The edges that `dn link` accepts are exactly these: `contains`,
/// `has_file`, `has_module`, `has_task`, `has_todo`, `has_context`,
/// `has_user_story`, `has_epic`, `has_issue`, `belongs_to_project`,
/// `belongs_to_module`, `belongs_to_task`, `belongs_to_story`,
/// `belongs_to_user_story` and `belongs_to_epic`: a list of edges is
/// refused for an unknown one exactly when one of them is none of these.
pub proof fn lemma_link_accepts_exactly(e: Seq<char>)
    ensures
        allowed_edges_spec().contains(e) <==> (e == "contains"@
            || e == "has_file"@
            || e == "has_module"@
            || e == "has_task"@
            || e == "has_todo"@
            || e == "has_context"@
            || e == "has_user_story"@
            || e == "has_epic"@
            || e == "has_issue"@
            || e == "belongs_to_project"@
            || e == "belongs_to_module"@
            || e == "belongs_to_task"@
            || e == "belongs_to_story"@
            || e == "belongs_to_user_story"@
            || e == "belongs_to_epic"@),
        first_unknown_edge(seq![e]) is None <==> (e == "contains"@
            || e == "has_file"@
            || e == "has_module"@
            || e == "has_task"@
            || e == "has_todo"@
            || e == "has_context"@
            || e == "has_user_story"@
            || e == "has_epic"@
            || e == "has_issue"@
            || e == "belongs_to_project"@
            || e == "belongs_to_module"@
            || e == "belongs_to_task"@
            || e == "belongs_to_story"@
            || e == "belongs_to_user_story"@
            || e == "belongs_to_epic"@),
{
    assert(allowed_edges_spec()[0] == "contains"@);
    assert(allowed_edges_spec()[1] == "has_file"@);
    assert(allowed_edges_spec()[2] == "has_module"@);
    assert(allowed_edges_spec()[3] == "has_task"@);
    assert(allowed_edges_spec()[4] == "has_todo"@);
    assert(allowed_edges_spec()[5] == "has_context"@);
    assert(allowed_edges_spec()[6] == "has_user_story"@);
    assert(allowed_edges_spec()[7] == "has_epic"@);
    assert(allowed_edges_spec()[8] == "has_issue"@);
    assert(allowed_edges_spec()[9] == "belongs_to_project"@);
    assert(allowed_edges_spec()[10] == "belongs_to_module"@);
    assert(allowed_edges_spec()[11] == "belongs_to_task"@);
    assert(allowed_edges_spec()[12] == "belongs_to_story"@);
    assert(allowed_edges_spec()[13] == "belongs_to_user_story"@);
    assert(allowed_edges_spec()[14] == "belongs_to_epic"@);
    assert(seq![e][0] == e);
    assert(seq![e].drop_first() =~= Seq::<Seq<char>>::empty());
    reveal_with_fuel(first_unknown_edge, 2);
}

/// The edges that the `dunno` command line links with are exactly these:
/// `contains`, `has_task`, `has_todo`, `has_context`, `has_user_story`,
/// `has_module`, `has_submodule`, `has_epic`, `belongs_to_project`,
/// `belongs_to_module`, `belongs_to_task`, `belongs_to_story`,
/// `belongs_to_user_story` and `belongs_to_epic`.
pub proof fn lemma_dunno_link_edges_exactly(e: Seq<char>)
    ensures
        link_edges_spec().contains(e) <==> (e == "contains"@
            || e == "has_task"@
            || e == "has_todo"@
            || e == "has_context"@
            || e == "has_user_story"@
            || e == "has_module"@
            || e == "has_submodule"@
            || e == "has_epic"@
            || e == "belongs_to_project"@
            || e == "belongs_to_module"@
            || e == "belongs_to_task"@
            || e == "belongs_to_story"@
            || e == "belongs_to_user_story"@
            || e == "belongs_to_epic"@),
{
    assert(link_edges_spec()[0] == "contains"@);
    assert(link_edges_spec()[1] == "has_task"@);
    assert(link_edges_spec()[2] == "has_todo"@);
    assert(link_edges_spec()[3] == "has_context"@);
    assert(link_edges_spec()[4] == "has_user_story"@);
    assert(link_edges_spec()[5] == "has_module"@);
    assert(link_edges_spec()[6] == "has_submodule"@);
    assert(link_edges_spec()[7] == "has_epic"@);
    assert(link_edges_spec()[8] == "belongs_to_project"@);
    assert(link_edges_spec()[9] == "belongs_to_module"@);
    assert(link_edges_spec()[10] == "belongs_to_task"@);
    assert(link_edges_spec()[11] == "belongs_to_story"@);
    assert(link_edges_spec()[12] == "belongs_to_user_story"@);
    assert(link_edges_spec()[13] == "belongs_to_epic"@);
}

/// The text of an error.
pub open spec fn cli_message(e: CliErrorView) -> Seq<char> {
    match e {
        CliErrorView::FieldCount(n, v) => "Number of --field flags ("@ + text::decimal(n) + ") must match number of --value flags ("@
            + text::decimal(v) + ")"@,
        CliErrorView::UnknownEdge(edge) => "Unknown edge "@ + str_debug(edge) + ". Allowed: "@ + tables_debug(
            allowed_edges_spec(),
        ),
        CliErrorView::NoTargets => "At least one --to-id is required"@,
        CliErrorView::LinkCounts(f, e, t) => "Mismatched argument counts: --from-id ("@ + text::decimal(f)
            + "), --edge ("@ + text::decimal(e) + "), --to-id ("@ + text::decimal(t)
            + "). Either use a single --from-id and --edge with multiple --to-id values, or repeat all three flags the same number of times for multi-triplet mode."@,
        CliErrorView::ProjectIdsRequired => "Either --project-ids/--pids or --project/-p must be provided"@,
        CliErrorView::ProjectRequired => "Either --project-id or --project must be provided"@,
        CliErrorView::TaskParents(m, p) => "Task create: provide exactly one project ID (with an optional module ID). Got "@
            + text::decimal(m) + " module_ids and "@ + text::decimal(p) + " project_ids"@,
        CliErrorView::InvalidStatus(v) => "Invalid status '"@ + v + "'. Expected: pending, active, completed"@,
        CliErrorView::NotFound(kind, id) => kind + " not found: "@ + id,
        CliErrorView::ProjectNotFound(name) => "Project not found: "@ + name,
        CliErrorView::LookupFailed(m) => "Failed to lookup project by name: "@ + m,
        CliErrorView::ProjectWithoutId => "Project has no ID"@,
        CliErrorView::GeneralNeedsProject => "--project / -p is required with --general"@,
        CliErrorView::NoContextTarget => "One of --task-id, --file-id, --epic-id, or --general must be provided"@,
        CliErrorView::Store(m) => m,
        CliErrorView::Unexpected => "Unexpected reply from the store"@,
        CliErrorView::FreeTaskParents(m, p) => crate::rules::task_parents_message(m, p),
        CliErrorView::TaskStatusName(v) => crate::rules::invalid_status_message(v),
        CliErrorView::UnknownLinkEdge(edge) => "Unknown edge "@ + str_debug(edge) + ". Allowed: "@ + tables_debug(
            link_edges_spec(),
        ),
        CliErrorView::NoToIds => "At least one --to ID is required"@,
        CliErrorView::NoContextRecord => "One of --task-id, --file-id, or --epic-id must be provided"@,
    }
}

fn edges_debug() -> (r: String)
    ensures
        r@ == tables_debug(allowed_edges_spec()),
{
    strs_debug(allowed_edges())
}

/// The edges that the `dunno` command line links with.
pub open spec fn link_edges_spec() -> Seq<Seq<char>> {
    seq![
        "contains"@,
        "has_task"@,
        "has_todo"@,
        "has_context"@,
        "has_user_story"@,
        "has_module"@,
        "has_submodule"@,
        "has_epic"@,
        "belongs_to_project"@,
        "belongs_to_module"@,
        "belongs_to_task"@,
        "belongs_to_story"@,
        "belongs_to_user_story"@,
        "belongs_to_epic"@,
    ]
}

/// The edges that the `dunno` command line links with.
pub fn link_edges() -> (r: Vec<&'static str>)
    ensures
        r@.map_values(|s: &'static str| s@) == link_edges_spec(),
{
    let r = vec![
        "contains",
        "has_task",
        "has_todo",
        "has_context",
        "has_user_story",
        "has_module",
        "has_submodule",
        "has_epic",
        "belongs_to_project",
        "belongs_to_module",
        "belongs_to_task",
        "belongs_to_story",
        "belongs_to_user_story",
        "belongs_to_epic",
    ];
    assert(r@.map_values(|s: &'static str| s@) =~= link_edges_spec());
    r
}

/// A list of names as `Debug` writes a slice of strings.
fn strs_debug(names: Vec<&'static str>) -> (r: String)
    ensures
        r@ == tables_debug(names@.map_values(|s: &'static str| s@)),
{
    let ghost t = names@.map_values(|s: &'static str| s@);
    let mut items = String::new();
    let mut i: usize = 0;
    assert(t.take(0) =~= Seq::<Seq<char>>::empty());
    while i < names.len()
        invariant
            i <= names@.len(),
            names@.map_values(|s: &'static str| s@) == t,
            items@ == crate::records::tables_debug_items(t.take(i as int)),
        decreases names@.len() - i,
    {
        if i > 0 {
            items.append(", ");
        }
        let d = debug_str(names[i]);
        items.append(d.as_str());
        proof {
            assert(t[i as int] == names@[i as int]@);
            assert(t.take(i + 1).drop_last() =~= t.take(i as int));
            assert(t.take(i + 1).last() == t[i as int]);
            if i == 0 {
                assert(items@ =~= crate::records::tables_debug_items(t.take(1)));
            }
        }
        i = i + 1;
    }
    assert(t.take(i as int) =~= t);
    let mut r = owned("[");
    r.append(items.as_str());
    r.append("]");
    r
}

impl CliError {
    /// The text of the error.
    pub fn message(&self) -> (r: String)
        ensures
            r@ == cli_message(self@),
    {
        match self {
            CliError::FieldCount { names, values } => {
                let mut s = owned("Number of --field flags (");
                push_decimal(&mut s, *names);
                s.append(") must match number of --value flags (");
                push_decimal(&mut s, *values);
                s.append(")");
                s
            },
            CliError::UnknownEdge { edge } => {
                let mut s = owned("Unknown edge ");
                let d = debug_str(edge.as_str());
                s.append(d.as_str());
                s.append(". Allowed: ");
                let l = edges_debug();
                s.append(l.as_str());
                s
            },
            CliError::NoTargets => owned("At least one --to-id is required"),
            CliError::LinkCounts { from, edge, to } => {
                let mut s = owned("Mismatched argument counts: --from-id (");
                push_decimal(&mut s, *from);
                s.append("), --edge (");
                push_decimal(&mut s, *edge);
                s.append("), --to-id (");
                push_decimal(&mut s, *to);
                s.append(
                    "). Either use a single --from-id and --edge with multiple --to-id values, or repeat all three flags the same number of times for multi-triplet mode.",
                );
                s
            },
            CliError::ProjectIdsRequired => owned("Either --project-ids/--pids or --project/-p must be provided"),
            CliError::ProjectRequired => owned("Either --project-id or --project must be provided"),
            CliError::TaskParents { modules, projects } => {
                let mut s = owned(
                    "Task create: provide exactly one project ID (with an optional module ID). Got ",
                );
                push_decimal(&mut s, *modules);
                s.append(" module_ids and ");
                push_decimal(&mut s, *projects);
                s.append(" project_ids");
                s
            },
            CliError::InvalidStatus { value } => {
                let mut s = owned("Invalid status '");
                s.append(value.as_str());
                s.append("'. Expected: pending, active, completed");
                s
            },
            CliError::NotFound { kind, id } => {
                let mut s = owned(kind);
                s.append(" not found: ");
                s.append(id.as_str());
                s
            },
            CliError::ProjectNotFound { name } => {
                let mut s = owned("Project not found: ");
                s.append(name.as_str());
                s
            },
            CliError::LookupFailed { message } => {
                let mut s = owned("Failed to lookup project by name: ");
                s.append(message.as_str());
                s
            },
            CliError::ProjectWithoutId => owned("Project has no ID"),
            CliError::GeneralNeedsProject => owned("--project / -p is required with --general"),
            CliError::NoContextTarget => owned(
                "One of --task-id, --file-id, --epic-id, or --general must be provided",
            ),
            CliError::Store { message } => message.clone(),
            CliError::Unexpected => owned("Unexpected reply from the store"),
            CliError::FreeTaskParents { modules, projects } => {
                crate::rules::TaskParentsError { modules: *modules, projects: *projects }.message()
            },
            CliError::TaskStatusName { value } => crate::rules::InvalidTaskStatus { value: value.clone() }.message(),
            CliError::UnknownLinkEdge { edge } => {
                let mut s = owned("Unknown edge ");
                let d = debug_str(edge.as_str());
                s.append(d.as_str());
                s.append(". Allowed: ");
                let l = strs_debug(link_edges());
                s.append(l.as_str());
                s
            },
            CliError::NoToIds => owned("At least one --to ID is required"),
            CliError::NoContextRecord => owned("One of --task-id, --file-id, or --epic-id must be provided"),
        }
    }
}

// ---------------------------------------------------------------------------
// Runs
// ---------------------------------------------------------------------------

/// What a run does next.
#[derive(Debug)]
pub enum Action {
    /// Ask the store for an operation and report its answer.
    Call(DbCall),
    /// Print the document; the run is over.
    Print(Json),
    /// Fail with the error; the run is over.
    Fail(CliError),
    /// Show the configuration; the run needs no store.
    ShowConfig,
}

/// An action as character sequences.
pub enum ActionView {
    Call(CallView),
    Print(JsonView),
    Fail(CliErrorView),
    ShowConfig,
}

impl View for Action {
    type V = ActionView;

    open spec fn view(&self) -> ActionView {
        match self {
            Action::Call(c) => ActionView::Call(c@),
            Action::Print(j) => ActionView::Print(j@),
            Action::Fail(e) => ActionView::Fail(e@),
            Action::ShowConfig => ActionView::ShowConfig,
        }
    }
}

/// The links to make once a record is created, by its id.
#[derive(Debug)]
pub enum LinkPlan {
    Nothing,
    /// `link(id, edge, created)` for each of `ids`.
    FromEach { ids: Vec<String>, edge: &'static str },
    /// A new task's user stories, then its epics.
    TaskLinks { user_story_ids: Vec<String>, epic_ids: Vec<String> },
    /// A new user story's epics.
    StoryEpics { epic_ids: Vec<String> },
}

/// A link plan as character sequences.
pub enum LinkPlanView {
    Nothing,
    FromEach(Seq<Seq<char>>, Seq<char>),
    TaskLinks(Seq<Seq<char>>, Seq<Seq<char>>),
    StoryEpics(Seq<Seq<char>>),
}

impl View for LinkPlan {
    type V = LinkPlanView;

    open spec fn view(&self) -> LinkPlanView {
        match self {
            LinkPlan::Nothing => LinkPlanView::Nothing,
            LinkPlan::FromEach { ids, edge } => LinkPlanView::FromEach(strings_view(ids@), edge@),
            LinkPlan::TaskLinks { user_story_ids, epic_ids } => LinkPlanView::TaskLinks(
                strings_view(user_story_ids@),
                strings_view(epic_ids@),
            ),
            LinkPlan::StoryEpics { epic_ids } => LinkPlanView::StoryEpics(strings_view(epic_ids@)),
        }
    }
}

/// Which message tells that a project is needed.
#[derive(Debug, Clone, Copy, PartialEq, Eq, Structural)]
pub enum Requirement {
    ProjectIds,
    ProjectId,
    /// The project may be missing: the record is created without one.
    Optional,
}

/// What a run does once it knows its project (if any).
#[derive(Debug)]
pub enum Pending {
    /// List by project where there is one, else list all.
    ListBy { by_project: &'static str, all: &'static str },
    /// List user stories: by epic where one is given, else by project, else all.
    StoriesList { epic_id: Option<String> },
    /// List the todo items of a project, which is needed.
    TodoList,
    /// Create a record under the project, which is needed: the arguments
    /// are `before`, the project id, then `after`; then make the links.
    Create { require: Requirement, method: &'static str, before: Vec<Arg>, after: Vec<Arg>, links: LinkPlan },
    /// Create a todo item, under the project where there is one; then link
    /// the other projects.
    TodoCreate { content: String, other_projects: Vec<String> },
    /// Create a task: under no module or one module, and one project.
    TaskCreate {
        module_ids: Vec<String>,
        name: String,
        description: String,
        user_story_ids: Vec<String>,
        epic_ids: Vec<String>,
    },
    /// Create a task: freestanding, with no module and no project, or
    /// linked, with one of each.
    FreeTaskCreate {
        module_ids: Vec<String>,
        name: String,
        description: String,
        user_story_ids: Vec<String>,
        epic_ids: Vec<String>,
    },
}

/// A pending step as character sequences.
pub enum PendingView {
    ListBy(Seq<char>, Seq<char>),
    StoriesList(Option<Seq<char>>),
    TodoList,
    Create(Requirement, Seq<char>, Seq<ArgView>, Seq<ArgView>, LinkPlanView),
    TodoCreate(Seq<char>, Seq<Seq<char>>),
    TaskCreate(Seq<Seq<char>>, Seq<char>, Seq<char>, Seq<Seq<char>>, Seq<Seq<char>>),
    FreeTaskCreate(Seq<Seq<char>>, Seq<char>, Seq<char>, Seq<Seq<char>>, Seq<Seq<char>>),
}

/// The views of arguments.
pub open spec fn arg_views(v: Seq<Arg>) -> Seq<ArgView> {
    v.map_values(|a: Arg| a@)
}

impl View for Pending {
    type V = PendingView;

    open spec fn view(&self) -> PendingView {
        match self {
            Pending::ListBy { by_project, all } => PendingView::ListBy(by_project@, all@),
            Pending::StoriesList { epic_id } => PendingView::StoriesList(cli::opt_string_view(*epic_id)),
            Pending::TodoList => PendingView::TodoList,
            Pending::Create { require, method, before, after, links } => PendingView::Create(
                *require,
                method@,
                arg_views(before@),
                arg_views(after@),
                links@,
            ),
            Pending::TodoCreate { content, other_projects } => PendingView::TodoCreate(
                content@,
                strings_view(other_projects@),
            ),
            Pending::TaskCreate { module_ids, name, description, user_story_ids, epic_ids } => PendingView::TaskCreate(
                strings_view(module_ids@),
                name@,
                description@,
                strings_view(user_story_ids@),
                strings_view(epic_ids@),
            ),
            Pending::FreeTaskCreate {
                module_ids,
                name,
                description,
                user_story_ids,
                epic_ids,
            } => PendingView::FreeTaskCreate(
                strings_view(module_ids@),
                name@,
                description@,
                strings_view(user_story_ids@),
                strings_view(epic_ids@),
            ),
        }
    }
}

/// Where a run stands: what it waits for.
#[derive(Debug)]
pub enum Stage {
    /// The project looked up by name; then go on with `next`.
    Lookup { name: String, next: Pending },
    /// The project of a general context looked up by name.
    GeneralLookup { name: String },
    /// The created record; then make the links.
    Created { links: LinkPlan },
    /// The end of an operation; then make the `rest`, then print `output`.
    Calls { rest: Vec<DbCall>, output: Json },
    /// A document to print as it is.
    PrintReply,
    /// A document to print under `results`.
    Wrap,
    /// A record that must exist.
    MustExist { kind: &'static str, id: String },
    /// Whether `current` was deleted; then delete the `rest`.
    Deleting {
        method: &'static str,
        current: String,
        rest: Vec<String>,
        deleted: Vec<String>,
        not_found: Vec<String>,
    },
    /// Whether the one record `id` of this kind was deleted.
    DeleteOne { kind: &'static str, id: String },
    /// Nothing: the run is over.
    Finished,
}

/// A stage as character sequences.
pub enum StageView {
    Lookup(Seq<char>, PendingView),
    GeneralLookup(Seq<char>),
    Created(LinkPlanView),
    Calls(Seq<CallView>, JsonView),
    PrintReply,
    Wrap,
    MustExist(Seq<char>, Seq<char>),
    Deleting(Seq<char>, Seq<char>, Seq<Seq<char>>, Seq<Seq<char>>, Seq<Seq<char>>),
    DeleteOne(Seq<char>, Seq<char>),
    Finished,
}

impl View for Stage {
    type V = StageView;

    open spec fn view(&self) -> StageView {
        match self {
            Stage::Lookup { name, next } => StageView::Lookup(name@, next@),
            Stage::GeneralLookup { name } => StageView::GeneralLookup(name@),
            Stage::Created { links } => StageView::Created(links@),
            Stage::Calls { rest, output } => StageView::Calls(calls_view(rest@), output@),
            Stage::PrintReply => StageView::PrintReply,
            Stage::Wrap => StageView::Wrap,
            Stage::MustExist { kind, id } => StageView::MustExist(kind@, id@),
            Stage::Deleting { method, current, rest, deleted, not_found } => StageView::Deleting(
                method@,
                current@,
                strings_view(rest@),
                strings_view(deleted@),
                strings_view(not_found@),
            ),
            Stage::DeleteOne { kind, id } => StageView::DeleteOne(kind@, id@),
            Stage::Finished => StageView::Finished,
        }
    }
}

// ---------------------------------------------------------------------------
// Documents
// ---------------------------------------------------------------------------

/// `{"status": "ok"}`.
pub open spec fn ok_doc() -> JsonView {
    JsonView::Object(seq![("status"@, JsonView::Str("ok"@))])
}

/// The document printed after one record was deleted.
pub open spec fn deleted_doc(id: Seq<char>) -> JsonView {
    JsonView::Object(seq![("status"@, JsonView::Str("ok"@)), ("deleted"@, JsonView::Str(id))])
}

/// The document printed after a purge.
pub open spec fn purge_doc() -> JsonView {
    JsonView::Object(
        seq![
            ("status"@, JsonView::Str("ok"@)),
            ("message"@, JsonView::Str("Database purged successfully"@)),
        ],
    )
}

/// Strings as an array of JSON strings.
pub open spec fn texts_doc(s: Seq<Seq<char>>) -> JsonView {
    JsonView::Array(Seq::new(s.len(), |i: int| JsonView::Str(s[i])))
}

/// The report of a deletion: which ids were deleted and which were not found.
pub open spec fn report_doc(deleted: Seq<Seq<char>>, not_found: Seq<Seq<char>>) -> JsonView {
    JsonView::Object(
        seq![
            ("status"@, JsonView::Str("ok"@)),
            ("deleted"@, texts_doc(deleted)),
            ("not_found"@, texts_doc(not_found)),
        ],
    )
}

/// A document under `results`.
pub open spec fn results_doc(v: JsonView) -> JsonView {
    JsonView::Object(seq![("results"@, v)])
}

fn object(members: Vec<(String, Json)>) -> (r: Json)
    ensures
        r@ == JsonView::Object(members_view(members@)),
{
    proof {
        lemma_object_view(members);
    }
    Json::Object(members)
}

pub(crate) fn ok_json() -> (r: Json)
    ensures
        r@ == ok_doc(),
{
    let m = vec![(owned("status"), Json::Str(owned("ok")))];
    let r = object(m);
    assert(members_view(m@) =~= seq![("status"@, JsonView::Str("ok"@))]);
    r
}

fn deleted_json(id: String) -> (r: Json)
    ensures
        r@ == deleted_doc(id@),
{
    let ghost iv = id@;
    let m = vec![(owned("status"), Json::Str(owned("ok"))), (owned("deleted"), Json::Str(id))];
    let r = object(m);
    assert(members_view(m@) =~= seq![("status"@, JsonView::Str("ok"@)), ("deleted"@, JsonView::Str(iv))]);
    r
}

pub(crate) fn purge_json() -> (r: Json)
    ensures
        r@ == purge_doc(),
{
    let m = vec![
        (owned("status"), Json::Str(owned("ok"))),
        (owned("message"), Json::Str(owned("Database purged successfully"))),
    ];
    let r = object(m);
    assert(members_view(m@) =~= seq![
        ("status"@, JsonView::Str("ok"@)),
        ("message"@, JsonView::Str("Database purged successfully"@)),
    ]);
    r
}

fn texts_json(v: Vec<String>) -> (r: Json)
    ensures
        r@ == texts_doc(strings_view(v@)),
{
    let ghost sv = strings_view(v@);
    let mut out: Vec<Json> = Vec::new();
    let mut rest = v;
    let total: usize = rest.len();
    let mut k: usize = 0;
    while rest.len() > 0
        invariant
            k + rest@.len() == sv.len(),
            sv.len() == total,
            strings_view(rest@) =~= sv.skip(k as int),
            values_view(out@) =~= Seq::new(k as nat, |i: int| JsonView::Str(sv[i])),
        decreases rest@.len(),
    {
        let ghost rs = rest@;
        let s = rest.remove(0);
        assert(s@ == sv[k as int]) by {
            assert(strings_view(rs)[0] == sv.skip(k as int)[0]);
        }
        assert(strings_view(rest@) =~= sv.skip(k + 1)) by {
            assert forall|i: int| 0 <= i < rest@.len() implies strings_view(rest@)[i] == sv.skip(k + 1)[i] by {
                assert(rest@[i] == rs[i + 1]);
                assert(strings_view(rs)[i + 1] == sv.skip(k as int)[i + 1]);
            }
        }
        let ghost before = out@;
        let item = Json::Str(s);
        assert(item@ == JsonView::Str(sv[k as int]));
        out.push(item);
        assert(values_view(out@) =~= values_view(before).push(JsonView::Str(sv[k as int])));
        k = k + 1;
    }
    proof {
        lemma_array_view(out);
    }
    Json::Array(out)
}

fn report_json(deleted: Vec<String>, not_found: Vec<String>) -> (r: Json)
    ensures
        r@ == report_doc(strings_view(deleted@), strings_view(not_found@)),
{
    let d = texts_json(deleted);
    let n = texts_json(not_found);
    let m = vec![(owned("status"), Json::Str(owned("ok"))), (owned("deleted"), d), (owned("not_found"), n)];
    let r = object(m);
    assert(members_view(m@) =~= seq![
        ("status"@, JsonView::Str("ok"@)),
        ("deleted"@, d@),
        ("not_found"@, n@),
    ]);
    r
}

fn results_json(v: Json) -> (r: Json)
    ensures
        r@ == results_doc(v@),
{
    let ghost vv = v@;
    let m = vec![(owned("results"), v)];
    let r = object(m);
    assert(members_view(m@) =~= seq![("results"@, vv)]);
    r
}

// ---------------------------------------------------------------------------
// Specification of a run
// ---------------------------------------------------------------------------

/// A store operation with its arguments.
pub open spec fn call(method: Seq<char>, args: Seq<ArgView>) -> ActionView {
    ActionView::Call(CallView { method, args })
}

/// `link(from, edge, to)`.
pub open spec fn link_call(from: Seq<char>, edge: Seq<char>, to: Seq<char>) -> CallView {
    CallView { method: "link"@, args: seq![ArgView::Text(from), ArgView::Text(edge), ArgView::Text(to)] }
}

/// A two-argument operation on the new record and each of `ids`.
pub open spec fn pair_calls(method: Seq<char>, created: Seq<char>, ids: Seq<Seq<char>>) -> Seq<CallView> {
    Seq::new(
        ids.len(),
        |i: int| CallView { method, args: seq![ArgView::Text(created), ArgView::Text(ids[i])] },
    )
}

/// The links that a plan makes for the record `created`.
pub open spec fn link_calls(plan: LinkPlanView, created: Seq<char>) -> Seq<CallView> {
    match plan {
        LinkPlanView::Nothing => Seq::empty(),
        LinkPlanView::FromEach(ids, edge) => Seq::new(ids.len(), |i: int| link_call(ids[i], edge, created)),
        LinkPlanView::TaskLinks(us, ep) => pair_calls("link_task_to_user_story"@, created, us) + pair_calls(
            "link_task_to_epic"@,
            created,
            ep,
        ),
        LinkPlanView::StoryEpics(ep) => pair_calls("link_user_story_to_epic"@, created, ep),
    }
}

/// Run the operations `calls`, then print `output`.
pub open spec fn run_calls(calls: Seq<CallView>, output: JsonView) -> (StageView, ActionView) {
    if calls.len() == 0 {
        (StageView::Finished, ActionView::Print(output))
    } else {
        (StageView::Calls(calls.drop_first(), output), ActionView::Call(calls[0]))
    }
}

/// After a record was created: make its links, then print it.
pub open spec fn created_spec(plan: LinkPlanView, rec: JsonView) -> (StageView, ActionView) {
    match member_text(rec_members(rec), "id"@) {
        None => (StageView::Finished, ActionView::Print(rec)),
        Some(id) => run_calls(link_calls(plan, id), rec),
    }
}

/// Fail the run.
pub open spec fn fail(e: CliErrorView) -> (StageView, ActionView) {
    (StageView::Finished, ActionView::Fail(e))
}

/// The module and project of a new task: no module or one, and exactly one project.
pub open spec fn task_parents_spec(modules: Seq<Seq<char>>, projects: Seq<Seq<char>>) -> Option<
    (Option<Seq<char>>, Seq<char>),
> {
    if modules.len() == 0 && projects.len() == 1 {
        Some((None, projects[0]))
    } else if modules.len() == 1 && projects.len() == 1 {
        Some((Some(modules[0]), projects[0]))
    } else {
        None
    }
}

/// The module and project of a new task: none of either, or one of each.
pub open spec fn free_task_parents_spec(modules: Seq<Seq<char>>, projects: Seq<Seq<char>>) -> Option<
    (Option<Seq<char>>, Option<Seq<char>>),
> {
    if modules.len() == 0 && projects.len() == 0 {
        Some((None, None))
    } else if modules.len() == 1 && projects.len() == 1 {
        Some((Some(modules[0]), Some(projects[0])))
    } else {
        None
    }
}

/// The project ids of a resolution: the project where there is one.
pub open spec fn resolved_ids(r: Option<Seq<char>>) -> Seq<Seq<char>> {
    match r {
        Some(p) => seq![p],
        None => Seq::empty(),
    }
}

/// Go on once the project (if any) is known.
pub open spec fn after_resolve_spec(p: PendingView, resolved: Option<Seq<char>>) -> (StageView, ActionView) {
    match p {
        PendingView::ListBy(by_project, all) => match resolved {
            Some(pid) => (StageView::PrintReply, call(by_project, seq![ArgView::Text(pid)])),
            None => (StageView::PrintReply, call(all, Seq::empty())),
        },
        PendingView::StoriesList(epic) => match epic {
            Some(eid) => (StageView::PrintReply, call("list_user_stories_by_epic"@, seq![ArgView::Text(eid)])),
            None => match resolved {
                Some(pid) => (
                    StageView::PrintReply,
                    call("list_user_stories_by_project"@, seq![ArgView::Text(pid)]),
                ),
                None => (StageView::PrintReply, call("list_user_stories"@, Seq::empty())),
            },
        },
        PendingView::TodoList => match resolved {
            Some(pid) => (StageView::PrintReply, call("list_todos_by_project"@, seq![ArgView::Text(pid)])),
            None => fail(CliErrorView::ProjectRequired),
        },
        PendingView::Create(require, method, before, after, links) => match resolved {
            None => match require {
                Requirement::ProjectIds => fail(CliErrorView::ProjectIdsRequired),
                Requirement::ProjectId => fail(CliErrorView::ProjectRequired),
                Requirement::Optional => (
                    match links {
                        LinkPlanView::Nothing => StageView::PrintReply,
                        _ => StageView::Created(links),
                    },
                    call(method, before + seq![ArgView::MaybeText(None)] + after),
                ),
            },
            Some(pid) => (
                match links {
                    LinkPlanView::Nothing => StageView::PrintReply,
                    _ => StageView::Created(links),
                },
                call(method, before + seq![ArgView::Text(pid)] + after),
            ),
        },
        PendingView::TodoCreate(content, others) => (
            StageView::Created(LinkPlanView::FromEach(others, "has_todo"@)),
            call("create_todo"@, seq![ArgView::Text(content), ArgView::MaybeText(resolved)]),
        ),
        PendingView::TaskCreate(modules, name, description, us, ep) => match task_parents_spec(
            modules,
            resolved_ids(resolved),
        ) {
            None => fail(CliErrorView::TaskParents(modules.len(), resolved_ids(resolved).len())),
            Some((mid, pid)) => (
                StageView::Created(LinkPlanView::TaskLinks(us, ep)),
                call(
                    "create_task"@,
                    seq![
                        ArgView::Text(name),
                        ArgView::Text(description),
                        ArgView::MaybeText(mid),
                        ArgView::MaybeText(Some(pid)),
                    ],
                ),
            ),
        },
        PendingView::FreeTaskCreate(modules, name, description, us, ep) => match free_task_parents_spec(
            modules,
            resolved_ids(resolved),
        ) {
            None => fail(CliErrorView::FreeTaskParents(modules.len(), resolved_ids(resolved).len())),
            Some((mid, pid)) => (
                StageView::Created(LinkPlanView::TaskLinks(us, ep)),
                call(
                    "create_task"@,
                    seq![
                        ArgView::Text(name),
                        ArgView::Text(description),
                        ArgView::MaybeText(mid),
                        ArgView::MaybeText(pid),
                    ],
                ),
            ),
        },
    }
}

/// Find the project: given by id, looked up by name, or none.
pub open spec fn resolve_spec(
    id: Option<Seq<char>>,
    name: Option<Seq<char>>,
    ignore_case: bool,
    next: PendingView,
) -> (StageView, ActionView) {
    match id {
        Some(i) => after_resolve_spec(next, Some(i)),
        None => match name {
            Some(n) => (
                StageView::Lookup(n, next),
                call("get_project_by_name"@, seq![ArgView::Text(n), ArgView::Flag(ignore_case)]),
            ),
            None => after_resolve_spec(next, None),
        },
    }
}

/// Go on after the store answered.
pub open spec fn step_spec(s: StageView, r: ReplyView) -> (StageView, ActionView) {
    match (s, r) {
        (StageView::Lookup(name, next), ReplyView::Found(None)) => fail(CliErrorView::ProjectNotFound(name)),
        (StageView::Lookup(name, next), ReplyView::Found(Some(p))) => after_resolve_spec(
            next,
            member_text(rec_members(p), "id"@),
        ),
        (StageView::Lookup(name, next), ReplyView::Failed(m)) => fail(CliErrorView::LookupFailed(m)),
        (StageView::GeneralLookup(name), ReplyView::Found(None)) => fail(CliErrorView::ProjectNotFound(name)),
        (StageView::GeneralLookup(name), ReplyView::Found(Some(p))) => match member_text(
            rec_members(p),
            "id"@,
        ) {
            None => fail(CliErrorView::ProjectWithoutId),
            Some(id) => (StageView::Wrap, call("project_structure"@, seq![ArgView::Text(id)])),
        },
        (StageView::Created(plan), ReplyView::Value(rec)) => created_spec(plan, rec),
        (StageView::Calls(rest, output), ReplyView::Done) => run_calls(rest, output),
        (StageView::Calls(rest, output), ReplyView::Value(_)) => run_calls(rest, output),
        (StageView::PrintReply, ReplyView::Value(v)) => (StageView::Finished, ActionView::Print(v)),
        (StageView::PrintReply, ReplyView::Found(Some(v))) => (StageView::Finished, ActionView::Print(v)),
        (StageView::PrintReply, ReplyView::Found(None)) => (StageView::Finished, ActionView::Print(JsonView::Null)),
        (StageView::Wrap, ReplyView::Value(v)) => (StageView::Finished, ActionView::Print(results_doc(v))),
        (StageView::MustExist(kind, id), ReplyView::Found(Some(v))) => (StageView::Finished, ActionView::Print(v)),
        (StageView::MustExist(kind, id), ReplyView::Found(None)) => fail(CliErrorView::NotFound(kind, id)),
        (StageView::DeleteOne(kind, id), ReplyView::Flag(true)) => (StageView::Finished, ActionView::Print(deleted_doc(id))),
        (StageView::DeleteOne(kind, id), ReplyView::Flag(false)) => fail(CliErrorView::NotFound(kind, id)),
        (StageView::Deleting(method, current, rest, deleted, not_found), ReplyView::Flag(b)) => {
            let deleted2 = if b {
                deleted.push(current)
            } else {
                deleted
            };
            let not_found2 = if b {
                not_found
            } else {
                not_found.push(current)
            };
            deleting_spec(method, rest, deleted2, not_found2)
        },
        (StageView::Finished, _) => fail(CliErrorView::Unexpected),
        (_, ReplyView::Failed(m)) => fail(CliErrorView::Store(m)),
        _ => fail(CliErrorView::Unexpected),
    }
}

/// Delete the next of `rest`, or report.
pub open spec fn deleting_spec(
    method: Seq<char>,
    rest: Seq<Seq<char>>,
    deleted: Seq<Seq<char>>,
    not_found: Seq<Seq<char>>,
) -> (StageView, ActionView) {
    if rest.len() == 0 {
        (StageView::Finished, ActionView::Print(report_doc(deleted, not_found)))
    } else {
        (
            StageView::Deleting(method, rest[0], rest.drop_first(), deleted, not_found),
            call(method, seq![ArgView::Text(rest[0])]),
        )
    }
}

// ---------------------------------------------------------------------------
// Running
// ---------------------------------------------------------------------------

pub(crate) fn link_call_exec(from: String, edge: String, to: String) -> (r: DbCall)
    ensures
        r@ == link_call(from@, edge@, to@),
{
    let args = vec![Arg::Text(from), Arg::Text(edge), Arg::Text(to)];
    let r = DbCall { method: "link", args };
    assert(r@.args =~= seq![ArgView::Text(from@), ArgView::Text(edge@), ArgView::Text(to@)]);
    r
}

fn pair_calls_exec(method: &'static str, created: &String, ids: &Vec<String>, out: &mut Vec<DbCall>)
    ensures
        calls_view(final(out)@) == calls_view(old(out)@) + pair_calls(method@, created@, strings_view(ids@)),
{
    let ghost start = calls_view(out@);
    let ghost iv = strings_view(ids@);
    let mut i: usize = 0;
    while i < ids.len()
        invariant
            i <= ids@.len(),
            iv == strings_view(ids@),
            calls_view(out@) =~= start + pair_calls(method@, created@, iv.take(i as int)),
        decreases ids@.len() - i,
    {
        let c = DbCall { method, args: vec![Arg::Text(created.clone()), Arg::Text(ids[i].clone())] };
        assert(c@.args =~= seq![ArgView::Text(created@), ArgView::Text(iv[i as int])]);
        let ghost before = out@;
        out.push(c);
        assert(calls_view(out@) =~= calls_view(before).push(c@));
        assert(pair_calls(method@, created@, iv.take(i + 1)) =~= pair_calls(method@, created@, iv.take(i as int)).push(c@));
        i = i + 1;
    }
    assert(iv.take(i as int) =~= iv);
}

fn link_calls_exec(plan: LinkPlan, created: &String) -> (r: Vec<DbCall>)
    ensures
        calls_view(r@) == link_calls(plan@, created@),
{
    let mut out: Vec<DbCall> = Vec::new();
    assert(calls_view(out@) =~= Seq::<CallView>::empty());
    match plan {
        LinkPlan::Nothing => {},
        LinkPlan::FromEach { ids, edge } => {
            let ghost iv = strings_view(ids@);
            let mut i: usize = 0;
            while i < ids.len()
                invariant
                    i <= ids@.len(),
                    iv == strings_view(ids@),
                    calls_view(out@) =~= Seq::new(i as nat, |j: int| link_call(iv[j], edge@, created@)),
                decreases ids@.len() - i,
            {
                let c = link_call_exec(ids[i].clone(), owned(edge), created.clone());
                let ghost before = out@;
                out.push(c);
                assert(calls_view(out@) =~= calls_view(before).push(c@));
                i = i + 1;
            }
        },
        LinkPlan::TaskLinks { user_story_ids, epic_ids } => {
            pair_calls_exec("link_task_to_user_story", created, &user_story_ids, &mut out);
            pair_calls_exec("link_task_to_epic", created, &epic_ids, &mut out);
        },
        LinkPlan::StoryEpics { epic_ids } => {
            pair_calls_exec("link_user_story_to_epic", created, &epic_ids, &mut out);
        },
    }
    out
}

pub(crate) fn run_calls_exec(calls: Vec<DbCall>, output: Json) -> (r: (Stage, Action))
    ensures
        (r.0@, r.1@) == run_calls(calls_view(calls@), output@),
{
    let mut calls = calls;
    if calls.len() == 0 {
        (Stage::Finished, Action::Print(output))
    } else {
        let ghost cv = calls_view(calls@);
        let first = calls.remove(0);
        assert(calls_view(calls@) =~= cv.drop_first());
        (Stage::Calls { rest: calls, output }, Action::Call(first))
    }
}

fn created_exec(plan: LinkPlan, rec: Json) -> (r: (Stage, Action))
    ensures
        (r.0@, r.1@) == created_spec(plan@, rec@),
{
    let id = match &rec {
        Json::Object(m) => {
            proof {
                lemma_object_view(*m);
            }
            member_text_of(m, "id")
        },
        _ => None,
    };
    match id {
        None => (Stage::Finished, Action::Print(rec)),
        Some(id) => {
            let calls = link_calls_exec(plan, &id);
            run_calls_exec(calls, rec)
        },
    }
}

pub(crate) fn fail_exec(e: CliError) -> (r: (Stage, Action))
    ensures
        (r.0@, r.1@) == fail(e@),
{
    (Stage::Finished, Action::Fail(e))
}

pub(crate) fn call_exec(method: &'static str, args: Vec<Arg>) -> (r: Action)
    ensures
        r@ == call(method@, arg_views(args@)),
{
    Action::Call(DbCall { method, args })
}

fn deleting_exec(method: &'static str, ids: Vec<String>, deleted: Vec<String>, not_found: Vec<String>) -> (r: (
    Stage,
    Action,
))
    ensures
        (r.0@, r.1@) == deleting_spec(method@, strings_view(ids@), strings_view(deleted@), strings_view(not_found@)),
{
    let mut ids = ids;
    if ids.len() == 0 {
        (Stage::Finished, Action::Print(report_json(deleted, not_found)))
    } else {
        let ghost iv = strings_view(ids@);
        let current = ids.remove(0);
        assert(strings_view(ids@) =~= iv.drop_first());
        let args = vec![Arg::Text(current.clone())];
        assert(arg_views(args@) =~= seq![ArgView::Text(iv[0])]);
        (Stage::Deleting { method, current, rest: ids, deleted, not_found }, call_exec(method, args))
    }
}

fn task_parents(module_ids: &Vec<String>, project_ids: &Vec<String>) -> (r: Option<(Option<String>, String)>)
    ensures
        match task_parents_spec(strings_view(module_ids@), strings_view(project_ids@)) {
            Some((m, p)) => r matches Some(x) && cli::opt_string_view(x.0) == m && x.1@ == p,
            None => r is None,
        },
{
    if module_ids.len() == 0 && project_ids.len() == 1 {
        Some((None, project_ids[0].clone()))
    } else if module_ids.len() == 1 && project_ids.len() == 1 {
        Some((Some(module_ids[0].clone()), project_ids[0].clone()))
    } else {
        None
    }
}

fn after_resolve(p: Pending, resolved: Option<String>) -> (r: (Stage, Action))
    ensures
        (r.0@, r.1@) == after_resolve_spec(p@, cli::opt_string_view(resolved)),
{
    match p {
        Pending::ListBy { by_project, all } => match resolved {
            Some(pid) => {
                let args = vec![Arg::Text(pid)];
                assert(arg_views(args@) =~= seq![ArgView::Text(pid@)]);
                (Stage::PrintReply, call_exec(by_project, args))
            },
            None => {
                let args: Vec<Arg> = Vec::new();
                assert(arg_views(args@) =~= Seq::<ArgView>::empty());
                (Stage::PrintReply, call_exec(all, args))
            },
        },
        Pending::StoriesList { epic_id } => match epic_id {
            Some(eid) => {
                let args = vec![Arg::Text(eid)];
                assert(arg_views(args@) =~= seq![ArgView::Text(eid@)]);
                (Stage::PrintReply, call_exec("list_user_stories_by_epic", args))
            },
            None => match resolved {
                Some(pid) => {
                    let args = vec![Arg::Text(pid)];
                    assert(arg_views(args@) =~= seq![ArgView::Text(pid@)]);
                    (Stage::PrintReply, call_exec("list_user_stories_by_project", args))
                },
                None => {
                    let args: Vec<Arg> = Vec::new();
                    assert(arg_views(args@) =~= Seq::<ArgView>::empty());
                    (Stage::PrintReply, call_exec("list_user_stories", args))
                },
            },
        },
        Pending::TodoList => match resolved {
            Some(pid) => {
                let args = vec![Arg::Text(pid)];
                assert(arg_views(args@) =~= seq![ArgView::Text(pid@)]);
                (Stage::PrintReply, call_exec("list_todos_by_project", args))
            },
            None => fail_exec(CliError::ProjectRequired),
        },
        Pending::Create { require, method, before, after, links } => match resolved {
            None => match require {
                Requirement::ProjectIds => fail_exec(CliError::ProjectIdsRequired),
                Requirement::ProjectId => fail_exec(CliError::ProjectRequired),
                Requirement::Optional => {
                    let ghost bv = arg_views(before@);
                    let ghost av = arg_views(after@);
                    let mut args = before;
                    args.push(Arg::MaybeText(None));
                    let mut rest = after;
                    args.append(&mut rest);
                    assert(arg_views(args@) =~= bv + seq![ArgView::MaybeText(None)] + av);
                    let stage = match links {
                        LinkPlan::Nothing => Stage::PrintReply,
                        _ => Stage::Created { links },
                    };
                    (stage, call_exec(method, args))
                },
            },
            Some(pid) => {
                let ghost bv = arg_views(before@);
                let ghost av = arg_views(after@);
                let mut args = before;
                args.push(Arg::Text(pid));
                let mut rest = after;
                args.append(&mut rest);
                assert(arg_views(args@) =~= bv + seq![ArgView::Text(pid@)] + av);
                let stage = match links {
                    LinkPlan::Nothing => Stage::PrintReply,
                    _ => Stage::Created { links },
                };
                (stage, call_exec(method, args))
            },
        },
        Pending::TodoCreate { content, other_projects } => {
            let args = vec![Arg::Text(content), Arg::MaybeText(resolved)];
            assert(arg_views(args@) =~= seq![ArgView::Text(content@), ArgView::MaybeText(cli::opt_string_view(resolved))]);
            (
                Stage::Created { links: LinkPlan::FromEach { ids: other_projects, edge: "has_todo" } },
                call_exec("create_todo", args),
            )
        },
        Pending::TaskCreate { module_ids, name, description, user_story_ids, epic_ids } => {
            let project_ids: Vec<String> = match resolved {
                Some(p) => vec![p],
                None => Vec::new(),
            };
            assert(strings_view(project_ids@) =~= resolved_ids(cli::opt_string_view(resolved)));
            match task_parents(&module_ids, &project_ids) {
                None => fail_exec(CliError::TaskParents { modules: module_ids.len(), projects: project_ids.len() }),
                Some((mid, pid)) => {
                    let args = vec![
                        Arg::Text(name),
                        Arg::Text(description),
                        Arg::MaybeText(mid),
                        Arg::MaybeText(Some(pid)),
                    ];
                    proof {
                        let x = task_parents_spec(strings_view(module_ids@), strings_view(project_ids@))->0;
                        assert(arg_views(args@) =~= seq![
                            ArgView::Text(name@),
                            ArgView::Text(description@),
                            ArgView::MaybeText(x.0),
                            ArgView::MaybeText(Some(x.1)),
                        ]);
                    }
                    (Stage::Created { links: LinkPlan::TaskLinks { user_story_ids, epic_ids } }, call_exec("create_task", args))
                },
            }
        },
        Pending::FreeTaskCreate { module_ids, name, description, user_story_ids, epic_ids } => {
            let project_ids: Vec<String> = match resolved {
                Some(p) => vec![p],
                None => Vec::new(),
            };
            assert(strings_view(project_ids@) =~= resolved_ids(cli::opt_string_view(resolved)));
            let ghost mv = strings_view(module_ids@);
            let ghost pv = strings_view(project_ids@);
            if module_ids.len() == 0 && project_ids.len() == 0 {
                let args = vec![Arg::Text(name), Arg::Text(description), Arg::MaybeText(None), Arg::MaybeText(None)];
                assert(arg_views(args@) =~= seq![
                    ArgView::Text(name@),
                    ArgView::Text(description@),
                    ArgView::MaybeText(None),
                    ArgView::MaybeText(None),
                ]);
                (Stage::Created { links: LinkPlan::TaskLinks { user_story_ids, epic_ids } }, call_exec("create_task", args))
            } else if module_ids.len() == 1 && project_ids.len() == 1 {
                let m = module_ids[0].clone();
                let p = project_ids[0].clone();
                let args = vec![Arg::Text(name), Arg::Text(description), Arg::MaybeText(Some(m)), Arg::MaybeText(Some(p))];
                assert(arg_views(args@) =~= seq![
                    ArgView::Text(name@),
                    ArgView::Text(description@),
                    ArgView::MaybeText(Some(mv[0])),
                    ArgView::MaybeText(Some(pv[0])),
                ]);
                (Stage::Created { links: LinkPlan::TaskLinks { user_story_ids, epic_ids } }, call_exec("create_task", args))
            } else {
                fail_exec(CliError::FreeTaskParents { modules: module_ids.len(), projects: project_ids.len() })
            }
        },
    }
}

pub(crate) fn resolve(id: Option<String>, name: Option<String>, ignore_case: bool, next: Pending) -> (r: (Stage, Action))
    ensures
        (r.0@, r.1@) == resolve_spec(cli::opt_string_view(id), cli::opt_string_view(name), ignore_case, next@),
{
    match id {
        Some(i) => after_resolve(next, Some(i)),
        None => match name {
            Some(n) => {
                let args = vec![Arg::Text(n.clone()), Arg::Flag(ignore_case)];
                assert(arg_views(args@) =~= seq![ArgView::Text(n@), ArgView::Flag(ignore_case)]);
                (Stage::Lookup { name: n, next }, call_exec("get_project_by_name", args))
            },
            None => after_resolve(next, None),
        },
    }
}

/// Goes on with a run after the store answered its last operation.
pub fn step(stage: Stage, reply: Reply) -> (r: (Stage, Action))
    ensures
        (r.0@, r.1@) == step_spec(stage@, reply@),
{
    match (stage, reply) {
        (Stage::Lookup { name, next }, Reply::Found(None)) => fail_exec(CliError::ProjectNotFound { name }),
        (Stage::Lookup { name, next }, Reply::Found(Some(p))) => {
            let id = match &p {
                Json::Object(m) => {
                    proof {
                        lemma_object_view(*m);
                    }
                    member_text_of(m, "id")
                },
                _ => None,
            };
            after_resolve(next, id)
        },
        (Stage::Lookup { name, next }, Reply::Failed(m)) => fail_exec(CliError::LookupFailed { message: m }),
        (Stage::GeneralLookup { name }, Reply::Found(None)) => fail_exec(CliError::ProjectNotFound { name }),
        (Stage::GeneralLookup { name }, Reply::Found(Some(p))) => {
            let id = match &p {
                Json::Object(m) => {
                    proof {
                        lemma_object_view(*m);
                    }
                    member_text_of(m, "id")
                },
                _ => None,
            };
            match id {
                None => fail_exec(CliError::ProjectWithoutId),
                Some(id) => {
                    let args = vec![Arg::Text(id)];
                    assert(arg_views(args@) =~= seq![ArgView::Text(id@)]);
                    (Stage::Wrap, call_exec("project_structure", args))
                },
            }
        },
        (Stage::Created { links }, Reply::Value(rec)) => created_exec(links, rec),
        (Stage::Calls { rest, output }, Reply::Done) => run_calls_exec(rest, output),
        (Stage::Calls { rest, output }, Reply::Value(_)) => run_calls_exec(rest, output),
        (Stage::PrintReply, Reply::Value(v)) => (Stage::Finished, Action::Print(v)),
        (Stage::PrintReply, Reply::Found(Some(v))) => (Stage::Finished, Action::Print(v)),
        (Stage::PrintReply, Reply::Found(None)) => (Stage::Finished, Action::Print(Json::Null)),
        (Stage::Wrap, Reply::Value(v)) => (Stage::Finished, Action::Print(results_json(v))),
        (Stage::MustExist { kind, id }, Reply::Found(Some(v))) => (Stage::Finished, Action::Print(v)),
        (Stage::MustExist { kind, id }, Reply::Found(None)) => fail_exec(CliError::NotFound { kind, id }),
        (Stage::DeleteOne { kind, id }, Reply::Flag(true)) => (Stage::Finished, Action::Print(deleted_json(id))),
        (Stage::DeleteOne { kind, id }, Reply::Flag(false)) => fail_exec(CliError::NotFound { kind, id }),
        (Stage::Deleting { method, current, rest, deleted, not_found }, Reply::Flag(b)) => {
            let mut deleted = deleted;
            let mut not_found = not_found;
            let ghost dv = strings_view(deleted@);
            let ghost nv = strings_view(not_found@);
            if b {
                deleted.push(current);
                assert(strings_view(deleted@) =~= dv.push(current@));
            } else {
                not_found.push(current);
                assert(strings_view(not_found@) =~= nv.push(current@));
            }
            deleting_exec(method, rest, deleted, not_found)
        },
        (Stage::Finished, _) => fail_exec(CliError::Unexpected),
        (_, Reply::Failed(m)) => fail_exec(CliError::Store { message: m }),
        _ => fail_exec(CliError::Unexpected),
    }
}

// ---------------------------------------------------------------------------
// Starting a run
// ---------------------------------------------------------------------------

/// The first of some ids, if any.
pub open spec fn first_id(s: Seq<Seq<char>>) -> Option<Seq<char>> {
    if s.len() > 0 {
        Some(s[0])
    } else {
        None
    }
}

/// All ids but the first.
pub open spec fn other_ids(s: Seq<Seq<char>>) -> Seq<Seq<char>> {
    if s.len() > 0 {
        s.drop_first()
    } else {
        Seq::empty()
    }
}

/// The first edge that `link` may not create, if any.
pub open spec fn first_unknown_edge(edges: Seq<Seq<char>>) -> Option<Seq<char>>
    decreases edges.len(),
{
    if edges.len() == 0 {
        None
    } else if !allowed_edges_spec().contains(edges[0]) {
        Some(edges[0])
    } else {
        first_unknown_edge(edges.drop_first())
    }
}

/// How `link` runs: every edge must be known and a target given; then one
/// source and one edge to every target, or as many sources and edges as
/// targets, taken in threes.
pub open spec fn link_spec(from: Seq<Seq<char>>, edge: Seq<Seq<char>>, to: Seq<Seq<char>>) -> (StageView, ActionView) {
    match first_unknown_edge(edge) {
        Some(e) => fail(CliErrorView::UnknownEdge(e)),
        None => if to.len() == 0 {
            fail(CliErrorView::NoTargets)
        } else if from.len() == 1 && edge.len() == 1 {
            run_calls(Seq::new(to.len(), |i: int| link_call(from[0], edge[0], to[i])), ok_doc())
        } else if from.len() == edge.len() && edge.len() == to.len() {
            run_calls(Seq::new(to.len(), |i: int| link_call(from[i], edge[i], to[i])), ok_doc())
        } else {
            fail(CliErrorView::LinkCounts(from.len(), edge.len(), to.len()))
        },
    }
}

/// A status argument: the name of the status, where one is given.
pub open spec fn status_arg(status: Option<String>, item: bool) -> Option<Option<Seq<char>>> {
    match status {
        None => Some(None),
        Some(v) => if item {
            match item_status_of(v@) {
                Some(st) => Some(Some(item_status_name(st))),
                None => None,
            }
        } else {
            match status_of(v@) {
                Some(st) => Some(Some(status_name(st))),
                None => None,
            }
        },
    }
}

/// The text of an optional string.
pub open spec fn ov(o: Option<String>) -> Option<Seq<char>> {
    cli::opt_string_view(o)
}

/// Delete each of some ids with `method`, and report.
pub open spec fn delete_all(method: Seq<char>, ids: Vec<String>) -> (StageView, ActionView) {
    deleting_spec(method, strings_view(ids@), Seq::empty(), Seq::empty())
}

/// An operation whose answer is printed.
pub open spec fn print_call(method: Seq<char>, args: Seq<ArgView>) -> (StageView, ActionView) {
    (StageView::PrintReply, call(method, args))
}

/// How each command starts.
pub open spec fn start_spec(cmd: Commands, ic: bool) -> (StageView, ActionView) {
    match cmd {
        Commands::Add { field_names, field_values, link_to } => if field_names@.len() != field_values@.len() {
            fail(CliErrorView::FieldCount(field_names@.len(), field_values@.len()))
        } else {
            (
                StageView::Calls(Seq::empty(), ok_doc()),
                call(
                    "add_knowledge"@,
                    seq![
                        ArgView::Fields(
                            Seq::new(
                                field_names@.len(),
                                |i: int| (field_names@[i]@, field_values@[i]@),
                            ),
                        ),
                        ArgView::Texts(strings_view(link_to@)),
                    ],
                ),
            )
        },
        Commands::Project { command } => match command {
            ProjectCommands::Create { name, description } => print_call(
                "create_project"@,
                seq![ArgView::Text(name@), ArgView::Text(description@)],
            ),
            ProjectCommands::List => print_call("list_projects"@, Seq::empty()),
            ProjectCommands::Delete { project_ids } => delete_all("delete_project"@, project_ids),
        },
        Commands::Module { command } => match command {
            ModuleCommands::Create { project_ids, project, parent_module_id, name, description, notes } => resolve_spec(
                first_id(strings_view(project_ids@)),
                ov(project),
                ic,
                PendingView::Create(
                    Requirement::ProjectIds,
                    "create_module"@,
                    seq![ArgView::Text(name@), ArgView::Text(description@), ArgView::MaybeText(ov(notes))],
                    seq![ArgView::MaybeText(ov(parent_module_id))],
                    LinkPlanView::FromEach(other_ids(strings_view(project_ids@)), "contains"@),
                ),
            ),
            ModuleCommands::List { project_id, project, module_id } => match module_id {
                Some(mid) => print_call("list_modules_by_module"@, seq![ArgView::Text(mid@)]),
                None => resolve_spec(
                    ov(project_id),
                    ov(project),
                    ic,
                    PendingView::ListBy("list_modules_by_project"@, "list_modules"@),
                ),
            },
            ModuleCommands::Delete { module_ids } => delete_all("delete_module"@, module_ids),
        },
        Commands::File { command } => match command {
            FileCommands::Create { project_ids, project, parent_ids, name, path, description, notes } => resolve_spec(
                first_id(strings_view(project_ids@)),
                ov(project),
                ic,
                PendingView::Create(
                    Requirement::ProjectIds,
                    "create_file"@,
                    seq![
                        ArgView::Text(name@),
                        ArgView::Text(path@),
                        ArgView::MaybeText(ov(description)),
                        ArgView::MaybeText(ov(notes)),
                    ],
                    seq![ArgView::MaybeText(first_id(strings_view(parent_ids@)))],
                    LinkPlanView::FromEach(other_ids(strings_view(parent_ids@)), "contains"@),
                ),
            ),
            FileCommands::List { project_id, project, module_id } => match module_id {
                Some(mid) => print_call("list_files_by_module"@, seq![ArgView::Text(mid@)]),
                None => resolve_spec(
                    ov(project_id),
                    ov(project),
                    ic,
                    PendingView::ListBy("list_files_by_project"@, "list_files"@),
                ),
            },
            FileCommands::Delete { file_ids } => delete_all("delete_file"@, file_ids),
        },
        Commands::Task { command } => match command {
            TaskCommands::Create { module_ids, project_id, project, user_story_ids, epic_ids, name, description } => resolve_spec(
                ov(project_id),
                ov(project),
                ic,
                PendingView::TaskCreate(
                    strings_view(module_ids@),
                    name@,
                    description@,
                    strings_view(user_story_ids@),
                    strings_view(epic_ids@),
                ),
            ),
            TaskCommands::Update { task_id, name, description, status } => match status_arg(status, true) {
                None => fail(CliErrorView::InvalidStatus(status->0@)),
                Some(st) => (
                    StageView::MustExist("Task"@, task_id@),
                    call(
                        "update_task"@,
                        seq![
                            ArgView::Text(task_id@),
                            ArgView::MaybeText(ov(name)),
                            ArgView::MaybeText(ov(description)),
                            ArgView::MaybeText(st),
                        ],
                    ),
                ),
            },
            TaskCommands::Delete { task_ids } => delete_all("delete_task"@, task_ids),
            TaskCommands::List { project_id, project } => resolve_spec(
                ov(project_id),
                ov(project),
                ic,
                PendingView::ListBy("list_tasks_by_project"@, "list_tasks"@),
            ),
            TaskCommands::Get { id } => (StageView::MustExist("Task"@, id@), call("get_task"@, seq![ArgView::Text(id@)])),
        },
        Commands::UserStory { command } => match command {
            UserStoryCommands::Create { project_id, project, epic_ids, title, description } => resolve_spec(
                ov(project_id),
                ov(project),
                ic,
                PendingView::Create(
                    Requirement::ProjectId,
                    "create_user_story"@,
                    seq![ArgView::Text(title@), ArgView::Text(description@)],
                    Seq::empty(),
                    LinkPlanView::StoryEpics(strings_view(epic_ids@)),
                ),
            ),
            UserStoryCommands::List { project_id, project, epic_id } => resolve_spec(
                ov(project_id),
                ov(project),
                ic,
                PendingView::StoriesList(ov(epic_id)),
            ),
            UserStoryCommands::Delete { user_story_ids } => delete_all("delete_user_story"@, user_story_ids),
            UserStoryCommands::Get { id } => (
                StageView::MustExist("User story"@, id@),
                call("get_user_story"@, seq![ArgView::Text(id@)]),
            ),
        },
        Commands::Epic { command } => match command {
            EpicCommands::Create { project_id, project, title, description } => resolve_spec(
                ov(project_id),
                ov(project),
                ic,
                PendingView::Create(
                    Requirement::ProjectId,
                    "create_epic"@,
                    seq![ArgView::Text(title@), ArgView::Text(description@)],
                    Seq::empty(),
                    LinkPlanView::Nothing,
                ),
            ),
            EpicCommands::List { project_id, project } => resolve_spec(
                ov(project_id),
                ov(project),
                ic,
                PendingView::ListBy("list_epics_by_project"@, "list_epics"@),
            ),
            EpicCommands::Delete { epic_ids } => delete_all("delete_epic"@, epic_ids),
        },
        Commands::Persona { command } => match command {
            PersonaCommands::Create { project_ids, project, name, content } => resolve_spec(
                first_id(strings_view(project_ids@)),
                ov(project),
                ic,
                PendingView::Create(
                    Requirement::ProjectIds,
                    "create_persona"@,
                    seq![ArgView::Text(name@), ArgView::Text(content@)],
                    Seq::empty(),
                    LinkPlanView::Nothing,
                ),
            ),
            PersonaCommands::List { project_id, project } => resolve_spec(
                ov(project_id),
                ov(project),
                ic,
                PendingView::ListBy("list_personas_by_project"@, "list_personas"@),
            ),
            PersonaCommands::Delete { persona_ids } => delete_all("delete_persona"@, persona_ids),
        },
        Commands::Workflow { command } => match command {
            WorkflowCommands::Create { project_ids, project, name, content } => resolve_spec(
                first_id(strings_view(project_ids@)),
                ov(project),
                ic,
                PendingView::Create(
                    Requirement::ProjectIds,
                    "create_workflow"@,
                    seq![ArgView::Text(name@), ArgView::Text(content@)],
                    Seq::empty(),
                    LinkPlanView::Nothing,
                ),
            ),
            WorkflowCommands::List { project_id, project } => resolve_spec(
                ov(project_id),
                ov(project),
                ic,
                PendingView::ListBy("list_workflows_by_project"@, "list_workflows"@),
            ),
            WorkflowCommands::Delete { workflow_ids } => delete_all("delete_workflow"@, workflow_ids),
        },
        Commands::Todo { command } => match command {
            TodoCommands::Create { project_ids, project, content } => resolve_spec(
                first_id(strings_view(project_ids@)),
                ov(project),
                ic,
                PendingView::TodoCreate(content@, other_ids(strings_view(project_ids@))),
            ),
            TodoCommands::List { project_id, project } => resolve_spec(
                ov(project_id),
                ov(project),
                ic,
                PendingView::TodoList,
            ),
            TodoCommands::Update { todo_id, content, status } => match status_arg(status, true) {
                None => fail(CliErrorView::InvalidStatus(status->0@)),
                Some(st) => print_call(
                    "update_todo"@,
                    seq![ArgView::Text(todo_id@), ArgView::MaybeText(ov(content)), ArgView::MaybeText(st)],
                ),
            },
            TodoCommands::Delete { todo_ids } => delete_all("delete_todo"@, todo_ids),
            TodoCommands::Get { id } => (StageView::MustExist("Todo"@, id@), call("get_todo"@, seq![ArgView::Text(id@)])),
        },
        Commands::Issue { command } => match command {
            IssueCommands::Create { task_id, project_id, plan, verification, description } => print_call(
                "create_issue"@,
                seq![
                    ArgView::Text(description@),
                    ArgView::MaybeText(ov(task_id)),
                    ArgView::MaybeText(ov(plan)),
                    ArgView::Text(project_id@),
                    ArgView::MaybeText(ov(verification)),
                ],
            ),
            IssueCommands::Update { issue_id, description, plan, verification, status } => match status_arg(
                status,
                true,
            ) {
                None => fail(CliErrorView::InvalidStatus(status->0@)),
                Some(st) => print_call(
                    "update_issue"@,
                    seq![
                        ArgView::Text(issue_id@),
                        ArgView::MaybeText(ov(description)),
                        ArgView::MaybeText(st),
                        ArgView::MaybeText(ov(plan)),
                        ArgView::MaybeText(ov(verification)),
                    ],
                ),
            },
            IssueCommands::List { project_id, task_id } => match task_id {
                Some(tid) => print_call("list_issues_by_task"@, seq![ArgView::Text(tid@)]),
                None => print_call("list_issues_by_project"@, seq![ArgView::Text(project_id@)]),
            },
            IssueCommands::Remove { issue_ids } => delete_all("delete_issue"@, issue_ids),
            IssueCommands::Get { id } => (StageView::MustExist("Issue"@, id@), call("get_issue"@, seq![ArgView::Text(id@)])),
        },
        Commands::Config { command } => (StageView::Finished, ActionView::ShowConfig),
        Commands::Context { task_id, file_id, epic_id, full, general, project } => if general {
            match project {
                None => fail(CliErrorView::GeneralNeedsProject),
                Some(p) => if text::contains_seq(p@, seq![':']) {
                    (StageView::Wrap, call("project_structure"@, seq![ArgView::Text(p@)]))
                } else {
                    (
                        StageView::GeneralLookup(p@),
                        call("get_project_by_name"@, seq![ArgView::Text(p@), ArgView::Flag(true)]),
                    )
                },
            }
        } else {
            match task_id {
                Some(t) => (StageView::Wrap, call("task_context"@, seq![ArgView::Text(t@), ArgView::Flag(full)])),
                None => match file_id {
                    Some(f) => (StageView::Wrap, call("file_context"@, seq![ArgView::Text(f@), ArgView::Flag(full)])),
                    None => match epic_id {
                        Some(e) => (
                            StageView::Wrap,
                            call("epic_context"@, seq![ArgView::Text(e@), ArgView::Flag(full)]),
                        ),
                        None => fail(CliErrorView::NoContextTarget),
                    },
                },
            }
        },
        Commands::Link { from_id, edge, to_id } => link_spec(
            strings_view(from_id@),
            strings_view(edge@),
            strings_view(to_id@),
        ),
        Commands::Rm { context_ids } => delete_all("delete_context"@, context_ids),
        Commands::Purge => (StageView::Calls(Seq::empty(), purge_doc()), call("purge_database"@, Seq::empty())),
    }
}

pub(crate) fn first_exec(v: &Vec<String>) -> (r: Option<String>)
    ensures
        cli::opt_string_view(r) == first_id(strings_view(v@)),
{
    if v.len() > 0 {
        Some(v[0].clone())
    } else {
        None
    }
}

pub(crate) fn others_exec(v: Vec<String>) -> (r: Vec<String>)
    ensures
        strings_view(r@) == other_ids(strings_view(v@)),
{
    let mut v = v;
    if v.len() > 0 {
        let ghost sv = strings_view(v@);
        let _ = v.remove(0);
        assert(strings_view(v@) =~= sv.drop_first());
        v
    } else {
        assert(strings_view(v@) =~= Seq::<Seq<char>>::empty());
        v
    }
}

pub(crate) fn status_exec(status: &Option<String>, item: bool) -> (r: Option<Option<String>>)
    ensures
        match status_arg(*status, item) {
            None => r is None,
            Some(o) => r matches Some(x) && cli::opt_string_view(x) == o,
        },
{
    match status {
        None => Some(None),
        Some(v) => if item {
            match ItemStatus::parse(v.as_str()) {
                Some(st) => Some(Some(owned(st.as_str()))),
                None => None,
            }
        } else {
            match TaskStatus::parse(v.as_str()) {
                Some(st) => Some(Some(owned(st.as_str()))),
                None => None,
            }
        },
    }
}

fn edge_allowed(edge: &str) -> (r: bool)
    ensures
        r == allowed_edges_spec().contains(edge@),
{
    let edges = allowed_edges();
    let ghost t = allowed_edges_spec();
    let mut i: usize = 0;
    assert(edges@.len() == t.len()) by {
        assert(edges@.map_values(|s: &'static str| s@).len() == edges@.len());
    }
    while i < edges.len()
        invariant
            i <= edges@.len(),
            t == allowed_edges_spec(),
            edges@.len() == t.len(),
            edges@.map_values(|s: &'static str| s@) == t,
            forall|j: int| 0 <= j < i ==> t[j] != edge@,
        decreases edges@.len() - i,
    {
        assert(t[i as int] == edges@[i as int]@);
        if str_eq(edges[i], edge) {
            assert(t[i as int] == edge@);
            return true;
        }
        i = i + 1;
    }
    false
}

fn first_unknown(edges: &Vec<String>) -> (r: Option<String>)
    ensures
        cli::opt_string_view(r) == first_unknown_edge(strings_view(edges@)),
{
    let ghost ev = strings_view(edges@);
    let mut i: usize = 0;
    assert(ev.skip(0) =~= ev);
    while i < edges.len()
        invariant
            i <= edges@.len(),
            ev == strings_view(edges@),
            first_unknown_edge(ev) == first_unknown_edge(ev.skip(i as int)),
        decreases edges@.len() - i,
    {
        assert(ev.skip(i as int)[0] == ev[i as int]);
        assert(ev.skip(i as int).drop_first() =~= ev.skip(i + 1));
        if !edge_allowed(edges[i].as_str()) {
            return Some(edges[i].clone());
        }
        i = i + 1;
    }
    assert(ev.skip(i as int) =~= Seq::<Seq<char>>::empty());
    None
}

fn link_exec(from: Vec<String>, edge: Vec<String>, to: Vec<String>) -> (r: (Stage, Action))
    ensures
        (r.0@, r.1@) == link_spec(strings_view(from@), strings_view(edge@), strings_view(to@)),
{
    if let Some(e) = first_unknown(&edge) {
        return fail_exec(CliError::UnknownEdge { edge: e });
    }
    if to.len() == 0 {
        return fail_exec(CliError::NoTargets);
    }
    let ghost fv = strings_view(from@);
    let ghost ev = strings_view(edge@);
    let ghost tv = strings_view(to@);
    let single = from.len() == 1 && edge.len() == 1;
    if !single && !(from.len() == edge.len() && edge.len() == to.len()) {
        return fail_exec(CliError::LinkCounts { from: from.len(), edge: edge.len(), to: to.len() });
    }
    let mut calls: Vec<DbCall> = Vec::new();
    let mut i: usize = 0;
    while i < to.len()
        invariant
            i <= to@.len(),
            fv == strings_view(from@),
            ev == strings_view(edge@),
            tv == strings_view(to@),
            single == (from@.len() == 1 && edge@.len() == 1),
            single || (from@.len() == edge@.len() && edge@.len() == to@.len()),
            calls_view(calls@) =~= Seq::new(
                i as nat,
                |j: int|
                    if single {
                        link_call(fv[0], ev[0], tv[j])
                    } else {
                        link_call(fv[j], ev[j], tv[j])
                    },
            ),
        decreases to@.len() - i,
    {
        let c = if single {
            link_call_exec(from[0].clone(), edge[0].clone(), to[i].clone())
        } else {
            link_call_exec(from[i].clone(), edge[i].clone(), to[i].clone())
        };
        let ghost before = calls@;
        calls.push(c);
        assert(calls_view(calls@) =~= calls_view(before).push(c@));
        i = i + 1;
    }
    proof {
        if single {
            assert(calls_view(calls@) =~= Seq::new(tv.len(), |j: int| link_call(fv[0], ev[0], tv[j])));
        } else {
            assert(calls_view(calls@) =~= Seq::new(tv.len(), |j: int| link_call(fv[j], ev[j], tv[j])));
        }
    }
    run_calls_exec(calls, ok_json())
}

pub(crate) fn add_exec(field_names: Vec<String>, field_values: Vec<String>, link_to: Vec<String>, ic: bool) -> (r: (Stage, Action))
    ensures
        (r.0@, r.1@) == start_spec(Commands::Add { field_names, field_values, link_to }, ic),
{
    if field_names.len() != field_values.len() {
        return fail_exec(CliError::FieldCount { names: field_names.len(), values: field_values.len() });
    }
    let ghost nv = field_names@;
    let ghost vv = field_values@;
    let mut pairs: Vec<(String, String)> = Vec::new();
    let mut i: usize = 0;
    while i < field_names.len()
        invariant
            i <= field_names@.len(),
            field_names@.len() == field_values@.len(),
            nv == field_names@,
            vv == field_values@,
            pairs_view(pairs@) =~= Seq::new(i as nat, |j: int| (nv[j]@, vv[j]@)),
        decreases field_names@.len() - i,
    {
        let ghost before = pairs@;
        pairs.push((field_names[i].clone(), field_values[i].clone()));
        assert(pairs_view(pairs@) =~= pairs_view(before).push((nv[i as int]@, vv[i as int]@)));
        i = i + 1;
    }
    let ghost lv = strings_view(link_to@);
    let ghost expected = Seq::new(field_names@.len(), |j: int| (field_names@[j]@, field_values@[j]@));
    assert(pairs_view(pairs@) =~= expected);
    let args = vec![Arg::Fields(pairs), Arg::Texts(link_to)];
    assert(arg_views(args@) =~~= seq![ArgView::Fields(expected), ArgView::Texts(lv)]);
    let rest: Vec<DbCall> = Vec::new();
    assert(calls_view(rest@) =~= Seq::<CallView>::empty());
    (Stage::Calls { rest, output: ok_json() }, call_exec("add_knowledge", args))
}

pub(crate) fn print_call_exec(method: &'static str, args: Vec<Arg>) -> (r: (Stage, Action))
    ensures
        (r.0@, r.1@) == print_call(method@, arg_views(args@)),
{
    (Stage::PrintReply, call_exec(method, args))
}

pub(crate) fn must_exist_exec(kind: &'static str, method: &'static str, id: String) -> (r: (Stage, Action))
    ensures
        (r.0@, r.1@) == (StageView::MustExist(kind@, id@), call(method@, seq![ArgView::Text(id@)])),
{
    let args = vec![Arg::Text(id.clone())];
    assert(arg_views(args@) =~= seq![ArgView::Text(id@)]);
    (Stage::MustExist { kind, id }, call_exec(method, args))
}

fn delete_all_exec(method: &'static str, ids: Vec<String>) -> (r: (Stage, Action))
    ensures
        (r.0@, r.1@) == delete_all(method@, ids),
{
    let d: Vec<String> = Vec::new();
    let n: Vec<String> = Vec::new();
    assert(strings_view(d@) =~= Seq::<Seq<char>>::empty());
    assert(strings_view(n@) =~= Seq::<Seq<char>>::empty());
    deleting_exec(method, ids, d, n)
}

pub(crate) fn one_arg(id: String) -> (r: Vec<Arg>)
    ensures
        arg_views(r@) == seq![ArgView::Text(id@)],
{
    let r = vec![Arg::Text(id)];
    assert(arg_views(r@) =~= seq![ArgView::Text(id@)]);
    r
}

fn context_exec(
    task_id: Option<String>,
    file_id: Option<String>,
    epic_id: Option<String>,
    full: bool,
    general: bool,
    project: Option<String>,
    ic: bool,
) -> (r: (Stage, Action))
    ensures
        (r.0@, r.1@) == start_spec(Commands::Context { task_id, file_id, epic_id, full, general, project }, ic),
{
    if general {
        match project {
            None => fail_exec(CliError::GeneralNeedsProject),
            Some(p) => {
                proof {
                    reveal_strlit(":");
                    assert(":"@ =~= seq![':']);
                }
                if text::contains(p.as_str(), ":") {
                    (Stage::Wrap, call_exec("project_structure", one_arg(p)))
                } else {
                    let args = vec![Arg::Text(p.clone()), Arg::Flag(true)];
                    assert(arg_views(args@) =~= seq![ArgView::Text(p@), ArgView::Flag(true)]);
                    (Stage::GeneralLookup { name: p }, call_exec("get_project_by_name", args))
                }
            },
        }
    } else {
        let (method, id) = match task_id {
            Some(t) => ("task_context", t),
            None => match file_id {
                Some(f) => ("file_context", f),
                None => match epic_id {
                    Some(e) => ("epic_context", e),
                    None => {
                        return fail_exec(CliError::NoContextTarget);
                    },
                },
            },
        };
        let args = vec![Arg::Text(id), Arg::Flag(full)];
        assert(arg_views(args@) =~= seq![ArgView::Text(id@), ArgView::Flag(full)]);
        (Stage::Wrap, call_exec(method, args))
    }
}

/// Starts running a command: the first step, and what the run then waits for.
pub fn start(cmd: Commands, ignore_case: bool) -> (r: (Stage, Action))
    ensures
        (r.0@, r.1@) == start_spec(cmd, ignore_case),
{
    match cmd {
        Commands::Add { field_names, field_values, link_to } => add_exec(field_names, field_values, link_to, ignore_case),
        Commands::Project { command } => match command {
            ProjectCommands::Create { name, description } => {
                let args = vec![Arg::Text(name), Arg::Text(description)];
                assert(arg_views(args@) =~= seq![ArgView::Text(name@), ArgView::Text(description@)]);
                print_call_exec("create_project", args)
            },
            ProjectCommands::List => {
                let args: Vec<Arg> = Vec::new();
                assert(arg_views(args@) =~= Seq::<ArgView>::empty());
                print_call_exec("list_projects", args)
            },
            ProjectCommands::Delete { project_ids } => delete_all_exec("delete_project", project_ids),
        },
        Commands::Module { command } => match command {
            ModuleCommands::Create { project_ids, project, parent_module_id, name, description, notes } => {
                let first = first_exec(&project_ids);
                let before = vec![Arg::Text(name), Arg::Text(description), Arg::MaybeText(notes)];
                let after = vec![Arg::MaybeText(parent_module_id)];
                assert(arg_views(before@) =~= seq![
                    ArgView::Text(name@),
                    ArgView::Text(description@),
                    ArgView::MaybeText(ov(notes)),
                ]);
                assert(arg_views(after@) =~= seq![ArgView::MaybeText(ov(parent_module_id))]);
                let links = LinkPlan::FromEach { ids: others_exec(project_ids), edge: "contains" };
                resolve(
                    first,
                    project,
                    ignore_case,
                    Pending::Create { require: Requirement::ProjectIds, method: "create_module", before, after, links },
                )
            },
            ModuleCommands::List { project_id, project, module_id } => match module_id {
                Some(mid) => print_call_exec("list_modules_by_module", one_arg(mid)),
                None => resolve(
                    project_id,
                    project,
                    ignore_case,
                    Pending::ListBy { by_project: "list_modules_by_project", all: "list_modules" },
                ),
            },
            ModuleCommands::Delete { module_ids } => delete_all_exec("delete_module", module_ids),
        },
        Commands::File { command } => match command {
            FileCommands::Create { project_ids, project, parent_ids, name, path, description, notes } => {
                let first = first_exec(&project_ids);
                let first_parent = first_exec(&parent_ids);
                let before = vec![Arg::Text(name), Arg::Text(path), Arg::MaybeText(description), Arg::MaybeText(notes)];
                let after = vec![Arg::MaybeText(first_parent)];
                assert(arg_views(before@) =~= seq![
                    ArgView::Text(name@),
                    ArgView::Text(path@),
                    ArgView::MaybeText(ov(description)),
                    ArgView::MaybeText(ov(notes)),
                ]);
                assert(arg_views(after@) =~= seq![ArgView::MaybeText(first_id(strings_view(parent_ids@)))]);
                let links = LinkPlan::FromEach { ids: others_exec(parent_ids), edge: "contains" };
                resolve(
                    first,
                    project,
                    ignore_case,
                    Pending::Create { require: Requirement::ProjectIds, method: "create_file", before, after, links },
                )
            },
            FileCommands::List { project_id, project, module_id } => match module_id {
                Some(mid) => print_call_exec("list_files_by_module", one_arg(mid)),
                None => resolve(
                    project_id,
                    project,
                    ignore_case,
                    Pending::ListBy { by_project: "list_files_by_project", all: "list_files" },
                ),
            },
            FileCommands::Delete { file_ids } => delete_all_exec("delete_file", file_ids),
        },
        Commands::Task { command } => match command {
            TaskCommands::Create { module_ids, project_id, project, user_story_ids, epic_ids, name, description } => resolve(
                project_id,
                project,
                ignore_case,
                Pending::TaskCreate { module_ids, name, description, user_story_ids, epic_ids },
            ),
            TaskCommands::Update { task_id, name, description, status } => match status_exec(&status, true) {
                None => fail_exec(CliError::InvalidStatus { value: status.unwrap() }),
                Some(st) => {
                    let args = vec![
                        Arg::Text(task_id.clone()),
                        Arg::MaybeText(name),
                        Arg::MaybeText(description),
                        Arg::MaybeText(st),
                    ];
                    assert(arg_views(args@) =~= seq![
                        ArgView::Text(task_id@),
                        ArgView::MaybeText(ov(name)),
                        ArgView::MaybeText(ov(description)),
                        ArgView::MaybeText(status_arg(status, true)->0),
                    ]);
                    (Stage::MustExist { kind: "Task", id: task_id }, call_exec("update_task", args))
                },
            },
            TaskCommands::Delete { task_ids } => delete_all_exec("delete_task", task_ids),
            TaskCommands::List { project_id, project } => resolve(
                project_id,
                project,
                ignore_case,
                Pending::ListBy { by_project: "list_tasks_by_project", all: "list_tasks" },
            ),
            TaskCommands::Get { id } => must_exist_exec("Task", "get_task", id),
        },
        Commands::UserStory { command } => match command {
            UserStoryCommands::Create { project_id, project, epic_ids, title, description } => {
                let before = vec![Arg::Text(title), Arg::Text(description)];
                let after: Vec<Arg> = Vec::new();
                assert(arg_views(before@) =~= seq![ArgView::Text(title@), ArgView::Text(description@)]);
                assert(arg_views(after@) =~= Seq::<ArgView>::empty());
                resolve(
                    project_id,
                    project,
                    ignore_case,
                    Pending::Create {
                        require: Requirement::ProjectId,
                        method: "create_user_story",
                        before,
                        after,
                        links: LinkPlan::StoryEpics { epic_ids },
                    },
                )
            },
            UserStoryCommands::List { project_id, project, epic_id } => resolve(
                project_id,
                project,
                ignore_case,
                Pending::StoriesList { epic_id },
            ),
            UserStoryCommands::Delete { user_story_ids } => delete_all_exec("delete_user_story", user_story_ids),
            UserStoryCommands::Get { id } => must_exist_exec("User story", "get_user_story", id),
        },
        Commands::Epic { command } => match command {
            EpicCommands::Create { project_id, project, title, description } => {
                let before = vec![Arg::Text(title), Arg::Text(description)];
                let after: Vec<Arg> = Vec::new();
                assert(arg_views(before@) =~= seq![ArgView::Text(title@), ArgView::Text(description@)]);
                assert(arg_views(after@) =~= Seq::<ArgView>::empty());
                resolve(
                    project_id,
                    project,
                    ignore_case,
                    Pending::Create {
                        require: Requirement::ProjectId,
                        method: "create_epic",
                        before,
                        after,
                        links: LinkPlan::Nothing,
                    },
                )
            },
            EpicCommands::List { project_id, project } => resolve(
                project_id,
                project,
                ignore_case,
                Pending::ListBy { by_project: "list_epics_by_project", all: "list_epics" },
            ),
            EpicCommands::Delete { epic_ids } => delete_all_exec("delete_epic", epic_ids),
        },
        Commands::Persona { command } => match command {
            PersonaCommands::Create { project_ids, project, name, content } => {
                let first = first_exec(&project_ids);
                let before = vec![Arg::Text(name), Arg::Text(content)];
                let after: Vec<Arg> = Vec::new();
                assert(arg_views(before@) =~= seq![ArgView::Text(name@), ArgView::Text(content@)]);
                assert(arg_views(after@) =~= Seq::<ArgView>::empty());
                resolve(
                    first,
                    project,
                    ignore_case,
                    Pending::Create {
                        require: Requirement::ProjectIds,
                        method: "create_persona",
                        before,
                        after,
                        links: LinkPlan::Nothing,
                    },
                )
            },
            PersonaCommands::List { project_id, project } => resolve(
                project_id,
                project,
                ignore_case,
                Pending::ListBy { by_project: "list_personas_by_project", all: "list_personas" },
            ),
            PersonaCommands::Delete { persona_ids } => delete_all_exec("delete_persona", persona_ids),
        },
        Commands::Workflow { command } => match command {
            WorkflowCommands::Create { project_ids, project, name, content } => {
                let first = first_exec(&project_ids);
                let before = vec![Arg::Text(name), Arg::Text(content)];
                let after: Vec<Arg> = Vec::new();
                assert(arg_views(before@) =~= seq![ArgView::Text(name@), ArgView::Text(content@)]);
                assert(arg_views(after@) =~= Seq::<ArgView>::empty());
                resolve(
                    first,
                    project,
                    ignore_case,
                    Pending::Create {
                        require: Requirement::ProjectIds,
                        method: "create_workflow",
                        before,
                        after,
                        links: LinkPlan::Nothing,
                    },
                )
            },
            WorkflowCommands::List { project_id, project } => resolve(
                project_id,
                project,
                ignore_case,
                Pending::ListBy { by_project: "list_workflows_by_project", all: "list_workflows" },
            ),
            WorkflowCommands::Delete { workflow_ids } => delete_all_exec("delete_workflow", workflow_ids),
        },
        Commands::Todo { command } => match command {
            TodoCommands::Create { project_ids, project, content } => {
                let first = first_exec(&project_ids);
                resolve(
                    first,
                    project,
                    ignore_case,
                    Pending::TodoCreate { content, other_projects: others_exec(project_ids) },
                )
            },
            TodoCommands::List { project_id, project } => resolve(project_id, project, ignore_case, Pending::TodoList),
            TodoCommands::Update { todo_id, content, status } => match status_exec(&status, true) {
                None => fail_exec(CliError::InvalidStatus { value: status.unwrap() }),
                Some(st) => {
                    let args = vec![Arg::Text(todo_id), Arg::MaybeText(content), Arg::MaybeText(st)];
                    assert(arg_views(args@) =~= seq![
                        ArgView::Text(todo_id@),
                        ArgView::MaybeText(ov(content)),
                        ArgView::MaybeText(status_arg(status, true)->0),
                    ]);
                    print_call_exec("update_todo", args)
                },
            },
            TodoCommands::Delete { todo_ids } => delete_all_exec("delete_todo", todo_ids),
            TodoCommands::Get { id } => must_exist_exec("Todo", "get_todo", id),
        },
        Commands::Issue { command } => match command {
            IssueCommands::Create { task_id, project_id, plan, verification, description } => {
                let args = vec![
                    Arg::Text(description),
                    Arg::MaybeText(task_id),
                    Arg::MaybeText(plan),
                    Arg::Text(project_id),
                    Arg::MaybeText(verification),
                ];
                assert(arg_views(args@) =~= seq![
                    ArgView::Text(description@),
                    ArgView::MaybeText(ov(task_id)),
                    ArgView::MaybeText(ov(plan)),
                    ArgView::Text(project_id@),
                    ArgView::MaybeText(ov(verification)),
                ]);
                print_call_exec("create_issue", args)
            },
            IssueCommands::Update { issue_id, description, plan, verification, status } => match status_exec(
                &status,
                true,
            ) {
                None => fail_exec(CliError::InvalidStatus { value: status.unwrap() }),
                Some(st) => {
                    let args = vec![
                        Arg::Text(issue_id),
                        Arg::MaybeText(description),
                        Arg::MaybeText(st),
                        Arg::MaybeText(plan),
                        Arg::MaybeText(verification),
                    ];
                    assert(arg_views(args@) =~= seq![
                        ArgView::Text(issue_id@),
                        ArgView::MaybeText(ov(description)),
                        ArgView::MaybeText(status_arg(status, true)->0),
                        ArgView::MaybeText(ov(plan)),
                        ArgView::MaybeText(ov(verification)),
                    ]);
                    print_call_exec("update_issue", args)
                },
            },
            IssueCommands::List { project_id, task_id } => match task_id {
                Some(tid) => print_call_exec("list_issues_by_task", one_arg(tid)),
                None => print_call_exec("list_issues_by_project", one_arg(project_id)),
            },
            IssueCommands::Remove { issue_ids } => delete_all_exec("delete_issue", issue_ids),
            IssueCommands::Get { id } => must_exist_exec("Issue", "get_issue", id),
        },
        Commands::Config { command } => (Stage::Finished, Action::ShowConfig),
        Commands::Context { task_id, file_id, epic_id, full, general, project } => context_exec(
            task_id,
            file_id,
            epic_id,
            full,
            general,
            project,
            ignore_case,
        ),
        Commands::Link { from_id, edge, to_id } => link_exec(from_id, edge, to_id),
        Commands::Rm { context_ids } => delete_all_exec("delete_context", context_ids),
        Commands::Purge => {
            let args: Vec<Arg> = Vec::new();
            assert(arg_views(args@) =~= Seq::<ArgView>::empty());
            let rest: Vec<DbCall> = Vec::new();
            assert(calls_view(rest@) =~= Seq::<CallView>::empty());
            (Stage::Calls { rest, output: purge_json() }, call_exec("purge_database", args))
        },
    }
}

// ---------------------------------------------------------------------------
// Laws of a run
// ---------------------------------------------------------------------------

/// Where a run ends when the store gives the answers `replies` in turn: the
/// first action that is not an operation, or the operation that is left
/// without an answer.
pub open spec fn drive(s: StageView, a: ActionView, replies: Seq<ReplyView>) -> ActionView
    decreases replies.len(),
{
    match a {
        ActionView::Call(_) => if replies.len() == 0 {
            a
        } else {
            let (s2, a2) = step_spec(s, replies[0]);
            drive(s2, a2, replies.drop_first())
        },
        _ => a,
    }
}

/// The ids that the answers say were deleted.
pub open spec fn deleted_ids(ids: Seq<Seq<char>>, found: Seq<bool>) -> Seq<Seq<char>>
    decreases ids.len(),
{
    if ids.len() == 0 || found.len() == 0 {
        Seq::empty()
    } else {
        (if found[0] {
            seq![ids[0]]
        } else {
            Seq::empty()
        }) + deleted_ids(ids.drop_first(), found.drop_first())
    }
}

/// The ids that the answers say were not there.
pub open spec fn missing_ids(ids: Seq<Seq<char>>, found: Seq<bool>) -> Seq<Seq<char>>
    decreases ids.len(),
{
    if ids.len() == 0 || found.len() == 0 {
        Seq::empty()
    } else {
        (if found[0] {
            Seq::empty()
        } else {
            seq![ids[0]]
        }) + missing_ids(ids.drop_first(), found.drop_first())
    }
}

/// The answers of a deletion as replies.
pub open spec fn flag_replies(found: Seq<bool>) -> Seq<ReplyView> {
    Seq::new(found.len(), |i: int| ReplyView::Flag(found[i]))
}

proof fn lemma_deleting_run(
    method: Seq<char>,
    rest: Seq<Seq<char>>,
    deleted: Seq<Seq<char>>,
    not_found: Seq<Seq<char>>,
    found: Seq<bool>,
)
    requires
        found.len() == rest.len(),
    ensures
        drive(deleting_spec(method, rest, deleted, not_found).0, deleting_spec(method, rest, deleted, not_found).1, flag_replies(found))
            == ActionView::Print(report_doc(deleted + deleted_ids(rest, found), not_found + missing_ids(rest, found))),
    decreases rest.len(),
{
    if rest.len() == 0 {
        assert(deleted + deleted_ids(rest, found) =~= deleted);
        assert(not_found + missing_ids(rest, found) =~= not_found);
    } else {
        let d2 = if found[0] { deleted.push(rest[0]) } else { deleted };
        let n2 = if found[0] { not_found } else { not_found.push(rest[0]) };
        let st = StageView::Deleting(method, rest[0], rest.drop_first(), deleted, not_found);
        assert(flag_replies(found)[0] == ReplyView::Flag(found[0]));
        assert(flag_replies(found).drop_first() =~= flag_replies(found.drop_first()));
        assert(step_spec(st, ReplyView::Flag(found[0])) == deleting_spec(method, rest.drop_first(), d2, n2));
        lemma_deleting_run(method, rest.drop_first(), d2, n2, found.drop_first());
        assert(d2 + deleted_ids(rest.drop_first(), found.drop_first()) =~= deleted + deleted_ids(rest, found));
        assert(n2 + missing_ids(rest.drop_first(), found.drop_first()) =~= not_found + missing_ids(rest, found));
    }
}

/// Deleting records by id asks the store once per id, in order, and reports
/// every id once: among the deleted ones if the store had it, else among
/// those not found, each list in the order given.
pub proof fn lemma_deletion_report(method: Seq<char>, ids: Seq<Seq<char>>, found: Seq<bool>)
    requires
        found.len() == ids.len(),
    ensures
        drive(
            deleting_spec(method, ids, Seq::empty(), Seq::empty()).0,
            deleting_spec(method, ids, Seq::empty(), Seq::empty()).1,
            flag_replies(found),
        ) == ActionView::Print(report_doc(deleted_ids(ids, found), missing_ids(ids, found))),
{
    lemma_deleting_run(method, ids, Seq::empty(), Seq::empty(), found);
    assert(Seq::<Seq<char>>::empty() + deleted_ids(ids, found) =~= deleted_ids(ids, found));
    assert(Seq::<Seq<char>>::empty() + missing_ids(ids, found) =~= missing_ids(ids, found));
}

/// `n` answers that the operations are done.
pub open spec fn done_replies(n: nat) -> Seq<ReplyView> {
    Seq::new(n, |i: int| ReplyView::Done)
}

/// A run of operations makes them all, in order, and then prints its
/// document.
pub proof fn lemma_calls_then_print(calls: Seq<CallView>, output: JsonView)
    ensures
        drive(run_calls(calls, output).0, run_calls(calls, output).1, done_replies(calls.len())) == ActionView::Print(
            output,
        ),
    decreases calls.len(),
{
    if calls.len() > 0 {
        let rest = calls.drop_first();
        assert(done_replies(calls.len())[0] == ReplyView::Done);
        assert(done_replies(calls.len()).drop_first() =~= done_replies(rest.len()));
        lemma_calls_then_print(rest, output);
    }
}


/// Whether an argument is an optional text that is present.
pub open spec fn given(a: ArgView) -> bool {
    a matches ArgView::MaybeText(Some(_))
}

/// A task of the `dn` command line always belongs to a project: where the
/// command goes on to create it, the project is given.
pub proof fn lemma_tasks_have_a_project(
    modules: Seq<Seq<char>>,
    name: Seq<char>,
    description: Seq<char>,
    us: Seq<Seq<char>>,
    ep: Seq<Seq<char>>,
    resolved: Option<Seq<char>>,
)
    ensures
        after_resolve_spec(PendingView::TaskCreate(modules, name, description, us, ep), resolved).1 matches ActionView::Call(
            c,
        ) ==> c.method == "create_task"@ && c.args.len() == 4 && given(c.args[3]) && resolved is Some,
{
}

/// A task of the `dunno` command line is freestanding or linked: where the
/// command goes on to create it, a module is given exactly when a project is.
pub proof fn lemma_tasks_freestanding_or_linked(
    modules: Seq<Seq<char>>,
    name: Seq<char>,
    description: Seq<char>,
    us: Seq<Seq<char>>,
    ep: Seq<Seq<char>>,
    resolved: Option<Seq<char>>,
)
    ensures
        after_resolve_spec(PendingView::FreeTaskCreate(modules, name, description, us, ep), resolved).1 matches ActionView::Call(
            c,
        ) ==> c.method == "create_task"@ && c.args.len() == 4 && (given(c.args[2]) <==> given(c.args[3])),
{
}

} // verus!

//! Where a record sits in the structure of a codebase: the project, module,
//! submodule, task and subtask above it, found one query at a time.

use vstd::prelude::*;
use crate::cli;
use crate::graph::rec_members;
use crate::json::{Json, JsonView, member, member_text, lemma_array_view, lemma_object_view, member_text_of};
use crate::records::{debug_str, record_table, record_table_spec, str_debug};
use crate::text::{owned, str_eq};

verus! {

/// Why a hierarchy could not be resolved.
#[derive(Debug)]
pub enum HierarchyError {
    /// The task has no project.
    NoProject,
    /// The project query gave no project record.
    ProjectUnparsed,
    /// The project record has no id.
    ProjectWithoutId,
    /// The task has no module.
    NoModule,
    /// The module query gave no module record.
    ModuleUnparsed,
    /// The module record has no id.
    ModuleWithoutId,
    /// The submodule query gave nothing.
    SubmoduleQueryFailed,
    /// The submodule record has no id.
    SubmoduleWithoutId,
    /// The record is not a project, module, submodule, task or subtask; the
    /// table is given.
    NotStructural { table: String },
    /// An answer that does not fit the question asked.
    UnexpectedAnswer,
}

/// The text of a hierarchy error.
pub open spec fn hierarchy_message(e: HierarchyError) -> Seq<char> {
    match e {
        HierarchyError::NoProject => "No project linked to task"@,
        HierarchyError::ProjectUnparsed => "Failed to parse project from graph query"@,
        HierarchyError::ProjectWithoutId => "Project missing id"@,
        HierarchyError::NoModule => "No module linked to task"@,
        HierarchyError::ModuleUnparsed => "Failed to parse module from graph query"@,
        HierarchyError::ModuleWithoutId => "Module missing id"@,
        HierarchyError::SubmoduleQueryFailed => "Query failed"@,
        HierarchyError::SubmoduleWithoutId => "Submodule missing id"@,
        HierarchyError::NotStructural { table } => "resolve_structural_hierarchy: from_id must be project, module, submodule, task, or subtask; got "@
            + str_debug(table@),
        HierarchyError::UnexpectedAnswer => "Unexpected answer while resolving a hierarchy"@,
    }
}

impl HierarchyError {
    /// The text of the error.
    pub fn message(&self) -> (r: String)
        ensures
            r@ == hierarchy_message(*self),
    {
        match self {
            HierarchyError::NoProject => owned("No project linked to task"),
            HierarchyError::ProjectUnparsed => owned("Failed to parse project from graph query"),
            HierarchyError::ProjectWithoutId => owned("Project missing id"),
            HierarchyError::NoModule => owned("No module linked to task"),
            HierarchyError::ModuleUnparsed => owned("Failed to parse module from graph query"),
            HierarchyError::ModuleWithoutId => owned("Module missing id"),
            HierarchyError::SubmoduleQueryFailed => owned("Query failed"),
            HierarchyError::SubmoduleWithoutId => owned("Submodule missing id"),
            HierarchyError::NotStructural { table } => {
                let mut s = owned(
                    "resolve_structural_hierarchy: from_id must be project, module, submodule, task, or subtask; got ",
                );
                let d = debug_str(table.as_str());
                s.append(d.as_str());
                s
            },
            HierarchyError::UnexpectedAnswer => owned("Unexpected answer while resolving a hierarchy"),
        }
    }
}

// ---------------------------------------------------------------------------
// Reading query rows
// ---------------------------------------------------------------------------

/// The member `key` of a value, where it is an object that has one.
pub open spec fn get(v: JsonView, key: Seq<char>) -> Option<JsonView> {
    member(rec_members(v), key)
}

/// The first element of a value that is a non-empty array.
pub open spec fn first_element(v: Option<JsonView>) -> Option<JsonView> {
    match v {
        Some(JsonView::Array(s)) => if s.len() > 0 {
            Some(s[0])
        } else {
            None
        },
        _ => None,
    }
}

/// The text of the member `key` of a value, where it is a string.
pub open spec fn get_text(v: JsonView, key: Seq<char>) -> Option<Seq<char>> {
    member_text(rec_members(v), key)
}

/// The id of the first record under `alias` in a query row, if any.
pub open spec fn first_record_id_spec(row: Option<JsonView>, alias: Seq<char>) -> Option<Seq<char>> {
    match row {
        None => None,
        Some(r) => match first_element(get(r, alias)) {
            Some(o) => get_text(o, "id"@),
            None => None,
        },
    }
}

fn get_member<'a>(v: &'a Json, key: &str) -> (r: Option<&'a Json>)
    ensures
        match r {
            Some(x) => get(v@, key@) == Some(x@),
            None => get(v@, key@) is None,
        },
{
    match v {
        Json::Object(m) => {
            proof {
                lemma_object_view(*m);
            }
            let ghost mv = crate::json::members_view(m@);
            let mut i: usize = 0;
            assert(mv.skip(0) =~= mv);
            while i < m.len()
                invariant
                    i <= m@.len(),
                    mv == crate::json::members_view(m@),
                    get(v@, key@) == member(mv, key@),
                    member(mv, key@) == member(mv.skip(i as int), key@),
                decreases m@.len() - i,
            {
                assert(mv.skip(i as int)[0] == mv[i as int]);
                assert(mv.skip(i as int).drop_first() =~= mv.skip(i + 1));
                if str_eq(m[i].0.as_str(), key) {
                    assert(mv[i as int].1 == m@[i as int].1@);
                    assert(member(mv.skip(i as int), key@) == Some(mv[i as int].1));
                    return Some(&m[i].1);
                }
                i = i + 1;
            }
            assert(mv.skip(i as int) =~= Seq::<(Seq<char>, JsonView)>::empty());
            None
        },
        _ => None,
    }
}

fn first_of<'a>(v: Option<&'a Json>) -> (r: Option<&'a Json>)
    ensures
        match r {
            Some(x) => first_element(match v {
                Some(j) => Some(j@),
                None => None,
            }) == Some(x@),
            None => first_element(match v {
                Some(j) => Some(j@),
                None => None,
            }) is None,
        },
{
    match v {
        Some(Json::Array(a)) => {
            proof {
                lemma_array_view(*a);
            }
            if a.len() > 0 {
                Some(&a[0])
            } else {
                None
            }
        },
        _ => None,
    }
}

fn get_text_of(v: &Json, key: &str) -> (r: Option<String>)
    ensures
        cli::opt_string_view(r) == get_text(v@, key@),
{
    match v {
        Json::Object(m) => {
            proof {
                lemma_object_view(*m);
            }
            member_text_of(m, key)
        },
        _ => None,
    }
}

/// The optional view of an optional value.
pub open spec fn opt_json_view(o: Option<Json>) -> Option<JsonView> {
    match o {
        Some(j) => Some(j@),
        None => None,
    }
}

/// The id of the first record under `alias` in a query row, if any.
pub fn first_record_id(row: Option<Json>, alias: &str) -> (r: Option<String>)
    ensures
        cli::opt_string_view(r) == first_record_id_spec(opt_json_view(row), alias@),
{
    match &row {
        None => None,
        Some(r) => match first_of(get_member(r, alias)) {
            Some(o) => get_text_of(o, "id"),
            None => None,
        },
    }
}

/// Which linked record a task query asks for.
#[derive(Debug, Clone, Copy, PartialEq, Eq, Structural)]
pub enum Linked {
    Project,
    Module,
}

/// The name under which a query row holds the linked record.
pub open spec fn linked_alias(k: Linked) -> Seq<char> {
    match k {
        Linked::Project => "project"@,
        Linked::Module => "module"@,
    }
}

/// The id and name of the record that a task is linked to, from the row of
/// its query; an error where the row, the record or its id is missing.
pub open spec fn linked_spec(row: Option<JsonView>, k: Linked) -> Result<(Seq<char>, Seq<char>), HierarchyError> {
    match row {
        None => Err(
            match k {
                Linked::Project => HierarchyError::NoProject,
                Linked::Module => HierarchyError::NoModule,
            },
        ),
        Some(r) => match first_element(get(r, linked_alias(k))) {
            None => Err(
                match k {
                    Linked::Project => HierarchyError::ProjectUnparsed,
                    Linked::Module => HierarchyError::ModuleUnparsed,
                },
            ),
            Some(o) => match get_text(o, "id"@) {
                None => Err(
                    match k {
                        Linked::Project => HierarchyError::ProjectWithoutId,
                        Linked::Module => HierarchyError::ModuleWithoutId,
                    },
                ),
                Some(id) => Ok(
                    (
                        id,
                        match get_text(o, "name"@) {
                            Some(n) => n,
                            None => Seq::empty(),
                        },
                    ),
                ),
            },
        },
    }
}

/// The id and name of the project or module that a task is linked to, from
/// the row of its query.
pub fn parse_linked(row: Option<Json>, k: Linked) -> (r: Result<(String, String), HierarchyError>)
    ensures
        match linked_spec(opt_json_view(row), k) {
            Ok((id, name)) => r matches Ok(p) && p.0@ == id && p.1@ == name,
            Err(e) => r matches Err(x) && x == e,
        },
{
    let alias = match k {
        Linked::Project => "project",
        Linked::Module => "module",
    };
    let r = match &row {
        None => {
            return Err(
                match k {
                    Linked::Project => HierarchyError::NoProject,
                    Linked::Module => HierarchyError::NoModule,
                },
            );
        },
        Some(r) => r,
    };
    let o = match first_of(get_member(r, alias)) {
        None => {
            return Err(
                match k {
                    Linked::Project => HierarchyError::ProjectUnparsed,
                    Linked::Module => HierarchyError::ModuleUnparsed,
                },
            );
        },
        Some(o) => o,
    };
    let id = match get_text_of(o, "id") {
        None => {
            return Err(
                match k {
                    Linked::Project => HierarchyError::ProjectWithoutId,
                    Linked::Module => HierarchyError::ModuleWithoutId,
                },
            );
        },
        Some(id) => id,
    };
    let name = match get_text_of(o, "name") {
        Some(n) => n,
        None => String::new(),
    };
    Ok((id, name))
}

/// The submodule of a task, from the row of its query: none where the row
/// has no submodule record; an error where the row is missing or the
/// record has no id.
pub open spec fn submodule_spec(row: Option<JsonView>) -> Result<Option<(Seq<char>, Seq<char>)>, HierarchyError> {
    match row {
        None => Err(HierarchyError::SubmoduleQueryFailed),
        Some(r) => match first_element(get(r, "submodule"@)) {
            None => Ok(None),
            Some(o) => match get_text(o, "id"@) {
                None => Err(HierarchyError::SubmoduleWithoutId),
                Some(id) => Ok(
                    Some(
                        (
                            id,
                            match get_text(o, "name"@) {
                                Some(n) => n,
                                None => Seq::empty(),
                            },
                        ),
                    ),
                ),
            },
        },
    }
}

/// The submodule of a task, from the row of its query.
pub fn parse_submodule(row: Option<Json>) -> (r: Result<Option<crate::models::SubmoduleInfo>, HierarchyError>)
    ensures
        match submodule_spec(opt_json_view(row)) {
            Ok(None) => r matches Ok(None),
            Ok(Some((id, name))) => r matches Ok(Some(s)) && s.id@ == id && s.name@ == name,
            Err(e) => r matches Err(x) && x == e,
        },
{
    let r = match &row {
        None => {
            return Err(HierarchyError::SubmoduleQueryFailed);
        },
        Some(r) => r,
    };
    match first_of(get_member(r, "submodule")) {
        None => Ok(None),
        Some(o) => match get_text_of(o, "id") {
            None => Err(HierarchyError::SubmoduleWithoutId),
            Some(id) => {
                let name = match get_text_of(o, "name") {
                    Some(n) => n,
                    None => String::new(),
                };
                Ok(Some(crate::models::SubmoduleInfo { id, name }))
            },
        },
    }
}

// ---------------------------------------------------------------------------
// Resolving a structural record
// ---------------------------------------------------------------------------

/// The records above (and including) a structural record.
#[derive(Debug, Clone)]
pub struct StructuralHierarchy {
    pub project_id: Option<String>,
    pub module_id: Option<String>,
    pub submodule_id: Option<String>,
    pub task_id: Option<String>,
    pub subtask_id: Option<String>,
}

/// A hierarchy as character sequences.
pub struct HierarchyView {
    pub project_id: Option<Seq<char>>,
    pub module_id: Option<Seq<char>>,
    pub submodule_id: Option<Seq<char>>,
    pub task_id: Option<Seq<char>>,
    pub subtask_id: Option<Seq<char>>,
}

impl View for StructuralHierarchy {
    type V = HierarchyView;

    open spec fn view(&self) -> HierarchyView {
        HierarchyView {
            project_id: cli::opt_string_view(self.project_id),
            module_id: cli::opt_string_view(self.module_id),
            submodule_id: cli::opt_string_view(self.submodule_id),
            task_id: cli::opt_string_view(self.task_id),
            subtask_id: cli::opt_string_view(self.subtask_id),
        }
    }
}

/// The graph query for the project that contains a module (bound as `mid`).
pub open spec fn module_project_sql() -> Seq<char> {
    "SELECT <-contains<-project AS p FROM ONLY type::record($mid)"@
}

/// The graph query for the module that contains a submodule (bound as `sid`).
pub open spec fn submodule_module_sql() -> Seq<char> {
    "SELECT <-contains<-module AS m FROM ONLY type::record($sid)"@
}

/// The graph query for the task of a subtask (bound as `stid`).
pub open spec fn subtask_task_sql() -> Seq<char> {
    "SELECT ->belongs_to_task->task AS t FROM ONLY type::record($stid)"@
}

/// What the resolution asks the store next.
#[derive(Debug)]
pub enum HierarchyAsk {
    /// The id of the first record of a graph query, with `bind_value` bound
    /// under `bind_key` and the records under `alias`.
    FirstRecordId { sql: &'static str, bind_key: &'static str, bind_value: String, alias: &'static str },
    /// The project, module and submodule of a task.
    TaskHierarchy { task_id: String },
}

/// What the store answered.
#[derive(Debug)]
pub enum HierarchyAnswer {
    RecordId(Option<String>),
    Task { project_id: String, module_id: String, submodule_id: Option<String> },
}

/// Where a resolution stands.
#[derive(Debug)]
pub enum HierarchyState {
    ModuleProject { from_id: String },
    SubmoduleModule { from_id: String },
    SubmoduleProject { from_id: String, module_id: String },
    Task { from_id: String },
    SubtaskTask { from_id: String },
    SubtaskHierarchy { from_id: String, task_id: String },
    Finished,
}

/// What a resolution does next.
#[derive(Debug)]
pub enum HierarchyStep {
    Ask(HierarchyAsk),
    Done(StructuralHierarchy),
    Fail(HierarchyError),
}

/// A question as character sequences.
pub enum AskView {
    FirstRecordId(Seq<char>, Seq<char>, Seq<char>, Seq<char>),
    TaskHierarchy(Seq<char>),
}

/// An answer as character sequences.
pub enum AnswerView {
    RecordId(Option<Seq<char>>),
    Task(Seq<char>, Seq<char>, Option<Seq<char>>),
}

/// A state as character sequences.
pub enum StateView {
    ModuleProject(Seq<char>),
    SubmoduleModule(Seq<char>),
    SubmoduleProject(Seq<char>, Seq<char>),
    Task(Seq<char>),
    SubtaskTask(Seq<char>),
    SubtaskHierarchy(Seq<char>, Seq<char>),
    Finished,
}

/// A step as character sequences.
pub enum StepView {
    Ask(AskView),
    Done(HierarchyView),
    Fail(HierarchyError),
}

impl View for HierarchyAsk {
    type V = AskView;

    open spec fn view(&self) -> AskView {
        match self {
            HierarchyAsk::FirstRecordId { sql, bind_key, bind_value, alias } => AskView::FirstRecordId(
                sql@,
                bind_key@,
                bind_value@,
                alias@,
            ),
            HierarchyAsk::TaskHierarchy { task_id } => AskView::TaskHierarchy(task_id@),
        }
    }
}

impl View for HierarchyAnswer {
    type V = AnswerView;

    open spec fn view(&self) -> AnswerView {
        match self {
            HierarchyAnswer::RecordId(o) => AnswerView::RecordId(cli::opt_string_view(*o)),
            HierarchyAnswer::Task { project_id, module_id, submodule_id } => AnswerView::Task(
                project_id@,
                module_id@,
                cli::opt_string_view(*submodule_id),
            ),
        }
    }
}

impl View for HierarchyState {
    type V = StateView;

    open spec fn view(&self) -> StateView {
        match self {
            HierarchyState::ModuleProject { from_id } => StateView::ModuleProject(from_id@),
            HierarchyState::SubmoduleModule { from_id } => StateView::SubmoduleModule(from_id@),
            HierarchyState::SubmoduleProject { from_id, module_id } => StateView::SubmoduleProject(
                from_id@,
                module_id@,
            ),
            HierarchyState::Task { from_id } => StateView::Task(from_id@),
            HierarchyState::SubtaskTask { from_id } => StateView::SubtaskTask(from_id@),
            HierarchyState::SubtaskHierarchy { from_id, task_id } => StateView::SubtaskHierarchy(
                from_id@,
                task_id@,
            ),
            HierarchyState::Finished => StateView::Finished,
        }
    }
}

impl View for HierarchyStep {
    type V = StepView;

    open spec fn view(&self) -> StepView {
        match self {
            HierarchyStep::Ask(a) => StepView::Ask(a@),
            HierarchyStep::Done(h) => StepView::Done(h@),
            HierarchyStep::Fail(e) => StepView::Fail(*e),
        }
    }
}

/// A hierarchy with the given records.
pub open spec fn hv(
    project_id: Option<Seq<char>>,
    module_id: Option<Seq<char>>,
    submodule_id: Option<Seq<char>>,
    task_id: Option<Seq<char>>,
    subtask_id: Option<Seq<char>>,
) -> HierarchyView {
    HierarchyView { project_id, module_id, submodule_id, task_id, subtask_id }
}

/// How a resolution starts from the record `from_id`, by its table.
pub open spec fn start_spec(from_id: Seq<char>) -> (StateView, StepView) {
    let table = record_table_spec(from_id);
    if table == "project"@ {
        (StateView::Finished, StepView::Done(hv(Some(from_id), None, None, None, None)))
    } else if table == "module"@ {
        (
            StateView::ModuleProject(from_id),
            StepView::Ask(AskView::FirstRecordId(module_project_sql(), "mid"@, from_id, "p"@)),
        )
    } else if table == "submodule"@ {
        (
            StateView::SubmoduleModule(from_id),
            StepView::Ask(AskView::FirstRecordId(submodule_module_sql(), "sid"@, from_id, "m"@)),
        )
    } else if table == "task"@ {
        (StateView::Task(from_id), StepView::Ask(AskView::TaskHierarchy(from_id)))
    } else if table == "subtask"@ {
        (
            StateView::SubtaskTask(from_id),
            StepView::Ask(AskView::FirstRecordId(subtask_task_sql(), "stid"@, from_id, "t"@)),
        )
    } else {
        (StateView::Finished, StepView::Fail(HierarchyError::NotStructural { table: arbitrary() }))
    }
}

/// How a resolution goes on after an answer.
pub open spec fn next_spec(s: StateView, a: AnswerView) -> Option<(StateView, StepView)> {
    match (s, a) {
        (StateView::ModuleProject(from), AnswerView::RecordId(p)) => Some(
            (StateView::Finished, StepView::Done(hv(p, Some(from), None, None, None))),
        ),
        (StateView::SubmoduleModule(from), AnswerView::RecordId(None)) => Some(
            (StateView::Finished, StepView::Done(hv(None, None, Some(from), None, None))),
        ),
        (StateView::SubmoduleModule(from), AnswerView::RecordId(Some(m))) => Some(
            (
                StateView::SubmoduleProject(from, m),
                StepView::Ask(AskView::FirstRecordId(module_project_sql(), "mid"@, m, "p"@)),
            ),
        ),
        (StateView::SubmoduleProject(from, m), AnswerView::RecordId(p)) => Some(
            (StateView::Finished, StepView::Done(hv(p, Some(m), Some(from), None, None))),
        ),
        (StateView::Task(from), AnswerView::Task(p, m, sub)) => Some(
            (StateView::Finished, StepView::Done(hv(Some(p), Some(m), sub, Some(from), None))),
        ),
        (StateView::SubtaskTask(from), AnswerView::RecordId(None)) => Some(
            (StateView::Finished, StepView::Done(hv(None, None, None, None, Some(from)))),
        ),
        (StateView::SubtaskTask(from), AnswerView::RecordId(Some(t))) => Some(
            (StateView::SubtaskHierarchy(from, t), StepView::Ask(AskView::TaskHierarchy(t))),
        ),
        (StateView::SubtaskHierarchy(from, t), AnswerView::Task(p, m, sub)) => Some(
            (StateView::Finished, StepView::Done(hv(Some(p), Some(m), sub, Some(t), Some(from)))),
        ),
        _ => None,
    }
}

fn hierarchy(
    project_id: Option<String>,
    module_id: Option<String>,
    submodule_id: Option<String>,
    task_id: Option<String>,
    subtask_id: Option<String>,
) -> (r: StructuralHierarchy)
    ensures
        r@ == hv(
            cli::opt_string_view(project_id),
            cli::opt_string_view(module_id),
            cli::opt_string_view(submodule_id),
            cli::opt_string_view(task_id),
            cli::opt_string_view(subtask_id),
        ),
{
    StructuralHierarchy { project_id, module_id, submodule_id, task_id, subtask_id }
}

/// Starts resolving the hierarchy above the record `from_id`: a project is
/// its own hierarchy; a module, submodule, task or subtask needs the store;
/// any other record is refused.
pub fn resolve_start(from_id: &str) -> (r: (HierarchyState, HierarchyStep))
    ensures
        match start_spec(from_id@).1 {
            StepView::Fail(_) => r.0@ == StateView::Finished && (r.1 matches HierarchyStep::Fail(
                HierarchyError::NotStructural { table },
            ) && table@ == record_table_spec(from_id@)),
            _ => r.0@ == start_spec(from_id@).0 && r.1@ == start_spec(from_id@).1,
        },
{
    let table = record_table(from_id);
    if str_eq(table, "project") {
        (HierarchyState::Finished, HierarchyStep::Done(hierarchy(Some(owned(from_id)), None, None, None, None)))
    } else if str_eq(table, "module") {
        (
            HierarchyState::ModuleProject { from_id: owned(from_id) },
            HierarchyStep::Ask(
                HierarchyAsk::FirstRecordId {
                    sql: "SELECT <-contains<-project AS p FROM ONLY type::record($mid)",
                    bind_key: "mid",
                    bind_value: owned(from_id),
                    alias: "p",
                },
            ),
        )
    } else if str_eq(table, "submodule") {
        (
            HierarchyState::SubmoduleModule { from_id: owned(from_id) },
            HierarchyStep::Ask(
                HierarchyAsk::FirstRecordId {
                    sql: "SELECT <-contains<-module AS m FROM ONLY type::record($sid)",
                    bind_key: "sid",
                    bind_value: owned(from_id),
                    alias: "m",
                },
            ),
        )
    } else if str_eq(table, "task") {
        (
            HierarchyState::Task { from_id: owned(from_id) },
            HierarchyStep::Ask(HierarchyAsk::TaskHierarchy { task_id: owned(from_id) }),
        )
    } else if str_eq(table, "subtask") {
        (
            HierarchyState::SubtaskTask { from_id: owned(from_id) },
            HierarchyStep::Ask(
                HierarchyAsk::FirstRecordId {
                    sql: "SELECT ->belongs_to_task->task AS t FROM ONLY type::record($stid)",
                    bind_key: "stid",
                    bind_value: owned(from_id),
                    alias: "t",
                },
            ),
        )
    } else {
        (HierarchyState::Finished, HierarchyStep::Fail(HierarchyError::NotStructural { table: owned(table) }))
    }
}

/// Goes on resolving after the store answered the last question; an answer
/// that does not fit the question fails the resolution.
pub fn resolve_next(state: HierarchyState, answer: HierarchyAnswer) -> (r: (HierarchyState, HierarchyStep))
    ensures
        match next_spec(state@, answer@) {
            Some((s, st)) => r.0@ == s && r.1@ == st,
            None => r.0@ == StateView::Finished && (r.1 matches HierarchyStep::Fail(HierarchyError::UnexpectedAnswer)),
        },
{
    match (state, answer) {
        (HierarchyState::ModuleProject { from_id }, HierarchyAnswer::RecordId(p)) => (
            HierarchyState::Finished,
            HierarchyStep::Done(hierarchy(p, Some(from_id), None, None, None)),
        ),
        (HierarchyState::SubmoduleModule { from_id }, HierarchyAnswer::RecordId(None)) => (
            HierarchyState::Finished,
            HierarchyStep::Done(hierarchy(None, None, Some(from_id), None, None)),
        ),
        (HierarchyState::SubmoduleModule { from_id }, HierarchyAnswer::RecordId(Some(m))) => {
            let bind_value = m.clone();
            (
                HierarchyState::SubmoduleProject { from_id, module_id: m },
                HierarchyStep::Ask(
                    HierarchyAsk::FirstRecordId {
                        sql: "SELECT <-contains<-project AS p FROM ONLY type::record($mid)",
                        bind_key: "mid",
                        bind_value,
                        alias: "p",
                    },
                ),
            )
        },
        (HierarchyState::SubmoduleProject { from_id, module_id }, HierarchyAnswer::RecordId(p)) => (
            HierarchyState::Finished,
            HierarchyStep::Done(hierarchy(p, Some(module_id), Some(from_id), None, None)),
        ),
        (HierarchyState::Task { from_id }, HierarchyAnswer::Task { project_id, module_id, submodule_id }) => (
            HierarchyState::Finished,
            HierarchyStep::Done(hierarchy(Some(project_id), Some(module_id), submodule_id, Some(from_id), None)),
        ),
        (HierarchyState::SubtaskTask { from_id }, HierarchyAnswer::RecordId(None)) => (
            HierarchyState::Finished,
            HierarchyStep::Done(hierarchy(None, None, None, None, Some(from_id))),
        ),
        (HierarchyState::SubtaskTask { from_id }, HierarchyAnswer::RecordId(Some(t))) => {
            let task_id = t.clone();
            (
                HierarchyState::SubtaskHierarchy { from_id, task_id: t },
                HierarchyStep::Ask(HierarchyAsk::TaskHierarchy { task_id }),
            )
        },
        (
            HierarchyState::SubtaskHierarchy { from_id, task_id },
            HierarchyAnswer::Task { project_id, module_id, submodule_id },
        ) => (
            HierarchyState::Finished,
            HierarchyStep::Done(
                hierarchy(Some(project_id), Some(module_id), submodule_id, Some(task_id), Some(from_id)),
            ),
        ),
        _ => (HierarchyState::Finished, HierarchyStep::Fail(HierarchyError::UnexpectedAnswer)),
    }
}

/// A resolution from `from_id` that the store answers with `answers`, in
/// order: each answer goes to the question asked last.
pub open spec fn resolution_run(s: StateView, step: StepView, answers: Seq<AnswerView>) -> StepView
    decreases answers.len(),
{
    if answers.len() == 0 {
        step
    } else {
        match step {
            StepView::Ask(_) => match next_spec(s, answers[0]) {
                Some((s2, st2)) => resolution_run(s2, st2, answers.drop_first()),
                None => StepView::Fail(HierarchyError::UnexpectedAnswer),
            },
            _ => step,
        }
    }
}

/// The outcome of resolving from `from_id` with the store's `answers`.
pub open spec fn resolution(from_id: Seq<char>, answers: Seq<AnswerView>) -> StepView {
    resolution_run(start_spec(from_id).0, start_spec(from_id).1, answers)
}

/// The hierarchy that a resolution ends with, where it ends with one.
pub open spec fn resolved(step: StepView) -> Option<HierarchyView> {
    match step {
        StepView::Done(h) => Some(h),
        _ => None,
    }
}

/// The question a resolution asks first is about the record itself.
pub open spec fn asks_about(step: StepView, id: Seq<char>) -> bool {
    match step {
        StepView::Ask(AskView::FirstRecordId(_, _, v, _)) => v == id,
        StepView::Ask(AskView::TaskHierarchy(t)) => t == id,
        _ => false,
    }
}

/// Resolving the hierarchy above a record carries every answer of the store
/// into the result, at the level it answers for, and puts the record itself
/// at its own level:
/// - a project is its own hierarchy;
/// - a module's project is what the store answers for the module;
/// - a submodule's module is what the store answers for the submodule, and
///   its project what the store answers for that module;
/// - a task's project, module and submodule are what the store answers for
///   the task;
/// - a subtask's task is what the store answers for the subtask, and the
///   rest what it answers for that task.
/// Each question is about the record that the previous answer named.
pub proof fn lemma_resolution_keeps_answers(
    from: Seq<char>,
    p: Option<Seq<char>>,
    m: Seq<char>,
    tp: Seq<char>,
    tm: Seq<char>,
    sub: Option<Seq<char>>,
    t: Seq<char>,
)
    ensures
        record_table_spec(from) == "project"@ ==> resolved(resolution(from, seq![])) == Some(
            hv(Some(from), None, None, None, None),
        ),
        record_table_spec(from) == "module"@ ==> {
            &&& asks_about(start_spec(from).1, from)
            &&& resolved(resolution(from, seq![AnswerView::RecordId(p)])) matches Some(h)
            &&& h.project_id == p && h.module_id == Some(from)
            &&& h.submodule_id is None && h.task_id is None && h.subtask_id is None
        },
        record_table_spec(from) == "submodule"@ ==> {
            &&& asks_about(start_spec(from).1, from)
            &&& next_spec(start_spec(from).0, AnswerView::RecordId(Some(m))) matches Some((_, st)) && asks_about(st, m)
            &&& resolved(resolution(from, seq![AnswerView::RecordId(Some(m)), AnswerView::RecordId(p)])) matches Some(h)
            &&& h.project_id == p && h.module_id == Some(m) && h.submodule_id == Some(from)
            &&& h.task_id is None && h.subtask_id is None
        },
        record_table_spec(from) == "submodule"@ ==> {
            &&& resolved(resolution(from, seq![AnswerView::RecordId(None)])) matches Some(h)
            &&& h.submodule_id == Some(from) && h.project_id is None && h.module_id is None
        },
        record_table_spec(from) == "task"@ ==> {
            &&& asks_about(start_spec(from).1, from)
            &&& resolved(resolution(from, seq![AnswerView::Task(tp, tm, sub)])) matches Some(h)
            &&& h.project_id == Some(tp) && h.module_id == Some(tm) && h.submodule_id == sub
            &&& h.task_id == Some(from) && h.subtask_id is None
        },
        record_table_spec(from) == "subtask"@ ==> {
            &&& asks_about(start_spec(from).1, from)
            &&& next_spec(start_spec(from).0, AnswerView::RecordId(Some(t))) matches Some((_, st)) && asks_about(st, t)
            &&& resolved(resolution(from, seq![AnswerView::RecordId(Some(t)), AnswerView::Task(tp, tm, sub)])) matches Some(h)
            &&& h.project_id == Some(tp) && h.module_id == Some(tm) && h.submodule_id == sub
            &&& h.task_id == Some(t) && h.subtask_id == Some(from)
        },
{
    reveal_strlit("project");
    reveal_strlit("module");
    reveal_strlit("submodule");
    reveal_strlit("task");
    reveal_strlit("subtask");
    reveal_with_fuel(resolution_run, 3);
    let a1 = seq![AnswerView::RecordId(p)];
    assert(a1.drop_first() =~= Seq::<AnswerView>::empty());
    assert("module"@ != "project"@) by {
        assert("module"@.len() != "project"@.len());
    }
    assert("submodule"@ != "project"@) by {
        assert("submodule"@.len() != "project"@.len());
    }
    assert("submodule"@ != "module"@) by {
        assert("submodule"@.len() != "module"@.len());
    }
    assert("subtask"@ != "project"@) by {
        assert("subtask"@[0] != "project"@[0]);
    }
    assert("subtask"@ != "module"@) by {
        assert("subtask"@.len() != "module"@.len());
    }
    assert("subtask"@ != "submodule"@) by {
        assert("subtask"@.len() != "submodule"@.len());
    }
    assert("subtask"@ != "task"@) by {
        assert("subtask"@.len() != "task"@.len());
    }
    let a2 = seq![AnswerView::RecordId(Some(m)), AnswerView::RecordId(p)];
    assert(a2.drop_first() =~= seq![AnswerView::RecordId(p)]);
    assert(a2.drop_first().drop_first() =~= Seq::<AnswerView>::empty());
    let a3 = seq![AnswerView::RecordId(None)];
    assert(a3.drop_first() =~= Seq::<AnswerView>::empty());
    let a4 = seq![AnswerView::Task(tp, tm, sub)];
    assert(a4.drop_first() =~= Seq::<AnswerView>::empty());
    let a5 = seq![AnswerView::RecordId(Some(t)), AnswerView::Task(tp, tm, sub)];
    assert(a5.drop_first() =~= seq![AnswerView::Task(tp, tm, sub)]);
    assert(a5.drop_first().drop_first() =~= Seq::<AnswerView>::empty());
}

} // verus!

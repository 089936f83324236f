//! The records of the knowledge graph.

use vstd::prelude::*;
use crate::text::str_eq;

verus! {

/// A user story.
#[derive(Debug, Clone, PartialEq)]
pub struct UserStory {
    pub id: Option<String>,
    pub title: String,
    pub description: String,
}

/// An epic: a group of user stories.
#[derive(Debug, Clone, PartialEq)]
pub struct Epic {
    pub id: Option<String>,
    pub title: String,
    pub description: String,
}

/// The progress of a task.
#[derive(Debug, Clone, Copy, PartialEq, Eq, Structural)]
pub enum TaskStatus {
    NotStarted,
    Started,
    Finished,
}

/// The name under which a status is stored and given on the command line.
pub open spec fn status_name(s: TaskStatus) -> Seq<char> {
    match s {
        TaskStatus::NotStarted => "not_started"@,
        TaskStatus::Started => "started"@,
        TaskStatus::Finished => "finished"@,
    }
}

/// The status that a name denotes, if any; names are matched exactly.
pub open spec fn status_of(v: Seq<char>) -> Option<TaskStatus> {
    if v == "not_started"@ {
        Some(TaskStatus::NotStarted)
    } else if v == "started"@ {
        Some(TaskStatus::Started)
    } else if v == "finished"@ {
        Some(TaskStatus::Finished)
    } else {
        None
    }
}

impl TaskStatus {
    /// Reads a status name: `not_started`, `started` or `finished`, exactly.
    pub fn parse(value: &str) -> (r: Option<TaskStatus>)
        ensures
            r == status_of(value@),
    {
        if str_eq(value, "not_started") {
            Some(TaskStatus::NotStarted)
        } else if str_eq(value, "started") {
            Some(TaskStatus::Started)
        } else if str_eq(value, "finished") {
            Some(TaskStatus::Finished)
        } else {
            None
        }
    }

    /// The name of the status.
    pub fn as_str(&self) -> (r: &'static str)
        ensures
            r@ == status_name(*self),
    {
        match self {
            TaskStatus::NotStarted => "not_started",
            TaskStatus::Started => "started",
            TaskStatus::Finished => "finished",
        }
    }
}

/// Every status is read back from its own name.
pub proof fn lemma_status_name_round_trip(s: TaskStatus)
    ensures
        status_of(status_name(s)) == Some(s),
{
    reveal_strlit("not_started");
    reveal_strlit("started");
    reveal_strlit("finished");
    assert("not_started"@ != "started"@) by {
        assert("not_started"@[0] != "started"@[0]);
    }
    assert("not_started"@ != "finished"@) by {
        assert("not_started"@.len() != "finished"@.len());
    }
    assert("started"@ != "finished"@) by {
        assert("started"@[0] != "finished"@[0]);
    }
}

/// The progress of an issue or a todo item.
#[derive(Debug, Clone, Copy, PartialEq, Eq, Structural)]
pub enum ItemStatus {
    Pending,
    Active,
    Completed,
}

/// The name of an item status.
pub open spec fn item_status_name(s: ItemStatus) -> Seq<char> {
    match s {
        ItemStatus::Pending => "pending"@,
        ItemStatus::Active => "active"@,
        ItemStatus::Completed => "completed"@,
    }
}

/// The item status that a name denotes, if any; names are matched exactly.
pub open spec fn item_status_of(v: Seq<char>) -> Option<ItemStatus> {
    if v == "pending"@ {
        Some(ItemStatus::Pending)
    } else if v == "active"@ {
        Some(ItemStatus::Active)
    } else if v == "completed"@ {
        Some(ItemStatus::Completed)
    } else {
        None
    }
}

impl ItemStatus {
    /// Reads an item status name: `pending`, `active` or `completed`, exactly.
    pub fn parse(value: &str) -> (r: Option<ItemStatus>)
        ensures
            r == item_status_of(value@),
    {
        if str_eq(value, "pending") {
            Some(ItemStatus::Pending)
        } else if str_eq(value, "active") {
            Some(ItemStatus::Active)
        } else if str_eq(value, "completed") {
            Some(ItemStatus::Completed)
        } else {
            None
        }
    }

    /// The name of the status.
    pub fn as_str(&self) -> (r: &'static str)
        ensures
            r@ == item_status_name(*self),
    {
        match self {
            ItemStatus::Pending => "pending",
            ItemStatus::Active => "active",
            ItemStatus::Completed => "completed",
        }
    }
}

/// Every item status is read back from its own name.
pub proof fn lemma_item_status_round_trip(s: ItemStatus)
    ensures
        item_status_of(item_status_name(s)) == Some(s),
{
    reveal_strlit("pending");
    reveal_strlit("active");
    reveal_strlit("completed");
    assert("pending"@[0] != "active"@[0]);
    assert("pending"@[0] != "completed"@[0]);
    assert("active"@[0] != "completed"@[0]);
}

/// A project.
#[derive(Debug, Clone, PartialEq)]
pub struct Project {
    pub id: Option<String>,
    pub name: String,
    pub description: String,
}

/// A module of a project.
#[derive(Debug, Clone, PartialEq)]
pub struct Module {
    pub id: Option<String>,
    pub name: String,
    pub description: String,
    pub files: Option<Vec<String>>,
}

/// A submodule of a module.
#[derive(Debug, Clone, PartialEq)]
pub struct Submodule {
    pub id: Option<String>,
    pub name: String,
    pub description: String,
    pub files: Option<Vec<String>>,
}

/// A source file.
#[derive(Debug, Clone, PartialEq)]
pub struct File {
    pub id: Option<String>,
    pub name: String,
    pub path: String,
    pub description: Option<String>,
}

/// A task.
#[derive(Debug, Clone, PartialEq)]
pub struct Task {
    pub id: Option<String>,
    pub name: String,
    pub description: String,
    pub status: TaskStatus,
}

/// A todo item.
#[derive(Debug, Clone, PartialEq)]
pub struct TodoItem {
    pub id: Option<String>,
    pub content: String,
}

/// A knowledge entry: a mistake, a style rule, a security detail and the like.
#[derive(Debug, Clone, PartialEq)]
pub struct Context {
    pub id: Option<String>,
    /// Free-form type (e.g. mistake, style_rule, security_detail, code_styleguide, skill).
    pub context_type: String,
    pub content: Option<String>,
    pub description: Option<String>,
    pub example: Option<String>,
    pub severity: Option<String>,
    pub category: Option<String>,
    pub tags: Option<Vec<String>>,
}

/// The id and name of a submodule.
#[derive(Debug, Clone, PartialEq)]
pub struct SubmoduleInfo {
    pub id: String,
    pub name: String,
}

/// Where a task sits: its project, module and (optionally) submodule.
#[derive(Debug, Clone, PartialEq)]
pub struct TaskHierarchy {
    pub project_id: String,
    pub project_name: String,
    pub module_id: String,
    pub module_name: String,
    pub submodule: Option<SubmoduleInfo>,
}

/// A task with its files, its knowledge entries and its place in the hierarchy.
#[derive(Debug, Clone, PartialEq)]
pub struct TaskContext {
    pub task: Task,
    pub files: Vec<String>,
    pub contexts: Vec<Context>,
    pub hierarchy: TaskHierarchy,
}

} // verus!

//! Checks that the store makes before it writes a record.

use vstd::prelude::*;
use vstd::string::*;
use crate::text;
use crate::models::{status_of, TaskStatus};
use crate::text::{owned, push_decimal, trim_str};

verus! {

/// Why a persona was refused.
#[derive(Debug, Clone, Copy, PartialEq, Eq, Structural)]
pub enum PersonaError {
    EmptyName,
    EmptyContent,
    NameTooLong,
}

/// The text of a persona error.
pub open spec fn persona_message(e: PersonaError) -> Seq<char> {
    match e {
        PersonaError::EmptyName => "Persona name cannot be empty"@,
        PersonaError::EmptyContent => "Persona content cannot be empty"@,
        PersonaError::NameTooLong => "Persona name too long (max 255 chars)"@,
    }
}

impl PersonaError {
    /// The text of the error.
    pub fn message(&self) -> (r: String)
        ensures
            r@ == persona_message(*self),
    {
        match self {
            PersonaError::EmptyName => owned("Persona name cannot be empty"),
            PersonaError::EmptyContent => owned("Persona content cannot be empty"),
            PersonaError::NameTooLong => owned("Persona name too long (max 255 chars)"),
        }
    }
}

/// The first rule that a persona breaks, if any: a name or a content that is
/// blank, or a name of more than 255 bytes.
pub open spec fn persona_check(name: Seq<char>, name_bytes: nat, content: Seq<char>) -> Option<PersonaError> {
    if text::trim(name).len() == 0 {
        Some(PersonaError::EmptyName)
    } else if text::trim(content).len() == 0 {
        Some(PersonaError::EmptyContent)
    } else if name_bytes > 255 {
        Some(PersonaError::NameTooLong)
    } else {
        None
    }
}

/// Checks the name and the content of a new persona.
pub fn validate_persona_params(name: &str, content: &str) -> (r: Result<(), PersonaError>)
    ensures
        match persona_check(name@, name.spec_bytes().len(), content@) {
            None => r is Ok,
            Some(e) => r == Err::<(), PersonaError>(e),
        },
{
    if trim_str(name).is_empty() {
        return Err(PersonaError::EmptyName);
    }
    if trim_str(content).is_empty() {
        return Err(PersonaError::EmptyContent);
    }
    if name.as_bytes().len() > 255 {
        return Err(PersonaError::NameTooLong);
    }
    Ok(())
}


/// A new task's parents that are neither none nor one module and one project.
#[derive(Debug, Clone, Copy, PartialEq, Eq, Structural)]
pub struct TaskParentsError {
    pub modules: usize,
    pub projects: usize,
}

/// The text of a task parents error.
pub open spec fn task_parents_message(modules: nat, projects: nat) -> Seq<char> {
    "Task create: provide either no module/project IDs (freestanding) or exactly one of each (linked). Got "@
        + text::decimal(modules) + " module_ids and "@ + text::decimal(projects) + " project_ids"@
}

impl TaskParentsError {
    /// The text of the error.
    pub fn message(&self) -> (r: String)
        ensures
            r@ == task_parents_message(self.modules as nat, self.projects as nat),
    {
        let mut s = owned(
            "Task create: provide either no module/project IDs (freestanding) or exactly one of each (linked). Got ",
        );
        push_decimal(&mut s, self.modules);
        s.append(" module_ids and ");
        push_decimal(&mut s, self.projects);
        s.append(" project_ids");
        s
    }
}

/// The module and project of a new task: a task is freestanding, with no
/// module and no project, or linked, with exactly one of each; any other
/// count is refused with both counts.
pub fn validate_task_parents<'a>(module_ids: &'a [String], project_ids: &'a [String]) -> (r: Result<
    (Option<&'a str>, Option<&'a str>),
    TaskParentsError,
>)
    ensures
        module_ids@.len() == 0 && project_ids@.len() == 0 ==> r matches Ok((None, None)),
        module_ids@.len() == 1 && project_ids@.len() == 1 ==> (r matches Ok((Some(m), Some(p))) && m@
            == module_ids@[0]@ && p@ == project_ids@[0]@),
        !(module_ids@.len() == 0 && project_ids@.len() == 0) && !(module_ids@.len() == 1 && project_ids@.len()
            == 1) ==> r == Err::<(Option<&'a str>, Option<&'a str>), TaskParentsError>(
            TaskParentsError { modules: module_ids@.len() as usize, projects: project_ids@.len() as usize },
        ),
{
    let m = module_ids.len();
    let p = project_ids.len();
    if m == 0 && p == 0 {
        Ok((None, None))
    } else if m == 1 && p == 1 {
        Ok((Some(module_ids[0].as_str()), Some(project_ids[0].as_str())))
    } else {
        Err(TaskParentsError { modules: m, projects: p })
    }
}

/// A status that is not one of the task statuses.
#[derive(Debug, Clone)]
pub struct InvalidTaskStatus {
    pub value: String,
}

/// The text of an invalid status error.
pub open spec fn invalid_status_message(value: Seq<char>) -> Seq<char> {
    "Invalid status '"@ + value + "'. Expected: not_started, started, finished"@
}

impl InvalidTaskStatus {
    /// The text of the error.
    pub fn message(&self) -> (r: String)
        ensures
            r@ == invalid_status_message(self.value@),
    {
        let mut s = owned("Invalid status '");
        s.append(self.value.as_str());
        s.append("'. Expected: not_started, started, finished");
        s
    }
}

/// The status that an optional status name gives: none for none, the
/// status it names, or an error that carries the name.
pub fn parse_optional_status(status: Option<String>) -> (r: Result<Option<TaskStatus>, InvalidTaskStatus>)
    ensures
        match status {
            None => r matches Ok(None),
            Some(v) => match status_of(v@) {
                Some(st) => r matches Ok(Some(x)) && x == st,
                None => r matches Err(e) && e.value@ == v@,
            },
        },
{
    match status {
        None => Ok(None),
        Some(value) => match TaskStatus::parse(value.as_str()) {
            Some(st) => Ok(Some(st)),
            None => Err(InvalidTaskStatus { value }),
        },
    }
}

} // verus!

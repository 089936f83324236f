//! The command line of the `dunno` tool: knowledge entries, projects, modules,
//! submodules, files, tasks, user stories, epics, todos, configuration,
//! context retrieval, links and purging.

use vstd::prelude::*;
use crate::cli;
use crate::cli::{
    Grammar, GrammarSpec, CommandDef, CommandSpec, GroupDef, GroupSpec, LeafDef, LeafSpec, OptDef, OptSpec,
    OptKind, PosKind, ParseError, Parsed, ParsedSpec, parse, flag_at_exec, single_at_exec, required_at_exec,
    multi_at_exec, pos_at_exec, pos_opt_exec, pos_rest_exec,
};

verus! {

// ---------------------------------------------------------------------------
// The grammar
// ---------------------------------------------------------------------------

/// The `add` command.
pub open spec fn leaf_add() -> LeafSpec {
    LeafSpec {
        names: seq!["add"@],
        opts: seq![
            OptSpec { longs: seq!["field"@], short: None, kind: OptKind::Multi },
            OptSpec { longs: seq!["value"@], short: None, kind: OptKind::Multi },
            OptSpec { longs: seq!["link-to"@], short: None, kind: OptKind::Multi },
        ],
        pos: Seq::empty(),
        conflicts: Seq::empty(),
        required: seq![0usize, 1usize],
        requires: Seq::empty(),
        one_of: Seq::empty(),
    }
}

/// The `project add` command.
pub open spec fn leaf_project_create() -> LeafSpec {
    LeafSpec {
        names: seq!["add"@],
        opts: Seq::empty(),
        pos: seq![PosKind::Required, PosKind::Required],
        conflicts: Seq::empty(),
        required: Seq::empty(),
        requires: Seq::empty(),
        one_of: Seq::empty(),
    }
}

/// The `project ls` command.
pub open spec fn leaf_project_list() -> LeafSpec {
    LeafSpec {
        names: seq!["ls"@],
        opts: Seq::empty(),
        pos: Seq::empty(),
        conflicts: Seq::empty(),
        required: Seq::empty(),
        requires: Seq::empty(),
        one_of: Seq::empty(),
    }
}

/// The `project rm` command.
pub open spec fn leaf_project_delete() -> LeafSpec {
    LeafSpec {
        names: seq!["rm"@],
        opts: Seq::empty(),
        pos: seq![PosKind::Required],
        conflicts: Seq::empty(),
        required: Seq::empty(),
        requires: Seq::empty(),
        one_of: Seq::empty(),
    }
}

/// The `module add` command.
pub open spec fn leaf_module_create() -> LeafSpec {
    LeafSpec {
        names: seq!["add"@],
        opts: seq![
            OptSpec { longs: seq!["project-ids"@], short: None, kind: OptKind::Multi },
            OptSpec { longs: seq!["project"@], short: None, kind: OptKind::Single },
            OptSpec { longs: seq!["notes"@], short: None, kind: OptKind::Single },
        ],
        pos: seq![PosKind::Required, PosKind::Required],
        conflicts: seq![(0usize, 1usize)],
        required: Seq::empty(),
        requires: Seq::empty(),
        one_of: Seq::empty(),
    }
}

/// The `module ls` command.
pub open spec fn leaf_module_list() -> LeafSpec {
    LeafSpec {
        names: seq!["ls"@],
        opts: seq![
            OptSpec { longs: seq!["project-id"@], short: None, kind: OptKind::Single },
            OptSpec { longs: seq!["project"@], short: None, kind: OptKind::Single },
        ],
        pos: Seq::empty(),
        conflicts: seq![(0usize, 1usize)],
        required: Seq::empty(),
        requires: Seq::empty(),
        one_of: Seq::empty(),
    }
}

/// The `module rm` command.
pub open spec fn leaf_module_delete() -> LeafSpec {
    LeafSpec {
        names: seq!["rm"@],
        opts: Seq::empty(),
        pos: seq![PosKind::Required],
        conflicts: Seq::empty(),
        required: Seq::empty(),
        requires: Seq::empty(),
        one_of: Seq::empty(),
    }
}

/// The `submodule add` command.
pub open spec fn leaf_submodule_create() -> LeafSpec {
    LeafSpec {
        names: seq!["add"@],
        opts: seq![
            OptSpec { longs: seq!["module-ids"@], short: None, kind: OptKind::Multi },
            OptSpec { longs: seq!["notes"@], short: None, kind: OptKind::Single },
        ],
        pos: seq![PosKind::Required, PosKind::Required],
        conflicts: Seq::empty(),
        required: Seq::empty(),
        requires: Seq::empty(),
        one_of: Seq::empty(),
    }
}

/// The `submodule ls` command.
pub open spec fn leaf_submodule_list() -> LeafSpec {
    LeafSpec {
        names: seq!["ls"@],
        opts: seq![
            OptSpec { longs: seq!["project-id"@], short: None, kind: OptKind::Single },
            OptSpec { longs: seq!["project"@], short: None, kind: OptKind::Single },
            OptSpec { longs: seq!["module-id"@], short: None, kind: OptKind::Single },
        ],
        pos: Seq::empty(),
        conflicts: seq![(0usize, 1usize)],
        required: Seq::empty(),
        requires: Seq::empty(),
        one_of: Seq::empty(),
    }
}

/// The `submodule rm` command.
pub open spec fn leaf_submodule_delete() -> LeafSpec {
    LeafSpec {
        names: seq!["rm"@],
        opts: Seq::empty(),
        pos: seq![PosKind::Required],
        conflicts: Seq::empty(),
        required: Seq::empty(),
        requires: Seq::empty(),
        one_of: Seq::empty(),
    }
}

/// The `file add` command.
pub open spec fn leaf_file_create() -> LeafSpec {
    LeafSpec {
        names: seq!["add"@],
        opts: seq![
            OptSpec { longs: seq!["parent-ids"@], short: None, kind: OptKind::Multi },
            OptSpec { longs: seq!["notes"@], short: None, kind: OptKind::Single },
        ],
        pos: seq![PosKind::Required, PosKind::Required, PosKind::Optional],
        conflicts: Seq::empty(),
        required: Seq::empty(),
        requires: Seq::empty(),
        one_of: Seq::empty(),
    }
}

/// The `file ls` command.
pub open spec fn leaf_file_list() -> LeafSpec {
    LeafSpec {
        names: seq!["ls"@],
        opts: seq![
            OptSpec { longs: seq!["project-id"@], short: None, kind: OptKind::Single },
            OptSpec { longs: seq!["project"@], short: None, kind: OptKind::Single },
            OptSpec { longs: seq!["module-id"@], short: None, kind: OptKind::Single },
            OptSpec { longs: seq!["submodule-id"@], short: None, kind: OptKind::Single },
        ],
        pos: Seq::empty(),
        conflicts: seq![(0usize, 1usize), (2usize, 3usize)],
        required: Seq::empty(),
        requires: Seq::empty(),
        one_of: Seq::empty(),
    }
}

/// The `file rm` command.
pub open spec fn leaf_file_delete() -> LeafSpec {
    LeafSpec {
        names: seq!["rm"@],
        opts: Seq::empty(),
        pos: seq![PosKind::Required],
        conflicts: Seq::empty(),
        required: Seq::empty(),
        requires: Seq::empty(),
        one_of: Seq::empty(),
    }
}

/// The `task add` command.
pub open spec fn leaf_task_create() -> LeafSpec {
    LeafSpec {
        names: seq!["add"@],
        opts: seq![
            OptSpec { longs: seq!["module-ids"@], short: None, kind: OptKind::Multi },
            OptSpec { longs: seq!["project-ids"@], short: None, kind: OptKind::Multi },
            OptSpec { longs: seq!["project"@], short: None, kind: OptKind::Single },
            OptSpec { longs: seq!["user-story-ids"@], short: None, kind: OptKind::Multi },
            OptSpec { longs: seq!["epic-ids"@], short: None, kind: OptKind::Multi },
        ],
        pos: seq![PosKind::Required, PosKind::Required],
        conflicts: seq![(1usize, 2usize)],
        required: Seq::empty(),
        requires: Seq::empty(),
        one_of: Seq::empty(),
    }
}

/// The `task update` command.
pub open spec fn leaf_task_update() -> LeafSpec {
    LeafSpec {
        names: seq!["update"@],
        opts: seq![
            OptSpec { longs: seq!["name"@], short: None, kind: OptKind::Single },
            OptSpec { longs: seq!["description"@], short: None, kind: OptKind::Single },
            OptSpec { longs: seq!["status"@], short: None, kind: OptKind::Single },
        ],
        pos: seq![PosKind::Required],
        conflicts: Seq::empty(),
        required: Seq::empty(),
        requires: Seq::empty(),
        one_of: Seq::empty(),
    }
}

/// The `task rm` command.
pub open spec fn leaf_task_delete() -> LeafSpec {
    LeafSpec {
        names: seq!["rm"@],
        opts: Seq::empty(),
        pos: seq![PosKind::Required],
        conflicts: Seq::empty(),
        required: Seq::empty(),
        requires: Seq::empty(),
        one_of: Seq::empty(),
    }
}

/// The `task ls` command.
pub open spec fn leaf_task_list() -> LeafSpec {
    LeafSpec {
        names: seq!["ls"@],
        opts: seq![
            OptSpec { longs: seq!["project-id"@], short: None, kind: OptKind::Single },
            OptSpec { longs: seq!["project"@], short: None, kind: OptKind::Single },
        ],
        pos: Seq::empty(),
        conflicts: seq![(0usize, 1usize)],
        required: Seq::empty(),
        requires: Seq::empty(),
        one_of: Seq::empty(),
    }
}

/// The `user-story add` command.
pub open spec fn leaf_user_story_create() -> LeafSpec {
    LeafSpec {
        names: seq!["add"@],
        opts: seq![
            OptSpec { longs: seq!["project-id"@], short: None, kind: OptKind::Single },
            OptSpec { longs: seq!["project"@], short: None, kind: OptKind::Single },
            OptSpec { longs: seq!["epic-ids"@], short: None, kind: OptKind::Multi },
        ],
        pos: seq![PosKind::Required, PosKind::Required],
        conflicts: seq![(0usize, 1usize)],
        required: Seq::empty(),
        requires: Seq::empty(),
        one_of: Seq::empty(),
    }
}

/// The `user-story ls` command.
pub open spec fn leaf_user_story_list() -> LeafSpec {
    LeafSpec {
        names: seq!["ls"@],
        opts: seq![
            OptSpec { longs: seq!["project-id"@], short: None, kind: OptKind::Single },
            OptSpec { longs: seq!["project"@], short: None, kind: OptKind::Single },
            OptSpec { longs: seq!["epic-id"@], short: None, kind: OptKind::Single },
        ],
        pos: Seq::empty(),
        conflicts: seq![(0usize, 1usize)],
        required: Seq::empty(),
        requires: Seq::empty(),
        one_of: Seq::empty(),
    }
}

/// The `user-story rm` command.
pub open spec fn leaf_user_story_delete() -> LeafSpec {
    LeafSpec {
        names: seq!["rm"@],
        opts: Seq::empty(),
        pos: seq![PosKind::Required],
        conflicts: Seq::empty(),
        required: Seq::empty(),
        requires: Seq::empty(),
        one_of: Seq::empty(),
    }
}

/// The `epic add` command.
pub open spec fn leaf_epic_create() -> LeafSpec {
    LeafSpec {
        names: seq!["add"@],
        opts: seq![
            OptSpec { longs: seq!["project-id"@], short: None, kind: OptKind::Single },
            OptSpec { longs: seq!["project"@], short: None, kind: OptKind::Single },
        ],
        pos: seq![PosKind::Required, PosKind::Required],
        conflicts: seq![(0usize, 1usize)],
        required: Seq::empty(),
        requires: Seq::empty(),
        one_of: Seq::empty(),
    }
}

/// The `epic ls` command.
pub open spec fn leaf_epic_list() -> LeafSpec {
    LeafSpec {
        names: seq!["ls"@],
        opts: seq![
            OptSpec { longs: seq!["project-id"@], short: None, kind: OptKind::Single },
            OptSpec { longs: seq!["project"@], short: None, kind: OptKind::Single },
        ],
        pos: Seq::empty(),
        conflicts: seq![(0usize, 1usize)],
        required: Seq::empty(),
        requires: Seq::empty(),
        one_of: Seq::empty(),
    }
}

/// The `epic rm` command.
pub open spec fn leaf_epic_delete() -> LeafSpec {
    LeafSpec {
        names: seq!["rm"@],
        opts: Seq::empty(),
        pos: seq![PosKind::Required],
        conflicts: Seq::empty(),
        required: Seq::empty(),
        requires: Seq::empty(),
        one_of: Seq::empty(),
    }
}

/// The `todo add` command.
pub open spec fn leaf_todo_create() -> LeafSpec {
    LeafSpec {
        names: seq!["add"@],
        opts: seq![
            OptSpec { longs: seq!["project-ids"@], short: None, kind: OptKind::Multi },
            OptSpec { longs: seq!["project"@], short: None, kind: OptKind::Single },
        ],
        pos: seq![PosKind::Required],
        conflicts: seq![(0usize, 1usize)],
        required: Seq::empty(),
        requires: Seq::empty(),
        one_of: Seq::empty(),
    }
}

/// The `todo ls` command.
pub open spec fn leaf_todo_list() -> LeafSpec {
    LeafSpec {
        names: seq!["ls"@],
        opts: seq![
            OptSpec { longs: seq!["project-id"@], short: None, kind: OptKind::Single },
            OptSpec { longs: seq!["project"@], short: None, kind: OptKind::Single },
        ],
        pos: Seq::empty(),
        conflicts: seq![(0usize, 1usize)],
        required: Seq::empty(),
        requires: Seq::empty(),
        one_of: Seq::empty(),
    }
}

/// The `todo rm` command.
pub open spec fn leaf_todo_delete() -> LeafSpec {
    LeafSpec {
        names: seq!["rm"@],
        opts: Seq::empty(),
        pos: seq![PosKind::Required],
        conflicts: Seq::empty(),
        required: Seq::empty(),
        requires: Seq::empty(),
        one_of: Seq::empty(),
    }
}

/// The `config show` command.
pub open spec fn leaf_config_show() -> LeafSpec {
    LeafSpec {
        names: seq!["show"@],
        opts: Seq::empty(),
        pos: Seq::empty(),
        conflicts: Seq::empty(),
        required: Seq::empty(),
        requires: Seq::empty(),
        one_of: Seq::empty(),
    }
}

/// The `ctx` command.
pub open spec fn leaf_context() -> LeafSpec {
    LeafSpec {
        names: seq!["ctx"@],
        opts: seq![
            OptSpec { longs: seq!["task-id"@], short: None, kind: OptKind::Single },
            OptSpec { longs: seq!["file-id"@], short: None, kind: OptKind::Single },
            OptSpec { longs: seq!["epic-id"@], short: None, kind: OptKind::Single },
            OptSpec { longs: seq!["full"@], short: None, kind: OptKind::Flag },
        ],
        pos: Seq::empty(),
        conflicts: seq![(0usize, 1usize), (0usize, 2usize), (1usize, 2usize)],
        required: Seq::empty(),
        requires: Seq::empty(),
        one_of: Seq::empty(),
    }
}

/// The `link` command.
pub open spec fn leaf_link() -> LeafSpec {
    LeafSpec {
        names: seq!["link"@],
        opts: seq![
            OptSpec { longs: seq!["from-id"@], short: None, kind: OptKind::Single },
            OptSpec { longs: seq!["edge"@], short: None, kind: OptKind::Single },
            OptSpec { longs: seq!["to-ids"@], short: None, kind: OptKind::Multi },
        ],
        pos: Seq::empty(),
        conflicts: Seq::empty(),
        required: seq![0usize, 1usize],
        requires: Seq::empty(),
        one_of: Seq::empty(),
    }
}

/// The `purge` command.
pub open spec fn leaf_purge() -> LeafSpec {
    LeafSpec {
        names: seq!["purge"@],
        opts: Seq::empty(),
        pos: Seq::empty(),
        conflicts: Seq::empty(),
        required: Seq::empty(),
        requires: Seq::empty(),
        one_of: Seq::empty(),
    }
}

/// Options accepted at every level.
pub open spec fn global_opts() -> Seq<OptSpec> {
    seq![
        OptSpec { longs: seq!["backend"@], short: None, kind: OptKind::Single },
        OptSpec { longs: seq!["pretty"@], short: None, kind: OptKind::Flag },
        OptSpec { longs: seq!["ignore-case"@], short: Some('i'), kind: OptKind::Flag },
    ]
}

/// The whole command line grammar.
pub open spec fn grammar() -> GrammarSpec {
    GrammarSpec {
        globals: global_opts(),
        commands: seq![
            CommandSpec::Leaf(leaf_add()),
            CommandSpec::Group(GroupSpec {
                names: seq!["project"@],
                subs: seq![leaf_project_create(), leaf_project_list(), leaf_project_delete()],
            }),
            CommandSpec::Group(GroupSpec {
                names: seq!["module"@],
                subs: seq![leaf_module_create(), leaf_module_list(), leaf_module_delete()],
            }),
            CommandSpec::Group(GroupSpec {
                names: seq!["submodule"@],
                subs: seq![leaf_submodule_create(), leaf_submodule_list(), leaf_submodule_delete()],
            }),
            CommandSpec::Group(GroupSpec {
                names: seq!["file"@],
                subs: seq![leaf_file_create(), leaf_file_list(), leaf_file_delete()],
            }),
            CommandSpec::Group(GroupSpec {
                names: seq!["task"@],
                subs: seq![leaf_task_create(), leaf_task_update(), leaf_task_delete(), leaf_task_list()],
            }),
            CommandSpec::Group(GroupSpec {
                names: seq!["user-story"@],
                subs: seq![leaf_user_story_create(), leaf_user_story_list(), leaf_user_story_delete()],
            }),
            CommandSpec::Group(GroupSpec {
                names: seq!["epic"@],
                subs: seq![leaf_epic_create(), leaf_epic_list(), leaf_epic_delete()],
            }),
            CommandSpec::Group(GroupSpec {
                names: seq!["todo"@],
                subs: seq![leaf_todo_create(), leaf_todo_list(), leaf_todo_delete()],
            }),
            CommandSpec::Group(GroupSpec {
                names: seq!["config"@],
                subs: seq![leaf_config_show()],
            }),
            CommandSpec::Leaf(leaf_context()),
            CommandSpec::Leaf(leaf_link()),
            CommandSpec::Leaf(leaf_purge()),
        ],
    }
}

fn leaf_add_def() -> (l: LeafDef)
    ensures
        l@ =~~= leaf_add(),
{
    LeafDef {
        names: vec!["add"],
        opts: vec![
            OptDef { longs: vec!["field"], short: None, kind: OptKind::Multi },
            OptDef { longs: vec!["value"], short: None, kind: OptKind::Multi },
            OptDef { longs: vec!["link-to"], short: None, kind: OptKind::Multi },
        ],
        pos: Vec::new(),
        conflicts: Vec::new(),
        required: vec![0, 1],
        requires: Vec::new(),
        one_of: Vec::new(),
    }
}

fn leaf_project_create_def() -> (l: LeafDef)
    ensures
        l@ =~~= leaf_project_create(),
{
    LeafDef {
        names: vec!["add"],
        opts: Vec::new(),
        pos: vec![PosKind::Required, PosKind::Required],
        conflicts: Vec::new(),
        required: Vec::new(),
        requires: Vec::new(),
        one_of: Vec::new(),
    }
}

fn leaf_project_list_def() -> (l: LeafDef)
    ensures
        l@ =~~= leaf_project_list(),
{
    LeafDef {
        names: vec!["ls"],
        opts: Vec::new(),
        pos: Vec::new(),
        conflicts: Vec::new(),
        required: Vec::new(),
        requires: Vec::new(),
        one_of: Vec::new(),
    }
}

fn leaf_project_delete_def() -> (l: LeafDef)
    ensures
        l@ =~~= leaf_project_delete(),
{
    LeafDef {
        names: vec!["rm"],
        opts: Vec::new(),
        pos: vec![PosKind::Required],
        conflicts: Vec::new(),
        required: Vec::new(),
        requires: Vec::new(),
        one_of: Vec::new(),
    }
}

fn leaf_module_create_def() -> (l: LeafDef)
    ensures
        l@ =~~= leaf_module_create(),
{
    LeafDef {
        names: vec!["add"],
        opts: vec![
            OptDef { longs: vec!["project-ids"], short: None, kind: OptKind::Multi },
            OptDef { longs: vec!["project"], short: None, kind: OptKind::Single },
            OptDef { longs: vec!["notes"], short: None, kind: OptKind::Single },
        ],
        pos: vec![PosKind::Required, PosKind::Required],
        conflicts: vec![(0, 1)],
        required: Vec::new(),
        requires: Vec::new(),
        one_of: Vec::new(),
    }
}

fn leaf_module_list_def() -> (l: LeafDef)
    ensures
        l@ =~~= leaf_module_list(),
{
    LeafDef {
        names: vec!["ls"],
        opts: vec![
            OptDef { longs: vec!["project-id"], short: None, kind: OptKind::Single },
            OptDef { longs: vec!["project"], short: None, kind: OptKind::Single },
        ],
        pos: Vec::new(),
        conflicts: vec![(0, 1)],
        required: Vec::new(),
        requires: Vec::new(),
        one_of: Vec::new(),
    }
}

fn leaf_module_delete_def() -> (l: LeafDef)
    ensures
        l@ =~~= leaf_module_delete(),
{
    LeafDef {
        names: vec!["rm"],
        opts: Vec::new(),
        pos: vec![PosKind::Required],
        conflicts: Vec::new(),
        required: Vec::new(),
        requires: Vec::new(),
        one_of: Vec::new(),
    }
}

fn leaf_submodule_create_def() -> (l: LeafDef)
    ensures
        l@ =~~= leaf_submodule_create(),
{
    LeafDef {
        names: vec!["add"],
        opts: vec![
            OptDef { longs: vec!["module-ids"], short: None, kind: OptKind::Multi },
            OptDef { longs: vec!["notes"], short: None, kind: OptKind::Single },
        ],
        pos: vec![PosKind::Required, PosKind::Required],
        conflicts: Vec::new(),
        required: Vec::new(),
        requires: Vec::new(),
        one_of: Vec::new(),
    }
}

fn leaf_submodule_list_def() -> (l: LeafDef)
    ensures
        l@ =~~= leaf_submodule_list(),
{
    LeafDef {
        names: vec!["ls"],
        opts: vec![
            OptDef { longs: vec!["project-id"], short: None, kind: OptKind::Single },
            OptDef { longs: vec!["project"], short: None, kind: OptKind::Single },
            OptDef { longs: vec!["module-id"], short: None, kind: OptKind::Single },
        ],
        pos: Vec::new(),
        conflicts: vec![(0, 1)],
        required: Vec::new(),
        requires: Vec::new(),
        one_of: Vec::new(),
    }
}

fn leaf_submodule_delete_def() -> (l: LeafDef)
    ensures
        l@ =~~= leaf_submodule_delete(),
{
    LeafDef {
        names: vec!["rm"],
        opts: Vec::new(),
        pos: vec![PosKind::Required],
        conflicts: Vec::new(),
        required: Vec::new(),
        requires: Vec::new(),
        one_of: Vec::new(),
    }
}

fn leaf_file_create_def() -> (l: LeafDef)
    ensures
        l@ =~~= leaf_file_create(),
{
    LeafDef {
        names: vec!["add"],
        opts: vec![
            OptDef { longs: vec!["parent-ids"], short: None, kind: OptKind::Multi },
            OptDef { longs: vec!["notes"], short: None, kind: OptKind::Single },
        ],
        pos: vec![PosKind::Required, PosKind::Required, PosKind::Optional],
        conflicts: Vec::new(),
        required: Vec::new(),
        requires: Vec::new(),
        one_of: Vec::new(),
    }
}

fn leaf_file_list_def() -> (l: LeafDef)
    ensures
        l@ =~~= leaf_file_list(),
{
    LeafDef {
        names: vec!["ls"],
        opts: vec![
            OptDef { longs: vec!["project-id"], short: None, kind: OptKind::Single },
            OptDef { longs: vec!["project"], short: None, kind: OptKind::Single },
            OptDef { longs: vec!["module-id"], short: None, kind: OptKind::Single },
            OptDef { longs: vec!["submodule-id"], short: None, kind: OptKind::Single },
        ],
        pos: Vec::new(),
        conflicts: vec![(0, 1), (2, 3)],
        required: Vec::new(),
        requires: Vec::new(),
        one_of: Vec::new(),
    }
}

fn leaf_file_delete_def() -> (l: LeafDef)
    ensures
        l@ =~~= leaf_file_delete(),
{
    LeafDef {
        names: vec!["rm"],
        opts: Vec::new(),
        pos: vec![PosKind::Required],
        conflicts: Vec::new(),
        required: Vec::new(),
        requires: Vec::new(),
        one_of: Vec::new(),
    }
}

fn leaf_task_create_def() -> (l: LeafDef)
    ensures
        l@ =~~= leaf_task_create(),
{
    LeafDef {
        names: vec!["add"],
        opts: vec![
            OptDef { longs: vec!["module-ids"], short: None, kind: OptKind::Multi },
            OptDef { longs: vec!["project-ids"], short: None, kind: OptKind::Multi },
            OptDef { longs: vec!["project"], short: None, kind: OptKind::Single },
            OptDef { longs: vec!["user-story-ids"], short: None, kind: OptKind::Multi },
            OptDef { longs: vec!["epic-ids"], short: None, kind: OptKind::Multi },
        ],
        pos: vec![PosKind::Required, PosKind::Required],
        conflicts: vec![(1, 2)],
        required: Vec::new(),
        requires: Vec::new(),
        one_of: Vec::new(),
    }
}

fn leaf_task_update_def() -> (l: LeafDef)
    ensures
        l@ =~~= leaf_task_update(),
{
    LeafDef {
        names: vec!["update"],
        opts: vec![
            OptDef { longs: vec!["name"], short: None, kind: OptKind::Single },
            OptDef { longs: vec!["description"], short: None, kind: OptKind::Single },
            OptDef { longs: vec!["status"], short: None, kind: OptKind::Single },
        ],
        pos: vec![PosKind::Required],
        conflicts: Vec::new(),
        required: Vec::new(),
        requires: Vec::new(),
        one_of: Vec::new(),
    }
}

fn leaf_task_delete_def() -> (l: LeafDef)
    ensures
        l@ =~~= leaf_task_delete(),
{
    LeafDef {
        names: vec!["rm"],
        opts: Vec::new(),
        pos: vec![PosKind::Required],
        conflicts: Vec::new(),
        required: Vec::new(),
        requires: Vec::new(),
        one_of: Vec::new(),
    }
}

fn leaf_task_list_def() -> (l: LeafDef)
    ensures
        l@ =~~= leaf_task_list(),
{
    LeafDef {
        names: vec!["ls"],
        opts: vec![
            OptDef { longs: vec!["project-id"], short: None, kind: OptKind::Single },
            OptDef { longs: vec!["project"], short: None, kind: OptKind::Single },
        ],
        pos: Vec::new(),
        conflicts: vec![(0, 1)],
        required: Vec::new(),
        requires: Vec::new(),
        one_of: Vec::new(),
    }
}

fn leaf_user_story_create_def() -> (l: LeafDef)
    ensures
        l@ =~~= leaf_user_story_create(),
{
    LeafDef {
        names: vec!["add"],
        opts: vec![
            OptDef { longs: vec!["project-id"], short: None, kind: OptKind::Single },
            OptDef { longs: vec!["project"], short: None, kind: OptKind::Single },
            OptDef { longs: vec!["epic-ids"], short: None, kind: OptKind::Multi },
        ],
        pos: vec![PosKind::Required, PosKind::Required],
        conflicts: vec![(0, 1)],
        required: Vec::new(),
        requires: Vec::new(),
        one_of: Vec::new(),
    }
}

fn leaf_user_story_list_def() -> (l: LeafDef)
    ensures
        l@ =~~= leaf_user_story_list(),
{
    LeafDef {
        names: vec!["ls"],
        opts: vec![
            OptDef { longs: vec!["project-id"], short: None, kind: OptKind::Single },
            OptDef { longs: vec!["project"], short: None, kind: OptKind::Single },
            OptDef { longs: vec!["epic-id"], short: None, kind: OptKind::Single },
        ],
        pos: Vec::new(),
        conflicts: vec![(0, 1)],
        required: Vec::new(),
        requires: Vec::new(),
        one_of: Vec::new(),
    }
}

fn leaf_user_story_delete_def() -> (l: LeafDef)
    ensures
        l@ =~~= leaf_user_story_delete(),
{
    LeafDef {
        names: vec!["rm"],
        opts: Vec::new(),
        pos: vec![PosKind::Required],
        conflicts: Vec::new(),
        required: Vec::new(),
        requires: Vec::new(),
        one_of: Vec::new(),
    }
}

fn leaf_epic_create_def() -> (l: LeafDef)
    ensures
        l@ =~~= leaf_epic_create(),
{
    LeafDef {
        names: vec!["add"],
        opts: vec![
            OptDef { longs: vec!["project-id"], short: None, kind: OptKind::Single },
            OptDef { longs: vec!["project"], short: None, kind: OptKind::Single },
        ],
        pos: vec![PosKind::Required, PosKind::Required],
        conflicts: vec![(0, 1)],
        required: Vec::new(),
        requires: Vec::new(),
        one_of: Vec::new(),
    }
}

fn leaf_epic_list_def() -> (l: LeafDef)
    ensures
        l@ =~~= leaf_epic_list(),
{
    LeafDef {
        names: vec!["ls"],
        opts: vec![
            OptDef { longs: vec!["project-id"], short: None, kind: OptKind::Single },
            OptDef { longs: vec!["project"], short: None, kind: OptKind::Single },
        ],
        pos: Vec::new(),
        conflicts: vec![(0, 1)],
        required: Vec::new(),
        requires: Vec::new(),
        one_of: Vec::new(),
    }
}

fn leaf_epic_delete_def() -> (l: LeafDef)
    ensures
        l@ =~~= leaf_epic_delete(),
{
    LeafDef {
        names: vec!["rm"],
        opts: Vec::new(),
        pos: vec![PosKind::Required],
        conflicts: Vec::new(),
        required: Vec::new(),
        requires: Vec::new(),
        one_of: Vec::new(),
    }
}

fn leaf_todo_create_def() -> (l: LeafDef)
    ensures
        l@ =~~= leaf_todo_create(),
{
    LeafDef {
        names: vec!["add"],
        opts: vec![
            OptDef { longs: vec!["project-ids"], short: None, kind: OptKind::Multi },
            OptDef { longs: vec!["project"], short: None, kind: OptKind::Single },
        ],
        pos: vec![PosKind::Required],
        conflicts: vec![(0, 1)],
        required: Vec::new(),
        requires: Vec::new(),
        one_of: Vec::new(),
    }
}

fn leaf_todo_list_def() -> (l: LeafDef)
    ensures
        l@ =~~= leaf_todo_list(),
{
    LeafDef {
        names: vec!["ls"],
        opts: vec![
            OptDef { longs: vec!["project-id"], short: None, kind: OptKind::Single },
            OptDef { longs: vec!["project"], short: None, kind: OptKind::Single },
        ],
        pos: Vec::new(),
        conflicts: vec![(0, 1)],
        required: Vec::new(),
        requires: Vec::new(),
        one_of: Vec::new(),
    }
}

fn leaf_todo_delete_def() -> (l: LeafDef)
    ensures
        l@ =~~= leaf_todo_delete(),
{
    LeafDef {
        names: vec!["rm"],
        opts: Vec::new(),
        pos: vec![PosKind::Required],
        conflicts: Vec::new(),
        required: Vec::new(),
        requires: Vec::new(),
        one_of: Vec::new(),
    }
}

fn leaf_config_show_def() -> (l: LeafDef)
    ensures
        l@ =~~= leaf_config_show(),
{
    LeafDef {
        names: vec!["show"],
        opts: Vec::new(),
        pos: Vec::new(),
        conflicts: Vec::new(),
        required: Vec::new(),
        requires: Vec::new(),
        one_of: Vec::new(),
    }
}

fn leaf_context_def() -> (l: LeafDef)
    ensures
        l@ =~~= leaf_context(),
{
    LeafDef {
        names: vec!["ctx"],
        opts: vec![
            OptDef { longs: vec!["task-id"], short: None, kind: OptKind::Single },
            OptDef { longs: vec!["file-id"], short: None, kind: OptKind::Single },
            OptDef { longs: vec!["epic-id"], short: None, kind: OptKind::Single },
            OptDef { longs: vec!["full"], short: None, kind: OptKind::Flag },
        ],
        pos: Vec::new(),
        conflicts: vec![(0, 1), (0, 2), (1, 2)],
        required: Vec::new(),
        requires: Vec::new(),
        one_of: Vec::new(),
    }
}

fn leaf_link_def() -> (l: LeafDef)
    ensures
        l@ =~~= leaf_link(),
{
    LeafDef {
        names: vec!["link"],
        opts: vec![
            OptDef { longs: vec!["from-id"], short: None, kind: OptKind::Single },
            OptDef { longs: vec!["edge"], short: None, kind: OptKind::Single },
            OptDef { longs: vec!["to-ids"], short: None, kind: OptKind::Multi },
        ],
        pos: Vec::new(),
        conflicts: Vec::new(),
        required: vec![0, 1],
        requires: Vec::new(),
        one_of: Vec::new(),
    }
}

fn leaf_purge_def() -> (l: LeafDef)
    ensures
        l@ =~~= leaf_purge(),
{
    LeafDef {
        names: vec!["purge"],
        opts: Vec::new(),
        pos: Vec::new(),
        conflicts: Vec::new(),
        required: Vec::new(),
        requires: Vec::new(),
        one_of: Vec::new(),
    }
}

fn global_opts_def() -> (v: Vec<OptDef>)
    ensures
        cli::opts_view(v@) =~~= global_opts(),
{
    vec![
        OptDef { longs: vec!["backend"], short: None, kind: OptKind::Single },
        OptDef { longs: vec!["pretty"], short: None, kind: OptKind::Flag },
        OptDef { longs: vec!["ignore-case"], short: Some('i'), kind: OptKind::Flag },
    ]
}

/// Builds the grammar as data for the parser.
pub fn build_grammar() -> (g: Grammar)
    ensures
        g@ =~~= grammar(),
{
    Grammar {
        globals: global_opts_def(),
        commands: vec![
            CommandDef::Leaf(leaf_add_def()),
            CommandDef::Group(GroupDef {
                names: vec!["project"],
                subs: vec![leaf_project_create_def(), leaf_project_list_def(), leaf_project_delete_def()],
            }),
            CommandDef::Group(GroupDef {
                names: vec!["module"],
                subs: vec![leaf_module_create_def(), leaf_module_list_def(), leaf_module_delete_def()],
            }),
            CommandDef::Group(GroupDef {
                names: vec!["submodule"],
                subs: vec![leaf_submodule_create_def(), leaf_submodule_list_def(), leaf_submodule_delete_def()],
            }),
            CommandDef::Group(GroupDef {
                names: vec!["file"],
                subs: vec![leaf_file_create_def(), leaf_file_list_def(), leaf_file_delete_def()],
            }),
            CommandDef::Group(GroupDef {
                names: vec!["task"],
                subs: vec![leaf_task_create_def(), leaf_task_update_def(), leaf_task_delete_def(), leaf_task_list_def()],
            }),
            CommandDef::Group(GroupDef {
                names: vec!["user-story"],
                subs: vec![leaf_user_story_create_def(), leaf_user_story_list_def(), leaf_user_story_delete_def()],
            }),
            CommandDef::Group(GroupDef {
                names: vec!["epic"],
                subs: vec![leaf_epic_create_def(), leaf_epic_list_def(), leaf_epic_delete_def()],
            }),
            CommandDef::Group(GroupDef {
                names: vec!["todo"],
                subs: vec![leaf_todo_create_def(), leaf_todo_list_def(), leaf_todo_delete_def()],
            }),
            CommandDef::Group(GroupDef {
                names: vec!["config"],
                subs: vec![leaf_config_show_def()],
            }),
            CommandDef::Leaf(leaf_context_def()),
            CommandDef::Leaf(leaf_link_def()),
            CommandDef::Leaf(leaf_purge_def()),
        ],
    }
}

// ---------------------------------------------------------------------------
// The typed commands
// ---------------------------------------------------------------------------

/// Subcommands of `project`.
#[derive(Debug)]
pub enum ProjectCommands {
    Create {
        name: String,
        description: String,
    },
    List,
    Delete {
        project_id: String,
    },
}

/// Subcommands of `module`.
#[derive(Debug)]
pub enum ModuleCommands {
    Create {
        project_ids: Vec<String>,
        project: Option<String>,
        name: String,
        description: String,
        notes: Option<String>,
    },
    List {
        project_id: Option<String>,
        project: Option<String>,
    },
    Delete {
        module_id: String,
    },
}

/// Subcommands of `submodule`.
#[derive(Debug)]
pub enum SubmoduleCommands {
    Create {
        module_ids: Vec<String>,
        name: String,
        description: String,
        notes: Option<String>,
    },
    List {
        project_id: Option<String>,
        project: Option<String>,
        module_id: Option<String>,
    },
    Delete {
        submodule_id: String,
    },
}

/// Subcommands of `file`.
#[derive(Debug)]
pub enum FileCommands {
    Create {
        parent_ids: Vec<String>,
        name: String,
        path: String,
        description: Option<String>,
        notes: Option<String>,
    },
    List {
        project_id: Option<String>,
        project: Option<String>,
        module_id: Option<String>,
        submodule_id: Option<String>,
    },
    Delete {
        file_id: String,
    },
}

/// Subcommands of `task`.
#[derive(Debug)]
pub enum TaskCommands {
    Create {
        module_ids: Vec<String>,
        project_ids: Vec<String>,
        project: Option<String>,
        user_story_ids: Vec<String>,
        epic_ids: Vec<String>,
        name: String,
        description: String,
    },
    Update {
        task_id: String,
        name: Option<String>,
        description: Option<String>,
        status: Option<String>,
    },
    Delete {
        task_id: String,
    },
    List {
        project_id: Option<String>,
        project: Option<String>,
    },
}

/// Subcommands of `user-story`.
#[derive(Debug)]
pub enum UserStoryCommands {
    Create {
        project_id: Option<String>,
        project: Option<String>,
        epic_ids: Vec<String>,
        title: String,
        description: String,
    },
    List {
        project_id: Option<String>,
        project: Option<String>,
        epic_id: Option<String>,
    },
    Delete {
        user_story_id: String,
    },
}

/// Subcommands of `epic`.
#[derive(Debug)]
pub enum EpicCommands {
    Create {
        project_id: Option<String>,
        project: Option<String>,
        title: String,
        description: String,
    },
    List {
        project_id: Option<String>,
        project: Option<String>,
    },
    Delete {
        epic_id: String,
    },
}

/// Subcommands of `todo`.
#[derive(Debug)]
pub enum TodoCommands {
    Create {
        project_ids: Vec<String>,
        project: Option<String>,
        content: String,
    },
    List {
        project_id: Option<String>,
        project: Option<String>,
    },
    Delete {
        todo_id: String,
    },
}

/// Subcommands of `config`.
#[derive(Debug)]
pub enum ConfigCommands {
    Show,
}

/// The commands.
#[derive(Debug)]
pub enum Commands {
    Add {
        field_names: Vec<String>,
        field_values: Vec<String>,
        link_to: Vec<String>,
    },
    Project {
        command: ProjectCommands,
    },
    Module {
        command: ModuleCommands,
    },
    Submodule {
        command: SubmoduleCommands,
    },
    File {
        command: FileCommands,
    },
    Task {
        command: TaskCommands,
    },
    UserStory {
        command: UserStoryCommands,
    },
    Epic {
        command: EpicCommands,
    },
    Todo {
        command: TodoCommands,
    },
    Config {
        command: ConfigCommands,
    },
    Context {
        task_id: Option<String>,
        file_id: Option<String>,
        epic_id: Option<String>,
        full: bool,
    },
    Link {
        from_id: String,
        edge: String,
        to_ids: Vec<String>,
    },
    Purge,
}

/// A parsed command line.
#[derive(Debug)]
pub struct Args {
    pub backend: Option<String>,
    pub pretty: bool,
    pub ignore_case: bool,
    pub command: Commands,
}

/// `c` is the `project` subcommand that the parse `p` selects, with its arguments.
pub open spec fn project_commands_match(c: ProjectCommands, p: ParsedSpec) -> bool {
    match c {
        ProjectCommands::Create { name, description } => {
            &&& p.sub == 0
            &&& name@ == p.pos[0]
            &&& description@ == p.pos[1]
        },
        ProjectCommands::List => {
            &&& p.sub == 1
        },
        ProjectCommands::Delete { project_id } => {
            &&& p.sub == 2
            &&& project_id@ == p.pos[0]
        },
    }
}

/// `c` is the `module` subcommand that the parse `p` selects, with its arguments.
pub open spec fn module_commands_match(c: ModuleCommands, p: ParsedSpec) -> bool {
    match c {
        ModuleCommands::Create { project_ids, project, name, description, notes } => {
            &&& p.sub == 0
            &&& project_ids.deep_view() == p.opts[0]
            &&& cli::opt_string_view(project) == cli::single_at(p.opts, 1)
            &&& name@ == p.pos[0]
            &&& description@ == p.pos[1]
            &&& cli::opt_string_view(notes) == cli::single_at(p.opts, 2)
        },
        ModuleCommands::List { project_id, project } => {
            &&& p.sub == 1
            &&& cli::opt_string_view(project_id) == cli::single_at(p.opts, 0)
            &&& cli::opt_string_view(project) == cli::single_at(p.opts, 1)
        },
        ModuleCommands::Delete { module_id } => {
            &&& p.sub == 2
            &&& module_id@ == p.pos[0]
        },
    }
}

/// `c` is the `submodule` subcommand that the parse `p` selects, with its arguments.
pub open spec fn submodule_commands_match(c: SubmoduleCommands, p: ParsedSpec) -> bool {
    match c {
        SubmoduleCommands::Create { module_ids, name, description, notes } => {
            &&& p.sub == 0
            &&& module_ids.deep_view() == p.opts[0]
            &&& name@ == p.pos[0]
            &&& description@ == p.pos[1]
            &&& cli::opt_string_view(notes) == cli::single_at(p.opts, 1)
        },
        SubmoduleCommands::List { project_id, project, module_id } => {
            &&& p.sub == 1
            &&& cli::opt_string_view(project_id) == cli::single_at(p.opts, 0)
            &&& cli::opt_string_view(project) == cli::single_at(p.opts, 1)
            &&& cli::opt_string_view(module_id) == cli::single_at(p.opts, 2)
        },
        SubmoduleCommands::Delete { submodule_id } => {
            &&& p.sub == 2
            &&& submodule_id@ == p.pos[0]
        },
    }
}

/// `c` is the `file` subcommand that the parse `p` selects, with its arguments.
pub open spec fn file_commands_match(c: FileCommands, p: ParsedSpec) -> bool {
    match c {
        FileCommands::Create { parent_ids, name, path, description, notes } => {
            &&& p.sub == 0
            &&& parent_ids.deep_view() == p.opts[0]
            &&& name@ == p.pos[0]
            &&& path@ == p.pos[1]
            &&& cli::opt_string_view(description) == cli::pos_opt(p.pos, 2)
            &&& cli::opt_string_view(notes) == cli::single_at(p.opts, 1)
        },
        FileCommands::List { project_id, project, module_id, submodule_id } => {
            &&& p.sub == 1
            &&& cli::opt_string_view(project_id) == cli::single_at(p.opts, 0)
            &&& cli::opt_string_view(project) == cli::single_at(p.opts, 1)
            &&& cli::opt_string_view(module_id) == cli::single_at(p.opts, 2)
            &&& cli::opt_string_view(submodule_id) == cli::single_at(p.opts, 3)
        },
        FileCommands::Delete { file_id } => {
            &&& p.sub == 2
            &&& file_id@ == p.pos[0]
        },
    }
}

/// `c` is the `task` subcommand that the parse `p` selects, with its arguments.
pub open spec fn task_commands_match(c: TaskCommands, p: ParsedSpec) -> bool {
    match c {
        TaskCommands::Create { module_ids, project_ids, project, user_story_ids, epic_ids, name, description } => {
            &&& p.sub == 0
            &&& module_ids.deep_view() == p.opts[0]
            &&& project_ids.deep_view() == p.opts[1]
            &&& cli::opt_string_view(project) == cli::single_at(p.opts, 2)
            &&& user_story_ids.deep_view() == p.opts[3]
            &&& epic_ids.deep_view() == p.opts[4]
            &&& name@ == p.pos[0]
            &&& description@ == p.pos[1]
        },
        TaskCommands::Update { task_id, name, description, status } => {
            &&& p.sub == 1
            &&& task_id@ == p.pos[0]
            &&& cli::opt_string_view(name) == cli::single_at(p.opts, 0)
            &&& cli::opt_string_view(description) == cli::single_at(p.opts, 1)
            &&& cli::opt_string_view(status) == cli::single_at(p.opts, 2)
        },
        TaskCommands::Delete { task_id } => {
            &&& p.sub == 2
            &&& task_id@ == p.pos[0]
        },
        TaskCommands::List { project_id, project } => {
            &&& p.sub == 3
            &&& cli::opt_string_view(project_id) == cli::single_at(p.opts, 0)
            &&& cli::opt_string_view(project) == cli::single_at(p.opts, 1)
        },
    }
}

/// `c` is the `user-story` subcommand that the parse `p` selects, with its arguments.
pub open spec fn user_story_commands_match(c: UserStoryCommands, p: ParsedSpec) -> bool {
    match c {
        UserStoryCommands::Create { project_id, project, epic_ids, title, description } => {
            &&& p.sub == 0
            &&& cli::opt_string_view(project_id) == cli::single_at(p.opts, 0)
            &&& cli::opt_string_view(project) == cli::single_at(p.opts, 1)
            &&& epic_ids.deep_view() == p.opts[2]
            &&& title@ == p.pos[0]
            &&& description@ == p.pos[1]
        },
        UserStoryCommands::List { project_id, project, epic_id } => {
            &&& p.sub == 1
            &&& cli::opt_string_view(project_id) == cli::single_at(p.opts, 0)
            &&& cli::opt_string_view(project) == cli::single_at(p.opts, 1)
            &&& cli::opt_string_view(epic_id) == cli::single_at(p.opts, 2)
        },
        UserStoryCommands::Delete { user_story_id } => {
            &&& p.sub == 2
            &&& user_story_id@ == p.pos[0]
        },
    }
}

/// `c` is the `epic` subcommand that the parse `p` selects, with its arguments.
pub open spec fn epic_commands_match(c: EpicCommands, p: ParsedSpec) -> bool {
    match c {
        EpicCommands::Create { project_id, project, title, description } => {
            &&& p.sub == 0
            &&& cli::opt_string_view(project_id) == cli::single_at(p.opts, 0)
            &&& cli::opt_string_view(project) == cli::single_at(p.opts, 1)
            &&& title@ == p.pos[0]
            &&& description@ == p.pos[1]
        },
        EpicCommands::List { project_id, project } => {
            &&& p.sub == 1
            &&& cli::opt_string_view(project_id) == cli::single_at(p.opts, 0)
            &&& cli::opt_string_view(project) == cli::single_at(p.opts, 1)
        },
        EpicCommands::Delete { epic_id } => {
            &&& p.sub == 2
            &&& epic_id@ == p.pos[0]
        },
    }
}

/// `c` is the `todo` subcommand that the parse `p` selects, with its arguments.
pub open spec fn todo_commands_match(c: TodoCommands, p: ParsedSpec) -> bool {
    match c {
        TodoCommands::Create { project_ids, project, content } => {
            &&& p.sub == 0
            &&& project_ids.deep_view() == p.opts[0]
            &&& cli::opt_string_view(project) == cli::single_at(p.opts, 1)
            &&& content@ == p.pos[0]
        },
        TodoCommands::List { project_id, project } => {
            &&& p.sub == 1
            &&& cli::opt_string_view(project_id) == cli::single_at(p.opts, 0)
            &&& cli::opt_string_view(project) == cli::single_at(p.opts, 1)
        },
        TodoCommands::Delete { todo_id } => {
            &&& p.sub == 2
            &&& todo_id@ == p.pos[0]
        },
    }
}

/// `c` is the `config` subcommand that the parse `p` selects, with its arguments.
pub open spec fn config_commands_match(c: ConfigCommands, p: ParsedSpec) -> bool {
    match c {
        ConfigCommands::Show => {
            &&& p.sub == 0
        },
    }
}

/// `c` is the command that the parse `p` selects, with its arguments.
pub open spec fn commands_match(c: Commands, p: ParsedSpec) -> bool {
    match c {
        Commands::Add { field_names, field_values, link_to } => {
            &&& p.command == 0
            &&& p.sub == 0
            &&& field_names.deep_view() == p.opts[0]
            &&& field_values.deep_view() == p.opts[1]
            &&& link_to.deep_view() == p.opts[2]
        },
        Commands::Project { command } => p.command == 1 && project_commands_match(command, p),
        Commands::Module { command } => p.command == 2 && module_commands_match(command, p),
        Commands::Submodule { command } => p.command == 3 && submodule_commands_match(command, p),
        Commands::File { command } => p.command == 4 && file_commands_match(command, p),
        Commands::Task { command } => p.command == 5 && task_commands_match(command, p),
        Commands::UserStory { command } => p.command == 6 && user_story_commands_match(command, p),
        Commands::Epic { command } => p.command == 7 && epic_commands_match(command, p),
        Commands::Todo { command } => p.command == 8 && todo_commands_match(command, p),
        Commands::Config { command } => p.command == 9 && config_commands_match(command, p),
        Commands::Context { task_id, file_id, epic_id, full } => {
            &&& p.command == 10
            &&& p.sub == 0
            &&& cli::opt_string_view(task_id) == cli::single_at(p.opts, 0)
            &&& cli::opt_string_view(file_id) == cli::single_at(p.opts, 1)
            &&& cli::opt_string_view(epic_id) == cli::single_at(p.opts, 2)
            &&& full == cli::flag_at(p.opts, 3)
        },
        Commands::Link { from_id, edge, to_ids } => {
            &&& p.command == 11
            &&& p.sub == 0
            &&& from_id@ == p.opts[0][0]
            &&& edge@ == p.opts[1][0]
            &&& to_ids.deep_view() == p.opts[2]
        },
        Commands::Purge => {
            &&& p.command == 12
            &&& p.sub == 0
        },
    }
}

/// `a` is the command line that the parse `p` describes.
pub open spec fn args_match(a: Args, p: ParsedSpec) -> bool {
    &&& cli::opt_string_view(a.backend) == cli::single_at(p.globals, 0)
    &&& a.pretty == cli::flag_at(p.globals, 1)
    &&& a.ignore_case == cli::flag_at(p.globals, 2)
    &&& commands_match(a.command, p)
}

fn build_add(p: &Parsed) -> (r: Commands)
    requires
        p@.command == 0,
        p@.sub == 0,
        cli::leaf_ok(leaf_add(), p@),
    ensures
        commands_match(r, p@),
{
    proof {
        assert(leaf_add().required[0] == 0usize);
        assert(cli::present(p@.opts, 0usize));
        assert(leaf_add().required[1] == 1usize);
        assert(cli::present(p@.opts, 1usize));
    }
    Commands::Add {
        field_names: multi_at_exec(&p.opts, 0),
        field_values: multi_at_exec(&p.opts, 1),
        link_to: multi_at_exec(&p.opts, 2),
    }
}

fn build_project_create(p: &Parsed) -> (r: ProjectCommands)
    requires
        p@.sub == 0,
        cli::leaf_ok(leaf_project_create(), p@),
    ensures
        project_commands_match(r, p@),
{
    proof {
        reveal_with_fuel(cli::pos_min, 4);
    }
    ProjectCommands::Create {
        name: pos_at_exec(&p.pos, 0),
        description: pos_at_exec(&p.pos, 1),
    }
}

fn build_project_list(p: &Parsed) -> (r: ProjectCommands)
    requires
        p@.sub == 1,
        cli::leaf_ok(leaf_project_list(), p@),
    ensures
        project_commands_match(r, p@),
{
    ProjectCommands::List
}

fn build_project_delete(p: &Parsed) -> (r: ProjectCommands)
    requires
        p@.sub == 2,
        cli::leaf_ok(leaf_project_delete(), p@),
    ensures
        project_commands_match(r, p@),
{
    proof {
        reveal_with_fuel(cli::pos_min, 3);
    }
    ProjectCommands::Delete {
        project_id: pos_at_exec(&p.pos, 0),
    }
}

fn build_module_create(p: &Parsed) -> (r: ModuleCommands)
    requires
        p@.sub == 0,
        cli::leaf_ok(leaf_module_create(), p@),
    ensures
        module_commands_match(r, p@),
{
    proof {
        reveal_with_fuel(cli::pos_min, 4);
    }
    ModuleCommands::Create {
        project_ids: multi_at_exec(&p.opts, 0),
        project: single_at_exec(&p.opts, 1),
        name: pos_at_exec(&p.pos, 0),
        description: pos_at_exec(&p.pos, 1),
        notes: single_at_exec(&p.opts, 2),
    }
}

fn build_module_list(p: &Parsed) -> (r: ModuleCommands)
    requires
        p@.sub == 1,
        cli::leaf_ok(leaf_module_list(), p@),
    ensures
        module_commands_match(r, p@),
{
    ModuleCommands::List {
        project_id: single_at_exec(&p.opts, 0),
        project: single_at_exec(&p.opts, 1),
    }
}

fn build_module_delete(p: &Parsed) -> (r: ModuleCommands)
    requires
        p@.sub == 2,
        cli::leaf_ok(leaf_module_delete(), p@),
    ensures
        module_commands_match(r, p@),
{
    proof {
        reveal_with_fuel(cli::pos_min, 3);
    }
    ModuleCommands::Delete {
        module_id: pos_at_exec(&p.pos, 0),
    }
}

fn build_submodule_create(p: &Parsed) -> (r: SubmoduleCommands)
    requires
        p@.sub == 0,
        cli::leaf_ok(leaf_submodule_create(), p@),
    ensures
        submodule_commands_match(r, p@),
{
    proof {
        reveal_with_fuel(cli::pos_min, 4);
    }
    SubmoduleCommands::Create {
        module_ids: multi_at_exec(&p.opts, 0),
        name: pos_at_exec(&p.pos, 0),
        description: pos_at_exec(&p.pos, 1),
        notes: single_at_exec(&p.opts, 1),
    }
}

fn build_submodule_list(p: &Parsed) -> (r: SubmoduleCommands)
    requires
        p@.sub == 1,
        cli::leaf_ok(leaf_submodule_list(), p@),
    ensures
        submodule_commands_match(r, p@),
{
    SubmoduleCommands::List {
        project_id: single_at_exec(&p.opts, 0),
        project: single_at_exec(&p.opts, 1),
        module_id: single_at_exec(&p.opts, 2),
    }
}

fn build_submodule_delete(p: &Parsed) -> (r: SubmoduleCommands)
    requires
        p@.sub == 2,
        cli::leaf_ok(leaf_submodule_delete(), p@),
    ensures
        submodule_commands_match(r, p@),
{
    proof {
        reveal_with_fuel(cli::pos_min, 3);
    }
    SubmoduleCommands::Delete {
        submodule_id: pos_at_exec(&p.pos, 0),
    }
}

fn build_file_create(p: &Parsed) -> (r: FileCommands)
    requires
        p@.sub == 0,
        cli::leaf_ok(leaf_file_create(), p@),
    ensures
        file_commands_match(r, p@),
{
    proof {
        reveal_with_fuel(cli::pos_min, 5);
    }
    FileCommands::Create {
        parent_ids: multi_at_exec(&p.opts, 0),
        name: pos_at_exec(&p.pos, 0),
        path: pos_at_exec(&p.pos, 1),
        description: pos_opt_exec(&p.pos, 2),
        notes: single_at_exec(&p.opts, 1),
    }
}

fn build_file_list(p: &Parsed) -> (r: FileCommands)
    requires
        p@.sub == 1,
        cli::leaf_ok(leaf_file_list(), p@),
    ensures
        file_commands_match(r, p@),
{
    FileCommands::List {
        project_id: single_at_exec(&p.opts, 0),
        project: single_at_exec(&p.opts, 1),
        module_id: single_at_exec(&p.opts, 2),
        submodule_id: single_at_exec(&p.opts, 3),
    }
}

fn build_file_delete(p: &Parsed) -> (r: FileCommands)
    requires
        p@.sub == 2,
        cli::leaf_ok(leaf_file_delete(), p@),
    ensures
        file_commands_match(r, p@),
{
    proof {
        reveal_with_fuel(cli::pos_min, 3);
    }
    FileCommands::Delete {
        file_id: pos_at_exec(&p.pos, 0),
    }
}

fn build_task_create(p: &Parsed) -> (r: TaskCommands)
    requires
        p@.sub == 0,
        cli::leaf_ok(leaf_task_create(), p@),
    ensures
        task_commands_match(r, p@),
{
    proof {
        reveal_with_fuel(cli::pos_min, 4);
    }
    TaskCommands::Create {
        module_ids: multi_at_exec(&p.opts, 0),
        project_ids: multi_at_exec(&p.opts, 1),
        project: single_at_exec(&p.opts, 2),
        user_story_ids: multi_at_exec(&p.opts, 3),
        epic_ids: multi_at_exec(&p.opts, 4),
        name: pos_at_exec(&p.pos, 0),
        description: pos_at_exec(&p.pos, 1),
    }
}

fn build_task_update(p: &Parsed) -> (r: TaskCommands)
    requires
        p@.sub == 1,
        cli::leaf_ok(leaf_task_update(), p@),
    ensures
        task_commands_match(r, p@),
{
    proof {
        reveal_with_fuel(cli::pos_min, 3);
    }
    TaskCommands::Update {
        task_id: pos_at_exec(&p.pos, 0),
        name: single_at_exec(&p.opts, 0),
        description: single_at_exec(&p.opts, 1),
        status: single_at_exec(&p.opts, 2),
    }
}

fn build_task_delete(p: &Parsed) -> (r: TaskCommands)
    requires
        p@.sub == 2,
        cli::leaf_ok(leaf_task_delete(), p@),
    ensures
        task_commands_match(r, p@),
{
    proof {
        reveal_with_fuel(cli::pos_min, 3);
    }
    TaskCommands::Delete {
        task_id: pos_at_exec(&p.pos, 0),
    }
}

fn build_task_list(p: &Parsed) -> (r: TaskCommands)
    requires
        p@.sub == 3,
        cli::leaf_ok(leaf_task_list(), p@),
    ensures
        task_commands_match(r, p@),
{
    TaskCommands::List {
        project_id: single_at_exec(&p.opts, 0),
        project: single_at_exec(&p.opts, 1),
    }
}

fn build_user_story_create(p: &Parsed) -> (r: UserStoryCommands)
    requires
        p@.sub == 0,
        cli::leaf_ok(leaf_user_story_create(), p@),
    ensures
        user_story_commands_match(r, p@),
{
    proof {
        reveal_with_fuel(cli::pos_min, 4);
    }
    UserStoryCommands::Create {
        project_id: single_at_exec(&p.opts, 0),
        project: single_at_exec(&p.opts, 1),
        epic_ids: multi_at_exec(&p.opts, 2),
        title: pos_at_exec(&p.pos, 0),
        description: pos_at_exec(&p.pos, 1),
    }
}

fn build_user_story_list(p: &Parsed) -> (r: UserStoryCommands)
    requires
        p@.sub == 1,
        cli::leaf_ok(leaf_user_story_list(), p@),
    ensures
        user_story_commands_match(r, p@),
{
    UserStoryCommands::List {
        project_id: single_at_exec(&p.opts, 0),
        project: single_at_exec(&p.opts, 1),
        epic_id: single_at_exec(&p.opts, 2),
    }
}

fn build_user_story_delete(p: &Parsed) -> (r: UserStoryCommands)
    requires
        p@.sub == 2,
        cli::leaf_ok(leaf_user_story_delete(), p@),
    ensures
        user_story_commands_match(r, p@),
{
    proof {
        reveal_with_fuel(cli::pos_min, 3);
    }
    UserStoryCommands::Delete {
        user_story_id: pos_at_exec(&p.pos, 0),
    }
}

fn build_epic_create(p: &Parsed) -> (r: EpicCommands)
    requires
        p@.sub == 0,
        cli::leaf_ok(leaf_epic_create(), p@),
    ensures
        epic_commands_match(r, p@),
{
    proof {
        reveal_with_fuel(cli::pos_min, 4);
    }
    EpicCommands::Create {
        project_id: single_at_exec(&p.opts, 0),
        project: single_at_exec(&p.opts, 1),
        title: pos_at_exec(&p.pos, 0),
        description: pos_at_exec(&p.pos, 1),
    }
}

fn build_epic_list(p: &Parsed) -> (r: EpicCommands)
    requires
        p@.sub == 1,
        cli::leaf_ok(leaf_epic_list(), p@),
    ensures
        epic_commands_match(r, p@),
{
    EpicCommands::List {
        project_id: single_at_exec(&p.opts, 0),
        project: single_at_exec(&p.opts, 1),
    }
}

fn build_epic_delete(p: &Parsed) -> (r: EpicCommands)
    requires
        p@.sub == 2,
        cli::leaf_ok(leaf_epic_delete(), p@),
    ensures
        epic_commands_match(r, p@),
{
    proof {
        reveal_with_fuel(cli::pos_min, 3);
    }
    EpicCommands::Delete {
        epic_id: pos_at_exec(&p.pos, 0),
    }
}

fn build_todo_create(p: &Parsed) -> (r: TodoCommands)
    requires
        p@.sub == 0,
        cli::leaf_ok(leaf_todo_create(), p@),
    ensures
        todo_commands_match(r, p@),
{
    proof {
        reveal_with_fuel(cli::pos_min, 3);
    }
    TodoCommands::Create {
        project_ids: multi_at_exec(&p.opts, 0),
        project: single_at_exec(&p.opts, 1),
        content: pos_at_exec(&p.pos, 0),
    }
}

fn build_todo_list(p: &Parsed) -> (r: TodoCommands)
    requires
        p@.sub == 1,
        cli::leaf_ok(leaf_todo_list(), p@),
    ensures
        todo_commands_match(r, p@),
{
    TodoCommands::List {
        project_id: single_at_exec(&p.opts, 0),
        project: single_at_exec(&p.opts, 1),
    }
}

fn build_todo_delete(p: &Parsed) -> (r: TodoCommands)
    requires
        p@.sub == 2,
        cli::leaf_ok(leaf_todo_delete(), p@),
    ensures
        todo_commands_match(r, p@),
{
    proof {
        reveal_with_fuel(cli::pos_min, 3);
    }
    TodoCommands::Delete {
        todo_id: pos_at_exec(&p.pos, 0),
    }
}

fn build_config_show(p: &Parsed) -> (r: ConfigCommands)
    requires
        p@.sub == 0,
        cli::leaf_ok(leaf_config_show(), p@),
    ensures
        config_commands_match(r, p@),
{
    ConfigCommands::Show
}

fn build_context(p: &Parsed) -> (r: Commands)
    requires
        p@.command == 10,
        p@.sub == 0,
        cli::leaf_ok(leaf_context(), p@),
    ensures
        commands_match(r, p@),
{
    Commands::Context {
        task_id: single_at_exec(&p.opts, 0),
        file_id: single_at_exec(&p.opts, 1),
        epic_id: single_at_exec(&p.opts, 2),
        full: flag_at_exec(&p.opts, 3),
    }
}

fn build_link(p: &Parsed) -> (r: Commands)
    requires
        p@.command == 11,
        p@.sub == 0,
        cli::leaf_ok(leaf_link(), p@),
    ensures
        commands_match(r, p@),
{
    proof {
        assert(leaf_link().required[0] == 0usize);
        assert(cli::present(p@.opts, 0usize));
        assert(leaf_link().required[1] == 1usize);
        assert(cli::present(p@.opts, 1usize));
    }
    Commands::Link {
        from_id: required_at_exec(&p.opts, 0),
        edge: required_at_exec(&p.opts, 1),
        to_ids: multi_at_exec(&p.opts, 2),
    }
}

fn build_purge(p: &Parsed) -> (r: Commands)
    requires
        p@.command == 12,
        p@.sub == 0,
        cli::leaf_ok(leaf_purge(), p@),
    ensures
        commands_match(r, p@),
{
    Commands::Purge
}

fn build_commands(p: &Parsed) -> (r: Commands)
    requires
        cli::parsed_wf(grammar(), p@),
    ensures
        commands_match(r, p@),
{
    if p.command == 0 {
        build_add(p)
    } else if p.command == 1 {
        Commands::Project {
            command: if p.sub == 0 {
                build_project_create(p)
            } else if p.sub == 1 {
                build_project_list(p)
            } else {
                build_project_delete(p)
            },
        }
    } else if p.command == 2 {
        Commands::Module {
            command: if p.sub == 0 {
                build_module_create(p)
            } else if p.sub == 1 {
                build_module_list(p)
            } else {
                build_module_delete(p)
            },
        }
    } else if p.command == 3 {
        Commands::Submodule {
            command: if p.sub == 0 {
                build_submodule_create(p)
            } else if p.sub == 1 {
                build_submodule_list(p)
            } else {
                build_submodule_delete(p)
            },
        }
    } else if p.command == 4 {
        Commands::File {
            command: if p.sub == 0 {
                build_file_create(p)
            } else if p.sub == 1 {
                build_file_list(p)
            } else {
                build_file_delete(p)
            },
        }
    } else if p.command == 5 {
        Commands::Task {
            command: if p.sub == 0 {
                build_task_create(p)
            } else if p.sub == 1 {
                build_task_update(p)
            } else if p.sub == 2 {
                build_task_delete(p)
            } else {
                build_task_list(p)
            },
        }
    } else if p.command == 6 {
        Commands::UserStory {
            command: if p.sub == 0 {
                build_user_story_create(p)
            } else if p.sub == 1 {
                build_user_story_list(p)
            } else {
                build_user_story_delete(p)
            },
        }
    } else if p.command == 7 {
        Commands::Epic {
            command: if p.sub == 0 {
                build_epic_create(p)
            } else if p.sub == 1 {
                build_epic_list(p)
            } else {
                build_epic_delete(p)
            },
        }
    } else if p.command == 8 {
        Commands::Todo {
            command: if p.sub == 0 {
                build_todo_create(p)
            } else if p.sub == 1 {
                build_todo_list(p)
            } else {
                build_todo_delete(p)
            },
        }
    } else if p.command == 9 {
        Commands::Config {
            command: {
                build_config_show(p)
            },
        }
    } else if p.command == 10 {
        build_context(p)
    } else if p.command == 11 {
        build_link(p)
    } else {
        build_purge(p)
    }
}

impl Args {
    /// Parses a command line (its first element is the program's name).
    pub fn try_parse_from(args: &[&str]) -> (r: Result<Args, ParseError>)
        ensures
            match cli::spec_parse(grammar(), cli::tokens_view(args@)) {
                Ok(p) => r is Ok && args_match(r->Ok_0, p),
                Err(e) => r == Err::<Args, ParseError>(e),
            },
    {
        let g = build_grammar();
        match parse(&g, args) {
            Err(e) => Err(e),
            Ok(p) => {
                let command = build_commands(&p);
                Ok(Args {
                    backend: single_at_exec(&p.globals, 0),
                    pretty: flag_at_exec(&p.globals, 1),
                    ignore_case: flag_at_exec(&p.globals, 2),
                    command,
                })
            },
        }
    }
}

// ---------------------------------------------------------------------------
// Options by name
// ---------------------------------------------------------------------------

/// Each option of a `project` command is read into the field named after it.
pub open spec fn project_options_named(c: ProjectCommands, p: ParsedSpec) -> bool {
    let g = grammar();
    match c {
        ProjectCommands::Create { .. } => true,
        ProjectCommands::List => true,
        ProjectCommands::Delete { .. } => true,
    }
}

/// Each option of a `module` command is read into the field named after it.
pub open spec fn module_options_named(c: ModuleCommands, p: ParsedSpec) -> bool {
    let g = grammar();
    match c {
        ModuleCommands::Create { project_ids, project, name, description, notes } => {
            &&& cli::has_option(g, p, "project-ids"@) && project_ids.deep_view() == cli::values_named(g, p, "project-ids"@)
            &&& cli::has_option(g, p, "project"@) && cli::opt_string_view(project) == cli::value_named(g, p, "project"@)
            &&& cli::has_option(g, p, "notes"@) && cli::opt_string_view(notes) == cli::value_named(g, p, "notes"@)
        },
        ModuleCommands::List { project_id, project } => {
            &&& cli::has_option(g, p, "project-id"@) && cli::opt_string_view(project_id) == cli::value_named(g, p, "project-id"@)
            &&& cli::has_option(g, p, "project"@) && cli::opt_string_view(project) == cli::value_named(g, p, "project"@)
        },
        ModuleCommands::Delete { .. } => true,
    }
}

/// Each option of a `submodule` command is read into the field named after it.
pub open spec fn submodule_options_named(c: SubmoduleCommands, p: ParsedSpec) -> bool {
    let g = grammar();
    match c {
        SubmoduleCommands::Create { module_ids, name, description, notes } => {
            &&& cli::has_option(g, p, "module-ids"@) && module_ids.deep_view() == cli::values_named(g, p, "module-ids"@)
            &&& cli::has_option(g, p, "notes"@) && cli::opt_string_view(notes) == cli::value_named(g, p, "notes"@)
        },
        SubmoduleCommands::List { project_id, project, module_id } => {
            &&& cli::has_option(g, p, "project-id"@) && cli::opt_string_view(project_id) == cli::value_named(g, p, "project-id"@)
            &&& cli::has_option(g, p, "project"@) && cli::opt_string_view(project) == cli::value_named(g, p, "project"@)
            &&& cli::has_option(g, p, "module-id"@) && cli::opt_string_view(module_id) == cli::value_named(g, p, "module-id"@)
        },
        SubmoduleCommands::Delete { .. } => true,
    }
}

/// Each option of a `file` command is read into the field named after it.
pub open spec fn file_options_named(c: FileCommands, p: ParsedSpec) -> bool {
    let g = grammar();
    match c {
        FileCommands::Create { parent_ids, name, path, description, notes } => {
            &&& cli::has_option(g, p, "parent-ids"@) && parent_ids.deep_view() == cli::values_named(g, p, "parent-ids"@)
            &&& cli::has_option(g, p, "notes"@) && cli::opt_string_view(notes) == cli::value_named(g, p, "notes"@)
        },
        FileCommands::List { project_id, project, module_id, submodule_id } => {
            &&& cli::has_option(g, p, "project-id"@) && cli::opt_string_view(project_id) == cli::value_named(g, p, "project-id"@)
            &&& cli::has_option(g, p, "project"@) && cli::opt_string_view(project) == cli::value_named(g, p, "project"@)
            &&& cli::has_option(g, p, "module-id"@) && cli::opt_string_view(module_id) == cli::value_named(g, p, "module-id"@)
            &&& cli::has_option(g, p, "submodule-id"@) && cli::opt_string_view(submodule_id) == cli::value_named(g, p, "submodule-id"@)
        },
        FileCommands::Delete { .. } => true,
    }
}

/// Each option of a `task` command is read into the field named after it.
pub open spec fn task_options_named(c: TaskCommands, p: ParsedSpec) -> bool {
    let g = grammar();
    match c {
        TaskCommands::Create { module_ids, project_ids, project, user_story_ids, epic_ids, name, description } => {
            &&& cli::has_option(g, p, "module-ids"@) && module_ids.deep_view() == cli::values_named(g, p, "module-ids"@)
            &&& cli::has_option(g, p, "project-ids"@) && project_ids.deep_view() == cli::values_named(g, p, "project-ids"@)
            &&& cli::has_option(g, p, "project"@) && cli::opt_string_view(project) == cli::value_named(g, p, "project"@)
            &&& cli::has_option(g, p, "user-story-ids"@) && user_story_ids.deep_view() == cli::values_named(g, p, "user-story-ids"@)
            &&& cli::has_option(g, p, "epic-ids"@) && epic_ids.deep_view() == cli::values_named(g, p, "epic-ids"@)
        },
        TaskCommands::Update { task_id, name, description, status } => {
            &&& cli::has_option(g, p, "name"@) && cli::opt_string_view(name) == cli::value_named(g, p, "name"@)
            &&& cli::has_option(g, p, "description"@) && cli::opt_string_view(description) == cli::value_named(g, p, "description"@)
            &&& cli::has_option(g, p, "status"@) && cli::opt_string_view(status) == cli::value_named(g, p, "status"@)
        },
        TaskCommands::Delete { .. } => true,
        TaskCommands::List { project_id, project } => {
            &&& cli::has_option(g, p, "project-id"@) && cli::opt_string_view(project_id) == cli::value_named(g, p, "project-id"@)
            &&& cli::has_option(g, p, "project"@) && cli::opt_string_view(project) == cli::value_named(g, p, "project"@)
        },
    }
}

/// Each option of a `user-story` command is read into the field named after it.
pub open spec fn user_story_options_named(c: UserStoryCommands, p: ParsedSpec) -> bool {
    let g = grammar();
    match c {
        UserStoryCommands::Create { project_id, project, epic_ids, title, description } => {
            &&& cli::has_option(g, p, "project-id"@) && cli::opt_string_view(project_id) == cli::value_named(g, p, "project-id"@)
            &&& cli::has_option(g, p, "project"@) && cli::opt_string_view(project) == cli::value_named(g, p, "project"@)
            &&& cli::has_option(g, p, "epic-ids"@) && epic_ids.deep_view() == cli::values_named(g, p, "epic-ids"@)
        },
        UserStoryCommands::List { project_id, project, epic_id } => {
            &&& cli::has_option(g, p, "project-id"@) && cli::opt_string_view(project_id) == cli::value_named(g, p, "project-id"@)
            &&& cli::has_option(g, p, "project"@) && cli::opt_string_view(project) == cli::value_named(g, p, "project"@)
            &&& cli::has_option(g, p, "epic-id"@) && cli::opt_string_view(epic_id) == cli::value_named(g, p, "epic-id"@)
        },
        UserStoryCommands::Delete { .. } => true,
    }
}

/// Each option of a `epic` command is read into the field named after it.
pub open spec fn epic_options_named(c: EpicCommands, p: ParsedSpec) -> bool {
    let g = grammar();
    match c {
        EpicCommands::Create { project_id, project, title, description } => {
            &&& cli::has_option(g, p, "project-id"@) && cli::opt_string_view(project_id) == cli::value_named(g, p, "project-id"@)
            &&& cli::has_option(g, p, "project"@) && cli::opt_string_view(project) == cli::value_named(g, p, "project"@)
        },
        EpicCommands::List { project_id, project } => {
            &&& cli::has_option(g, p, "project-id"@) && cli::opt_string_view(project_id) == cli::value_named(g, p, "project-id"@)
            &&& cli::has_option(g, p, "project"@) && cli::opt_string_view(project) == cli::value_named(g, p, "project"@)
        },
        EpicCommands::Delete { .. } => true,
    }
}

/// Each option of a `todo` command is read into the field named after it.
pub open spec fn todo_options_named(c: TodoCommands, p: ParsedSpec) -> bool {
    let g = grammar();
    match c {
        TodoCommands::Create { project_ids, project, content } => {
            &&& cli::has_option(g, p, "project-ids"@) && project_ids.deep_view() == cli::values_named(g, p, "project-ids"@)
            &&& cli::has_option(g, p, "project"@) && cli::opt_string_view(project) == cli::value_named(g, p, "project"@)
        },
        TodoCommands::List { project_id, project } => {
            &&& cli::has_option(g, p, "project-id"@) && cli::opt_string_view(project_id) == cli::value_named(g, p, "project-id"@)
            &&& cli::has_option(g, p, "project"@) && cli::opt_string_view(project) == cli::value_named(g, p, "project"@)
        },
        TodoCommands::Delete { .. } => true,
    }
}

/// Each option of a `config` command is read into the field named after it.
pub open spec fn config_options_named(c: ConfigCommands, p: ParsedSpec) -> bool {
    let g = grammar();
    match c {
        ConfigCommands::Show => true,
    }
}

proof fn lemma_project_options_named(c: ProjectCommands, p: ParsedSpec)
    requires
        p.command == 1,
        project_commands_match(c, p),
    ensures
        project_options_named(c, p),
{
    let g = grammar();

    reveal_with_fuel(cli::option_named, 8);
    reveal_with_fuel(crate::text::agree, 24);
    match c {
        ProjectCommands::Create { .. } => {
            assert(cli::selected_leaf(g, p) == leaf_project_create());
        },
        ProjectCommands::List => {
            assert(cli::selected_leaf(g, p) == leaf_project_list());
        },
        ProjectCommands::Delete { .. } => {
            assert(cli::selected_leaf(g, p) == leaf_project_delete());
        },
    }
}

proof fn lemma_module_options_named(c: ModuleCommands, p: ParsedSpec)
    requires
        p.command == 2,
        module_commands_match(c, p),
    ensures
        module_options_named(c, p),
{
    let g = grammar();
    reveal_strlit("notes");
    reveal_strlit("project");
    reveal_strlit("project-id");
    reveal_strlit("project-ids");
    reveal_with_fuel(cli::option_named, 8);
    reveal_with_fuel(crate::text::agree, 24);
    match c {
        ModuleCommands::Create { .. } => {
            assert(cli::selected_leaf(g, p) == leaf_module_create());
        },
        ModuleCommands::List { .. } => {
            assert(cli::selected_leaf(g, p) == leaf_module_list());
        },
        ModuleCommands::Delete { .. } => {
            assert(cli::selected_leaf(g, p) == leaf_module_delete());
        },
    }
}

proof fn lemma_submodule_options_named(c: SubmoduleCommands, p: ParsedSpec)
    requires
        p.command == 3,
        submodule_commands_match(c, p),
    ensures
        submodule_options_named(c, p),
{
    let g = grammar();
    reveal_strlit("module-id");
    reveal_strlit("module-ids");
    reveal_strlit("notes");
    reveal_strlit("project");
    reveal_strlit("project-id");
    reveal_with_fuel(cli::option_named, 8);
    reveal_with_fuel(crate::text::agree, 24);
    match c {
        SubmoduleCommands::Create { .. } => {
            assert(cli::selected_leaf(g, p) == leaf_submodule_create());
        },
        SubmoduleCommands::List { .. } => {
            assert(cli::selected_leaf(g, p) == leaf_submodule_list());
        },
        SubmoduleCommands::Delete { .. } => {
            assert(cli::selected_leaf(g, p) == leaf_submodule_delete());
        },
    }
}

proof fn lemma_file_options_named(c: FileCommands, p: ParsedSpec)
    requires
        p.command == 4,
        file_commands_match(c, p),
    ensures
        file_options_named(c, p),
{
    let g = grammar();
    reveal_strlit("module-id");
    reveal_strlit("notes");
    reveal_strlit("parent-ids");
    reveal_strlit("project");
    reveal_strlit("project-id");
    reveal_strlit("submodule-id");
    reveal_with_fuel(cli::option_named, 8);
    reveal_with_fuel(crate::text::agree, 24);
    match c {
        FileCommands::Create { .. } => {
            assert(cli::selected_leaf(g, p) == leaf_file_create());
        },
        FileCommands::List { .. } => {
            assert(cli::selected_leaf(g, p) == leaf_file_list());
        },
        FileCommands::Delete { .. } => {
            assert(cli::selected_leaf(g, p) == leaf_file_delete());
        },
    }
}

proof fn lemma_task_options_named(c: TaskCommands, p: ParsedSpec)
    requires
        p.command == 5,
        task_commands_match(c, p),
    ensures
        task_options_named(c, p),
{
    let g = grammar();
    reveal_strlit("description");
    reveal_strlit("epic-ids");
    reveal_strlit("module-ids");
    reveal_strlit("name");
    reveal_strlit("project");
    reveal_strlit("project-id");
    reveal_strlit("project-ids");
    reveal_strlit("status");
    reveal_strlit("user-story-ids");
    reveal_with_fuel(cli::option_named, 8);
    reveal_with_fuel(crate::text::agree, 24);
    match c {
        TaskCommands::Create { .. } => {
            assert(cli::selected_leaf(g, p) == leaf_task_create());
        },
        TaskCommands::Update { .. } => {
            assert(cli::selected_leaf(g, p) == leaf_task_update());
        },
        TaskCommands::Delete { .. } => {
            assert(cli::selected_leaf(g, p) == leaf_task_delete());
        },
        TaskCommands::List { .. } => {
            assert(cli::selected_leaf(g, p) == leaf_task_list());
        },
    }
}

proof fn lemma_user_story_options_named(c: UserStoryCommands, p: ParsedSpec)
    requires
        p.command == 6,
        user_story_commands_match(c, p),
    ensures
        user_story_options_named(c, p),
{
    let g = grammar();
    reveal_strlit("epic-id");
    reveal_strlit("epic-ids");
    reveal_strlit("project");
    reveal_strlit("project-id");
    reveal_with_fuel(cli::option_named, 8);
    reveal_with_fuel(crate::text::agree, 24);
    match c {
        UserStoryCommands::Create { .. } => {
            assert(cli::selected_leaf(g, p) == leaf_user_story_create());
        },
        UserStoryCommands::List { .. } => {
            assert(cli::selected_leaf(g, p) == leaf_user_story_list());
        },
        UserStoryCommands::Delete { .. } => {
            assert(cli::selected_leaf(g, p) == leaf_user_story_delete());
        },
    }
}

proof fn lemma_epic_options_named(c: EpicCommands, p: ParsedSpec)
    requires
        p.command == 7,
        epic_commands_match(c, p),
    ensures
        epic_options_named(c, p),
{
    let g = grammar();
    reveal_strlit("project");
    reveal_strlit("project-id");
    reveal_with_fuel(cli::option_named, 8);
    reveal_with_fuel(crate::text::agree, 24);
    match c {
        EpicCommands::Create { .. } => {
            assert(cli::selected_leaf(g, p) == leaf_epic_create());
        },
        EpicCommands::List { .. } => {
            assert(cli::selected_leaf(g, p) == leaf_epic_list());
        },
        EpicCommands::Delete { .. } => {
            assert(cli::selected_leaf(g, p) == leaf_epic_delete());
        },
    }
}

proof fn lemma_todo_options_named(c: TodoCommands, p: ParsedSpec)
    requires
        p.command == 8,
        todo_commands_match(c, p),
    ensures
        todo_options_named(c, p),
{
    let g = grammar();
    reveal_strlit("project");
    reveal_strlit("project-id");
    reveal_strlit("project-ids");
    reveal_with_fuel(cli::option_named, 8);
    reveal_with_fuel(crate::text::agree, 24);
    match c {
        TodoCommands::Create { .. } => {
            assert(cli::selected_leaf(g, p) == leaf_todo_create());
        },
        TodoCommands::List { .. } => {
            assert(cli::selected_leaf(g, p) == leaf_todo_list());
        },
        TodoCommands::Delete { .. } => {
            assert(cli::selected_leaf(g, p) == leaf_todo_delete());
        },
    }
}

proof fn lemma_config_options_named(c: ConfigCommands, p: ParsedSpec)
    requires
        p.command == 9,
        config_commands_match(c, p),
    ensures
        config_options_named(c, p),
{
    let g = grammar();

    reveal_with_fuel(cli::option_named, 8);
    reveal_with_fuel(crate::text::agree, 24);
    match c {
        ConfigCommands::Show => {
            assert(cli::selected_leaf(g, p) == leaf_config_show());
        },
    }
}

/// Each option of a command is read into the field named after it: the value
/// given after `--NAME` (or its aliases) is the field `NAME`, and each global
/// flag is the field named after it.
pub open spec fn options_named(a: Args, p: ParsedSpec) -> bool {
    let g = grammar();
    &&& cli::has_global(g, "backend"@) && cli::opt_string_view(a.backend) == cli::global_value_named(g, p, "backend"@)
    &&& cli::has_global(g, "pretty"@) && a.pretty == cli::global_flag_named(g, p, "pretty"@)
    &&& cli::has_global(g, "ignore-case"@) && a.ignore_case == cli::global_flag_named(g, p, "ignore-case"@)
    &&& match a.command {
        Commands::Add { field_names, field_values, link_to } => {
            &&& cli::has_option(g, p, "field"@) && field_names.deep_view() == cli::values_named(g, p, "field"@)
            &&& cli::has_option(g, p, "value"@) && field_values.deep_view() == cli::values_named(g, p, "value"@)
            &&& cli::has_option(g, p, "link-to"@) && link_to.deep_view() == cli::values_named(g, p, "link-to"@)
        },
        Commands::Project { command } => project_options_named(command, p),
        Commands::Module { command } => module_options_named(command, p),
        Commands::Submodule { command } => submodule_options_named(command, p),
        Commands::File { command } => file_options_named(command, p),
        Commands::Task { command } => task_options_named(command, p),
        Commands::UserStory { command } => user_story_options_named(command, p),
        Commands::Epic { command } => epic_options_named(command, p),
        Commands::Todo { command } => todo_options_named(command, p),
        Commands::Config { command } => config_options_named(command, p),
        Commands::Context { task_id, file_id, epic_id, full } => {
            &&& cli::has_option(g, p, "task-id"@) && cli::opt_string_view(task_id) == cli::value_named(g, p, "task-id"@)
            &&& cli::has_option(g, p, "file-id"@) && cli::opt_string_view(file_id) == cli::value_named(g, p, "file-id"@)
            &&& cli::has_option(g, p, "epic-id"@) && cli::opt_string_view(epic_id) == cli::value_named(g, p, "epic-id"@)
            &&& cli::has_option(g, p, "full"@) && full == cli::flag_named(g, p, "full"@)
        },
        Commands::Link { from_id, edge, to_ids } => {
            &&& cli::has_option(g, p, "from-id"@) && from_id@ == cli::values_named(g, p, "from-id"@)[0]
            &&& cli::has_option(g, p, "edge"@) && edge@ == cli::values_named(g, p, "edge"@)[0]
            &&& cli::has_option(g, p, "to-ids"@) && to_ids.deep_view() == cli::values_named(g, p, "to-ids"@)
        },
        Commands::Purge => true,
    }
}

/// A parsed command line reads every option into the field named after the
/// option, whatever its place among the command's options.
pub proof fn lemma_options_by_name(a: Args, p: ParsedSpec)
    requires
        args_match(a, p),
    ensures
        options_named(a, p),
{
    let g = grammar();
    reveal_strlit("backend");
    reveal_strlit("pretty");
    reveal_strlit("ignore-case");
    reveal_with_fuel(cli::option_named, 8);
    reveal_with_fuel(crate::text::agree, 24);
    match a.command {
        Commands::Add { .. } => {
            assert(cli::selected_leaf(g, p) == leaf_add());
            reveal_strlit("field");
            reveal_strlit("link-to");
            reveal_strlit("value");
        },
        Commands::Project { command } => lemma_project_options_named(command, p),
        Commands::Module { command } => lemma_module_options_named(command, p),
        Commands::Submodule { command } => lemma_submodule_options_named(command, p),
        Commands::File { command } => lemma_file_options_named(command, p),
        Commands::Task { command } => lemma_task_options_named(command, p),
        Commands::UserStory { command } => lemma_user_story_options_named(command, p),
        Commands::Epic { command } => lemma_epic_options_named(command, p),
        Commands::Todo { command } => lemma_todo_options_named(command, p),
        Commands::Config { command } => lemma_config_options_named(command, p),
        Commands::Context { .. } => {
            assert(cli::selected_leaf(g, p) == leaf_context());
            reveal_strlit("epic-id");
            reveal_strlit("file-id");
            reveal_strlit("full");
            reveal_strlit("task-id");
        },
        Commands::Link { .. } => {
            assert(cli::selected_leaf(g, p) == leaf_link());
            reveal_strlit("edge");
            reveal_strlit("from-id");
            reveal_strlit("to-ids");
        },
        Commands::Purge => {
            assert(cli::selected_leaf(g, p) == leaf_purge());

        },
    }
}

} // verus!

//! The command line of the `dn` tool: knowledge entries, projects, modules,
//! files, tasks, user stories, epics, personas, workflows, todos, issues,
//! configuration, context retrieval, links and purging.

use vstd::prelude::*;
use crate::cli;
use crate::cli::{
    Grammar, GrammarSpec, CommandDef, CommandSpec, GroupDef, GroupSpec, LeafDef, LeafSpec, OptDef, OptSpec,
    OptKind, PosKind, ParseError, Parsed, ParsedSpec, parse, flag_at_exec, single_at_exec, required_at_exec,
    multi_at_exec, pos_at_exec, pos_opt_exec, pos_rest_exec,
};

verus! {

// ---------------------------------------------------------------------------
// The grammar
// ---------------------------------------------------------------------------

/// The `add` command.
pub open spec fn leaf_add() -> LeafSpec {
    LeafSpec {
        names: seq!["add"@],
        opts: seq![
            OptSpec { longs: seq!["field"@], short: Some('f'), kind: OptKind::Multi },
            OptSpec { longs: seq!["value"@], short: Some('v'), kind: OptKind::Multi },
            OptSpec { longs: seq!["link-to"@, "ln"@], short: None, kind: OptKind::Multi },
        ],
        pos: Seq::empty(),
        conflicts: Seq::empty(),
        required: seq![0usize, 1usize],
        requires: Seq::empty(),
        one_of: Seq::empty(),
    }
}

/// The `project add` command.
pub open spec fn leaf_project_create() -> LeafSpec {
    LeafSpec {
        names: seq!["add"@],
        opts: Seq::empty(),
        pos: seq![PosKind::Required, PosKind::Required],
        conflicts: Seq::empty(),
        required: Seq::empty(),
        requires: Seq::empty(),
        one_of: Seq::empty(),
    }
}

/// The `project list` command.
pub open spec fn leaf_project_list() -> LeafSpec {
    LeafSpec {
        names: seq!["list"@, "ls"@],
        opts: Seq::empty(),
        pos: Seq::empty(),
        conflicts: Seq::empty(),
        required: Seq::empty(),
        requires: Seq::empty(),
        one_of: Seq::empty(),
    }
}

/// The `project rm` command.
pub open spec fn leaf_project_delete() -> LeafSpec {
    LeafSpec {
        names: seq!["rm"@],
        opts: Seq::empty(),
        pos: seq![PosKind::RequiredMany],
        conflicts: Seq::empty(),
        required: Seq::empty(),
        requires: Seq::empty(),
        one_of: Seq::empty(),
    }
}

/// The `module add` command.
pub open spec fn leaf_module_create() -> LeafSpec {
    LeafSpec {
        names: seq!["add"@],
        opts: seq![
            OptSpec { longs: seq!["project-ids"@, "pids"@], short: None, kind: OptKind::Multi },
            OptSpec { longs: seq!["project"@], short: Some('p'), kind: OptKind::Single },
            OptSpec { longs: seq!["parent-module-id"@, "pmid"@], short: None, kind: OptKind::Single },
            OptSpec { longs: seq!["notes"@], short: None, kind: OptKind::Single },
        ],
        pos: seq![PosKind::Required, PosKind::Required],
        conflicts: seq![(0usize, 1usize)],
        required: Seq::empty(),
        requires: Seq::empty(),
        one_of: Seq::empty(),
    }
}

/// The `module list` command.
pub open spec fn leaf_module_list() -> LeafSpec {
    LeafSpec {
        names: seq!["list"@, "ls"@],
        opts: seq![
            OptSpec { longs: seq!["project-id"@, "pid"@], short: None, kind: OptKind::Single },
            OptSpec { longs: seq!["project"@], short: Some('p'), kind: OptKind::Single },
            OptSpec { longs: seq!["module-id"@, "mid"@], short: None, kind: OptKind::Single },
        ],
        pos: Seq::empty(),
        conflicts: seq![(0usize, 1usize), (0usize, 2usize), (1usize, 2usize)],
        required: Seq::empty(),
        requires: Seq::empty(),
        one_of: Seq::empty(),
    }
}

/// The `module rm` command.
pub open spec fn leaf_module_delete() -> LeafSpec {
    LeafSpec {
        names: seq!["rm"@],
        opts: Seq::empty(),
        pos: seq![PosKind::RequiredMany],
        conflicts: Seq::empty(),
        required: Seq::empty(),
        requires: Seq::empty(),
        one_of: Seq::empty(),
    }
}

/// The `file add` command.
pub open spec fn leaf_file_create() -> LeafSpec {
    LeafSpec {
        names: seq!["add"@],
        opts: seq![
            OptSpec { longs: seq!["project-ids"@, "pids"@], short: None, kind: OptKind::Multi },
            OptSpec { longs: seq!["project"@], short: Some('p'), kind: OptKind::Single },
            OptSpec { longs: seq!["parent-ids"@], short: None, kind: OptKind::Multi },
            OptSpec { longs: seq!["notes"@], short: None, kind: OptKind::Single },
        ],
        pos: seq![PosKind::Required, PosKind::Required, PosKind::Optional],
        conflicts: seq![(0usize, 1usize)],
        required: Seq::empty(),
        requires: Seq::empty(),
        one_of: Seq::empty(),
    }
}

/// The `file list` command.
pub open spec fn leaf_file_list() -> LeafSpec {
    LeafSpec {
        names: seq!["list"@, "ls"@],
        opts: seq![
            OptSpec { longs: seq!["project-id"@, "pid"@], short: None, kind: OptKind::Single },
            OptSpec { longs: seq!["project"@], short: Some('p'), kind: OptKind::Single },
            OptSpec { longs: seq!["module-id"@, "mid"@], short: None, kind: OptKind::Single },
        ],
        pos: Seq::empty(),
        conflicts: seq![(0usize, 1usize)],
        required: Seq::empty(),
        requires: Seq::empty(),
        one_of: Seq::empty(),
    }
}

/// The `file rm` command.
pub open spec fn leaf_file_delete() -> LeafSpec {
    LeafSpec {
        names: seq!["rm"@],
        opts: Seq::empty(),
        pos: seq![PosKind::RequiredMany],
        conflicts: Seq::empty(),
        required: Seq::empty(),
        requires: Seq::empty(),
        one_of: Seq::empty(),
    }
}

/// The `task add` command.
pub open spec fn leaf_task_create() -> LeafSpec {
    LeafSpec {
        names: seq!["add"@],
        opts: seq![
            OptSpec { longs: seq!["module-ids"@, "mids"@], short: None, kind: OptKind::Multi },
            OptSpec { longs: seq!["project-id"@, "pid"@], short: None, kind: OptKind::Single },
            OptSpec { longs: seq!["project"@], short: Some('p'), kind: OptKind::Single },
            OptSpec { longs: seq!["user-story-ids"@, "usids"@], short: None, kind: OptKind::Multi },
            OptSpec { longs: seq!["epic-ids"@, "eids"@], short: None, kind: OptKind::Multi },
        ],
        pos: seq![PosKind::Required, PosKind::Required],
        conflicts: seq![(1usize, 2usize)],
        required: Seq::empty(),
        requires: Seq::empty(),
        one_of: seq![(1usize, 2usize)],
    }
}

/// The `task update` command.
pub open spec fn leaf_task_update() -> LeafSpec {
    LeafSpec {
        names: seq!["update"@],
        opts: seq![
            OptSpec { longs: seq!["name"@], short: None, kind: OptKind::Single },
            OptSpec { longs: seq!["description"@], short: None, kind: OptKind::Single },
            OptSpec { longs: seq!["status"@], short: None, kind: OptKind::Single },
        ],
        pos: seq![PosKind::Required],
        conflicts: Seq::empty(),
        required: Seq::empty(),
        requires: Seq::empty(),
        one_of: Seq::empty(),
    }
}

/// The `task rm` command.
pub open spec fn leaf_task_delete() -> LeafSpec {
    LeafSpec {
        names: seq!["rm"@],
        opts: Seq::empty(),
        pos: seq![PosKind::RequiredMany],
        conflicts: Seq::empty(),
        required: Seq::empty(),
        requires: Seq::empty(),
        one_of: Seq::empty(),
    }
}

/// The `task list` command.
pub open spec fn leaf_task_list() -> LeafSpec {
    LeafSpec {
        names: seq!["list"@, "ls"@],
        opts: seq![
            OptSpec { longs: seq!["project-id"@, "pid"@], short: None, kind: OptKind::Single },
            OptSpec { longs: seq!["project"@], short: Some('p'), kind: OptKind::Single },
        ],
        pos: Seq::empty(),
        conflicts: seq![(0usize, 1usize)],
        required: Seq::empty(),
        requires: Seq::empty(),
        one_of: Seq::empty(),
    }
}

/// The `task get` command.
pub open spec fn leaf_task_get() -> LeafSpec {
    LeafSpec {
        names: seq!["get"@],
        opts: Seq::empty(),
        pos: seq![PosKind::Required],
        conflicts: Seq::empty(),
        required: Seq::empty(),
        requires: Seq::empty(),
        one_of: Seq::empty(),
    }
}

/// The `user-story add` command.
pub open spec fn leaf_user_story_create() -> LeafSpec {
    LeafSpec {
        names: seq!["add"@],
        opts: seq![
            OptSpec { longs: seq!["project-id"@, "pid"@], short: None, kind: OptKind::Single },
            OptSpec { longs: seq!["project"@], short: Some('p'), kind: OptKind::Single },
            OptSpec { longs: seq!["epic-ids"@, "eids"@], short: None, kind: OptKind::Multi },
        ],
        pos: seq![PosKind::Required, PosKind::Required],
        conflicts: seq![(0usize, 1usize)],
        required: Seq::empty(),
        requires: Seq::empty(),
        one_of: Seq::empty(),
    }
}

/// The `user-story list` command.
pub open spec fn leaf_user_story_list() -> LeafSpec {
    LeafSpec {
        names: seq!["list"@, "ls"@],
        opts: seq![
            OptSpec { longs: seq!["project-id"@, "pid"@], short: None, kind: OptKind::Single },
            OptSpec { longs: seq!["project"@], short: Some('p'), kind: OptKind::Single },
            OptSpec { longs: seq!["epic-id"@, "eid"@], short: None, kind: OptKind::Single },
        ],
        pos: Seq::empty(),
        conflicts: seq![(0usize, 1usize)],
        required: Seq::empty(),
        requires: Seq::empty(),
        one_of: Seq::empty(),
    }
}

/// The `user-story rm` command.
pub open spec fn leaf_user_story_delete() -> LeafSpec {
    LeafSpec {
        names: seq!["rm"@],
        opts: Seq::empty(),
        pos: seq![PosKind::RequiredMany],
        conflicts: Seq::empty(),
        required: Seq::empty(),
        requires: Seq::empty(),
        one_of: Seq::empty(),
    }
}

/// The `user-story get` command.
pub open spec fn leaf_user_story_get() -> LeafSpec {
    LeafSpec {
        names: seq!["get"@],
        opts: Seq::empty(),
        pos: seq![PosKind::Required],
        conflicts: Seq::empty(),
        required: Seq::empty(),
        requires: Seq::empty(),
        one_of: Seq::empty(),
    }
}

/// The `epic add` command.
pub open spec fn leaf_epic_create() -> LeafSpec {
    LeafSpec {
        names: seq!["add"@],
        opts: seq![
            OptSpec { longs: seq!["project-id"@, "pid"@], short: None, kind: OptKind::Single },
            OptSpec { longs: seq!["project"@], short: Some('p'), kind: OptKind::Single },
        ],
        pos: seq![PosKind::Required, PosKind::Required],
        conflicts: seq![(0usize, 1usize)],
        required: Seq::empty(),
        requires: Seq::empty(),
        one_of: Seq::empty(),
    }
}

/// The `epic list` command.
pub open spec fn leaf_epic_list() -> LeafSpec {
    LeafSpec {
        names: seq!["list"@, "ls"@],
        opts: seq![
            OptSpec { longs: seq!["project-id"@, "pid"@], short: None, kind: OptKind::Single },
            OptSpec { longs: seq!["project"@], short: Some('p'), kind: OptKind::Single },
        ],
        pos: Seq::empty(),
        conflicts: seq![(0usize, 1usize)],
        required: Seq::empty(),
        requires: Seq::empty(),
        one_of: Seq::empty(),
    }
}

/// The `epic rm` command.
pub open spec fn leaf_epic_delete() -> LeafSpec {
    LeafSpec {
        names: seq!["rm"@],
        opts: Seq::empty(),
        pos: seq![PosKind::RequiredMany],
        conflicts: Seq::empty(),
        required: Seq::empty(),
        requires: Seq::empty(),
        one_of: Seq::empty(),
    }
}

/// The `persona add` command.
pub open spec fn leaf_persona_create() -> LeafSpec {
    LeafSpec {
        names: seq!["add"@],
        opts: seq![
            OptSpec { longs: seq!["project-ids"@, "pids"@], short: None, kind: OptKind::Multi },
            OptSpec { longs: seq!["project"@], short: Some('p'), kind: OptKind::Single },
        ],
        pos: seq![PosKind::Required, PosKind::Required],
        conflicts: seq![(0usize, 1usize)],
        required: Seq::empty(),
        requires: Seq::empty(),
        one_of: Seq::empty(),
    }
}

/// The `persona list` command.
pub open spec fn leaf_persona_list() -> LeafSpec {
    LeafSpec {
        names: seq!["list"@, "ls"@],
        opts: seq![
            OptSpec { longs: seq!["project-id"@, "pid"@], short: None, kind: OptKind::Single },
            OptSpec { longs: seq!["project"@], short: Some('p'), kind: OptKind::Single },
        ],
        pos: Seq::empty(),
        conflicts: seq![(0usize, 1usize)],
        required: Seq::empty(),
        requires: Seq::empty(),
        one_of: Seq::empty(),
    }
}

/// The `persona rm` command.
pub open spec fn leaf_persona_delete() -> LeafSpec {
    LeafSpec {
        names: seq!["rm"@],
        opts: Seq::empty(),
        pos: seq![PosKind::RequiredMany],
        conflicts: Seq::empty(),
        required: Seq::empty(),
        requires: Seq::empty(),
        one_of: Seq::empty(),
    }
}

/// The `workflow add` command.
pub open spec fn leaf_workflow_create() -> LeafSpec {
    LeafSpec {
        names: seq!["add"@],
        opts: seq![
            OptSpec { longs: seq!["project-ids"@, "pids"@], short: None, kind: OptKind::Multi },
            OptSpec { longs: seq!["project"@], short: Some('p'), kind: OptKind::Single },
        ],
        pos: seq![PosKind::Required, PosKind::Required],
        conflicts: seq![(0usize, 1usize)],
        required: Seq::empty(),
        requires: Seq::empty(),
        one_of: Seq::empty(),
    }
}

/// The `workflow list` command.
pub open spec fn leaf_workflow_list() -> LeafSpec {
    LeafSpec {
        names: seq!["list"@, "ls"@],
        opts: seq![
            OptSpec { longs: seq!["project-id"@, "pid"@], short: None, kind: OptKind::Single },
            OptSpec { longs: seq!["project"@], short: Some('p'), kind: OptKind::Single },
        ],
        pos: Seq::empty(),
        conflicts: seq![(0usize, 1usize)],
        required: Seq::empty(),
        requires: Seq::empty(),
        one_of: Seq::empty(),
    }
}

/// The `workflow rm` command.
pub open spec fn leaf_workflow_delete() -> LeafSpec {
    LeafSpec {
        names: seq!["rm"@],
        opts: Seq::empty(),
        pos: seq![PosKind::RequiredMany],
        conflicts: Seq::empty(),
        required: Seq::empty(),
        requires: Seq::empty(),
        one_of: Seq::empty(),
    }
}

/// The `todo add` command.
pub open spec fn leaf_todo_create() -> LeafSpec {
    LeafSpec {
        names: seq!["add"@],
        opts: seq![
            OptSpec { longs: seq!["project-ids"@, "pids"@], short: None, kind: OptKind::Multi },
            OptSpec { longs: seq!["project"@], short: Some('p'), kind: OptKind::Single },
        ],
        pos: seq![PosKind::Required],
        conflicts: seq![(0usize, 1usize)],
        required: Seq::empty(),
        requires: Seq::empty(),
        one_of: Seq::empty(),
    }
}

/// The `todo list` command.
pub open spec fn leaf_todo_list() -> LeafSpec {
    LeafSpec {
        names: seq!["list"@, "ls"@],
        opts: seq![
            OptSpec { longs: seq!["project-id"@, "pid"@], short: None, kind: OptKind::Single },
            OptSpec { longs: seq!["project"@], short: Some('p'), kind: OptKind::Single },
        ],
        pos: Seq::empty(),
        conflicts: seq![(0usize, 1usize)],
        required: Seq::empty(),
        requires: Seq::empty(),
        one_of: Seq::empty(),
    }
}

/// The `todo update` command.
pub open spec fn leaf_todo_update() -> LeafSpec {
    LeafSpec {
        names: seq!["update"@],
        opts: seq![
            OptSpec { longs: seq!["content"@], short: None, kind: OptKind::Single },
            OptSpec { longs: seq!["status"@], short: None, kind: OptKind::Single },
        ],
        pos: seq![PosKind::Required],
        conflicts: Seq::empty(),
        required: Seq::empty(),
        requires: Seq::empty(),
        one_of: Seq::empty(),
    }
}

/// The `todo rm` command.
pub open spec fn leaf_todo_delete() -> LeafSpec {
    LeafSpec {
        names: seq!["rm"@],
        opts: Seq::empty(),
        pos: seq![PosKind::RequiredMany],
        conflicts: Seq::empty(),
        required: Seq::empty(),
        requires: Seq::empty(),
        one_of: Seq::empty(),
    }
}

/// The `todo get` command.
pub open spec fn leaf_todo_get() -> LeafSpec {
    LeafSpec {
        names: seq!["get"@],
        opts: Seq::empty(),
        pos: seq![PosKind::Required],
        conflicts: Seq::empty(),
        required: Seq::empty(),
        requires: Seq::empty(),
        one_of: Seq::empty(),
    }
}

/// The `issue add` command.
pub open spec fn leaf_issue_create() -> LeafSpec {
    LeafSpec {
        names: seq!["add"@],
        opts: seq![
            OptSpec { longs: seq!["task-id"@, "tid"@], short: None, kind: OptKind::Single },
            OptSpec { longs: seq!["project-id"@, "pid"@], short: None, kind: OptKind::Single },
            OptSpec { longs: seq!["plan"@], short: None, kind: OptKind::Single },
            OptSpec { longs: seq!["verification"@], short: None, kind: OptKind::Single },
        ],
        pos: seq![PosKind::Required],
        conflicts: Seq::empty(),
        required: seq![1usize],
        requires: Seq::empty(),
        one_of: Seq::empty(),
    }
}

/// The `issue update` command.
pub open spec fn leaf_issue_update() -> LeafSpec {
    LeafSpec {
        names: seq!["update"@],
        opts: seq![
            OptSpec { longs: seq!["description"@], short: None, kind: OptKind::Single },
            OptSpec { longs: seq!["plan"@], short: None, kind: OptKind::Single },
            OptSpec { longs: seq!["verification"@], short: None, kind: OptKind::Single },
            OptSpec { longs: seq!["status"@], short: None, kind: OptKind::Single },
        ],
        pos: seq![PosKind::Required],
        conflicts: Seq::empty(),
        required: Seq::empty(),
        requires: Seq::empty(),
        one_of: Seq::empty(),
    }
}

/// The `issue list` command.
pub open spec fn leaf_issue_list() -> LeafSpec {
    LeafSpec {
        names: seq!["list"@, "ls"@],
        opts: seq![
            OptSpec { longs: seq!["project-id"@, "pid"@], short: None, kind: OptKind::Single },
            OptSpec { longs: seq!["task-id"@, "tid"@], short: None, kind: OptKind::Single },
        ],
        pos: Seq::empty(),
        conflicts: Seq::empty(),
        required: seq![0usize],
        requires: Seq::empty(),
        one_of: Seq::empty(),
    }
}

/// The `issue rm` command.
pub open spec fn leaf_issue_remove() -> LeafSpec {
    LeafSpec {
        names: seq!["rm"@],
        opts: Seq::empty(),
        pos: seq![PosKind::RequiredMany],
        conflicts: Seq::empty(),
        required: Seq::empty(),
        requires: Seq::empty(),
        one_of: Seq::empty(),
    }
}

/// The `issue get` command.
pub open spec fn leaf_issue_get() -> LeafSpec {
    LeafSpec {
        names: seq!["get"@],
        opts: Seq::empty(),
        pos: seq![PosKind::Required],
        conflicts: Seq::empty(),
        required: Seq::empty(),
        requires: Seq::empty(),
        one_of: Seq::empty(),
    }
}

/// The `config show` command.
pub open spec fn leaf_config_show() -> LeafSpec {
    LeafSpec {
        names: seq!["show"@],
        opts: Seq::empty(),
        pos: Seq::empty(),
        conflicts: Seq::empty(),
        required: Seq::empty(),
        requires: Seq::empty(),
        one_of: Seq::empty(),
    }
}

/// The `ctx` command.
pub open spec fn leaf_context() -> LeafSpec {
    LeafSpec {
        names: seq!["ctx"@],
        opts: seq![
            OptSpec { longs: seq!["task-id"@, "tid"@], short: None, kind: OptKind::Single },
            OptSpec { longs: seq!["file-id"@, "fid"@], short: None, kind: OptKind::Single },
            OptSpec { longs: seq!["epic-id"@, "eid"@], short: None, kind: OptKind::Single },
            OptSpec { longs: seq!["full"@], short: None, kind: OptKind::Flag },
            OptSpec { longs: seq!["general"@], short: None, kind: OptKind::Flag },
            OptSpec { longs: seq!["project"@], short: Some('p'), kind: OptKind::Single },
        ],
        pos: Seq::empty(),
        conflicts: seq![(0usize, 1usize), (0usize, 2usize), (0usize, 4usize), (0usize, 5usize), (1usize, 2usize), (1usize, 4usize), (1usize, 5usize), (2usize, 4usize), (2usize, 5usize)],
        required: Seq::empty(),
        requires: seq![(5usize, 4usize)],
        one_of: Seq::empty(),
    }
}

/// The `link` command.
pub open spec fn leaf_link() -> LeafSpec {
    LeafSpec {
        names: seq!["link"@, "ln"@],
        opts: seq![
            OptSpec { longs: seq!["from-id"@], short: Some('f'), kind: OptKind::Multi },
            OptSpec { longs: seq!["edge"@], short: Some('e'), kind: OptKind::Multi },
            OptSpec { longs: seq!["to-id"@], short: Some('t'), kind: OptKind::Multi },
        ],
        pos: Seq::empty(),
        conflicts: Seq::empty(),
        required: Seq::empty(),
        requires: Seq::empty(),
        one_of: Seq::empty(),
    }
}

/// The `rm` command.
pub open spec fn leaf_rm() -> LeafSpec {
    LeafSpec {
        names: seq!["rm"@],
        opts: Seq::empty(),
        pos: seq![PosKind::RequiredMany],
        conflicts: Seq::empty(),
        required: Seq::empty(),
        requires: Seq::empty(),
        one_of: Seq::empty(),
    }
}

/// The `purge` command.
pub open spec fn leaf_purge() -> LeafSpec {
    LeafSpec {
        names: seq!["purge"@],
        opts: Seq::empty(),
        pos: Seq::empty(),
        conflicts: Seq::empty(),
        required: Seq::empty(),
        requires: Seq::empty(),
        one_of: Seq::empty(),
    }
}

/// Options accepted at every level.
pub open spec fn global_opts() -> Seq<OptSpec> {
    seq![
        OptSpec { longs: seq!["pretty"@, "pp"@], short: None, kind: OptKind::Flag },
        OptSpec { longs: seq!["ignore-case"@], short: Some('i'), kind: OptKind::Flag },
    ]
}

/// The whole command line grammar.
pub open spec fn grammar() -> GrammarSpec {
    GrammarSpec {
        globals: global_opts(),
        commands: seq![
            CommandSpec::Leaf(leaf_add()),
            CommandSpec::Group(GroupSpec {
                names: seq!["project"@, "proj"@, "prj"@],
                subs: seq![leaf_project_create(), leaf_project_list(), leaf_project_delete()],
            }),
            CommandSpec::Group(GroupSpec {
                names: seq!["module"@, "mod"@, "mdl"@],
                subs: seq![leaf_module_create(), leaf_module_list(), leaf_module_delete()],
            }),
            CommandSpec::Group(GroupSpec {
                names: seq!["file"@, "f"@, "fi"@],
                subs: seq![leaf_file_create(), leaf_file_list(), leaf_file_delete()],
            }),
            CommandSpec::Group(GroupSpec {
                names: seq!["task"@, "t"@, "tk"@],
                subs: seq![leaf_task_create(), leaf_task_update(), leaf_task_delete(), leaf_task_list(), leaf_task_get()],
            }),
            CommandSpec::Group(GroupSpec {
                names: seq!["user-story"@, "us"@, "story"@],
                subs: seq![leaf_user_story_create(), leaf_user_story_list(), leaf_user_story_delete(), leaf_user_story_get()],
            }),
            CommandSpec::Group(GroupSpec {
                names: seq!["epic"@, "ep"@, "e"@],
                subs: seq![leaf_epic_create(), leaf_epic_list(), leaf_epic_delete()],
            }),
            CommandSpec::Group(GroupSpec {
                names: seq!["persona"@, "per"@],
                subs: seq![leaf_persona_create(), leaf_persona_list(), leaf_persona_delete()],
            }),
            CommandSpec::Group(GroupSpec {
                names: seq!["workflow"@, "wf"@],
                subs: seq![leaf_workflow_create(), leaf_workflow_list(), leaf_workflow_delete()],
            }),
            CommandSpec::Group(GroupSpec {
                names: seq!["todo"@, "td"@, "to"@],
                subs: seq![leaf_todo_create(), leaf_todo_list(), leaf_todo_update(), leaf_todo_delete(), leaf_todo_get()],
            }),
            CommandSpec::Group(GroupSpec {
                names: seq!["issue"@, "iss"@],
                subs: seq![leaf_issue_create(), leaf_issue_update(), leaf_issue_list(), leaf_issue_remove(), leaf_issue_get()],
            }),
            CommandSpec::Group(GroupSpec {
                names: seq!["config"@, "cfg"@, "conf"@],
                subs: seq![leaf_config_show()],
            }),
            CommandSpec::Leaf(leaf_context()),
            CommandSpec::Leaf(leaf_link()),
            CommandSpec::Leaf(leaf_rm()),
            CommandSpec::Leaf(leaf_purge()),
        ],
    }
}

fn leaf_add_def() -> (l: LeafDef)
    ensures
        l@ =~~= leaf_add(),
{
    LeafDef {
        names: vec!["add"],
        opts: vec![
            OptDef { longs: vec!["field"], short: Some('f'), kind: OptKind::Multi },
            OptDef { longs: vec!["value"], short: Some('v'), kind: OptKind::Multi },
            OptDef { longs: vec!["link-to", "ln"], short: None, kind: OptKind::Multi },
        ],
        pos: Vec::new(),
        conflicts: Vec::new(),
        required: vec![0, 1],
        requires: Vec::new(),
        one_of: Vec::new(),
    }
}

fn leaf_project_create_def() -> (l: LeafDef)
    ensures
        l@ =~~= leaf_project_create(),
{
    LeafDef {
        names: vec!["add"],
        opts: Vec::new(),
        pos: vec![PosKind::Required, PosKind::Required],
        conflicts: Vec::new(),
        required: Vec::new(),
        requires: Vec::new(),
        one_of: Vec::new(),
    }
}

fn leaf_project_list_def() -> (l: LeafDef)
    ensures
        l@ =~~= leaf_project_list(),
{
    LeafDef {
        names: vec!["list", "ls"],
        opts: Vec::new(),
        pos: Vec::new(),
        conflicts: Vec::new(),
        required: Vec::new(),
        requires: Vec::new(),
        one_of: Vec::new(),
    }
}

fn leaf_project_delete_def() -> (l: LeafDef)
    ensures
        l@ =~~= leaf_project_delete(),
{
    LeafDef {
        names: vec!["rm"],
        opts: Vec::new(),
        pos: vec![PosKind::RequiredMany],
        conflicts: Vec::new(),
        required: Vec::new(),
        requires: Vec::new(),
        one_of: Vec::new(),
    }
}

fn leaf_module_create_def() -> (l: LeafDef)
    ensures
        l@ =~~= leaf_module_create(),
{
    LeafDef {
        names: vec!["add"],
        opts: vec![
            OptDef { longs: vec!["project-ids", "pids"], short: None, kind: OptKind::Multi },
            OptDef { longs: vec!["project"], short: Some('p'), kind: OptKind::Single },
            OptDef { longs: vec!["parent-module-id", "pmid"], short: None, kind: OptKind::Single },
            OptDef { longs: vec!["notes"], short: None, kind: OptKind::Single },
        ],
        pos: vec![PosKind::Required, PosKind::Required],
        conflicts: vec![(0, 1)],
        required: Vec::new(),
        requires: Vec::new(),
        one_of: Vec::new(),
    }
}

fn leaf_module_list_def() -> (l: LeafDef)
    ensures
        l@ =~~= leaf_module_list(),
{
    LeafDef {
        names: vec!["list", "ls"],
        opts: vec![
            OptDef { longs: vec!["project-id", "pid"], short: None, kind: OptKind::Single },
            OptDef { longs: vec!["project"], short: Some('p'), kind: OptKind::Single },
            OptDef { longs: vec!["module-id", "mid"], short: None, kind: OptKind::Single },
        ],
        pos: Vec::new(),
        conflicts: vec![(0, 1), (0, 2), (1, 2)],
        required: Vec::new(),
        requires: Vec::new(),
        one_of: Vec::new(),
    }
}

fn leaf_module_delete_def() -> (l: LeafDef)
    ensures
        l@ =~~= leaf_module_delete(),
{
    LeafDef {
        names: vec!["rm"],
        opts: Vec::new(),
        pos: vec![PosKind::RequiredMany],
        conflicts: Vec::new(),
        required: Vec::new(),
        requires: Vec::new(),
        one_of: Vec::new(),
    }
}

fn leaf_file_create_def() -> (l: LeafDef)
    ensures
        l@ =~~= leaf_file_create(),
{
    LeafDef {
        names: vec!["add"],
        opts: vec![
            OptDef { longs: vec!["project-ids", "pids"], short: None, kind: OptKind::Multi },
            OptDef { longs: vec!["project"], short: Some('p'), kind: OptKind::Single },
            OptDef { longs: vec!["parent-ids"], short: None, kind: OptKind::Multi },
            OptDef { longs: vec!["notes"], short: None, kind: OptKind::Single },
        ],
        pos: vec![PosKind::Required, PosKind::Required, PosKind::Optional],
        conflicts: vec![(0, 1)],
        required: Vec::new(),
        requires: Vec::new(),
        one_of: Vec::new(),
    }
}

fn leaf_file_list_def() -> (l: LeafDef)
    ensures
        l@ =~~= leaf_file_list(),
{
    LeafDef {
        names: vec!["list", "ls"],
        opts: vec![
            OptDef { longs: vec!["project-id", "pid"], short: None, kind: OptKind::Single },
            OptDef { longs: vec!["project"], short: Some('p'), kind: OptKind::Single },
            OptDef { longs: vec!["module-id", "mid"], short: None, kind: OptKind::Single },
        ],
        pos: Vec::new(),
        conflicts: vec![(0, 1)],
        required: Vec::new(),
        requires: Vec::new(),
        one_of: Vec::new(),
    }
}

fn leaf_file_delete_def() -> (l: LeafDef)
    ensures
        l@ =~~= leaf_file_delete(),
{
    LeafDef {
        names: vec!["rm"],
        opts: Vec::new(),
        pos: vec![PosKind::RequiredMany],
        conflicts: Vec::new(),
        required: Vec::new(),
        requires: Vec::new(),
        one_of: Vec::new(),
    }
}

fn leaf_task_create_def() -> (l: LeafDef)
    ensures
        l@ =~~= leaf_task_create(),
{
    LeafDef {
        names: vec!["add"],
        opts: vec![
            OptDef { longs: vec!["module-ids", "mids"], short: None, kind: OptKind::Multi },
            OptDef { longs: vec!["project-id", "pid"], short: None, kind: OptKind::Single },
            OptDef { longs: vec!["project"], short: Some('p'), kind: OptKind::Single },
            OptDef { longs: vec!["user-story-ids", "usids"], short: None, kind: OptKind::Multi },
            OptDef { longs: vec!["epic-ids", "eids"], short: None, kind: OptKind::Multi },
        ],
        pos: vec![PosKind::Required, PosKind::Required],
        conflicts: vec![(1, 2)],
        required: Vec::new(),
        requires: Vec::new(),
        one_of: vec![(1, 2)],
    }
}

fn leaf_task_update_def() -> (l: LeafDef)
    ensures
        l@ =~~= leaf_task_update(),
{
    LeafDef {
        names: vec!["update"],
        opts: vec![
            OptDef { longs: vec!["name"], short: None, kind: OptKind::Single },
            OptDef { longs: vec!["description"], short: None, kind: OptKind::Single },
            OptDef { longs: vec!["status"], short: None, kind: OptKind::Single },
        ],
        pos: vec![PosKind::Required],
        conflicts: Vec::new(),
        required: Vec::new(),
        requires: Vec::new(),
        one_of: Vec::new(),
    }
}

fn leaf_task_delete_def() -> (l: LeafDef)
    ensures
        l@ =~~= leaf_task_delete(),
{
    LeafDef {
        names: vec!["rm"],
        opts: Vec::new(),
        pos: vec![PosKind::RequiredMany],
        conflicts: Vec::new(),
        required: Vec::new(),
        requires: Vec::new(),
        one_of: Vec::new(),
    }
}

fn leaf_task_list_def() -> (l: LeafDef)
    ensures
        l@ =~~= leaf_task_list(),
{
    LeafDef {
        names: vec!["list", "ls"],
        opts: vec![
            OptDef { longs: vec!["project-id", "pid"], short: None, kind: OptKind::Single },
            OptDef { longs: vec!["project"], short: Some('p'), kind: OptKind::Single },
        ],
        pos: Vec::new(),
        conflicts: vec![(0, 1)],
        required: Vec::new(),
        requires: Vec::new(),
        one_of: Vec::new(),
    }
}

fn leaf_task_get_def() -> (l: LeafDef)
    ensures
        l@ =~~= leaf_task_get(),
{
    LeafDef {
        names: vec!["get"],
        opts: Vec::new(),
        pos: vec![PosKind::Required],
        conflicts: Vec::new(),
        required: Vec::new(),
        requires: Vec::new(),
        one_of: Vec::new(),
    }
}

fn leaf_user_story_create_def() -> (l: LeafDef)
    ensures
        l@ =~~= leaf_user_story_create(),
{
    LeafDef {
        names: vec!["add"],
        opts: vec![
            OptDef { longs: vec!["project-id", "pid"], short: None, kind: OptKind::Single },
            OptDef { longs: vec!["project"], short: Some('p'), kind: OptKind::Single },
            OptDef { longs: vec!["epic-ids", "eids"], short: None, kind: OptKind::Multi },
        ],
        pos: vec![PosKind::Required, PosKind::Required],
        conflicts: vec![(0, 1)],
        required: Vec::new(),
        requires: Vec::new(),
        one_of: Vec::new(),
    }
}

fn leaf_user_story_list_def() -> (l: LeafDef)
    ensures
        l@ =~~= leaf_user_story_list(),
{
    LeafDef {
        names: vec!["list", "ls"],
        opts: vec![
            OptDef { longs: vec!["project-id", "pid"], short: None, kind: OptKind::Single },
            OptDef { longs: vec!["project"], short: Some('p'), kind: OptKind::Single },
            OptDef { longs: vec!["epic-id", "eid"], short: None, kind: OptKind::Single },
        ],
        pos: Vec::new(),
        conflicts: vec![(0, 1)],
        required: Vec::new(),
        requires: Vec::new(),
        one_of: Vec::new(),
    }
}

fn leaf_user_story_delete_def() -> (l: LeafDef)
    ensures
        l@ =~~= leaf_user_story_delete(),
{
    LeafDef {
        names: vec!["rm"],
        opts: Vec::new(),
        pos: vec![PosKind::RequiredMany],
        conflicts: Vec::new(),
        required: Vec::new(),
        requires: Vec::new(),
        one_of: Vec::new(),
    }
}

fn leaf_user_story_get_def() -> (l: LeafDef)
    ensures
        l@ =~~= leaf_user_story_get(),
{
    LeafDef {
        names: vec!["get"],
        opts: Vec::new(),
        pos: vec![PosKind::Required],
        conflicts: Vec::new(),
        required: Vec::new(),
        requires: Vec::new(),
        one_of: Vec::new(),
    }
}

fn leaf_epic_create_def() -> (l: LeafDef)
    ensures
        l@ =~~= leaf_epic_create(),
{
    LeafDef {
        names: vec!["add"],
        opts: vec![
            OptDef { longs: vec!["project-id", "pid"], short: None, kind: OptKind::Single },
            OptDef { longs: vec!["project"], short: Some('p'), kind: OptKind::Single },
        ],
        pos: vec![PosKind::Required, PosKind::Required],
        conflicts: vec![(0, 1)],
        required: Vec::new(),
        requires: Vec::new(),
        one_of: Vec::new(),
    }
}

fn leaf_epic_list_def() -> (l: LeafDef)
    ensures
        l@ =~~= leaf_epic_list(),
{
    LeafDef {
        names: vec!["list", "ls"],
        opts: vec![
            OptDef { longs: vec!["project-id", "pid"], short: None, kind: OptKind::Single },
            OptDef { longs: vec!["project"], short: Some('p'), kind: OptKind::Single },
        ],
        pos: Vec::new(),
        conflicts: vec![(0, 1)],
        required: Vec::new(),
        requires: Vec::new(),
        one_of: Vec::new(),
    }
}

fn leaf_epic_delete_def() -> (l: LeafDef)
    ensures
        l@ =~~= leaf_epic_delete(),
{
    LeafDef {
        names: vec!["rm"],
        opts: Vec::new(),
        pos: vec![PosKind::RequiredMany],
        conflicts: Vec::new(),
        required: Vec::new(),
        requires: Vec::new(),
        one_of: Vec::new(),
    }
}

fn leaf_persona_create_def() -> (l: LeafDef)
    ensures
        l@ =~~= leaf_persona_create(),
{
    LeafDef {
        names: vec!["add"],
        opts: vec![
            OptDef { longs: vec!["project-ids", "pids"], short: None, kind: OptKind::Multi },
            OptDef { longs: vec!["project"], short: Some('p'), kind: OptKind::Single },
        ],
        pos: vec![PosKind::Required, PosKind::Required],
        conflicts: vec![(0, 1)],
        required: Vec::new(),
        requires: Vec::new(),
        one_of: Vec::new(),
    }
}

fn leaf_persona_list_def() -> (l: LeafDef)
    ensures
        l@ =~~= leaf_persona_list(),
{
    LeafDef {
        names: vec!["list", "ls"],
        opts: vec![
            OptDef { longs: vec!["project-id", "pid"], short: None, kind: OptKind::Single },
            OptDef { longs: vec!["project"], short: Some('p'), kind: OptKind::Single },
        ],
        pos: Vec::new(),
        conflicts: vec![(0, 1)],
        required: Vec::new(),
        requires: Vec::new(),
        one_of: Vec::new(),
    }
}

fn leaf_persona_delete_def() -> (l: LeafDef)
    ensures
        l@ =~~= leaf_persona_delete(),
{
    LeafDef {
        names: vec!["rm"],
        opts: Vec::new(),
        pos: vec![PosKind::RequiredMany],
        conflicts: Vec::new(),
        required: Vec::new(),
        requires: Vec::new(),
        one_of: Vec::new(),
    }
}

fn leaf_workflow_create_def() -> (l: LeafDef)
    ensures
        l@ =~~= leaf_workflow_create(),
{
    LeafDef {
        names: vec!["add"],
        opts: vec![
            OptDef { longs: vec!["project-ids", "pids"], short: None, kind: OptKind::Multi },
            OptDef { longs: vec!["project"], short: Some('p'), kind: OptKind::Single },
        ],
        pos: vec![PosKind::Required, PosKind::Required],
        conflicts: vec![(0, 1)],
        required: Vec::new(),
        requires: Vec::new(),
        one_of: Vec::new(),
    }
}

fn leaf_workflow_list_def() -> (l: LeafDef)
    ensures
        l@ =~~= leaf_workflow_list(),
{
    LeafDef {
        names: vec!["list", "ls"],
        opts: vec![
            OptDef { longs: vec!["project-id", "pid"], short: None, kind: OptKind::Single },
            OptDef { longs: vec!["project"], short: Some('p'), kind: OptKind::Single },
        ],
        pos: Vec::new(),
        conflicts: vec![(0, 1)],
        required: Vec::new(),
        requires: Vec::new(),
        one_of: Vec::new(),
    }
}

fn leaf_workflow_delete_def() -> (l: LeafDef)
    ensures
        l@ =~~= leaf_workflow_delete(),
{
    LeafDef {
        names: vec!["rm"],
        opts: Vec::new(),
        pos: vec![PosKind::RequiredMany],
        conflicts: Vec::new(),
        required: Vec::new(),
        requires: Vec::new(),
        one_of: Vec::new(),
    }
}

fn leaf_todo_create_def() -> (l: LeafDef)
    ensures
        l@ =~~= leaf_todo_create(),
{
    LeafDef {
        names: vec!["add"],
        opts: vec![
            OptDef { longs: vec!["project-ids", "pids"], short: None, kind: OptKind::Multi },
            OptDef { longs: vec!["project"], short: Some('p'), kind: OptKind::Single },
        ],
        pos: vec![PosKind::Required],
        conflicts: vec![(0, 1)],
        required: Vec::new(),
        requires: Vec::new(),
        one_of: Vec::new(),
    }
}

fn leaf_todo_list_def() -> (l: LeafDef)
    ensures
        l@ =~~= leaf_todo_list(),
{
    LeafDef {
        names: vec!["list", "ls"],
        opts: vec![
            OptDef { longs: vec!["project-id", "pid"], short: None, kind: OptKind::Single },
            OptDef { longs: vec!["project"], short: Some('p'), kind: OptKind::Single },
        ],
        pos: Vec::new(),
        conflicts: vec![(0, 1)],
        required: Vec::new(),
        requires: Vec::new(),
        one_of: Vec::new(),
    }
}

fn leaf_todo_update_def() -> (l: LeafDef)
    ensures
        l@ =~~= leaf_todo_update(),
{
    LeafDef {
        names: vec!["update"],
        opts: vec![
            OptDef { longs: vec!["content"], short: None, kind: OptKind::Single },
            OptDef { longs: vec!["status"], short: None, kind: OptKind::Single },
        ],
        pos: vec![PosKind::Required],
        conflicts: Vec::new(),
        required: Vec::new(),
        requires: Vec::new(),
        one_of: Vec::new(),
    }
}

fn leaf_todo_delete_def() -> (l: LeafDef)
    ensures
        l@ =~~= leaf_todo_delete(),
{
    LeafDef {
        names: vec!["rm"],
        opts: Vec::new(),
        pos: vec![PosKind::RequiredMany],
        conflicts: Vec::new(),
        required: Vec::new(),
        requires: Vec::new(),
        one_of: Vec::new(),
    }
}

fn leaf_todo_get_def() -> (l: LeafDef)
    ensures
        l@ =~~= leaf_todo_get(),
{
    LeafDef {
        names: vec!["get"],
        opts: Vec::new(),
        pos: vec![PosKind::Required],
        conflicts: Vec::new(),
        required: Vec::new(),
        requires: Vec::new(),
        one_of: Vec::new(),
    }
}

fn leaf_issue_create_def() -> (l: LeafDef)
    ensures
        l@ =~~= leaf_issue_create(),
{
    LeafDef {
        names: vec!["add"],
        opts: vec![
            OptDef { longs: vec!["task-id", "tid"], short: None, kind: OptKind::Single },
            OptDef { longs: vec!["project-id", "pid"], short: None, kind: OptKind::Single },
            OptDef { longs: vec!["plan"], short: None, kind: OptKind::Single },
            OptDef { longs: vec!["verification"], short: None, kind: OptKind::Single },
        ],
        pos: vec![PosKind::Required],
        conflicts: Vec::new(),
        required: vec![1],
        requires: Vec::new(),
        one_of: Vec::new(),
    }
}

fn leaf_issue_update_def() -> (l: LeafDef)
    ensures
        l@ =~~= leaf_issue_update(),
{
    LeafDef {
        names: vec!["update"],
        opts: vec![
            OptDef { longs: vec!["description"], short: None, kind: OptKind::Single },
            OptDef { longs: vec!["plan"], short: None, kind: OptKind::Single },
            OptDef { longs: vec!["verification"], short: None, kind: OptKind::Single },
            OptDef { longs: vec!["status"], short: None, kind: OptKind::Single },
        ],
        pos: vec![PosKind::Required],
        conflicts: Vec::new(),
        required: Vec::new(),
        requires: Vec::new(),
        one_of: Vec::new(),
    }
}

fn leaf_issue_list_def() -> (l: LeafDef)
    ensures
        l@ =~~= leaf_issue_list(),
{
    LeafDef {
        names: vec!["list", "ls"],
        opts: vec![
            OptDef { longs: vec!["project-id", "pid"], short: None, kind: OptKind::Single },
            OptDef { longs: vec!["task-id", "tid"], short: None, kind: OptKind::Single },
        ],
        pos: Vec::new(),
        conflicts: Vec::new(),
        required: vec![0],
        requires: Vec::new(),
        one_of: Vec::new(),
    }
}

fn leaf_issue_remove_def() -> (l: LeafDef)
    ensures
        l@ =~~= leaf_issue_remove(),
{
    LeafDef {
        names: vec!["rm"],
        opts: Vec::new(),
        pos: vec![PosKind::RequiredMany],
        conflicts: Vec::new(),
        required: Vec::new(),
        requires: Vec::new(),
        one_of: Vec::new(),
    }
}

fn leaf_issue_get_def() -> (l: LeafDef)
    ensures
        l@ =~~= leaf_issue_get(),
{
    LeafDef {
        names: vec!["get"],
        opts: Vec::new(),
        pos: vec![PosKind::Required],
        conflicts: Vec::new(),
        required: Vec::new(),
        requires: Vec::new(),
        one_of: Vec::new(),
    }
}

fn leaf_config_show_def() -> (l: LeafDef)
    ensures
        l@ =~~= leaf_config_show(),
{
    LeafDef {
        names: vec!["show"],
        opts: Vec::new(),
        pos: Vec::new(),
        conflicts: Vec::new(),
        required: Vec::new(),
        requires: Vec::new(),
        one_of: Vec::new(),
    }
}

fn leaf_context_def() -> (l: LeafDef)
    ensures
        l@ =~~= leaf_context(),
{
    LeafDef {
        names: vec!["ctx"],
        opts: vec![
            OptDef { longs: vec!["task-id", "tid"], short: None, kind: OptKind::Single },
            OptDef { longs: vec!["file-id", "fid"], short: None, kind: OptKind::Single },
            OptDef { longs: vec!["epic-id", "eid"], short: None, kind: OptKind::Single },
            OptDef { longs: vec!["full"], short: None, kind: OptKind::Flag },
            OptDef { longs: vec!["general"], short: None, kind: OptKind::Flag },
            OptDef { longs: vec!["project"], short: Some('p'), kind: OptKind::Single },
        ],
        pos: Vec::new(),
        conflicts: vec![(0, 1), (0, 2), (0, 4), (0, 5), (1, 2), (1, 4), (1, 5), (2, 4), (2, 5)],
        required: Vec::new(),
        requires: vec![(5, 4)],
        one_of: Vec::new(),
    }
}

fn leaf_link_def() -> (l: LeafDef)
    ensures
        l@ =~~= leaf_link(),
{
    LeafDef {
        names: vec!["link", "ln"],
        opts: vec![
            OptDef { longs: vec!["from-id"], short: Some('f'), kind: OptKind::Multi },
            OptDef { longs: vec!["edge"], short: Some('e'), kind: OptKind::Multi },
            OptDef { longs: vec!["to-id"], short: Some('t'), kind: OptKind::Multi },
        ],
        pos: Vec::new(),
        conflicts: Vec::new(),
        required: Vec::new(),
        requires: Vec::new(),
        one_of: Vec::new(),
    }
}

fn leaf_rm_def() -> (l: LeafDef)
    ensures
        l@ =~~= leaf_rm(),
{
    LeafDef {
        names: vec!["rm"],
        opts: Vec::new(),
        pos: vec![PosKind::RequiredMany],
        conflicts: Vec::new(),
        required: Vec::new(),
        requires: Vec::new(),
        one_of: Vec::new(),
    }
}

fn leaf_purge_def() -> (l: LeafDef)
    ensures
        l@ =~~= leaf_purge(),
{
    LeafDef {
        names: vec!["purge"],
        opts: Vec::new(),
        pos: Vec::new(),
        conflicts: Vec::new(),
        required: Vec::new(),
        requires: Vec::new(),
        one_of: Vec::new(),
    }
}

fn global_opts_def() -> (v: Vec<OptDef>)
    ensures
        cli::opts_view(v@) =~~= global_opts(),
{
    vec![
        OptDef { longs: vec!["pretty", "pp"], short: None, kind: OptKind::Flag },
        OptDef { longs: vec!["ignore-case"], short: Some('i'), kind: OptKind::Flag },
    ]
}

/// Builds the grammar as data for the parser.
pub fn build_grammar() -> (g: Grammar)
    ensures
        g@ =~~= grammar(),
{
    Grammar {
        globals: global_opts_def(),
        commands: vec![
            CommandDef::Leaf(leaf_add_def()),
            CommandDef::Group(GroupDef {
                names: vec!["project", "proj", "prj"],
                subs: vec![leaf_project_create_def(), leaf_project_list_def(), leaf_project_delete_def()],
            }),
            CommandDef::Group(GroupDef {
                names: vec!["module", "mod", "mdl"],
                subs: vec![leaf_module_create_def(), leaf_module_list_def(), leaf_module_delete_def()],
            }),
            CommandDef::Group(GroupDef {
                names: vec!["file", "f", "fi"],
                subs: vec![leaf_file_create_def(), leaf_file_list_def(), leaf_file_delete_def()],
            }),
            CommandDef::Group(GroupDef {
                names: vec!["task", "t", "tk"],
                subs: vec![leaf_task_create_def(), leaf_task_update_def(), leaf_task_delete_def(), leaf_task_list_def(), leaf_task_get_def()],
            }),
            CommandDef::Group(GroupDef {
                names: vec!["user-story", "us", "story"],
                subs: vec![leaf_user_story_create_def(), leaf_user_story_list_def(), leaf_user_story_delete_def(), leaf_user_story_get_def()],
            }),
            CommandDef::Group(GroupDef {
                names: vec!["epic", "ep", "e"],
                subs: vec![leaf_epic_create_def(), leaf_epic_list_def(), leaf_epic_delete_def()],
            }),
            CommandDef::Group(GroupDef {
                names: vec!["persona", "per"],
                subs: vec![leaf_persona_create_def(), leaf_persona_list_def(), leaf_persona_delete_def()],
            }),
            CommandDef::Group(GroupDef {
                names: vec!["workflow", "wf"],
                subs: vec![leaf_workflow_create_def(), leaf_workflow_list_def(), leaf_workflow_delete_def()],
            }),
            CommandDef::Group(GroupDef {
                names: vec!["todo", "td", "to"],
                subs: vec![leaf_todo_create_def(), leaf_todo_list_def(), leaf_todo_update_def(), leaf_todo_delete_def(), leaf_todo_get_def()],
            }),
            CommandDef::Group(GroupDef {
                names: vec!["issue", "iss"],
                subs: vec![leaf_issue_create_def(), leaf_issue_update_def(), leaf_issue_list_def(), leaf_issue_remove_def(), leaf_issue_get_def()],
            }),
            CommandDef::Group(GroupDef {
                names: vec!["config", "cfg", "conf"],
                subs: vec![leaf_config_show_def()],
            }),
            CommandDef::Leaf(leaf_context_def()),
            CommandDef::Leaf(leaf_link_def()),
            CommandDef::Leaf(leaf_rm_def()),
            CommandDef::Leaf(leaf_purge_def()),
        ],
    }
}

// ---------------------------------------------------------------------------
// The typed commands
// ---------------------------------------------------------------------------

/// Subcommands of `project`.
#[derive(Debug)]
pub enum ProjectCommands {
    Create {
        name: String,
        description: String,
    },
    List,
    Delete {
        project_ids: Vec<String>,
    },
}

/// Subcommands of `module`.
#[derive(Debug)]
pub enum ModuleCommands {
    Create {
        project_ids: Vec<String>,
        project: Option<String>,
        parent_module_id: Option<String>,
        name: String,
        description: String,
        notes: Option<String>,
    },
    List {
        project_id: Option<String>,
        project: Option<String>,
        module_id: Option<String>,
    },
    Delete {
        module_ids: Vec<String>,
    },
}

/// Subcommands of `file`.
#[derive(Debug)]
pub enum FileCommands {
    Create {
        project_ids: Vec<String>,
        project: Option<String>,
        parent_ids: Vec<String>,
        name: String,
        path: String,
        description: Option<String>,
        notes: Option<String>,
    },
    List {
        project_id: Option<String>,
        project: Option<String>,
        module_id: Option<String>,
    },
    Delete {
        file_ids: Vec<String>,
    },
}

/// Subcommands of `task`.
#[derive(Debug)]
pub enum TaskCommands {
    Create {
        module_ids: Vec<String>,
        project_id: Option<String>,
        project: Option<String>,
        user_story_ids: Vec<String>,
        epic_ids: Vec<String>,
        name: String,
        description: String,
    },
    Update {
        task_id: String,
        name: Option<String>,
        description: Option<String>,
        status: Option<String>,
    },
    Delete {
        task_ids: Vec<String>,
    },
    List {
        project_id: Option<String>,
        project: Option<String>,
    },
    Get {
        id: String,
    },
}

/// Subcommands of `user-story`.
#[derive(Debug)]
pub enum UserStoryCommands {
    Create {
        project_id: Option<String>,
        project: Option<String>,
        epic_ids: Vec<String>,
        title: String,
        description: String,
    },
    List {
        project_id: Option<String>,
        project: Option<String>,
        epic_id: Option<String>,
    },
    Delete {
        user_story_ids: Vec<String>,
    },
    Get {
        id: String,
    },
}

/// Subcommands of `epic`.
#[derive(Debug)]
pub enum EpicCommands {
    Create {
        project_id: Option<String>,
        project: Option<String>,
        title: String,
        description: String,
    },
    List {
        project_id: Option<String>,
        project: Option<String>,
    },
    Delete {
        epic_ids: Vec<String>,
    },
}

/// Subcommands of `persona`.
#[derive(Debug)]
pub enum PersonaCommands {
    Create {
        project_ids: Vec<String>,
        project: Option<String>,
        name: String,
        content: String,
    },
    List {
        project_id: Option<String>,
        project: Option<String>,
    },
    Delete {
        persona_ids: Vec<String>,
    },
}

/// Subcommands of `workflow`.
#[derive(Debug)]
pub enum WorkflowCommands {
    Create {
        project_ids: Vec<String>,
        project: Option<String>,
        name: String,
        content: String,
    },
    List {
        project_id: Option<String>,
        project: Option<String>,
    },
    Delete {
        workflow_ids: Vec<String>,
    },
}

/// Subcommands of `todo`.
#[derive(Debug)]
pub enum TodoCommands {
    Create {
        project_ids: Vec<String>,
        project: Option<String>,
        content: String,
    },
    List {
        project_id: Option<String>,
        project: Option<String>,
    },
    Update {
        todo_id: String,
        content: Option<String>,
        status: Option<String>,
    },
    Delete {
        todo_ids: Vec<String>,
    },
    Get {
        id: String,
    },
}

/// Subcommands of `issue`.
#[derive(Debug)]
pub enum IssueCommands {
    Create {
        task_id: Option<String>,
        project_id: String,
        plan: Option<String>,
        verification: Option<String>,
        description: String,
    },
    Update {
        issue_id: String,
        description: Option<String>,
        plan: Option<String>,
        verification: Option<String>,
        status: Option<String>,
    },
    List {
        project_id: String,
        task_id: Option<String>,
    },
    Remove {
        issue_ids: Vec<String>,
    },
    Get {
        id: String,
    },
}

/// Subcommands of `config`.
#[derive(Debug)]
pub enum ConfigCommands {
    Show,
}

/// The commands.
#[derive(Debug)]
pub enum Commands {
    Add {
        field_names: Vec<String>,
        field_values: Vec<String>,
        link_to: Vec<String>,
    },
    Project {
        command: ProjectCommands,
    },
    Module {
        command: ModuleCommands,
    },
    File {
        command: FileCommands,
    },
    Task {
        command: TaskCommands,
    },
    UserStory {
        command: UserStoryCommands,
    },
    Epic {
        command: EpicCommands,
    },
    Persona {
        command: PersonaCommands,
    },
    Workflow {
        command: WorkflowCommands,
    },
    Todo {
        command: TodoCommands,
    },
    Issue {
        command: IssueCommands,
    },
    Config {
        command: ConfigCommands,
    },
    Context {
        task_id: Option<String>,
        file_id: Option<String>,
        epic_id: Option<String>,
        full: bool,
        general: bool,
        project: Option<String>,
    },
    Link {
        from_id: Vec<String>,
        edge: Vec<String>,
        to_id: Vec<String>,
    },
    Rm {
        context_ids: Vec<String>,
    },
    Purge,
}

/// A parsed command line.
#[derive(Debug)]
pub struct Args {
    pub pretty: bool,
    pub ignore_case: bool,
    pub command: Commands,
}

/// `c` is the `project` subcommand that the parse `p` selects, with its arguments.
pub open spec fn project_commands_match(c: ProjectCommands, p: ParsedSpec) -> bool {
    match c {
        ProjectCommands::Create { name, description } => {
            &&& p.sub == 0
            &&& name@ == p.pos[0]
            &&& description@ == p.pos[1]
        },
        ProjectCommands::List => {
            &&& p.sub == 1
        },
        ProjectCommands::Delete { project_ids } => {
            &&& p.sub == 2
            &&& project_ids.deep_view() == p.pos.skip(0)
        },
    }
}

/// `c` is the `module` subcommand that the parse `p` selects, with its arguments.
pub open spec fn module_commands_match(c: ModuleCommands, p: ParsedSpec) -> bool {
    match c {
        ModuleCommands::Create { project_ids, project, parent_module_id, name, description, notes } => {
            &&& p.sub == 0
            &&& project_ids.deep_view() == p.opts[0]
            &&& cli::opt_string_view(project) == cli::single_at(p.opts, 1)
            &&& cli::opt_string_view(parent_module_id) == cli::single_at(p.opts, 2)
            &&& name@ == p.pos[0]
            &&& description@ == p.pos[1]
            &&& cli::opt_string_view(notes) == cli::single_at(p.opts, 3)
        },
        ModuleCommands::List { project_id, project, module_id } => {
            &&& p.sub == 1
            &&& cli::opt_string_view(project_id) == cli::single_at(p.opts, 0)
            &&& cli::opt_string_view(project) == cli::single_at(p.opts, 1)
            &&& cli::opt_string_view(module_id) == cli::single_at(p.opts, 2)
        },
        ModuleCommands::Delete { module_ids } => {
            &&& p.sub == 2
            &&& module_ids.deep_view() == p.pos.skip(0)
        },
    }
}

/// `c` is the `file` subcommand that the parse `p` selects, with its arguments.
pub open spec fn file_commands_match(c: FileCommands, p: ParsedSpec) -> bool {
    match c {
        FileCommands::Create { project_ids, project, parent_ids, name, path, description, notes } => {
            &&& p.sub == 0
            &&& project_ids.deep_view() == p.opts[0]
            &&& cli::opt_string_view(project) == cli::single_at(p.opts, 1)
            &&& parent_ids.deep_view() == p.opts[2]
            &&& name@ == p.pos[0]
            &&& path@ == p.pos[1]
            &&& cli::opt_string_view(description) == cli::pos_opt(p.pos, 2)
            &&& cli::opt_string_view(notes) == cli::single_at(p.opts, 3)
        },
        FileCommands::List { project_id, project, module_id } => {
            &&& p.sub == 1
            &&& cli::opt_string_view(project_id) == cli::single_at(p.opts, 0)
            &&& cli::opt_string_view(project) == cli::single_at(p.opts, 1)
            &&& cli::opt_string_view(module_id) == cli::single_at(p.opts, 2)
        },
        FileCommands::Delete { file_ids } => {
            &&& p.sub == 2
            &&& file_ids.deep_view() == p.pos.skip(0)
        },
    }
}

/// `c` is the `task` subcommand that the parse `p` selects, with its arguments.
pub open spec fn task_commands_match(c: TaskCommands, p: ParsedSpec) -> bool {
    match c {
        TaskCommands::Create { module_ids, project_id, project, user_story_ids, epic_ids, name, description } => {
            &&& p.sub == 0
            &&& module_ids.deep_view() == p.opts[0]
            &&& cli::opt_string_view(project_id) == cli::single_at(p.opts, 1)
            &&& cli::opt_string_view(project) == cli::single_at(p.opts, 2)
            &&& user_story_ids.deep_view() == p.opts[3]
            &&& epic_ids.deep_view() == p.opts[4]
            &&& name@ == p.pos[0]
            &&& description@ == p.pos[1]
        },
        TaskCommands::Update { task_id, name, description, status } => {
            &&& p.sub == 1
            &&& task_id@ == p.pos[0]
            &&& cli::opt_string_view(name) == cli::single_at(p.opts, 0)
            &&& cli::opt_string_view(description) == cli::single_at(p.opts, 1)
            &&& cli::opt_string_view(status) == cli::single_at(p.opts, 2)
        },
        TaskCommands::Delete { task_ids } => {
            &&& p.sub == 2
            &&& task_ids.deep_view() == p.pos.skip(0)
        },
        TaskCommands::List { project_id, project } => {
            &&& p.sub == 3
            &&& cli::opt_string_view(project_id) == cli::single_at(p.opts, 0)
            &&& cli::opt_string_view(project) == cli::single_at(p.opts, 1)
        },
        TaskCommands::Get { id } => {
            &&& p.sub == 4
            &&& id@ == p.pos[0]
        },
    }
}

/// `c` is the `user-story` subcommand that the parse `p` selects, with its arguments.
pub open spec fn user_story_commands_match(c: UserStoryCommands, p: ParsedSpec) -> bool {
    match c {
        UserStoryCommands::Create { project_id, project, epic_ids, title, description } => {
            &&& p.sub == 0
            &&& cli::opt_string_view(project_id) == cli::single_at(p.opts, 0)
            &&& cli::opt_string_view(project) == cli::single_at(p.opts, 1)
            &&& epic_ids.deep_view() == p.opts[2]
            &&& title@ == p.pos[0]
            &&& description@ == p.pos[1]
        },
        UserStoryCommands::List { project_id, project, epic_id } => {
            &&& p.sub == 1
            &&& cli::opt_string_view(project_id) == cli::single_at(p.opts, 0)
            &&& cli::opt_string_view(project) == cli::single_at(p.opts, 1)
            &&& cli::opt_string_view(epic_id) == cli::single_at(p.opts, 2)
        },
        UserStoryCommands::Delete { user_story_ids } => {
            &&& p.sub == 2
            &&& user_story_ids.deep_view() == p.pos.skip(0)
        },
        UserStoryCommands::Get { id } => {
            &&& p.sub == 3
            &&& id@ == p.pos[0]
        },
    }
}

/// `c` is the `epic` subcommand that the parse `p` selects, with its arguments.
pub open spec fn epic_commands_match(c: EpicCommands, p: ParsedSpec) -> bool {
    match c {
        EpicCommands::Create { project_id, project, title, description } => {
            &&& p.sub == 0
            &&& cli::opt_string_view(project_id) == cli::single_at(p.opts, 0)
            &&& cli::opt_string_view(project) == cli::single_at(p.opts, 1)
            &&& title@ == p.pos[0]
            &&& description@ == p.pos[1]
        },
        EpicCommands::List { project_id, project } => {
            &&& p.sub == 1
            &&& cli::opt_string_view(project_id) == cli::single_at(p.opts, 0)
            &&& cli::opt_string_view(project) == cli::single_at(p.opts, 1)
        },
        EpicCommands::Delete { epic_ids } => {
            &&& p.sub == 2
            &&& epic_ids.deep_view() == p.pos.skip(0)
        },
    }
}

/// `c` is the `persona` subcommand that the parse `p` selects, with its arguments.
pub open spec fn persona_commands_match(c: PersonaCommands, p: ParsedSpec) -> bool {
    match c {
        PersonaCommands::Create { project_ids, project, name, content } => {
            &&& p.sub == 0
            &&& project_ids.deep_view() == p.opts[0]
            &&& cli::opt_string_view(project) == cli::single_at(p.opts, 1)
            &&& name@ == p.pos[0]
            &&& content@ == p.pos[1]
        },
        PersonaCommands::List { project_id, project } => {
            &&& p.sub == 1
            &&& cli::opt_string_view(project_id) == cli::single_at(p.opts, 0)
            &&& cli::opt_string_view(project) == cli::single_at(p.opts, 1)
        },
        PersonaCommands::Delete { persona_ids } => {
            &&& p.sub == 2
            &&& persona_ids.deep_view() == p.pos.skip(0)
        },
    }
}

/// `c` is the `workflow` subcommand that the parse `p` selects, with its arguments.
pub open spec fn workflow_commands_match(c: WorkflowCommands, p: ParsedSpec) -> bool {
    match c {
        WorkflowCommands::Create { project_ids, project, name, content } => {
            &&& p.sub == 0
            &&& project_ids.deep_view() == p.opts[0]
            &&& cli::opt_string_view(project) == cli::single_at(p.opts, 1)
            &&& name@ == p.pos[0]
            &&& content@ == p.pos[1]
        },
        WorkflowCommands::List { project_id, project } => {
            &&& p.sub == 1
            &&& cli::opt_string_view(project_id) == cli::single_at(p.opts, 0)
            &&& cli::opt_string_view(project) == cli::single_at(p.opts, 1)
        },
        WorkflowCommands::Delete { workflow_ids } => {
            &&& p.sub == 2
            &&& workflow_ids.deep_view() == p.pos.skip(0)
        },
    }
}

/// `c` is the `todo` subcommand that the parse `p` selects, with its arguments.
pub open spec fn todo_commands_match(c: TodoCommands, p: ParsedSpec) -> bool {
    match c {
        TodoCommands::Create { project_ids, project, content } => {
            &&& p.sub == 0
            &&& project_ids.deep_view() == p.opts[0]
            &&& cli::opt_string_view(project) == cli::single_at(p.opts, 1)
            &&& content@ == p.pos[0]
        },
        TodoCommands::List { project_id, project } => {
            &&& p.sub == 1
            &&& cli::opt_string_view(project_id) == cli::single_at(p.opts, 0)
            &&& cli::opt_string_view(project) == cli::single_at(p.opts, 1)
        },
        TodoCommands::Update { todo_id, content, status } => {
            &&& p.sub == 2
            &&& todo_id@ == p.pos[0]
            &&& cli::opt_string_view(content) == cli::single_at(p.opts, 0)
            &&& cli::opt_string_view(status) == cli::single_at(p.opts, 1)
        },
        TodoCommands::Delete { todo_ids } => {
            &&& p.sub == 3
            &&& todo_ids.deep_view() == p.pos.skip(0)
        },
        TodoCommands::Get { id } => {
            &&& p.sub == 4
            &&& id@ == p.pos[0]
        },
    }
}

/// `c` is the `issue` subcommand that the parse `p` selects, with its arguments.
pub open spec fn issue_commands_match(c: IssueCommands, p: ParsedSpec) -> bool {
    match c {
        IssueCommands::Create { task_id, project_id, plan, verification, description } => {
            &&& p.sub == 0
            &&& cli::opt_string_view(task_id) == cli::single_at(p.opts, 0)
            &&& project_id@ == p.opts[1][0]
            &&& cli::opt_string_view(plan) == cli::single_at(p.opts, 2)
            &&& cli::opt_string_view(verification) == cli::single_at(p.opts, 3)
            &&& description@ == p.pos[0]
        },
        IssueCommands::Update { issue_id, description, plan, verification, status } => {
            &&& p.sub == 1
            &&& issue_id@ == p.pos[0]
            &&& cli::opt_string_view(description) == cli::single_at(p.opts, 0)
            &&& cli::opt_string_view(plan) == cli::single_at(p.opts, 1)
            &&& cli::opt_string_view(verification) == cli::single_at(p.opts, 2)
            &&& cli::opt_string_view(status) == cli::single_at(p.opts, 3)
        },
        IssueCommands::List { project_id, task_id } => {
            &&& p.sub == 2
            &&& project_id@ == p.opts[0][0]
            &&& cli::opt_string_view(task_id) == cli::single_at(p.opts, 1)
        },
        IssueCommands::Remove { issue_ids } => {
            &&& p.sub == 3
            &&& issue_ids.deep_view() == p.pos.skip(0)
        },
        IssueCommands::Get { id } => {
            &&& p.sub == 4
            &&& id@ == p.pos[0]
        },
    }
}

/// `c` is the `config` subcommand that the parse `p` selects, with its arguments.
pub open spec fn config_commands_match(c: ConfigCommands, p: ParsedSpec) -> bool {
    match c {
        ConfigCommands::Show => {
            &&& p.sub == 0
        },
    }
}

/// `c` is the command that the parse `p` selects, with its arguments.
pub open spec fn commands_match(c: Commands, p: ParsedSpec) -> bool {
    match c {
        Commands::Add { field_names, field_values, link_to } => {
            &&& p.command == 0
            &&& p.sub == 0
            &&& field_names.deep_view() == p.opts[0]
            &&& field_values.deep_view() == p.opts[1]
            &&& link_to.deep_view() == p.opts[2]
        },
        Commands::Project { command } => p.command == 1 && project_commands_match(command, p),
        Commands::Module { command } => p.command == 2 && module_commands_match(command, p),
        Commands::File { command } => p.command == 3 && file_commands_match(command, p),
        Commands::Task { command } => p.command == 4 && task_commands_match(command, p),
        Commands::UserStory { command } => p.command == 5 && user_story_commands_match(command, p),
        Commands::Epic { command } => p.command == 6 && epic_commands_match(command, p),
        Commands::Persona { command } => p.command == 7 && persona_commands_match(command, p),
        Commands::Workflow { command } => p.command == 8 && workflow_commands_match(command, p),
        Commands::Todo { command } => p.command == 9 && todo_commands_match(command, p),
        Commands::Issue { command } => p.command == 10 && issue_commands_match(command, p),
        Commands::Config { command } => p.command == 11 && config_commands_match(command, p),
        Commands::Context { task_id, file_id, epic_id, full, general, project } => {
            &&& p.command == 12
            &&& p.sub == 0
            &&& cli::opt_string_view(task_id) == cli::single_at(p.opts, 0)
            &&& cli::opt_string_view(file_id) == cli::single_at(p.opts, 1)
            &&& cli::opt_string_view(epic_id) == cli::single_at(p.opts, 2)
            &&& full == cli::flag_at(p.opts, 3)
            &&& general == cli::flag_at(p.opts, 4)
            &&& cli::opt_string_view(project) == cli::single_at(p.opts, 5)
        },
        Commands::Link { from_id, edge, to_id } => {
            &&& p.command == 13
            &&& p.sub == 0
            &&& from_id.deep_view() == p.opts[0]
            &&& edge.deep_view() == p.opts[1]
            &&& to_id.deep_view() == p.opts[2]
        },
        Commands::Rm { context_ids } => {
            &&& p.command == 14
            &&& p.sub == 0
            &&& context_ids.deep_view() == p.pos.skip(0)
        },
        Commands::Purge => {
            &&& p.command == 15
            &&& p.sub == 0
        },
    }
}

/// `a` is the command line that the parse `p` describes.
pub open spec fn args_match(a: Args, p: ParsedSpec) -> bool {
    &&& a.pretty == cli::flag_at(p.globals, 0)
    &&& a.ignore_case == cli::flag_at(p.globals, 1)
    &&& commands_match(a.command, p)
}

fn build_add(p: &Parsed) -> (r: Commands)
    requires
        p@.command == 0,
        p@.sub == 0,
        cli::leaf_ok(leaf_add(), p@),
    ensures
        commands_match(r, p@),
{
    proof {
        assert(leaf_add().required[0] == 0usize);
        assert(cli::present(p@.opts, 0usize));
        assert(leaf_add().required[1] == 1usize);
        assert(cli::present(p@.opts, 1usize));
    }
    Commands::Add {
        field_names: multi_at_exec(&p.opts, 0),
        field_values: multi_at_exec(&p.opts, 1),
        link_to: multi_at_exec(&p.opts, 2),
    }
}

fn build_project_create(p: &Parsed) -> (r: ProjectCommands)
    requires
        p@.sub == 0,
        cli::leaf_ok(leaf_project_create(), p@),
    ensures
        project_commands_match(r, p@),
{
    proof {
        reveal_with_fuel(cli::pos_min, 4);
    }
    ProjectCommands::Create {
        name: pos_at_exec(&p.pos, 0),
        description: pos_at_exec(&p.pos, 1),
    }
}

fn build_project_list(p: &Parsed) -> (r: ProjectCommands)
    requires
        p@.sub == 1,
        cli::leaf_ok(leaf_project_list(), p@),
    ensures
        project_commands_match(r, p@),
{
    ProjectCommands::List
}

fn build_project_delete(p: &Parsed) -> (r: ProjectCommands)
    requires
        p@.sub == 2,
        cli::leaf_ok(leaf_project_delete(), p@),
    ensures
        project_commands_match(r, p@),
{
    proof {
        reveal_with_fuel(cli::pos_min, 3);
    }
    ProjectCommands::Delete {
        project_ids: pos_rest_exec(&p.pos, 0),
    }
}

fn build_module_create(p: &Parsed) -> (r: ModuleCommands)
    requires
        p@.sub == 0,
        cli::leaf_ok(leaf_module_create(), p@),
    ensures
        module_commands_match(r, p@),
{
    proof {
        reveal_with_fuel(cli::pos_min, 4);
    }
    ModuleCommands::Create {
        project_ids: multi_at_exec(&p.opts, 0),
        project: single_at_exec(&p.opts, 1),
        parent_module_id: single_at_exec(&p.opts, 2),
        name: pos_at_exec(&p.pos, 0),
        description: pos_at_exec(&p.pos, 1),
        notes: single_at_exec(&p.opts, 3),
    }
}

fn build_module_list(p: &Parsed) -> (r: ModuleCommands)
    requires
        p@.sub == 1,
        cli::leaf_ok(leaf_module_list(), p@),
    ensures
        module_commands_match(r, p@),
{
    ModuleCommands::List {
        project_id: single_at_exec(&p.opts, 0),
        project: single_at_exec(&p.opts, 1),
        module_id: single_at_exec(&p.opts, 2),
    }
}

fn build_module_delete(p: &Parsed) -> (r: ModuleCommands)
    requires
        p@.sub == 2,
        cli::leaf_ok(leaf_module_delete(), p@),
    ensures
        module_commands_match(r, p@),
{
    proof {
        reveal_with_fuel(cli::pos_min, 3);
    }
    ModuleCommands::Delete {
        module_ids: pos_rest_exec(&p.pos, 0),
    }
}

fn build_file_create(p: &Parsed) -> (r: FileCommands)
    requires
        p@.sub == 0,
        cli::leaf_ok(leaf_file_create(), p@),
    ensures
        file_commands_match(r, p@),
{
    proof {
        reveal_with_fuel(cli::pos_min, 5);
    }
    FileCommands::Create {
        project_ids: multi_at_exec(&p.opts, 0),
        project: single_at_exec(&p.opts, 1),
        parent_ids: multi_at_exec(&p.opts, 2),
        name: pos_at_exec(&p.pos, 0),
        path: pos_at_exec(&p.pos, 1),
        description: pos_opt_exec(&p.pos, 2),
        notes: single_at_exec(&p.opts, 3),
    }
}

fn build_file_list(p: &Parsed) -> (r: FileCommands)
    requires
        p@.sub == 1,
        cli::leaf_ok(leaf_file_list(), p@),
    ensures
        file_commands_match(r, p@),
{
    FileCommands::List {
        project_id: single_at_exec(&p.opts, 0),
        project: single_at_exec(&p.opts, 1),
        module_id: single_at_exec(&p.opts, 2),
    }
}

fn build_file_delete(p: &Parsed) -> (r: FileCommands)
    requires
        p@.sub == 2,
        cli::leaf_ok(leaf_file_delete(), p@),
    ensures
        file_commands_match(r, p@),
{
    proof {
        reveal_with_fuel(cli::pos_min, 3);
    }
    FileCommands::Delete {
        file_ids: pos_rest_exec(&p.pos, 0),
    }
}

fn build_task_create(p: &Parsed) -> (r: TaskCommands)
    requires
        p@.sub == 0,
        cli::leaf_ok(leaf_task_create(), p@),
    ensures
        task_commands_match(r, p@),
{
    proof {
        reveal_with_fuel(cli::pos_min, 4);
    }
    TaskCommands::Create {
        module_ids: multi_at_exec(&p.opts, 0),
        project_id: single_at_exec(&p.opts, 1),
        project: single_at_exec(&p.opts, 2),
        user_story_ids: multi_at_exec(&p.opts, 3),
        epic_ids: multi_at_exec(&p.opts, 4),
        name: pos_at_exec(&p.pos, 0),
        description: pos_at_exec(&p.pos, 1),
    }
}

fn build_task_update(p: &Parsed) -> (r: TaskCommands)
    requires
        p@.sub == 1,
        cli::leaf_ok(leaf_task_update(), p@),
    ensures
        task_commands_match(r, p@),
{
    proof {
        reveal_with_fuel(cli::pos_min, 3);
    }
    TaskCommands::Update {
        task_id: pos_at_exec(&p.pos, 0),
        name: single_at_exec(&p.opts, 0),
        description: single_at_exec(&p.opts, 1),
        status: single_at_exec(&p.opts, 2),
    }
}

fn build_task_delete(p: &Parsed) -> (r: TaskCommands)
    requires
        p@.sub == 2,
        cli::leaf_ok(leaf_task_delete(), p@),
    ensures
        task_commands_match(r, p@),
{
    proof {
        reveal_with_fuel(cli::pos_min, 3);
    }
    TaskCommands::Delete {
        task_ids: pos_rest_exec(&p.pos, 0),
    }
}

fn build_task_list(p: &Parsed) -> (r: TaskCommands)
    requires
        p@.sub == 3,
        cli::leaf_ok(leaf_task_list(), p@),
    ensures
        task_commands_match(r, p@),
{
    TaskCommands::List {
        project_id: single_at_exec(&p.opts, 0),
        project: single_at_exec(&p.opts, 1),
    }
}

fn build_task_get(p: &Parsed) -> (r: TaskCommands)
    requires
        p@.sub == 4,
        cli::leaf_ok(leaf_task_get(), p@),
    ensures
        task_commands_match(r, p@),
{
    proof {
        reveal_with_fuel(cli::pos_min, 3);
    }
    TaskCommands::Get {
        id: pos_at_exec(&p.pos, 0),
    }
}

fn build_user_story_create(p: &Parsed) -> (r: UserStoryCommands)
    requires
        p@.sub == 0,
        cli::leaf_ok(leaf_user_story_create(), p@),
    ensures
        user_story_commands_match(r, p@),
{
    proof {
        reveal_with_fuel(cli::pos_min, 4);
    }
    UserStoryCommands::Create {
        project_id: single_at_exec(&p.opts, 0),
        project: single_at_exec(&p.opts, 1),
        epic_ids: multi_at_exec(&p.opts, 2),
        title: pos_at_exec(&p.pos, 0),
        description: pos_at_exec(&p.pos, 1),
    }
}

fn build_user_story_list(p: &Parsed) -> (r: UserStoryCommands)
    requires
        p@.sub == 1,
        cli::leaf_ok(leaf_user_story_list(), p@),
    ensures
        user_story_commands_match(r, p@),
{
    UserStoryCommands::List {
        project_id: single_at_exec(&p.opts, 0),
        project: single_at_exec(&p.opts, 1),
        epic_id: single_at_exec(&p.opts, 2),
    }
}

fn build_user_story_delete(p: &Parsed) -> (r: UserStoryCommands)
    requires
        p@.sub == 2,
        cli::leaf_ok(leaf_user_story_delete(), p@),
    ensures
        user_story_commands_match(r, p@),
{
    proof {
        reveal_with_fuel(cli::pos_min, 3);
    }
    UserStoryCommands::Delete {
        user_story_ids: pos_rest_exec(&p.pos, 0),
    }
}

fn build_user_story_get(p: &Parsed) -> (r: UserStoryCommands)
    requires
        p@.sub == 3,
        cli::leaf_ok(leaf_user_story_get(), p@),
    ensures
        user_story_commands_match(r, p@),
{
    proof {
        reveal_with_fuel(cli::pos_min, 3);
    }
    UserStoryCommands::Get {
        id: pos_at_exec(&p.pos, 0),
    }
}

fn build_epic_create(p: &Parsed) -> (r: EpicCommands)
    requires
        p@.sub == 0,
        cli::leaf_ok(leaf_epic_create(), p@),
    ensures
        epic_commands_match(r, p@),
{
    proof {
        reveal_with_fuel(cli::pos_min, 4);
    }
    EpicCommands::Create {
        project_id: single_at_exec(&p.opts, 0),
        project: single_at_exec(&p.opts, 1),
        title: pos_at_exec(&p.pos, 0),
        description: pos_at_exec(&p.pos, 1),
    }
}

fn build_epic_list(p: &Parsed) -> (r: EpicCommands)
    requires
        p@.sub == 1,
        cli::leaf_ok(leaf_epic_list(), p@),
    ensures
        epic_commands_match(r, p@),
{
    EpicCommands::List {
        project_id: single_at_exec(&p.opts, 0),
        project: single_at_exec(&p.opts, 1),
    }
}

fn build_epic_delete(p: &Parsed) -> (r: EpicCommands)
    requires
        p@.sub == 2,
        cli::leaf_ok(leaf_epic_delete(), p@),
    ensures
        epic_commands_match(r, p@),
{
    proof {
        reveal_with_fuel(cli::pos_min, 3);
    }
    EpicCommands::Delete {
        epic_ids: pos_rest_exec(&p.pos, 0),
    }
}

fn build_persona_create(p: &Parsed) -> (r: PersonaCommands)
    requires
        p@.sub == 0,
        cli::leaf_ok(leaf_persona_create(), p@),
    ensures
        persona_commands_match(r, p@),
{
    proof {
        reveal_with_fuel(cli::pos_min, 4);
    }
    PersonaCommands::Create {
        project_ids: multi_at_exec(&p.opts, 0),
        project: single_at_exec(&p.opts, 1),
        name: pos_at_exec(&p.pos, 0),
        content: pos_at_exec(&p.pos, 1),
    }
}

fn build_persona_list(p: &Parsed) -> (r: PersonaCommands)
    requires
        p@.sub == 1,
        cli::leaf_ok(leaf_persona_list(), p@),
    ensures
        persona_commands_match(r, p@),
{
    PersonaCommands::List {
        project_id: single_at_exec(&p.opts, 0),
        project: single_at_exec(&p.opts, 1),
    }
}

fn build_persona_delete(p: &Parsed) -> (r: PersonaCommands)
    requires
        p@.sub == 2,
        cli::leaf_ok(leaf_persona_delete(), p@),
    ensures
        persona_commands_match(r, p@),
{
    proof {
        reveal_with_fuel(cli::pos_min, 3);
    }
    PersonaCommands::Delete {
        persona_ids: pos_rest_exec(&p.pos, 0),
    }
}

fn build_workflow_create(p: &Parsed) -> (r: WorkflowCommands)
    requires
        p@.sub == 0,
        cli::leaf_ok(leaf_workflow_create(), p@),
    ensures
        workflow_commands_match(r, p@),
{
    proof {
        reveal_with_fuel(cli::pos_min, 4);
    }
    WorkflowCommands::Create {
        project_ids: multi_at_exec(&p.opts, 0),
        project: single_at_exec(&p.opts, 1),
        name: pos_at_exec(&p.pos, 0),
        content: pos_at_exec(&p.pos, 1),
    }
}

fn build_workflow_list(p: &Parsed) -> (r: WorkflowCommands)
    requires
        p@.sub == 1,
        cli::leaf_ok(leaf_workflow_list(), p@),
    ensures
        workflow_commands_match(r, p@),
{
    WorkflowCommands::List {
        project_id: single_at_exec(&p.opts, 0),
        project: single_at_exec(&p.opts, 1),
    }
}

fn build_workflow_delete(p: &Parsed) -> (r: WorkflowCommands)
    requires
        p@.sub == 2,
        cli::leaf_ok(leaf_workflow_delete(), p@),
    ensures
        workflow_commands_match(r, p@),
{
    proof {
        reveal_with_fuel(cli::pos_min, 3);
    }
    WorkflowCommands::Delete {
        workflow_ids: pos_rest_exec(&p.pos, 0),
    }
}

fn build_todo_create(p: &Parsed) -> (r: TodoCommands)
    requires
        p@.sub == 0,
        cli::leaf_ok(leaf_todo_create(), p@),
    ensures
        todo_commands_match(r, p@),
{
    proof {
        reveal_with_fuel(cli::pos_min, 3);
    }
    TodoCommands::Create {
        project_ids: multi_at_exec(&p.opts, 0),
        project: single_at_exec(&p.opts, 1),
        content: pos_at_exec(&p.pos, 0),
    }
}

fn build_todo_list(p: &Parsed) -> (r: TodoCommands)
    requires
        p@.sub == 1,
        cli::leaf_ok(leaf_todo_list(), p@),
    ensures
        todo_commands_match(r, p@),
{
    TodoCommands::List {
        project_id: single_at_exec(&p.opts, 0),
        project: single_at_exec(&p.opts, 1),
    }
}

fn build_todo_update(p: &Parsed) -> (r: TodoCommands)
    requires
        p@.sub == 2,
        cli::leaf_ok(leaf_todo_update(), p@),
    ensures
        todo_commands_match(r, p@),
{
    proof {
        reveal_with_fuel(cli::pos_min, 3);
    }
    TodoCommands::Update {
        todo_id: pos_at_exec(&p.pos, 0),
        content: single_at_exec(&p.opts, 0),
        status: single_at_exec(&p.opts, 1),
    }
}

fn build_todo_delete(p: &Parsed) -> (r: TodoCommands)
    requires
        p@.sub == 3,
        cli::leaf_ok(leaf_todo_delete(), p@),
    ensures
        todo_commands_match(r, p@),
{
    proof {
        reveal_with_fuel(cli::pos_min, 3);
    }
    TodoCommands::Delete {
        todo_ids: pos_rest_exec(&p.pos, 0),
    }
}

fn build_todo_get(p: &Parsed) -> (r: TodoCommands)
    requires
        p@.sub == 4,
        cli::leaf_ok(leaf_todo_get(), p@),
    ensures
        todo_commands_match(r, p@),
{
    proof {
        reveal_with_fuel(cli::pos_min, 3);
    }
    TodoCommands::Get {
        id: pos_at_exec(&p.pos, 0),
    }
}

fn build_issue_create(p: &Parsed) -> (r: IssueCommands)
    requires
        p@.sub == 0,
        cli::leaf_ok(leaf_issue_create(), p@),
    ensures
        issue_commands_match(r, p@),
{
    proof {
        reveal_with_fuel(cli::pos_min, 3);
        assert(leaf_issue_create().required[0] == 1usize);
        assert(cli::present(p@.opts, 1usize));
    }
    IssueCommands::Create {
        task_id: single_at_exec(&p.opts, 0),
        project_id: required_at_exec(&p.opts, 1),
        plan: single_at_exec(&p.opts, 2),
        verification: single_at_exec(&p.opts, 3),
        description: pos_at_exec(&p.pos, 0),
    }
}

fn build_issue_update(p: &Parsed) -> (r: IssueCommands)
    requires
        p@.sub == 1,
        cli::leaf_ok(leaf_issue_update(), p@),
    ensures
        issue_commands_match(r, p@),
{
    proof {
        reveal_with_fuel(cli::pos_min, 3);
    }
    IssueCommands::Update {
        issue_id: pos_at_exec(&p.pos, 0),
        description: single_at_exec(&p.opts, 0),
        plan: single_at_exec(&p.opts, 1),
        verification: single_at_exec(&p.opts, 2),
        status: single_at_exec(&p.opts, 3),
    }
}

fn build_issue_list(p: &Parsed) -> (r: IssueCommands)
    requires
        p@.sub == 2,
        cli::leaf_ok(leaf_issue_list(), p@),
    ensures
        issue_commands_match(r, p@),
{
    proof {
        assert(leaf_issue_list().required[0] == 0usize);
        assert(cli::present(p@.opts, 0usize));
    }
    IssueCommands::List {
        project_id: required_at_exec(&p.opts, 0),
        task_id: single_at_exec(&p.opts, 1),
    }
}

fn build_issue_remove(p: &Parsed) -> (r: IssueCommands)
    requires
        p@.sub == 3,
        cli::leaf_ok(leaf_issue_remove(), p@),
    ensures
        issue_commands_match(r, p@),
{
    proof {
        reveal_with_fuel(cli::pos_min, 3);
    }
    IssueCommands::Remove {
        issue_ids: pos_rest_exec(&p.pos, 0),
    }
}

fn build_issue_get(p: &Parsed) -> (r: IssueCommands)
    requires
        p@.sub == 4,
        cli::leaf_ok(leaf_issue_get(), p@),
    ensures
        issue_commands_match(r, p@),
{
    proof {
        reveal_with_fuel(cli::pos_min, 3);
    }
    IssueCommands::Get {
        id: pos_at_exec(&p.pos, 0),
    }
}

fn build_config_show(p: &Parsed) -> (r: ConfigCommands)
    requires
        p@.sub == 0,
        cli::leaf_ok(leaf_config_show(), p@),
    ensures
        config_commands_match(r, p@),
{
    ConfigCommands::Show
}

fn build_context(p: &Parsed) -> (r: Commands)
    requires
        p@.command == 12,
        p@.sub == 0,
        cli::leaf_ok(leaf_context(), p@),
    ensures
        commands_match(r, p@),
{
    Commands::Context {
        task_id: single_at_exec(&p.opts, 0),
        file_id: single_at_exec(&p.opts, 1),
        epic_id: single_at_exec(&p.opts, 2),
        full: flag_at_exec(&p.opts, 3),
        general: flag_at_exec(&p.opts, 4),
        project: single_at_exec(&p.opts, 5),
    }
}

fn build_link(p: &Parsed) -> (r: Commands)
    requires
        p@.command == 13,
        p@.sub == 0,
        cli::leaf_ok(leaf_link(), p@),
    ensures
        commands_match(r, p@),
{
    Commands::Link {
        from_id: multi_at_exec(&p.opts, 0),
        edge: multi_at_exec(&p.opts, 1),
        to_id: multi_at_exec(&p.opts, 2),
    }
}

fn build_rm(p: &Parsed) -> (r: Commands)
    requires
        p@.command == 14,
        p@.sub == 0,
        cli::leaf_ok(leaf_rm(), p@),
    ensures
        commands_match(r, p@),
{
    proof {
        reveal_with_fuel(cli::pos_min, 3);
    }
    Commands::Rm {
        context_ids: pos_rest_exec(&p.pos, 0),
    }
}

fn build_purge(p: &Parsed) -> (r: Commands)
    requires
        p@.command == 15,
        p@.sub == 0,
        cli::leaf_ok(leaf_purge(), p@),
    ensures
        commands_match(r, p@),
{
    Commands::Purge
}

fn build_commands(p: &Parsed) -> (r: Commands)
    requires
        cli::parsed_wf(grammar(), p@),
    ensures
        commands_match(r, p@),
{
    if p.command == 0 {
        build_add(p)
    } else if p.command == 1 {
        Commands::Project {
            command: if p.sub == 0 {
                build_project_create(p)
            } else if p.sub == 1 {
                build_project_list(p)
            } else {
                build_project_delete(p)
            },
        }
    } else if p.command == 2 {
        Commands::Module {
            command: if p.sub == 0 {
                build_module_create(p)
            } else if p.sub == 1 {
                build_module_list(p)
            } else {
                build_module_delete(p)
            },
        }
    } else if p.command == 3 {
        Commands::File {
            command: if p.sub == 0 {
                build_file_create(p)
            } else if p.sub == 1 {
                build_file_list(p)
            } else {
                build_file_delete(p)
            },
        }
    } else if p.command == 4 {
        Commands::Task {
            command: if p.sub == 0 {
                build_task_create(p)
            } else if p.sub == 1 {
                build_task_update(p)
            } else if p.sub == 2 {
                build_task_delete(p)
            } else if p.sub == 3 {
                build_task_list(p)
            } else {
                build_task_get(p)
            },
        }
    } else if p.command == 5 {
        Commands::UserStory {
            command: if p.sub == 0 {
                build_user_story_create(p)
            } else if p.sub == 1 {
                build_user_story_list(p)
            } else if p.sub == 2 {
                build_user_story_delete(p)
            } else {
                build_user_story_get(p)
            },
        }
    } else if p.command == 6 {
        Commands::Epic {
            command: if p.sub == 0 {
                build_epic_create(p)
            } else if p.sub == 1 {
                build_epic_list(p)
            } else {
                build_epic_delete(p)
            },
        }
    } else if p.command == 7 {
        Commands::Persona {
            command: if p.sub == 0 {
                build_persona_create(p)
            } else if p.sub == 1 {
                build_persona_list(p)
            } else {
                build_persona_delete(p)
            },
        }
    } else if p.command == 8 {
        Commands::Workflow {
            command: if p.sub == 0 {
                build_workflow_create(p)
            } else if p.sub == 1 {
                build_workflow_list(p)
            } else {
                build_workflow_delete(p)
            },
        }
    } else if p.command == 9 {
        Commands::Todo {
            command: if p.sub == 0 {
                build_todo_create(p)
            } else if p.sub == 1 {
                build_todo_list(p)
            } else if p.sub == 2 {
                build_todo_update(p)
            } else if p.sub == 3 {
                build_todo_delete(p)
            } else {
                build_todo_get(p)
            },
        }
    } else if p.command == 10 {
        Commands::Issue {
            command: if p.sub == 0 {
                build_issue_create(p)
            } else if p.sub == 1 {
                build_issue_update(p)
            } else if p.sub == 2 {
                build_issue_list(p)
            } else if p.sub == 3 {
                build_issue_remove(p)
            } else {
                build_issue_get(p)
            },
        }
    } else if p.command == 11 {
        Commands::Config {
            command: {
                build_config_show(p)
            },
        }
    } else if p.command == 12 {
        build_context(p)
    } else if p.command == 13 {
        build_link(p)
    } else if p.command == 14 {
        build_rm(p)
    } else {
        build_purge(p)
    }
}

impl Args {
    /// Parses a command line (its first element is the program's name).
    pub fn try_parse_from(args: &[&str]) -> (r: Result<Args, ParseError>)
        ensures
            match cli::spec_parse(grammar(), cli::tokens_view(args@)) {
                Ok(p) => r is Ok && args_match(r->Ok_0, p),
                Err(e) => r == Err::<Args, ParseError>(e),
            },
    {
        let g = build_grammar();
        match parse(&g, args) {
            Err(e) => Err(e),
            Ok(p) => {
                let command = build_commands(&p);
                Ok(Args {
                    pretty: flag_at_exec(&p.globals, 0),
                    ignore_case: flag_at_exec(&p.globals, 1),
                    command,
                })
            },
        }
    }
}

// ---------------------------------------------------------------------------
// Options by name
// ---------------------------------------------------------------------------

/// Each option of a `project` command is read into the field named after it.
pub open spec fn project_options_named(c: ProjectCommands, p: ParsedSpec) -> bool {
    let g = grammar();
    match c {
        ProjectCommands::Create { .. } => true,
        ProjectCommands::List => true,
        ProjectCommands::Delete { .. } => true,
    }
}

/// Each option of a `module` command is read into the field named after it.
pub open spec fn module_options_named(c: ModuleCommands, p: ParsedSpec) -> bool {
    let g = grammar();
    match c {
        ModuleCommands::Create { project_ids, project, parent_module_id, name, description, notes } => {
            &&& cli::has_option(g, p, "project-ids"@) && project_ids.deep_view() == cli::values_named(g, p, "project-ids"@)
            &&& cli::has_option(g, p, "project"@) && cli::opt_string_view(project) == cli::value_named(g, p, "project"@)
            &&& cli::has_option(g, p, "parent-module-id"@) && cli::opt_string_view(parent_module_id) == cli::value_named(g, p, "parent-module-id"@)
            &&& cli::has_option(g, p, "notes"@) && cli::opt_string_view(notes) == cli::value_named(g, p, "notes"@)
        },
        ModuleCommands::List { project_id, project, module_id } => {
            &&& cli::has_option(g, p, "project-id"@) && cli::opt_string_view(project_id) == cli::value_named(g, p, "project-id"@)
            &&& cli::has_option(g, p, "project"@) && cli::opt_string_view(project) == cli::value_named(g, p, "project"@)
            &&& cli::has_option(g, p, "module-id"@) && cli::opt_string_view(module_id) == cli::value_named(g, p, "module-id"@)
        },
        ModuleCommands::Delete { .. } => true,
    }
}

/// Each option of a `file` command is read into the field named after it.
pub open spec fn file_options_named(c: FileCommands, p: ParsedSpec) -> bool {
    let g = grammar();
    match c {
        FileCommands::Create { project_ids, project, parent_ids, name, path, description, notes } => {
            &&& cli::has_option(g, p, "project-ids"@) && project_ids.deep_view() == cli::values_named(g, p, "project-ids"@)
            &&& cli::has_option(g, p, "project"@) && cli::opt_string_view(project) == cli::value_named(g, p, "project"@)
            &&& cli::has_option(g, p, "parent-ids"@) && parent_ids.deep_view() == cli::values_named(g, p, "parent-ids"@)
            &&& cli::has_option(g, p, "notes"@) && cli::opt_string_view(notes) == cli::value_named(g, p, "notes"@)
        },
        FileCommands::List { project_id, project, module_id } => {
            &&& cli::has_option(g, p, "project-id"@) && cli::opt_string_view(project_id) == cli::value_named(g, p, "project-id"@)
            &&& cli::has_option(g, p, "project"@) && cli::opt_string_view(project) == cli::value_named(g, p, "project"@)
            &&& cli::has_option(g, p, "module-id"@) && cli::opt_string_view(module_id) == cli::value_named(g, p, "module-id"@)
        },
        FileCommands::Delete { .. } => true,
    }
}

/// Each option of a `task` command is read into the field named after it.
pub open spec fn task_options_named(c: TaskCommands, p: ParsedSpec) -> bool {
    let g = grammar();
    match c {
        TaskCommands::Create { module_ids, project_id, project, user_story_ids, epic_ids, name, description } => {
            &&& cli::has_option(g, p, "module-ids"@) && module_ids.deep_view() == cli::values_named(g, p, "module-ids"@)
            &&& cli::has_option(g, p, "project-id"@) && cli::opt_string_view(project_id) == cli::value_named(g, p, "project-id"@)
            &&& cli::has_option(g, p, "project"@) && cli::opt_string_view(project) == cli::value_named(g, p, "project"@)
            &&& cli::has_option(g, p, "user-story-ids"@) && user_story_ids.deep_view() == cli::values_named(g, p, "user-story-ids"@)
            &&& cli::has_option(g, p, "epic-ids"@) && epic_ids.deep_view() == cli::values_named(g, p, "epic-ids"@)
        },
        TaskCommands::Update { task_id, name, description, status } => {
            &&& cli::has_option(g, p, "name"@) && cli::opt_string_view(name) == cli::value_named(g, p, "name"@)
            &&& cli::has_option(g, p, "description"@) && cli::opt_string_view(description) == cli::value_named(g, p, "description"@)
            &&& cli::has_option(g, p, "status"@) && cli::opt_string_view(status) == cli::value_named(g, p, "status"@)
        },
        TaskCommands::Delete { .. } => true,
        TaskCommands::List { project_id, project } => {
            &&& cli::has_option(g, p, "project-id"@) && cli::opt_string_view(project_id) == cli::value_named(g, p, "project-id"@)
            &&& cli::has_option(g, p, "project"@) && cli::opt_string_view(project) == cli::value_named(g, p, "project"@)
        },
        TaskCommands::Get { .. } => true,
    }
}

/// Each option of a `user-story` command is read into the field named after it.
pub open spec fn user_story_options_named(c: UserStoryCommands, p: ParsedSpec) -> bool {
    let g = grammar();
    match c {
        UserStoryCommands::Create { project_id, project, epic_ids, title, description } => {
            &&& cli::has_option(g, p, "project-id"@) && cli::opt_string_view(project_id) == cli::value_named(g, p, "project-id"@)
            &&& cli::has_option(g, p, "project"@) && cli::opt_string_view(project) == cli::value_named(g, p, "project"@)
            &&& cli::has_option(g, p, "epic-ids"@) && epic_ids.deep_view() == cli::values_named(g, p, "epic-ids"@)
        },
        UserStoryCommands::List { project_id, project, epic_id } => {
            &&& cli::has_option(g, p, "project-id"@) && cli::opt_string_view(project_id) == cli::value_named(g, p, "project-id"@)
            &&& cli::has_option(g, p, "project"@) && cli::opt_string_view(project) == cli::value_named(g, p, "project"@)
            &&& cli::has_option(g, p, "epic-id"@) && cli::opt_string_view(epic_id) == cli::value_named(g, p, "epic-id"@)
        },
        UserStoryCommands::Delete { .. } => true,
        UserStoryCommands::Get { .. } => true,
    }
}

/// Each option of a `epic` command is read into the field named after it.
pub open spec fn epic_options_named(c: EpicCommands, p: ParsedSpec) -> bool {
    let g = grammar();
    match c {
        EpicCommands::Create { project_id, project, title, description } => {
            &&& cli::has_option(g, p, "project-id"@) && cli::opt_string_view(project_id) == cli::value_named(g, p, "project-id"@)
            &&& cli::has_option(g, p, "project"@) && cli::opt_string_view(project) == cli::value_named(g, p, "project"@)
        },
        EpicCommands::List { project_id, project } => {
            &&& cli::has_option(g, p, "project-id"@) && cli::opt_string_view(project_id) == cli::value_named(g, p, "project-id"@)
            &&& cli::has_option(g, p, "project"@) && cli::opt_string_view(project) == cli::value_named(g, p, "project"@)
        },
        EpicCommands::Delete { .. } => true,
    }
}

/// Each option of a `persona` command is read into the field named after it.
pub open spec fn persona_options_named(c: PersonaCommands, p: ParsedSpec) -> bool {
    let g = grammar();
    match c {
        PersonaCommands::Create { project_ids, project, name, content } => {
            &&& cli::has_option(g, p, "project-ids"@) && project_ids.deep_view() == cli::values_named(g, p, "project-ids"@)
            &&& cli::has_option(g, p, "project"@) && cli::opt_string_view(project) == cli::value_named(g, p, "project"@)
        },
        PersonaCommands::List { project_id, project } => {
            &&& cli::has_option(g, p, "project-id"@) && cli::opt_string_view(project_id) == cli::value_named(g, p, "project-id"@)
            &&& cli::has_option(g, p, "project"@) && cli::opt_string_view(project) == cli::value_named(g, p, "project"@)
        },
        PersonaCommands::Delete { .. } => true,
    }
}

/// Each option of a `workflow` command is read into the field named after it.
pub open spec fn workflow_options_named(c: WorkflowCommands, p: ParsedSpec) -> bool {
    let g = grammar();
    match c {
        WorkflowCommands::Create { project_ids, project, name, content } => {
            &&& cli::has_option(g, p, "project-ids"@) && project_ids.deep_view() == cli::values_named(g, p, "project-ids"@)
            &&& cli::has_option(g, p, "project"@) && cli::opt_string_view(project) == cli::value_named(g, p, "project"@)
        },
        WorkflowCommands::List { project_id, project } => {
            &&& cli::has_option(g, p, "project-id"@) && cli::opt_string_view(project_id) == cli::value_named(g, p, "project-id"@)
            &&& cli::has_option(g, p, "project"@) && cli::opt_string_view(project) == cli::value_named(g, p, "project"@)
        },
        WorkflowCommands::Delete { .. } => true,
    }
}

/// Each option of a `todo` command is read into the field named after it.
pub open spec fn todo_options_named(c: TodoCommands, p: ParsedSpec) -> bool {
    let g = grammar();
    match c {
        TodoCommands::Create { project_ids, project, content } => {
            &&& cli::has_option(g, p, "project-ids"@) && project_ids.deep_view() == cli::values_named(g, p, "project-ids"@)
            &&& cli::has_option(g, p, "project"@) && cli::opt_string_view(project) == cli::value_named(g, p, "project"@)
        },
        TodoCommands::List { project_id, project } => {
            &&& cli::has_option(g, p, "project-id"@) && cli::opt_string_view(project_id) == cli::value_named(g, p, "project-id"@)
            &&& cli::has_option(g, p, "project"@) && cli::opt_string_view(project) == cli::value_named(g, p, "project"@)
        },
        TodoCommands::Update { todo_id, content, status } => {
            &&& cli::has_option(g, p, "content"@) && cli::opt_string_view(content) == cli::value_named(g, p, "content"@)
            &&& cli::has_option(g, p, "status"@) && cli::opt_string_view(status) == cli::value_named(g, p, "status"@)
        },
        TodoCommands::Delete { .. } => true,
        TodoCommands::Get { .. } => true,
    }
}

/// Each option of a `issue` command is read into the field named after it.
pub open spec fn issue_options_named(c: IssueCommands, p: ParsedSpec) -> bool {
    let g = grammar();
    match c {
        IssueCommands::Create { task_id, project_id, plan, verification, description } => {
            &&& cli::has_option(g, p, "task-id"@) && cli::opt_string_view(task_id) == cli::value_named(g, p, "task-id"@)
            &&& cli::has_option(g, p, "project-id"@) && project_id@ == cli::values_named(g, p, "project-id"@)[0]
            &&& cli::has_option(g, p, "plan"@) && cli::opt_string_view(plan) == cli::value_named(g, p, "plan"@)
            &&& cli::has_option(g, p, "verification"@) && cli::opt_string_view(verification) == cli::value_named(g, p, "verification"@)
        },
        IssueCommands::Update { issue_id, description, plan, verification, status } => {
            &&& cli::has_option(g, p, "description"@) && cli::opt_string_view(description) == cli::value_named(g, p, "description"@)
            &&& cli::has_option(g, p, "plan"@) && cli::opt_string_view(plan) == cli::value_named(g, p, "plan"@)
            &&& cli::has_option(g, p, "verification"@) && cli::opt_string_view(verification) == cli::value_named(g, p, "verification"@)
            &&& cli::has_option(g, p, "status"@) && cli::opt_string_view(status) == cli::value_named(g, p, "status"@)
        },
        IssueCommands::List { project_id, task_id } => {
            &&& cli::has_option(g, p, "project-id"@) && project_id@ == cli::values_named(g, p, "project-id"@)[0]
            &&& cli::has_option(g, p, "task-id"@) && cli::opt_string_view(task_id) == cli::value_named(g, p, "task-id"@)
        },
        IssueCommands::Remove { .. } => true,
        IssueCommands::Get { .. } => true,
    }
}

/// Each option of a `config` command is read into the field named after it.
pub open spec fn config_options_named(c: ConfigCommands, p: ParsedSpec) -> bool {
    let g = grammar();
    match c {
        ConfigCommands::Show => true,
    }
}

proof fn lemma_project_options_named(c: ProjectCommands, p: ParsedSpec)
    requires
        p.command == 1,
        project_commands_match(c, p),
    ensures
        project_options_named(c, p),
{
    let g = grammar();

    reveal_with_fuel(cli::option_named, 8);
    reveal_with_fuel(crate::text::agree, 24);
    match c {
        ProjectCommands::Create { .. } => {
            assert(cli::selected_leaf(g, p) == leaf_project_create());
        },
        ProjectCommands::List => {
            assert(cli::selected_leaf(g, p) == leaf_project_list());
        },
        ProjectCommands::Delete { .. } => {
            assert(cli::selected_leaf(g, p) == leaf_project_delete());
        },
    }
}

proof fn lemma_module_options_named(c: ModuleCommands, p: ParsedSpec)
    requires
        p.command == 2,
        module_commands_match(c, p),
    ensures
        module_options_named(c, p),
{
    let g = grammar();
    reveal_strlit("module-id");
    reveal_strlit("notes");
    reveal_strlit("parent-module-id");
    reveal_strlit("project");
    reveal_strlit("project-id");
    reveal_strlit("project-ids");
    reveal_with_fuel(cli::option_named, 8);
    reveal_with_fuel(crate::text::agree, 24);
    match c {
        ModuleCommands::Create { .. } => {
            assert(cli::selected_leaf(g, p) == leaf_module_create());
        },
        ModuleCommands::List { .. } => {
            assert(cli::selected_leaf(g, p) == leaf_module_list());
        },
        ModuleCommands::Delete { .. } => {
            assert(cli::selected_leaf(g, p) == leaf_module_delete());
        },
    }
}

proof fn lemma_file_options_named(c: FileCommands, p: ParsedSpec)
    requires
        p.command == 3,
        file_commands_match(c, p),
    ensures
        file_options_named(c, p),
{
    let g = grammar();
    reveal_strlit("module-id");
    reveal_strlit("notes");
    reveal_strlit("parent-ids");
    reveal_strlit("project");
    reveal_strlit("project-id");
    reveal_strlit("project-ids");
    reveal_with_fuel(cli::option_named, 8);
    reveal_with_fuel(crate::text::agree, 24);
    match c {
        FileCommands::Create { .. } => {
            assert(cli::selected_leaf(g, p) == leaf_file_create());
        },
        FileCommands::List { .. } => {
            assert(cli::selected_leaf(g, p) == leaf_file_list());
        },
        FileCommands::Delete { .. } => {
            assert(cli::selected_leaf(g, p) == leaf_file_delete());
        },
    }
}

proof fn lemma_task_options_named(c: TaskCommands, p: ParsedSpec)
    requires
        p.command == 4,
        task_commands_match(c, p),
    ensures
        task_options_named(c, p),
{
    let g = grammar();
    reveal_strlit("description");
    reveal_strlit("epic-ids");
    reveal_strlit("module-ids");
    reveal_strlit("name");
    reveal_strlit("project");
    reveal_strlit("project-id");
    reveal_strlit("status");
    reveal_strlit("user-story-ids");
    reveal_with_fuel(cli::option_named, 8);
    reveal_with_fuel(crate::text::agree, 24);
    match c {
        TaskCommands::Create { .. } => {
            assert(cli::selected_leaf(g, p) == leaf_task_create());
        },
        TaskCommands::Update { .. } => {
            assert(cli::selected_leaf(g, p) == leaf_task_update());
        },
        TaskCommands::Delete { .. } => {
            assert(cli::selected_leaf(g, p) == leaf_task_delete());
        },
        TaskCommands::List { .. } => {
            assert(cli::selected_leaf(g, p) == leaf_task_list());
        },
        TaskCommands::Get { .. } => {
            assert(cli::selected_leaf(g, p) == leaf_task_get());
        },
    }
}

proof fn lemma_user_story_options_named(c: UserStoryCommands, p: ParsedSpec)
    requires
        p.command == 5,
        user_story_commands_match(c, p),
    ensures
        user_story_options_named(c, p),
{
    let g = grammar();
    reveal_strlit("epic-id");
    reveal_strlit("epic-ids");
    reveal_strlit("project");
    reveal_strlit("project-id");
    reveal_with_fuel(cli::option_named, 8);
    reveal_with_fuel(crate::text::agree, 24);
    match c {
        UserStoryCommands::Create { .. } => {
            assert(cli::selected_leaf(g, p) == leaf_user_story_create());
        },
        UserStoryCommands::List { .. } => {
            assert(cli::selected_leaf(g, p) == leaf_user_story_list());
        },
        UserStoryCommands::Delete { .. } => {
            assert(cli::selected_leaf(g, p) == leaf_user_story_delete());
        },
        UserStoryCommands::Get { .. } => {
            assert(cli::selected_leaf(g, p) == leaf_user_story_get());
        },
    }
}

proof fn lemma_epic_options_named(c: EpicCommands, p: ParsedSpec)
    requires
        p.command == 6,
        epic_commands_match(c, p),
    ensures
        epic_options_named(c, p),
{
    let g = grammar();
    reveal_strlit("project");
    reveal_strlit("project-id");
    reveal_with_fuel(cli::option_named, 8);
    reveal_with_fuel(crate::text::agree, 24);
    match c {
        EpicCommands::Create { .. } => {
            assert(cli::selected_leaf(g, p) == leaf_epic_create());
        },
        EpicCommands::List { .. } => {
            assert(cli::selected_leaf(g, p) == leaf_epic_list());
        },
        EpicCommands::Delete { .. } => {
            assert(cli::selected_leaf(g, p) == leaf_epic_delete());
        },
    }
}

proof fn lemma_persona_options_named(c: PersonaCommands, p: ParsedSpec)
    requires
        p.command == 7,
        persona_commands_match(c, p),
    ensures
        persona_options_named(c, p),
{
    let g = grammar();
    reveal_strlit("project");
    reveal_strlit("project-id");
    reveal_strlit("project-ids");
    reveal_with_fuel(cli::option_named, 8);
    reveal_with_fuel(crate::text::agree, 24);
    match c {
        PersonaCommands::Create { .. } => {
            assert(cli::selected_leaf(g, p) == leaf_persona_create());
        },
        PersonaCommands::List { .. } => {
            assert(cli::selected_leaf(g, p) == leaf_persona_list());
        },
        PersonaCommands::Delete { .. } => {
            assert(cli::selected_leaf(g, p) == leaf_persona_delete());
        },
    }
}

proof fn lemma_workflow_options_named(c: WorkflowCommands, p: ParsedSpec)
    requires
        p.command == 8,
        workflow_commands_match(c, p),
    ensures
        workflow_options_named(c, p),
{
    let g = grammar();
    reveal_strlit("project");
    reveal_strlit("project-id");
    reveal_strlit("project-ids");
    reveal_with_fuel(cli::option_named, 8);
    reveal_with_fuel(crate::text::agree, 24);
    match c {
        WorkflowCommands::Create { .. } => {
            assert(cli::selected_leaf(g, p) == leaf_workflow_create());
        },
        WorkflowCommands::List { .. } => {
            assert(cli::selected_leaf(g, p) == leaf_workflow_list());
        },
        WorkflowCommands::Delete { .. } => {
            assert(cli::selected_leaf(g, p) == leaf_workflow_delete());
        },
    }
}

proof fn lemma_todo_options_named(c: TodoCommands, p: ParsedSpec)
    requires
        p.command == 9,
        todo_commands_match(c, p),
    ensures
        todo_options_named(c, p),
{
    let g = grammar();
    reveal_strlit("content");
    reveal_strlit("project");
    reveal_strlit("project-id");
    reveal_strlit("project-ids");
    reveal_strlit("status");
    reveal_with_fuel(cli::option_named, 8);
    reveal_with_fuel(crate::text::agree, 24);
    match c {
        TodoCommands::Create { .. } => {
            assert(cli::selected_leaf(g, p) == leaf_todo_create());
        },
        TodoCommands::List { .. } => {
            assert(cli::selected_leaf(g, p) == leaf_todo_list());
        },
        TodoCommands::Update { .. } => {
            assert(cli::selected_leaf(g, p) == leaf_todo_update());
        },
        TodoCommands::Delete { .. } => {
            assert(cli::selected_leaf(g, p) == leaf_todo_delete());
        },
        TodoCommands::Get { .. } => {
            assert(cli::selected_leaf(g, p) == leaf_todo_get());
        },
    }
}

proof fn lemma_issue_options_named(c: IssueCommands, p: ParsedSpec)
    requires
        p.command == 10,
        issue_commands_match(c, p),
    ensures
        issue_options_named(c, p),
{
    let g = grammar();
    reveal_strlit("description");
    reveal_strlit("plan");
    reveal_strlit("project-id");
    reveal_strlit("status");
    reveal_strlit("task-id");
    reveal_strlit("verification");
    reveal_with_fuel(cli::option_named, 8);
    reveal_with_fuel(crate::text::agree, 24);
    match c {
        IssueCommands::Create { .. } => {
            assert(cli::selected_leaf(g, p) == leaf_issue_create());
        },
        IssueCommands::Update { .. } => {
            assert(cli::selected_leaf(g, p) == leaf_issue_update());
        },
        IssueCommands::List { .. } => {
            assert(cli::selected_leaf(g, p) == leaf_issue_list());
        },
        IssueCommands::Remove { .. } => {
            assert(cli::selected_leaf(g, p) == leaf_issue_remove());
        },
        IssueCommands::Get { .. } => {
            assert(cli::selected_leaf(g, p) == leaf_issue_get());
        },
    }
}

proof fn lemma_config_options_named(c: ConfigCommands, p: ParsedSpec)
    requires
        p.command == 11,
        config_commands_match(c, p),
    ensures
        config_options_named(c, p),
{
    let g = grammar();

    reveal_with_fuel(cli::option_named, 8);
    reveal_with_fuel(crate::text::agree, 24);
    match c {
        ConfigCommands::Show => {
            assert(cli::selected_leaf(g, p) == leaf_config_show());
        },
    }
}

/// Each option of a command is read into the field named after it: the value
/// given after `--NAME` (or its aliases) is the field `NAME`, and each global
/// flag is the field named after it.
pub open spec fn options_named(a: Args, p: ParsedSpec) -> bool {
    let g = grammar();
    &&& cli::has_global(g, "pretty"@) && a.pretty == cli::global_flag_named(g, p, "pretty"@)
    &&& cli::has_global(g, "ignore-case"@) && a.ignore_case == cli::global_flag_named(g, p, "ignore-case"@)
    &&& match a.command {
        Commands::Add { field_names, field_values, link_to } => {
            &&& cli::has_option(g, p, "field"@) && field_names.deep_view() == cli::values_named(g, p, "field"@)
            &&& cli::has_option(g, p, "value"@) && field_values.deep_view() == cli::values_named(g, p, "value"@)
            &&& cli::has_option(g, p, "link-to"@) && link_to.deep_view() == cli::values_named(g, p, "link-to"@)
        },
        Commands::Project { command } => project_options_named(command, p),
        Commands::Module { command } => module_options_named(command, p),
        Commands::File { command } => file_options_named(command, p),
        Commands::Task { command } => task_options_named(command, p),
        Commands::UserStory { command } => user_story_options_named(command, p),
        Commands::Epic { command } => epic_options_named(command, p),
        Commands::Persona { command } => persona_options_named(command, p),
        Commands::Workflow { command } => workflow_options_named(command, p),
        Commands::Todo { command } => todo_options_named(command, p),
        Commands::Issue { command } => issue_options_named(command, p),
        Commands::Config { command } => config_options_named(command, p),
        Commands::Context { task_id, file_id, epic_id, full, general, project } => {
            &&& cli::has_option(g, p, "task-id"@) && cli::opt_string_view(task_id) == cli::value_named(g, p, "task-id"@)
            &&& cli::has_option(g, p, "file-id"@) && cli::opt_string_view(file_id) == cli::value_named(g, p, "file-id"@)
            &&& cli::has_option(g, p, "epic-id"@) && cli::opt_string_view(epic_id) == cli::value_named(g, p, "epic-id"@)
            &&& cli::has_option(g, p, "full"@) && full == cli::flag_named(g, p, "full"@)
            &&& cli::has_option(g, p, "general"@) && general == cli::flag_named(g, p, "general"@)
            &&& cli::has_option(g, p, "project"@) && cli::opt_string_view(project) == cli::value_named(g, p, "project"@)
        },
        Commands::Link { from_id, edge, to_id } => {
            &&& cli::has_option(g, p, "from-id"@) && from_id.deep_view() == cli::values_named(g, p, "from-id"@)
            &&& cli::has_option(g, p, "edge"@) && edge.deep_view() == cli::values_named(g, p, "edge"@)
            &&& cli::has_option(g, p, "to-id"@) && to_id.deep_view() == cli::values_named(g, p, "to-id"@)
        },
        Commands::Rm { .. } => true,
        Commands::Purge => true,
    }
}

/// A parsed command line reads every option into the field named after the
/// option, whatever its place among the command's options.
pub proof fn lemma_options_by_name(a: Args, p: ParsedSpec)
    requires
        args_match(a, p),
    ensures
        options_named(a, p),
{
    let g = grammar();
    reveal_strlit("pretty");
    reveal_strlit("ignore-case");
    reveal_with_fuel(cli::option_named, 8);
    reveal_with_fuel(crate::text::agree, 24);
    match a.command {
        Commands::Add { .. } => {
            assert(cli::selected_leaf(g, p) == leaf_add());
            reveal_strlit("field");
            reveal_strlit("link-to");
            reveal_strlit("value");
        },
        Commands::Project { command } => lemma_project_options_named(command, p),
        Commands::Module { command } => lemma_module_options_named(command, p),
        Commands::File { command } => lemma_file_options_named(command, p),
        Commands::Task { command } => lemma_task_options_named(command, p),
        Commands::UserStory { command } => lemma_user_story_options_named(command, p),
        Commands::Epic { command } => lemma_epic_options_named(command, p),
        Commands::Persona { command } => lemma_persona_options_named(command, p),
        Commands::Workflow { command } => lemma_workflow_options_named(command, p),
        Commands::Todo { command } => lemma_todo_options_named(command, p),
        Commands::Issue { command } => lemma_issue_options_named(command, p),
        Commands::Config { command } => lemma_config_options_named(command, p),
        Commands::Context { .. } => {
            assert(cli::selected_leaf(g, p) == leaf_context());
            reveal_strlit("epic-id");
            reveal_strlit("file-id");
            reveal_strlit("full");
            reveal_strlit("general");
            reveal_strlit("project");
            reveal_strlit("task-id");
        },
        Commands::Link { .. } => {
            assert(cli::selected_leaf(g, p) == leaf_link());
            reveal_strlit("edge");
            reveal_strlit("from-id");
            reveal_strlit("to-id");
        },
        Commands::Rm { .. } => {
            assert(cli::selected_leaf(g, p) == leaf_rm());

        },
        Commands::Purge => {
            assert(cli::selected_leaf(g, p) == leaf_purge());

        },
    }
}

} // verus!

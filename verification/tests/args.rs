use dunno::args::{Args, Commands, ProjectCommands, ModuleCommands, SubmoduleCommands, FileCommands, TaskCommands, UserStoryCommands, EpicCommands, TodoCommands, ConfigCommands};

#[test]
fn args_context_command_enforces_mutual_exclusion_of_ids() {
    // TASK_ID and FILE_ID together should be rejected by the parser.
    let result =
        Args::try_parse_from(&["dn", "ctx", "--task-id", "task:1", "--file-id", "file:2"]);
    assert!(result.is_err(), "expected the parser to reject conflicting ids");

    // Single id variants should parse successfully.
    let task_ok = Args::try_parse_from(&["dn", "ctx", "--task-id", "task:1"]);
    assert!(task_ok.is_ok());

    let file_ok = Args::try_parse_from(&["dn", "ctx", "--file-id", "file:2"]);
    assert!(file_ok.is_ok());
}

#[test]
fn args_context_command_accepts_full_flag() {
    let args = Args::try_parse_from(&["dn", "ctx", "--task-id", "task:123", "--full"])
        .expect("parse full flag");
    if let Commands::Context { full, .. } = args.command {
        assert!(full);
    } else {
        panic!("expected Context command");
    }
}

#[test]
fn args_add_command_accepts_field_value_pairs() {
    let args = Args::try_parse_from(&[
        "dn",
        "add",
        "--field",
        "type",
        "--value",
        "mistake",
        "--field",
        "content",
        "--value",
        "Avoid unwrap",
        "--field",
        "severity",
        "--value",
        "high",
    ]);
    assert!(args.is_ok(), "should parse --field and --value flags");
    if let Commands::Add {
        field_names,
        field_values,
        ..
    } = &args.unwrap().command
    {
        assert_eq!(field_names.len(), 3);
        assert_eq!(field_values.len(), 3);
        assert_eq!(field_names[0], "type");
        assert_eq!(field_values[0], "mistake");
        assert_eq!(field_names[1], "content");
        assert_eq!(field_values[1], "Avoid unwrap");
        assert_eq!(field_names[2], "severity");
        assert_eq!(field_values[2], "high");
    } else {
        panic!("expected Add command");
    }
}

#[test]
fn args_add_command_requires_field_and_value() {
    // Missing --value
    let result = Args::try_parse_from(&["dn", "add", "--field", "type"]);
    assert!(
        result.is_err(),
        "expected the parser to require --value when --field is present"
    );

    // Missing --field
    let result2 = Args::try_parse_from(&["dn", "add", "--value", "mistake"]);
    assert!(
        result2.is_err(),
        "expected the parser to require --field when --value is present"
    );

    // Both missing
    let result3 = Args::try_parse_from(&["dn", "add"]);
    assert!(
        result3.is_err(),
        "expected the parser to require --field and --value"
    );
}

#[test]
fn args_add_command_accepts_field_value_with_link_to() {
    let args = Args::try_parse_from(&[
        "dn",
        "add",
        "--field",
        "type",
        "--value",
        "performance",
        "--field",
        "content",
        "--value",
        "Use iterators",
        "--link-to",
        "project:abc",
        "--link-to",
        "task:def",
    ]);
    assert!(args.is_ok(), "should parse --field/--value with --link-to");
    if let Commands::Add {
        field_names,
        field_values,
        link_to,
        ..
    } = args.unwrap().command
    {
        assert_eq!(field_names.len(), 2);
        assert_eq!(field_values.len(), 2);
        assert_eq!(link_to.len(), 2);
        assert_eq!(link_to[0], "project:abc");
        assert_eq!(link_to[1], "task:def");
    } else {
        panic!("expected Add command");
    }
}

#[test]
fn args_add_command_single_field_value() {
    let args =
        Args::try_parse_from(&["dn", "add", "--field", "content", "--value", "Simple note"]);
    assert!(args.is_ok(), "should parse single --field/--value pair");
    if let Commands::Add {
        field_names,
        field_values,
        ..
    } = &args.unwrap().command
    {
        assert_eq!(field_names.len(), 1);
        assert_eq!(field_values.len(), 1);
        assert_eq!(field_names[0], "content");
        assert_eq!(field_values[0], "Simple note");
    } else {
        panic!("expected Add command");
    }
}

#[test]
fn args_task_delete_command_accepts_task_id() {
    let args = Args::try_parse_from(&["dn", "task", "rm", "task:abc123"]);
    assert!(args.is_ok(), "should parse task delete command");
    if let Commands::Task { command } = args.unwrap().command {
        if let TaskCommands::Delete { task_id } = command {
            assert_eq!(task_id, "task:abc123");
        } else {
            panic!("expected Delete command");
        }
    } else {
        panic!("expected Task command");
    }
}

#[test]
fn args_task_delete_command_requires_task_id() {
    let args = Args::try_parse_from(&["dn", "task", "rm"]);
    assert!(args.is_err(), "should require task_id for delete command");
}

#[test]
fn args_todo_delete_command_accepts_todo_id() {
    let args = Args::try_parse_from(&["dn", "todo", "rm", "todo_item:abc123"]);
    assert!(args.is_ok(), "should parse todo delete command");
    if let Commands::Todo { command } = args.unwrap().command {
        if let TodoCommands::Delete { todo_id } = command {
            assert_eq!(todo_id, "todo_item:abc123");
        } else {
            panic!("expected Delete command");
        }
    } else {
        panic!("expected Todo command");
    }
}

#[test]
fn args_todo_delete_command_requires_todo_id() {
    let args = Args::try_parse_from(&["dn", "todo", "rm"]);
    assert!(args.is_err(), "should require todo_id for delete command");
}

#[test]
fn args_pretty_flag_defaults_to_false() {
    let args = Args::try_parse_from(&["dn", "config", "show"]);
    assert!(args.is_ok(), "should parse config show command");
    assert!(!args.unwrap().pretty, "pretty should default to false");
}

#[test]
fn args_pretty_flag_can_be_set_true() {
    let args = Args::try_parse_from(&["dn", "--pretty", "config", "show"]);
    assert!(args.is_ok(), "should parse with --pretty flag");
    assert!(
        args.unwrap().pretty,
        "pretty should be true when flag is provided"
    );
}

#[test]
fn args_pretty_flag_works_with_any_command() {
    let args = Args::try_parse_from(&["dn", "--pretty", "task", "ls"]);
    assert!(args.is_ok(), "should parse --pretty with task list");
    assert!(args.unwrap().pretty, "pretty should be true");

    let args2 = Args::try_parse_from(&[
        "dn", "--pretty", "add", "--field", "type", "--value", "test",
    ]);
    assert!(args2.is_ok(), "should parse --pretty with add command");
    assert!(args2.unwrap().pretty, "pretty should be true");
}

#[test]
fn pretty_flag_works_with_backend_flag() {
    let args = Args::try_parse_from(&["dn", "--backend", "cloud", "--pretty", "config", "show"]);
    assert!(args.is_ok(), "should parse both --backend and --pretty");
    let parsed = args.unwrap();
    assert_eq!(parsed.backend, Some("cloud".to_string()));
    assert!(parsed.pretty, "pretty should be true");
}

#[test]
fn args_pretty_flag_works_with_context_command() {
    let args = Args::try_parse_from(&["dn", "--pretty", "ctx", "--task-id", "task:abc123"]);
    assert!(args.is_ok(), "should parse --pretty with context command");
    assert!(args.unwrap().pretty, "pretty should be true");
}

#[test]
fn args_pretty_flag_works_with_epic_commands() {
    let args = Args::try_parse_from(&[
        "dn",
        "--pretty",
        "epic",
        "ls",
        "--project-id",
        "project:abc",
    ]);
    assert!(args.is_ok(), "should parse --pretty with epic list");
    assert!(args.unwrap().pretty, "pretty should be true");

    let args2 = Args::try_parse_from(&[
        "dn",
        "--pretty",
        "epic",
        "add",
        "--project-id",
        "project:abc",
        "Title",
        "Description",
    ]);
    assert!(args2.is_ok(), "should parse --pretty with epic create");
    assert!(args2.unwrap().pretty, "pretty should be true");
}

#[test]
fn args_pretty_flag_works_with_user_story_commands() {
    let args = Args::try_parse_from(&[
        "dn",
        "--pretty",
        "user-story",
        "ls",
        "--project-id",
        "project:abc",
    ]);
    assert!(args.is_ok(), "should parse --pretty with user-story list");
    assert!(args.unwrap().pretty, "pretty should be true");

    let args2 = Args::try_parse_from(&[
        "dn",
        "--pretty",
        "user-story",
        "add",
        "--project-id",
        "project:abc",
        "As a user",
        "I want to",
    ]);
    assert!(
        args2.is_ok(),
        "should parse --pretty with user-story create"
    );
    assert!(args2.unwrap().pretty, "pretty should be true");
}

#[test]
fn args_pretty_flag_works_with_todo_commands() {
    let args = Args::try_parse_from(&[
        "dn",
        "--pretty",
        "todo",
        "ls",
        "--project-id",
        "project:abc",
    ]);
    assert!(args.is_ok(), "should parse --pretty with todo list");
    assert!(args.unwrap().pretty, "pretty should be true");

    let args2 = Args::try_parse_from(&[
        "dn",
        "--pretty",
        "todo",
        "add",
        "--project-ids",
        "project:abc",
        "Review code",
    ]);
    assert!(args2.is_ok(), "should parse --pretty with todo create");
    assert!(args2.unwrap().pretty, "pretty should be true");
}

#[test]
fn args_pretty_flag_works_with_file_commands() {
    // Without description (backward compatibility)
    let args = Args::try_parse_from(&[
        "dn",
        "--pretty",
        "file",
        "add",
        "--parent-ids",
        "module:abc",
        "main.rs",
        "src/main.rs",
    ]);
    assert!(args.is_ok(), "should parse --pretty with file create");
    assert!(args.unwrap().pretty, "pretty should be true");

    // With description
    let args_with_desc = Args::try_parse_from(&[
        "dn",
        "--pretty",
        "file",
        "add",
        "--parent-ids",
        "module:abc",
        "main.rs",
        "src/main.rs",
        "CLI entry point",
    ]);
    assert!(
        args_with_desc.is_ok(),
        "should parse file create with description"
    );

    let args2 =
        Args::try_parse_from(&["dn", "--pretty", "file", "ls", "--module-id", "module:abc"]);
    assert!(args2.is_ok(), "should parse --pretty with file list");
    assert!(args2.unwrap().pretty, "pretty should be true");
}

#[test]
fn args_pretty_flag_works_with_link_command() {
    let args = Args::try_parse_from(&[
        "dn",
        "--pretty",
        "link",
        "--from-id",
        "project:abc",
        "--edge",
        "contains",
        "--to-ids",
        "module:def",
    ]);
    assert!(args.is_ok(), "should parse --pretty with link command");
    assert!(args.unwrap().pretty, "pretty should be true");
}

#[test]
fn args_ignore_case_flag_defaults_to_false() {
    let args = Args::try_parse_from(&["dn", "config", "show"]);
    assert!(args.is_ok(), "should parse config show command");
    assert!(
        !args.unwrap().ignore_case,
        "ignore_case should default to false"
    );
}

#[test]
fn args_ignore_case_flag_can_be_set_true() {
    let args = Args::try_parse_from(&["dn", "-i", "config", "show"]);
    assert!(args.is_ok(), "should parse with -i flag");
    assert!(
        args.unwrap().ignore_case,
        "ignore_case should be true with -i"
    );

    let args2 = Args::try_parse_from(&["dn", "--ignore-case", "config", "show"]);
    assert!(args2.is_ok(), "should parse with --ignore-case flag");
    assert!(
        args2.unwrap().ignore_case,
        "ignore_case should be true with --ignore-case"
    );
}

#[test]
fn args_ignore_case_flag_works_with_any_command() {
    let args = Args::try_parse_from(&["dn", "-i", "project", "ls"]);
    assert!(args.is_ok(), "should parse -i with project list");
    assert!(args.unwrap().ignore_case, "ignore_case should be true");

    let args2 = Args::try_parse_from(&["dn", "--ignore-case", "task", "ls"]);
    assert!(args2.is_ok(), "should parse --ignore-case with task list");
    assert!(args2.unwrap().ignore_case, "ignore_case should be true");
}

#[test]
fn args_module_create_accepts_project_name() {
    let args = Args::try_parse_from(&[
        "dn",
        "module",
        "add",
        "--project",
        "My Project",
        "Auth",
        "Auth module",
    ]);
    assert!(args.is_ok(), "should parse --project with module create");
    if let Commands::Module { command } = args.unwrap().command {
        if let ModuleCommands::Create { project, name, .. } = command {
            assert_eq!(project, Some("My Project".to_string()));
            assert_eq!(name, "Auth");
        } else {
            panic!("expected Create command");
        }
    } else {
        panic!("expected Module command");
    }
}

#[test]
fn args_module_create_rejects_both_project_and_project_ids() {
    let args = Args::try_parse_from(&[
        "dn",
        "module",
        "add",
        "--project",
        "My Project",
        "--project-ids",
        "project:abc",
        "Auth",
        "Auth module",
    ]);
    assert!(
        args.is_err(),
        "should reject both --project and --project-ids"
    );
}

#[test]
fn args_user_story_create_accepts_project_name() {
    let args = Args::try_parse_from(&[
        "dn",
        "user-story",
        "add",
        "--project",
        "My Project",
        "As a user, I want login",
        "Login feature",
    ]);
    assert!(
        args.is_ok(),
        "should parse --project with user-story create"
    );
    if let Commands::UserStory { command } = args.unwrap().command {
        if let UserStoryCommands::Create { project, title, .. } = command {
            assert_eq!(project, Some("My Project".to_string()));
            assert_eq!(title, "As a user, I want login");
        } else {
            panic!("expected Create command");
        }
    } else {
        panic!("expected UserStory command");
    }
}

#[test]
fn args_user_story_create_rejects_both_project_and_project_id() {
    let args = Args::try_parse_from(&[
        "dn",
        "user-story",
        "add",
        "--project",
        "My Project",
        "--project-id",
        "project:abc",
        "Title",
        "Description",
    ]);
    assert!(
        args.is_err(),
        "should reject both --project and --project-id"
    );
}

#[test]
fn args_epic_create_accepts_project_name() {
    let args = Args::try_parse_from(&[
        "dn",
        "epic",
        "add",
        "--project",
        "My Project",
        "Auth Epic",
        "Authentication features",
    ]);
    assert!(args.is_ok(), "should parse --project with epic create");
    if let Commands::Epic { command } = args.unwrap().command {
        if let EpicCommands::Create { project, title, .. } = command {
            assert_eq!(project, Some("My Project".to_string()));
            assert_eq!(title, "Auth Epic");
        } else {
            panic!("expected Create command");
        }
    } else {
        panic!("expected Epic command");
    }
}

#[test]
fn args_todo_create_accepts_project_name() {
    let args =
        Args::try_parse_from(&["dn", "todo", "add", "--project", "My Project", "Buy milk"]);
    assert!(args.is_ok(), "should parse --project with todo create");
    if let Commands::Todo { command } = args.unwrap().command {
        if let TodoCommands::Create {
            project, content, ..
        } = command
        {
            assert_eq!(project, Some("My Project".to_string()));
            assert_eq!(content, "Buy milk");
        } else {
            panic!("expected Create command");
        }
    } else {
        panic!("expected Todo command");
    }
}

#[test]
fn args_todo_list_accepts_project_name() {
    let args = Args::try_parse_from(&["dn", "todo", "ls", "--project", "My Project"]);
    assert!(args.is_ok(), "should parse --project with todo list");
    if let Commands::Todo { command } = args.unwrap().command {
        if let TodoCommands::List { project, .. } = command {
            assert_eq!(project, Some("My Project".to_string()));
        } else {
            panic!("expected List command");
        }
    } else {
        panic!("expected Todo command");
    }
}

#[test]
fn args_task_create_accepts_project_name() {
    let args = Args::try_parse_from(&[
        "dn",
        "task",
        "add",
        "--project",
        "My Project",
        "--module-ids",
        "module:abc",
        "Implement login",
        "Add JWT auth",
    ]);
    assert!(args.is_ok(), "should parse --project with task create");
    if let Commands::Task { command } = args.unwrap().command {
        if let TaskCommands::Create { project, name, .. } = command {
            assert_eq!(project, Some("My Project".to_string()));
            assert_eq!(name, "Implement login");
        } else {
            panic!("expected Create command");
        }
    } else {
        panic!("expected Task command");
    }
}

#[test]
fn args_module_list_accepts_project_id() {
    let args = Args::try_parse_from(&["dn", "module", "ls", "--project-id", "project:abc"]);
    assert!(args.is_ok(), "should parse --project-id with module list");
    if let Commands::Module { command } = args.unwrap().command {
        if let ModuleCommands::List { project_id, .. } = command {
            assert_eq!(project_id, Some("project:abc".to_string()));
        } else {
            panic!("expected List command");
        }
    } else {
        panic!("expected Module command");
    }
}

#[test]
fn args_module_list_accepts_project_name() {
    let args = Args::try_parse_from(&["dn", "module", "ls", "--project", "My Project"]);
    assert!(args.is_ok(), "should parse --project with module list");
    if let Commands::Module { command } = args.unwrap().command {
        if let ModuleCommands::List { project, .. } = command {
            assert_eq!(project, Some("My Project".to_string()));
        } else {
            panic!("expected List command");
        }
    } else {
        panic!("expected Module command");
    }
}

#[test]
fn args_module_list_rejects_both_project_and_project_id() {
    let args = Args::try_parse_from(&[
        "dn",
        "module",
        "ls",
        "--project-id",
        "project:abc",
        "--project",
        "My Project",
    ]);
    assert!(
        args.is_err(),
        "should reject both --project-id and --project"
    );
}

#[test]
fn submodule_list_accepts_project_id() {
    let args = Args::try_parse_from(&["dn", "submodule", "ls", "--project-id", "project:abc"]);
    assert!(
        args.is_ok(),
        "should parse --project-id with submodule list"
    );
    if let Commands::Submodule { command } = args.unwrap().command {
        if let SubmoduleCommands::List { project_id, .. } = command {
            assert_eq!(project_id, Some("project:abc".to_string()));
        } else {
            panic!("expected List command");
        }
    } else {
        panic!("expected Submodule command");
    }
}

#[test]
fn submodule_list_accepts_module_id() {
    let args = Args::try_parse_from(&["dn", "submodule", "ls", "--module-id", "module:abc"]);
    assert!(args.is_ok(), "should parse --module-id with submodule list");
    if let Commands::Submodule { command } = args.unwrap().command {
        if let SubmoduleCommands::List { module_id, .. } = command {
            assert_eq!(module_id, Some("module:abc".to_string()));
        } else {
            panic!("expected List command");
        }
    } else {
        panic!("expected Submodule command");
    }
}

#[test]
fn args_file_list_accepts_project_id() {
    let args = Args::try_parse_from(&["dn", "file", "ls", "--project-id", "project:abc"]);
    assert!(args.is_ok(), "should parse --project-id with file list");
    if let Commands::File { command } = args.unwrap().command {
        if let FileCommands::List { project_id, .. } = command {
            assert_eq!(project_id, Some("project:abc".to_string()));
        } else {
            panic!("expected List command");
        }
    } else {
        panic!("expected File command");
    }
}

#[test]
fn args_file_list_accepts_module_id() {
    let args = Args::try_parse_from(&["dn", "file", "ls", "--module-id", "module:abc"]);
    assert!(args.is_ok(), "should parse --module-id with file list");
    if let Commands::File { command } = args.unwrap().command {
        if let FileCommands::List { module_id, .. } = command {
            assert_eq!(module_id, Some("module:abc".to_string()));
        } else {
            panic!("expected List command");
        }
    } else {
        panic!("expected File command");
    }
}

#[test]
fn file_list_accepts_submodule_id() {
    let args = Args::try_parse_from(&["dn", "file", "ls", "--submodule-id", "submodule:abc"]);
    assert!(args.is_ok(), "should parse --submodule-id with file list");
    if let Commands::File { command } = args.unwrap().command {
        if let FileCommands::List { submodule_id, .. } = command {
            assert_eq!(submodule_id, Some("submodule:abc".to_string()));
        } else {
            panic!("expected List command");
        }
    } else {
        panic!("expected File command");
    }
}

#[test]
fn args_task_list_accepts_project_id() {
    let args = Args::try_parse_from(&["dn", "task", "ls", "--project-id", "project:abc"]);
    assert!(args.is_ok(), "should parse --project-id with task list");
    if let Commands::Task { command } = args.unwrap().command {
        if let TaskCommands::List { project_id, .. } = command {
            assert_eq!(project_id, Some("project:abc".to_string()));
        } else {
            panic!("expected List command");
        }
    } else {
        panic!("expected Task command");
    }
}

#[test]
fn args_task_list_accepts_project_name() {
    let args = Args::try_parse_from(&["dn", "task", "ls", "--project", "My Project"]);
    assert!(args.is_ok(), "should parse --project with task list");
    if let Commands::Task { command } = args.unwrap().command {
        if let TaskCommands::List { project, .. } = command {
            assert_eq!(project, Some("My Project".to_string()));
        } else {
            panic!("expected List command");
        }
    } else {
        panic!("expected Task command");
    }
}

#[test]
fn args_project_delete_command_accepts_project_id() {
    let args = Args::try_parse_from(&["dn", "project", "rm", "project:abc123"]);
    assert!(args.is_ok(), "should parse project delete command");
    if let Commands::Project { command } = args.unwrap().command {
        if let ProjectCommands::Delete { project_id } = command {
            assert_eq!(project_id, "project:abc123");
        } else {
            panic!("expected Delete command");
        }
    } else {
        panic!("expected Project command");
    }
}

#[test]
fn args_module_delete_command_accepts_module_id() {
    let args = Args::try_parse_from(&["dn", "module", "rm", "module:abc123"]);
    assert!(args.is_ok(), "should parse module delete command");
    if let Commands::Module { command } = args.unwrap().command {
        if let ModuleCommands::Delete { module_id } = command {
            assert_eq!(module_id, "module:abc123");
        } else {
            panic!("expected Delete command");
        }
    } else {
        panic!("expected Module command");
    }
}

#[test]
fn submodule_delete_command_accepts_submodule_id() {
    let args = Args::try_parse_from(&["dn", "submodule", "rm", "submodule:abc123"]);
    assert!(args.is_ok(), "should parse submodule delete command");
    if let Commands::Submodule { command } = args.unwrap().command {
        if let SubmoduleCommands::Delete { submodule_id } = command {
            assert_eq!(submodule_id, "submodule:abc123");
        } else {
            panic!("expected Delete command");
        }
    } else {
        panic!("expected Submodule command");
    }
}

#[test]
fn args_file_delete_command_accepts_file_id() {
    let args = Args::try_parse_from(&["dn", "file", "rm", "file:abc123"]);
    assert!(args.is_ok(), "should parse file delete command");
    if let Commands::File { command } = args.unwrap().command {
        if let FileCommands::Delete { file_id } = command {
            assert_eq!(file_id, "file:abc123");
        } else {
            panic!("expected Delete command");
        }
    } else {
        panic!("expected File command");
    }
}

#[test]
fn args_user_story_delete_command_accepts_user_story_id() {
    let args = Args::try_parse_from(&["dn", "user-story", "rm", "user_story:abc123"]);
    assert!(args.is_ok(), "should parse user-story delete command");
    if let Commands::UserStory { command } = args.unwrap().command {
        if let UserStoryCommands::Delete { user_story_id } = command {
            assert_eq!(user_story_id, "user_story:abc123");
        } else {
            panic!("expected Delete command");
        }
    } else {
        panic!("expected UserStory command");
    }
}

#[test]
fn args_epic_delete_command_accepts_epic_id() {
    let args = Args::try_parse_from(&["dn", "epic", "rm", "epic:abc123"]);
    assert!(args.is_ok(), "should parse epic delete command");
    if let Commands::Epic { command } = args.unwrap().command {
        if let EpicCommands::Delete { epic_id } = command {
            assert_eq!(epic_id, "epic:abc123");
        } else {
            panic!("expected Delete command");
        }
    } else {
        panic!("expected Epic command");
    }
}

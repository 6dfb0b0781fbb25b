use ellefuanti::palette::{
    artisan_items, branch_items, code_action_items, command_items, composer_script_items,
    file_items, git_log_items, language_items, leak_id, push_route_items, reference_items,
    split_target_id, symbol_items, target_id, workspace_symbol_items, CodeAction, Command,
    LogEntry, Point, Symbol, Usage, WorkspaceSymbol,
};
use ellefuanti::routes::{HttpMethod, Resolved, Route};

fn row(label: &str, id: &str) -> (String, String) {
    (label.to_string(), id.to_string())
}

#[test]
fn a_target_id_round_trips_through_the_palette() {
    for row in [0, 1, 41, 100_000] {
        let id = target_id("/srv/app/routes/web.php", row);
        let (path, target) = split_target_id(&id);
        assert_eq!(path, "/srv/app/routes/web.php");
        assert_eq!(target, Some(Point { row, column: 0 }), "row {row} did not survive the id");
    }
}

#[test]
fn a_bare_path_decodes_to_no_target() {
    let (path, target) = split_target_id("/srv/app/Models/User.php");
    assert_eq!(path, "/srv/app/Models/User.php");
    assert_eq!(target, None);
}

#[test]
fn a_colon_in_a_filename_is_not_read_as_a_row() {
    let (path, target) = split_target_id("/srv/notes:draft.php");
    assert_eq!(path, "/srv/notes:draft.php");
    assert_eq!(target, None, "the suffix is not all digits, so it is part of the name");

    let (path, target) = split_target_id("/srv/notes:draft.php:7");
    assert_eq!(path, "/srv/notes:draft.php");
    assert_eq!(target, Some(Point { row: 7, column: 0 }));
}

#[test]
fn a_row_too_large_to_hold_is_part_of_the_path() {
    let (path, target) = split_target_id("/srv/a.php:99999999999999999999999");
    assert_eq!(path, "/srv/a.php:99999999999999999999999");
    assert_eq!(target, None);
    let (path, target) = split_target_id("/srv/a.php:");
    assert_eq!(path, "/srv/a.php:");
    assert_eq!(target, None);
}

#[test]
fn a_command_is_found_by_its_id() {
    let registry = vec![
        Command { id: "file.save".to_string(), title: "Save".to_string() },
        Command { id: "file.new".to_string(), title: "New".to_string() },
    ];
    assert_eq!(command_items(&registry), vec![row("Save", "file.save"), row("New", "file.new")]);
    assert_eq!(leak_id(&registry, "file.new"), "file.new");
    assert_eq!(leak_id(&registry, "file.other"), "");
}

#[test]
fn the_current_choice_is_ticked() {
    let names = vec!["PHP".to_string(), "Blade".to_string()];
    assert_eq!(language_items(&names, Some(1)), vec![row("PHP", "PHP"), row("Blade  ✓", "Blade")]);
    assert_eq!(language_items(&names, None)[1], row("Blade", "Blade"));
    let branches = vec![("main".to_string(), true), ("dev".to_string(), false)];
    assert_eq!(branch_items(&branches), vec![row("main  ✓", "main"), row("dev", "dev")]);
}

#[test]
fn a_command_without_a_description_is_just_its_name() {
    let commands =
        vec![("about".to_string(), "Show it".to_string()), ("clear".to_string(), String::new())];
    assert_eq!(
        artisan_items(&commands),
        vec![row("about — Show it", "about"), row("clear", "clear")]
    );
    assert_eq!(composer_script_items(&vec!["test".to_string()]), vec![row("test", "test")]);
}

#[test]
fn a_graph_line_without_a_commit_is_only_drawn() {
    let entries = vec![
        LogEntry {
            graph: "* ".to_string(),
            hash: "1a2b".to_string(),
            subject: "Fix".to_string(),
        },
        LogEntry { graph: "|\\".to_string(), hash: String::new(), subject: String::new() },
    ];
    assert_eq!(git_log_items(&entries), vec![row("* 1a2b  Fix", "1a2b"), row("|\\", "")]);
}

#[test]
fn a_symbol_is_indented_by_its_depth() {
    let symbols = vec![
        Symbol { depth: 0, label: "User".to_string(), line: 3 },
        Symbol { depth: 2, label: "name".to_string(), line: 8 },
    ];
    assert_eq!(
        symbol_items("/a.php", &symbols),
        vec![row("User", "/a.php:3"), row("    name", "/a.php:8")]
    );
    let found = vec![WorkspaceSymbol {
        label: "User".to_string(),
        path: "/b.php".to_string(),
        line: 4,
    }];
    assert_eq!(workspace_symbol_items(&found), vec![row("User", "/b.php:4")]);
}

#[test]
fn a_usage_is_named_from_the_project_root() {
    let usages = vec![
        Usage { path: Some("/srv/app/User.php".to_string()), line: 11 },
        Usage { path: None, line: 1 },
        Usage { path: Some("/other/x.php".to_string()), line: 0 },
    ];
    assert_eq!(
        reference_items(Some("/srv"), &usages),
        vec![row("app/User.php:12", "/srv/app/User.php:11"), row("/other/x.php:1", "/other/x.php:0")]
    );
    assert_eq!(reference_items(None, &usages).len(), 2);
}

#[test]
fn a_route_row_leads_to_its_line() {
    let routes = vec![Route {
        method: HttpMethod::Named("Get".to_string()),
        uri: Resolved::Known("/users".to_string()),
        name: None,
        line: 7,
    }];
    let mut items = vec![];
    push_route_items("/srv/routes/web.php", &routes, &mut items);
    assert_eq!(items, vec![row("GET     /users", "/srv/routes/web.php:6")]);
}

#[test]
fn a_fix_without_an_edit_is_not_offered() {
    let actions = vec![
        CodeAction { title: "Run".to_string(), has_edit: false },
        CodeAction { title: "Import".to_string(), has_edit: true },
    ];
    assert_eq!(code_action_items(&actions), vec![row("Import", "0")]);
}

#[test]
fn a_file_row_matches_by_what_is_below_the_root() {
    let files = vec![("app/User.php".to_string(), "/srv/app/User.php".to_string())];
    assert_eq!(file_items(&files), files);
    assert!(file_items(&vec![]).is_empty());
}

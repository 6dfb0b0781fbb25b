use ellefuanti::database::TablePage;
use ellefuanti::disk::Disk;
use ellefuanti::docker::Services;
use ellefuanti::effects::{Effect, Focus, Panel, TestRequest, Walk, Work};
use ellefuanti::facts::{Buffer, Facts};
use ellefuanti::jobs::Job;
use ellefuanti::kinds::{FileKind, FileKinds, Language};
use ellefuanti::palette::Point;
use ellefuanti::search::{FileMatches, Hit};
use ellefuanti::tabs::Tab;
use ellefuanti::test_view::{Location, Report, RunState, Scope, Status, TestCase};
use ellefuanti::theme::{App, set_theme, ThemeVariant};
use ellefuanti::tree::Tree;
use ellefuanti::update::{Available, UpdateState, Version};
use ellefuanti::workspace_view::{Handle, Sidebar, WorkspaceView};

fn disk() -> Disk {
    Disk { existing: vec![], files: vec![], resolved: vec![] }
}

fn buffer(editor: u64, title: &str, text: &str) -> Buffer {
    Buffer {
        editor,
        title: title.to_string(),
        dirty: false,
        text: text.to_string(),
        version: 1,
        head: 0,
        point: Point { row: 0, column: 0 },
        selection: None,
        selected_text: None,
        word: None,
        prefix: String::new(),
        language: "PHP".to_string(),
    }
}

fn kind(path: &str, language: Language, served: bool) -> FileKind {
    FileKind { path: path.to_string(), language, served }
}

fn kinds() -> FileKinds {
    let known = vec![
        kind("/gone.php", Language::Php, true),
        kind("/srv/a.php", Language::Php, true),
        kind("/srv/app/User.php", Language::Php, true),
        kind("/srv/tests/UserTest.php", Language::Php, true),
    ];
    FileKinds { known }
}

fn facts(buffers: Vec<Buffer>) -> Facts {
    Facts {
        disk: disk(),
        kinds: kinds(),
        buffers,
        autosave: false,
        server_configured: true,
        search_focused: false,
        settings_path: None,
        laravel_reference: false,
        tests_detected: false,
        languages: vec!["PHP".to_string(), "Blade".to_string()],
    }
}

fn tree(root: &str) -> Tree {
    Tree {
        root: root.to_string(),
        name: "srv".to_string(),
        entries: vec![],
        show_hidden: false,
    }
}

fn workspace(paths: &[&str]) -> WorkspaceView {
    let mut workspace = WorkspaceView::new();
    workspace.tree = Some(tree("/srv"));
    let mut editor = 0;
    for path in paths {
        editor += 1;
        workspace.strip.push(Tab { path: Some(path.to_string()), editor });
    }
    workspace
}

fn failing(name: &str) -> TestCase {
    TestCase {
        name: name.to_string(),
        status: Status::Failed,
        glyph: "✕".to_string(),
        location: Some(Location { path: "tests/UserTest.php".to_string(), line: 9 }),
        message: None,
    }
}

#[test]
fn the_terminal_opens_in_the_project_and_closes() {
    let mut workspace = workspace(&["/srv/a.php"]);
    assert_eq!(
        workspace.toggle_terminal(),
        vec![
            Effect::OpenTerminal(Some("/srv".to_string())),
            Effect::Focus(Focus::Panel(Panel::Terminal)),
        ]
    );
    assert_eq!(
        workspace.new_terminal(),
        vec![Effect::OpenSession, Effect::Focus(Focus::Panel(Panel::Terminal))]
    );
    assert_eq!(
        workspace.toggle_terminal(),
        vec![Effect::CloseTerminal, Effect::Focus(Focus::Editor(1))]
    );
    assert!(workspace.terminal.is_none());
}

#[test]
fn a_command_is_typed_and_not_run() {
    let mut workspace = workspace(&[]);
    assert_eq!(
        workspace.type_docker_command("stop"),
        vec![
            Effect::OpenTerminal(Some("/srv".to_string())),
            Effect::Focus(Focus::Panel(Panel::Terminal)),
            Effect::Type("docker compose stop ".to_string()),
            Effect::Focus(Focus::Panel(Panel::Terminal)),
        ]
    );
    assert_eq!(
        workspace.type_artisan_command("migrate".to_string())[0],
        Effect::TypeArtisan("migrate".to_string())
    );
}

#[test]
fn the_test_panel_keeps_its_results() {
    let mut workspace = workspace(&["/srv/tests/UserTest.php"]);
    assert_eq!(workspace.toggle_test_panel(true), vec![Effect::OpenTests]);
    let mut report = Report::new();
    report.tests.push(failing("it fails"));
    workspace.test_reported(report);
    assert_eq!(workspace.toggle_test_panel(true), vec![Effect::Focus(Focus::Editor(1))]);
    assert!(workspace.rerun_failed_tests().is_empty(), "the panel is closed");
    workspace.toggle_test_panel(true);
    assert_eq!(
        workspace.rerun_failed_tests(),
        vec![Effect::RequestTests(TestRequest::Failed)]
    );
}

#[test]
fn the_tests_of_a_file_are_named_below_the_root() {
    let workspace = workspace(&["/srv/tests/UserTest.php"]);
    assert_eq!(
        workspace.run_tests_in_file(),
        vec![Effect::RequestTests(TestRequest::InFile("tests/UserTest.php".to_string()))]
    );
    assert_eq!(workspace.run_tests(), vec![Effect::RequestTests(TestRequest::All)]);
    assert!(WorkspaceView::new().run_tests_in_file().is_empty());
}

#[test]
fn a_run_supersedes_the_one_before() {
    let mut workspace = workspace(&[]);
    let effects = workspace.start_test_run(&Scope::All, "vendor/bin/pest".to_string(), true);
    assert_eq!(
        effects,
        vec![
            Effect::OpenTests,
            Effect::Focus(Focus::Panel(Panel::Tests)),
            Effect::CancelJob(Job::TestRun),
            Effect::Start(Job::TestRun, Work::RunTests { command: "vendor/bin/pest".to_string() }),
        ]
    );
    let effects = workspace.start_test_run(&Scope::All, "vendor/bin/pest".to_string(), true);
    assert_eq!(effects[0], Effect::CancelWalk(Walk::Tests));
    workspace.test_run_ended(RunState::Finished {
        command: "vendor/bin/pest".to_string(),
        code: Some(0),
    });
    assert!(workspace.test_cancel.is_none());
}

#[test]
fn a_project_without_a_runner_says_so() {
    let mut workspace = workspace(&[]);
    workspace.start_test_run(&Scope::All, "x".to_string(), false);
    assert!(matches!(
        workspace.tests.as_ref().map(|panel| &panel.state),
        Some(RunState::Failed { message }) if message == "No Pest or PHPUnit found in vendor/bin"
    ));
    assert!(workspace.test_cancel.is_none());
}

#[test]
fn a_failed_test_leads_to_its_line() {
    let mut workspace = workspace(&[]);
    let project = Disk {
        existing: vec![],
        files: vec!["/srv/tests/UserTest.php".to_string()],
        resolved: vec![],
    };
    assert_eq!(workspace.test_jump(&failing("it fails"), &project).len(), 1);
    assert!(workspace.test_jump(&failing("it fails"), &disk()).is_empty());
}

#[test]
fn the_find_bar_is_gone_back_to_rather_than_reopened() {
    let mut workspace = workspace(&["/srv/a.php"]);
    let mut known = facts(vec![buffer(1, "a.php", "needle")]);
    known.buffers[0].selected_text = Some("needle".to_string());
    assert_eq!(
        workspace.open_find(false, &known),
        vec![
            Effect::OpenFind { replacing: false, seed: Some("needle".to_string()) },
            Effect::Focus(Focus::Panel(Panel::Find)),
            Effect::SearchDocument { editor: 1 },
        ]
    );
    assert_eq!(workspace.open_find(true, &known)[0], Effect::ReopenFind { replacing: true });
    assert_eq!(
        workspace.navigate_match(true),
        vec![
            Effect::SelectMatch { editor: 1, forward: true },
            Effect::CountMatches { editor: 1 },
        ]
    );
    assert_eq!(workspace.replace_all(), vec![Effect::ReplaceAll { editor: 1 }]);
    assert_eq!(workspace.replaced(2), vec![Effect::CountMatches { editor: 1 }]);
    assert_eq!(workspace.status.as_deref(), Some("Replaced 2 occurrences"));
    assert_eq!(
        workspace.dismiss_find(),
        vec![Effect::ClearSearch { editor: 1 }, Effect::Focus(Focus::Editor(1))]
    );
    assert!(workspace.replace_one().is_empty());
    assert!(workspace.apply_search().is_empty());
    assert!(WorkspaceView::new().open_find(false, &known).is_empty());
}

#[test]
fn the_search_panel_is_toggled_from_inside_it_alone() {
    let mut workspace = workspace(&["/srv/a.php"]);
    let mut known = facts(vec![buffer(1, "a.php", "")]);
    assert_eq!(
        workspace.find_in_project(&known),
        vec![Effect::Focus(Focus::Panel(Panel::Search))]
    );
    assert_eq!(workspace.sidebar, Sidebar::Search);
    assert_eq!(workspace.unfocus_search_panel(), vec![Effect::Focus(Focus::Editor(1))]);
    workspace.find_in_project(&known);
    assert_eq!(workspace.sidebar, Sidebar::Search, "it is gone into, not closed");
    known.search_focused = true;
    assert_eq!(
        workspace.find_in_project(&known),
        vec![Effect::CancelJob(Job::ProjectSearch), Effect::Focus(Focus::Workspace)]
    );
    assert_eq!(workspace.sidebar, Sidebar::Explorer);
}

#[test]
fn a_new_query_stops_the_old_search() {
    let mut workspace = workspace(&[]);
    workspace.show_search_panel();
    let effects = workspace.search_query_changed("User".to_string(), true);
    assert_eq!(
        effects,
        vec![
            Effect::CancelJob(Job::ProjectSearch),
            Effect::Start(
                Job::ProjectSearch,
                Work::SearchProject { root: "/srv".to_string(), debounce: true }
            ),
        ]
    );
    let found = vec![FileMatches {
        path: "/srv/a.php".to_string(),
        lines: vec![Hit { row: 2, column: 1 }],
    }];
    workspace.project_searched(found, false);
    assert_eq!(workspace.open_search_result(0, 0).len(), 1);
    assert!(workspace.open_search_result(3, 0).is_empty());
    workspace.project_searched(vec![], true);
    assert_eq!(workspace.open_search_result(0, 0).len(), 1, "a superseded search is dropped");
    let effects = workspace.search_query_changed(String::new(), true);
    assert_eq!(
        effects,
        vec![Effect::CancelWalk(Walk::ProjectSearch), Effect::CancelJob(Job::ProjectSearch)]
    );
    assert!(workspace.open_search_result(0, 0).is_empty());
}

#[test]
fn settings_open_and_close() {
    let mut workspace = workspace(&["/srv/a.php"]);
    let mut known = facts(vec![buffer(1, "a.php", "")]);
    assert_eq!(
        workspace.open_settings(),
        vec![Effect::OpenSettings, Effect::Focus(Focus::Panel(Panel::Settings))]
    );
    assert_eq!(workspace.open_settings(), vec![Effect::Focus(Focus::Editor(1))]);
    workspace.open_settings();
    assert!(workspace.settings_to_file(&known).is_empty());
    assert!(workspace.settings_panel.is_none());
    assert_eq!(workspace.status.as_deref(), Some("no settings file to open — see the log"));
    known.settings_path = Some("/home/settings.json".to_string());
    assert_eq!(workspace.open_settings_file(&known).len(), 1);
}

#[test]
fn the_theme_that_follows_is_named() {
    let mut workspace = WorkspaceView::new();
    let mut app = App { active: None, disk_themes: None, to_save: vec![] };
    set_theme(ThemeVariant::Dark, &mut app);
    workspace.toggle_theme(&mut app);
    assert_eq!(workspace.status.as_deref(), Some("Theme: One Dark Pro"));
    assert_eq!(workspace.zoomed("14"), vec![Effect::RefreshWindows]);
    assert_eq!(workspace.status.as_deref(), Some("Font size: 14px"));
}

#[test]
fn the_log_is_read_while_its_panel_is_open() {
    let mut workspace = workspace(&[]);
    assert_eq!(
        workspace.toggle_log_panel(),
        vec![
            Effect::OpenLogs,
            Effect::Start(Job::LogRead, Work::ReadLog { root: "/srv".to_string() }),
        ]
    );
    let project = Disk {
        existing: vec![],
        files: vec!["/srv/app/User.php".to_string()],
        resolved: vec![],
    };
    assert_eq!(workspace.log_jump("/srv/app/User.php".to_string(), 0, &project).len(), 1);
    assert!(workspace.log_jump("/gone.php".to_string(), 3, &project).is_empty());
    assert!(workspace.toggle_log_panel().is_empty());
    assert!(workspace.refresh_log_panel().is_empty());
}

#[test]
fn a_table_opens_with_its_rows_and_a_cell_is_written() {
    let mut workspace = workspace(&[]);
    let effects = workspace.toggle_db_table("users".to_string());
    assert_eq!(
        effects,
        vec![Effect::Start(
            Job::DbSchema,
            Work::ReadTable { root: "/srv".to_string(), table: "users".to_string() }
        )]
    );
    let page = TablePage {
        columns: vec!["name".to_string()],
        rows: vec![vec!["Ana".to_string()], vec!["Bo".to_string()]],
        rowids: vec![Some(5), None],
        total: 2,
    };
    workspace.db_page_read(Some(Ok(("users".to_string(), page))));
    assert_eq!(
        workspace.db_insert_row(),
        vec![Effect::Start(
            Job::DbSchema,
            Work::InsertRow { root: "/srv".to_string(), table: "users".to_string() }
        )]
    );
    assert!(workspace.begin_db_edit(1, 0).is_empty());
    assert_eq!(
        workspace.status.as_deref(),
        Some("This table has no rowid — its cells are read-only")
    );
    assert_eq!(workspace.begin_db_edit(0, 0), vec![Effect::Focus(Focus::Workspace)]);
    workspace.db_key("b", Some("b"));
    workspace.db_key("backspace", None);
    workspace.db_key("n", Some("n"));
    assert_eq!(
        workspace.db_key("enter", None),
        vec![Effect::Start(
            Job::DbSchema,
            Work::UpdateCell {
                root: "/srv".to_string(),
                table: "users".to_string(),
                column: "name".to_string(),
                rowid: 5,
                value: "Anan".to_string(),
            }
        )]
    );
    assert!(workspace.db_key("enter", None).is_empty(), "there is no cell left to write");
    workspace.begin_db_edit(0, 0);
    workspace.db_key("escape", None);
    assert!(workspace.db_edit_commit().is_empty());
}

#[test]
fn a_write_that_failed_says_so() {
    let mut workspace = workspace(&[]);
    assert!(workspace.db_written(true, Some(Err("locked".to_string()))).is_empty());
    assert_eq!(workspace.status.as_deref(), Some("insert failed: locked"));
    assert!(workspace.db_written(false, None).is_empty());
    assert_eq!(workspace.status.as_deref(), Some("update failed: no sqlite database"));
    assert_eq!(workspace.db_written(false, Some(Ok("users".to_string()))).len(), 1);
}

#[test]
fn a_panel_reads_what_it_shows_when_it_is_selected() {
    let mut workspace = workspace(&[]);
    assert_eq!(
        workspace.select_sidebar(Sidebar::Database),
        vec![Effect::Start(Job::DbSchema, Work::ReadSchema { root: "/srv".to_string() })]
    );
    assert_eq!(
        workspace.select_sidebar(Sidebar::Docker),
        vec![Effect::Start(Job::DockerPs, Work::ReadServices { root: "/srv".to_string() })]
    );
    workspace.docker_services_read(Services { found: Some(Ok(vec![])) });
    assert_eq!(
        workspace.select_sidebar(Sidebar::Search),
        vec![Effect::Focus(Focus::Panel(Panel::Search))]
    );
    assert_eq!(
        workspace.select_sidebar(Sidebar::Git),
        vec![Effect::CancelJob(Job::ProjectSearch)],
        "leaving the search stops it"
    );
    assert!(workspace.select_sidebar(Sidebar::Explorer).is_empty());
}

#[test]
fn coming_back_reads_and_leaving_saves() {
    let mut workspace = workspace(&["/srv/a.php"]);
    workspace.logs = Some(Handle {});
    workspace.sidebar = Sidebar::Docker;
    let mut known = facts(vec![buffer(1, "a.php", "x")]);
    known.autosave = true;
    known.buffers[0].dirty = true;
    let effects = workspace.window_activation_changed(true, &known);
    assert!(effects.contains(&Effect::RebuildIndex("/srv".to_string())));
    assert!(effects.contains(&Effect::Start(
        Job::DockerPs,
        Work::ReadServices { root: "/srv".to_string() }
    )));
    assert!(effects.contains(&Effect::Start(
        Job::LogRead,
        Work::ReadLog { root: "/srv".to_string() }
    )));
    assert_eq!(workspace.window_activation_changed(false, &known).len(), 1);
}

#[test]
fn what_runs_for_a_window_is_started_once() {
    let mut workspace = WorkspaceView::new();
    assert_eq!(workspace.observe_window_focus(), vec![Effect::ObserveActivation]);
    assert!(workspace.observe_window_focus().is_empty());
    assert_eq!(workspace.start_update_check(), vec![Effect::CheckForUpdates]);
    assert!(workspace.start_update_check().is_empty());
}

fn release() -> Available {
    Available {
        version: Version(9, 0, 0),
        html_url: "https://example.test/r".to_string(),
        dmg_url: Some("https://example.test/r.dmg".to_string()),
    }
}

#[test]
fn an_update_is_installed_where_this_copy_is_installed() {
    let mut workspace = WorkspaceView::new();
    workspace.release_found(release());
    assert_eq!(
        workspace.update_clicked(false),
        vec![Effect::OpenPage("https://example.test/r".to_string())]
    );
    let effects = workspace.update_clicked(true);
    assert!(matches!(
        &effects[0],
        Effect::Start(Job::UpdateInstall, Work::InstallUpdate { script })
            if script.contains("https://example.test/r.dmg")
    ));
    workspace.update_installed(release(), Err("no space".to_string()));
    assert_eq!(workspace.status.as_deref(), Some("Update failed: no space"));
    assert!(matches!(workspace.update_state, UpdateState::Available(_)));
    workspace.update_installed(release(), Ok(()));
    assert_eq!(workspace.update_clicked(true), vec![Effect::RestartIntoUpdate]);
}

#[test]
fn the_runner_is_looked_for_on_every_opening() {
    let mut workspace = workspace(&[]);
    workspace.toggle_test_panel(false);
    workspace.toggle_test_panel(false);
    let effects = workspace.start_test_run(&Scope::All, "vendor/bin/pest".to_string(), true);
    assert_eq!(effects[0], Effect::OpenTests);
    assert!(workspace.test_cancel.is_some(), "a runner that was installed since is used");

    workspace.toggle_test_panel(true);
    workspace.toggle_test_panel(false);
    assert_eq!(workspace.tests.as_ref().map(|panel| panel.runner), Some(false));
}

#[test]
fn a_seeded_search_starts_at_once_if_the_query_changed() {
    let mut workspace = workspace(&[]);
    workspace.show_search_panel();
    let effects = workspace.search_seeded("User".to_string(), true);
    assert_eq!(
        effects[effects.len() - 1],
        Effect::Start(
            Job::ProjectSearch,
            Work::SearchProject { root: "/srv".to_string(), debounce: false }
        )
    );
    assert!(workspace.search_seeded("User".to_string(), false).is_empty());
}

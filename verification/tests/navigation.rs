use ellefuanti::disk::Disk;
use ellefuanti::edits::{EditError, EditReport, Planned};
use ellefuanti::effects::{Effect, Focus, Panel, Question, Target, Work};
use ellefuanti::facts::{Buffer, Facts};
use ellefuanti::jobs::Job;
use ellefuanti::kinds::{FileKind, FileKinds, Language};
use ellefuanti::lsp::{Client, GotoDefinitionResponse, LspState, Place};
use ellefuanti::navigation::{cursor_diagnostic, Diagnostic};
use ellefuanti::palette::{PaletteMode, Point};
use ellefuanti::tabs::Tab;
use ellefuanti::tree::Tree;
use ellefuanti::workspace_view::WorkspaceView;

fn disk() -> Disk {
    Disk { existing: vec![], files: vec![], resolved: vec![] }
}

fn buffer(editor: u64, title: &str, text: &str) -> Buffer {
    Buffer {
        editor,
        title: title.to_string(),
        dirty: false,
        text: text.to_string(),
        version: 1,
        head: 0,
        point: Point { row: 0, column: 0 },
        selection: None,
        selected_text: None,
        word: None,
        prefix: String::new(),
        language: "PHP".to_string(),
    }
}

fn kind(path: &str, language: Language, served: bool) -> FileKind {
    FileKind { path: path.to_string(), language, served }
}

fn kinds() -> FileKinds {
    let known = vec![
        kind("/srv/a.php", Language::Php, true),
        kind("/srv/b.php", Language::Php, true),
        kind("/srv/routes/web.php", Language::Php, true),
        kind("/srv/resources/views/welcome.blade.php", Language::Blade, false),
        kind("/srv/v.blade.php", Language::Blade, false),
    ];
    FileKinds { known }
}

fn facts(buffers: Vec<Buffer>) -> Facts {
    Facts {
        disk: disk(),
        kinds: kinds(),
        buffers,
        autosave: false,
        server_configured: true,
        search_focused: false,
        settings_path: None,
        laravel_reference: false,
        tests_detected: false,
        languages: vec!["PHP".to_string(), "Blade".to_string()],
    }
}

fn tree(root: &str) -> Tree {
    Tree {
        root: root.to_string(),
        name: "srv".to_string(),
        entries: vec![],
        show_hidden: false,
    }
}

fn workspace(paths: &[&str]) -> WorkspaceView {
    let mut workspace = WorkspaceView::new();
    workspace.tree = Some(tree("/srv"));
    let mut editor = 0;
    for path in paths {
        editor += 1;
        workspace.strip.push(Tab { path: Some(path.to_string()), editor });
    }
    workspace
}

fn served(paths: &[&str]) -> WorkspaceView {
    let mut workspace = workspace(paths);
    workspace.lsp.client = Some(Client { triggers: vec![], rename: true });
    workspace.lsp.state = LspState::Running;
    workspace
}

fn at(offset: usize) -> Facts {
    let mut known = facts(vec![buffer(1, "a.php", "<?php\nuser();\n")]);
    known.buffers[0].head = offset;
    known.buffers[0].point = Point { row: 1, column: 2 };
    known.buffers[0].word = Some("user".to_string());
    known
}

#[test]
fn a_definition_is_asked_for_and_jumped_to() {
    let mut workspace = served(&["/srv/a.php"]);
    let known = at(8);
    assert_eq!(
        workspace.go_to_definition_at_cursor(&known),
        vec![Effect::Ask(Question::Definition { path: "/srv/a.php".to_string(), offset: 8 })]
    );
    assert_eq!(
        workspace.definition_asked(1),
        vec![Effect::Start(Job::LspQuery, Work::AwaitAnswer { id: 1 })]
    );
    assert_eq!(workspace.status.as_deref(), Some("Finding definition…"));
    let origin = workspace.current_location(&known);
    let place = Place { path: Some("/srv/b.php".to_string()), line: 3, character: 4 };
    let effects =
        workspace.definition_found(origin, Ok(Some(GotoDefinitionResponse::Scalar(place))));
    assert_eq!(
        effects,
        vec![Effect::Start(
            Job::OpenFile,
            Work::ReadFile {
                path: "/srv/b.php".to_string(),
                target: Some(Target::Lsp { line: 3, character: 4 }),
            }
        )]
    );
    assert_eq!(workspace.status, None);
    assert_eq!(workspace.in_flight_query, None);
    assert_eq!(workspace.history.back.len(), 1);
}

#[test]
fn no_definition_is_told_and_a_failure_is_not() {
    let mut workspace = served(&["/srv/a.php"]);
    workspace.definition_found(None, Ok(None));
    assert_eq!(workspace.status.as_deref(), Some("No definition found"));
    workspace.definition_found(None, Ok(Some(GotoDefinitionResponse::Array(vec![]))));
    assert_eq!(workspace.status.as_deref(), Some("No definition found"));
    workspace.definition_found(None, Err(()));
    assert_eq!(workspace.status, None);
}

#[test]
fn a_new_question_withdraws_the_old_one() {
    let mut workspace = served(&["/srv/a.php"]);
    workspace.start_query(1);
    assert_eq!(
        workspace.start_query(2),
        vec![
            Effect::CancelRequest(1),
            Effect::Start(Job::LspQuery, Work::AwaitAnswer { id: 2 }),
        ]
    );
    workspace.answered();
    assert_eq!(workspace.in_flight_query, None);
}

#[test]
fn a_blade_template_is_navigable_even_though_the_language_server_ignores_it() {
    let mut workspace = served(&["/srv/resources/views/welcome.blade.php"]);
    let mut known = at(3);
    assert_eq!(workspace.navigation_origin(&known), None, "the premise: no server sees this file");
    assert!(workspace.go_to_definition_at_cursor(&known).is_empty());
    known.laravel_reference = true;
    assert_eq!(
        workspace.go_to_definition_at_cursor(&known),
        vec![Effect::Start(
            Job::LaravelTarget,
            Work::ResolveReference {
                root: "/srv".to_string(),
                path: "/srv/resources/views/welcome.blade.php".to_string(),
            }
        )],
        "but Laravel navigation still reads it"
    );
    let effects =
        workspace.laravel_resolved(None, Some(("/srv/routes/web.php".to_string(), Some(7))));
    assert_eq!(
        effects,
        vec![Effect::Start(
            Job::OpenFile,
            Work::ReadFile {
                path: "/srv/routes/web.php".to_string(),
                target: Some(Target::Point(Point { row: 6, column: 0 })),
            }
        )]
    );
    assert!(workspace.laravel_resolved(None, None).is_empty());
}

#[test]
fn back_and_forward_retrace_the_jumps() {
    let mut workspace = served(&["/srv/a.php", "/srv/b.php"]);
    workspace.strip.active = 1;
    let mut known = facts(vec![buffer(1, "a.php", ""), buffer(2, "b.php", "")]);
    known.disk.existing = vec!["/srv/a.php".to_string(), "/srv/b.php".to_string()];
    workspace.history.push(("/srv/a.php".to_string(), Point { row: 4, column: 0 }));
    workspace.navigate_back(&known);
    assert_eq!(workspace.strip.active, 0);
    workspace.navigate_forward(&known);
    assert_eq!(workspace.strip.active, 1);
    assert!(WorkspaceView::new().navigate_back(&known).is_empty());
}

#[test]
fn usages_open_the_palette_and_ask() {
    let mut workspace = served(&["/srv/a.php"]);
    let effects = workspace.find_references(&at(8));
    assert_eq!(workspace.palette, Some(PaletteMode::References));
    assert_eq!(
        effects.last(),
        Some(&Effect::Ask(Question::References { path: "/srv/a.php".to_string(), offset: 8 }))
    );
    workspace.find_references(&at(8));
    assert_eq!(workspace.palette, None, "the same chord closes it");
}

#[test]
fn formatting_is_dropped_once_the_buffer_moved_on() {
    let mut workspace = served(&["/srv/a.php"]);
    let known = at(0);
    assert_eq!(
        workspace.format_document(&known),
        vec![
            Effect::ServerChange {
                path: "/srv/a.php".to_string(),
                text: "<?php\nuser();\n".to_string(),
            },
            Effect::Ask(Question::Formatting { path: "/srv/a.php".to_string() }),
        ]
    );
    workspace.formatting_asked(4);
    assert_eq!(workspace.status.as_deref(), Some("Formatting…"));
    assert_eq!(
        workspace.formatted(1, "<?php\nuser();\n", true, &known),
        vec![Effect::ApplyEdits { editor: 1 }]
    );
    assert_eq!(workspace.status, None);
    assert!(workspace.formatted(1, "older text", true, &known).is_empty());
    assert!(workspace.formatted(1, "<?php\nuser();\n", false, &known).is_empty());
}

#[test]
fn fixes_are_listed_or_there_are_none() {
    let mut workspace = served(&["/srv/a.php"]);
    let mut known = at(8);
    assert_eq!(
        workspace.quick_fix(&known)[1],
        Effect::Ask(Question::CodeActions { path: "/srv/a.php".to_string(), start: 8, end: 8 })
    );
    known.buffers[0].selection = Some((6, 10));
    assert_eq!(
        workspace.quick_fix(&known)[1],
        Effect::Ask(Question::CodeActions { path: "/srv/a.php".to_string(), start: 6, end: 10 })
    );
    workspace.code_actions_found(0, &known);
    assert_eq!(workspace.status.as_deref(), Some("No quick fixes here"));
    workspace.code_actions_found(2, &known);
    assert_eq!(workspace.palette, Some(PaletteMode::CodeActions));
    assert_eq!(workspace.pending_code_actions, 2);
    let done = EditReport { refresh_git: false, autosave: true, files: Ok(1) };
    workspace.fix_applied(&done, &known);
    assert_eq!(workspace.status.as_deref(), Some("Fix applied in 1 file(s)"));
    let refused = EditReport {
        refresh_git: false,
        autosave: false,
        files: Err(EditError::Overlapping("/srv/a.php".to_string())),
    };
    workspace.fix_applied(&refused, &known);
    assert_eq!(
        workspace.status.as_deref(),
        Some("Fix not applied: overlapping edits in /srv/a.php")
    );
}

#[test]
fn an_edit_with_file_operations_is_refused_whole() {
    let workspace = served(&["/srv/a.php"]);
    assert!(matches!(
        workspace.apply_workspace_edit(None, &disk()),
        Err(EditError::FileOperations)
    ));
    let nothing = vec![];
    assert!(matches!(
        workspace.apply_workspace_edit(Some(&nothing), &disk()),
        Ok(plan) if plan.is_empty()
    ));
}

#[test]
fn a_rename_starts_from_the_word_under_the_cursor() {
    let mut workspace = served(&["/srv/a.php"]);
    let known = at(8);
    let effects = workspace.rename_symbol(&known);
    assert_eq!(workspace.pending_rename, Some(("/srv/a.php".to_string(), 8)));
    assert_eq!(effects.last(), Some(&Effect::PresetQuery("user".to_string())));
    assert_eq!(effects[effects.len() - 2], Effect::Focus(Focus::Panel(Panel::Palette)));
    workspace.rename_asked(3);
    assert_eq!(workspace.status.as_deref(), Some("Renaming…"));
    workspace.renamed(EditReport { refresh_git: true, autosave: true, files: Ok(3) }, &known);
    assert_eq!(workspace.status.as_deref(), Some("Renamed in 3 file(s)"));
    workspace.rename_not_offered();
    assert_eq!(workspace.status.as_deref(), Some("The server offered no rename here"));
}

#[test]
fn the_server_hears_of_each_buffer_that_an_edit_changed() {
    let mut workspace = served(&["/srv/a.php", "/srv/v.blade.php"]);
    let edited = |path: &str| Planned::Buffer { tab: 0, edits: vec![], path: path.to_string() };
    assert_eq!(
        workspace.edit_step_done(&edited("/srv/a.php"), "<?php new();", &kinds()),
        vec![Effect::ServerChange {
            path: "/srv/a.php".to_string(),
            text: "<?php new();".to_string()
        }]
    );
    assert!(workspace.edit_step_done(&edited("/srv/v.blade.php"), "<x/>", &kinds()).is_empty());
    let written = Planned::Disk { path: "/srv/b.php".to_string(), text: "<?php".to_string() };
    assert!(workspace.edit_step_done(&written, "<?php", &kinds()).is_empty());
    workspace.lsp.client = None;
    assert!(workspace.edit_step_done(&edited("/srv/a.php"), "x", &kinds()).is_empty());
}

#[test]
fn a_server_without_renames_says_so() {
    let mut workspace = served(&["/srv/a.php"]);
    workspace.lsp.client = Some(Client { triggers: vec![], rename: false });
    assert!(workspace.rename_symbol(&at(8)).is_empty());
    assert_eq!(workspace.status.as_deref(), Some("The language server does not offer rename"));
    workspace.lsp.client = None;
    workspace.status = None;
    assert!(workspace.rename_symbol(&at(8)).is_empty());
    assert_eq!(workspace.status, None);
}

#[test]
fn a_server_hears_of_the_files_it_handles() {
    let mut workspace = workspace(&["/srv/a.php", "/srv/v.blade.php", "/srv/b.php"]);
    let known = facts(vec![
        buffer(1, "a.php", "A"),
        buffer(2, "v.blade.php", "V"),
        buffer(3, "b.php", "B"),
    ]);
    assert!(workspace.sync_open_documents(&known).is_empty(), "there is no server");
    assert_eq!(
        workspace.server_started(Some(Client { triggers: vec![], rename: true })),
        vec![Effect::SyncOpenDocuments]
    );
    assert_eq!(
        workspace.sync_open_documents(&known),
        vec![
            Effect::ServerOpen { path: "/srv/a.php".to_string(), text: "A".to_string() },
            Effect::ServerOpen { path: "/srv/b.php".to_string(), text: "B".to_string() },
        ]
    );
}

#[test]
fn an_unchanged_document_is_not_sent_again() {
    let mut workspace = served(&["/srv/a.php", "/srv/b.php"]);
    let mut known = facts(vec![buffer(1, "a.php", "A"), buffer(2, "b.php", "B")]);
    assert_eq!(workspace.sync_changed_documents(&known).len(), 2);
    workspace.document_synced("/srv/a.php", 1);
    let behind = workspace.sync_changed_documents(&known);
    assert_eq!(behind.len(), 1);
    assert_eq!(behind[0].path, "/srv/b.php");
    known.buffers[0].version = 2;
    assert_eq!(workspace.sync_changed_documents(&known).len(), 2);
}

#[test]
fn a_server_that_dies_is_started_again_until_it_is_given_up_on() {
    let mut workspace = served(&["/srv/a.php"]);
    let (listening, effects) = workspace.apply_lsp_events(Some((1, 2)), true, None, true, true);
    assert!(listening);
    assert_eq!(effects, vec![Effect::PushDiagnostics]);
    assert_eq!((workspace.lsp.errors, workspace.lsp.warnings), (1, 2));

    let (listening, effects) = workspace.apply_lsp_events(None, false, None, true, true);
    assert!(!listening);
    assert_eq!(
        effects,
        vec![
            Effect::ShutDownServer,
            Effect::PushDiagnostics,
            Effect::Start(Job::Lsp, Work::StartServer { root: "/srv".to_string() }),
        ]
    );
    assert_eq!(workspace.lsp.errors, 0);
    workspace.handle_lsp_death(None, false, true);
    assert!(matches!(
        &workspace.lsp.state,
        LspState::Failed(reason) if reason == "the language server exited"
    ));
    assert!(workspace.server_started(None).is_empty());
    assert!(matches!(workspace.lsp.state, LspState::Unavailable));
}

#[test]
fn each_editor_is_handed_the_reports_about_its_own_file() {
    let workspace = served(&["/srv/a.php", "/srv/b.php"]);
    let reports = vec![(
        "/srv/b.php".to_string(),
        vec![Diagnostic { start: 0, end: 4, severity: 1, message: "undefined".to_string() }],
    )];
    let pushed = workspace.push_diagnostics_to_editors(&reports);
    assert_eq!(pushed.len(), 2);
    assert_eq!(pushed[0].0, 1);
    assert!(pushed[0].1.is_empty(), "nothing to report clears what was shown");
    assert_eq!(pushed[1].1[0].message, "undefined");
}

#[test]
fn the_diagnostic_at_the_cursor_comes_before_one_on_its_line() {
    let exact = Some("here".to_string());
    let line = Some("on the line".to_string());
    assert_eq!(cursor_diagnostic(exact, line.clone()).as_deref(), Some("here"));
    assert_eq!(cursor_diagnostic(None, line).as_deref(), Some("on the line"));
    assert_eq!(cursor_diagnostic(None, None), None);
}

#[test]
fn a_language_that_is_refused_is_told() {
    let mut workspace = served(&["/srv/a.php"]);
    assert_eq!(
        workspace.set_active_language("Blade".to_string()),
        vec![Effect::SetLanguage { editor: 1, language: "Blade".to_string() }]
    );
    workspace.language_refused("no grammar".to_string());
    assert_eq!(workspace.status.as_deref(), Some("no grammar"));
}

#[test]
fn every_restart_is_put_on_record() {
    let mut workspace = served(&[]);
    for done in 1..4 {
        workspace.handle_lsp_death(None, true, true);
        assert_eq!(workspace.lsp.restarts, done);
    }
    workspace.handle_lsp_death(None, false, true);
    assert_eq!(workspace.lsp.restarts, 3, "giving up is no restart");
}

#[test]
fn reports_are_read_against_the_open_text() {
    let workspace = served(&["/srv/a.php", "/srv/b.php"]);
    let known = facts(vec![buffer(1, "a.php", "A"), buffer(2, "b.php", "B")]);
    assert_eq!(workspace.diagnostic_text("/srv/b.php", &known), "B");
    assert_eq!(workspace.diagnostic_text("/srv/vendor/closed.php", &known), "");
}

use ellefuanti::commands::{Dispatch, Moment};
use ellefuanti::completing::{Contexts, ModelContext};
use ellefuanti::disk::Disk;
use ellefuanti::effects::{Effect, Focus, Panel, Question, Target, TestRequest, Walk, Work};
use ellefuanti::facts::{Buffer, Facts};
use ellefuanti::jobs::Job;
use ellefuanti::kinds::{FileKind, FileKinds, Language};
use ellefuanti::lsp::{Client, LspState};
use ellefuanti::palette::{PaletteMode, Point};
use ellefuanti::tabs::Tab;
use ellefuanti::theme::{App, set_theme, ThemeVariant};
use ellefuanti::tree::Tree;
use ellefuanti::workspace_view::WorkspaceView;

fn disk() -> Disk {
    Disk { existing: vec![], files: vec![], resolved: vec![] }
}

fn buffer(editor: u64, title: &str, text: &str) -> Buffer {
    Buffer {
        editor,
        title: title.to_string(),
        dirty: false,
        text: text.to_string(),
        version: 1,
        head: 0,
        point: Point { row: 0, column: 0 },
        selection: None,
        selected_text: None,
        word: None,
        prefix: String::new(),
        language: "PHP".to_string(),
    }
}

fn kind(path: &str, language: Language, served: bool) -> FileKind {
    FileKind { path: path.to_string(), language, served }
}

fn kinds() -> FileKinds {
    let known = vec![
        kind("/srv/a.php", Language::Php, true),
        kind("/srv/b.php", Language::Php, true),
        kind("/srv/c.php", Language::Php, true),
    ];
    FileKinds { known }
}

fn facts(buffers: Vec<Buffer>) -> Facts {
    Facts {
        disk: disk(),
        kinds: kinds(),
        buffers,
        autosave: false,
        server_configured: true,
        search_focused: false,
        settings_path: None,
        laravel_reference: false,
        tests_detected: false,
        languages: vec!["PHP".to_string(), "Blade".to_string()],
    }
}

fn tree(root: &str) -> Tree {
    Tree {
        root: root.to_string(),
        name: "srv".to_string(),
        entries: vec![],
        show_hidden: false,
    }
}

fn workspace(paths: &[&str]) -> WorkspaceView {
    let mut workspace = WorkspaceView::new();
    workspace.tree = Some(tree("/srv"));
    let mut editor = 0;
    for path in paths {
        editor += 1;
        workspace.strip.push(Tab { path: Some(path.to_string()), editor });
    }
    workspace
}

fn moment(known: Facts) -> Moment {
    Moment {
        facts: known,
        placed: true,
        contexts: Contexts { route: None, model: ModelContext::Nothing, wire: None },
    }
}

fn app() -> App {
    let mut app = App { active: None, disk_themes: None, to_save: vec![] };
    set_theme(ThemeVariant::Dark, &mut app);
    app
}

fn known() -> Facts {
    facts(vec![buffer(1, "a.php", "<?php")])
}

fn confirm(workspace: &mut WorkspaceView, mode: PaletteMode, id: &str) -> Vec<Effect<String>> {
    workspace.palette = Some(mode);
    workspace.confirm_palette(id.to_string(), Dispatch::Unhandled, &moment(known()), &mut app())
}

fn run(workspace: &mut WorkspaceView, command: Dispatch) -> Vec<Effect<String>> {
    workspace.run_command(command, "some.command", &moment(known()), &mut app())
}

#[test]
fn the_palette_opens_closes_and_changes_its_mode() {
    let mut workspace = workspace(&["/srv/a.php"]);
    assert_eq!(
        workspace.toggle_palette(PaletteMode::Files, &known()),
        vec![
            Effect::CancelJob(Job::QuickOpenIndex),
            Effect::OpenPalette(PaletteMode::Files),
            Effect::Focus(Focus::Panel(Panel::Palette)),
            Effect::CancelJob(Job::QuickOpenIndex),
            Effect::Start(Job::QuickOpenIndex, Work::ListFiles { root: "/srv".to_string() }),
        ]
    );
    assert_eq!(
        workspace.toggle_palette(PaletteMode::Commands, &known())[0],
        Effect::CancelWalk(Walk::QuickOpen),
        "the walk does not outlive its palette"
    );
    assert_eq!(
        workspace.toggle_palette(PaletteMode::Commands, &known()),
        vec![Effect::CancelJob(Job::QuickOpenIndex), Effect::Focus(Focus::Editor(1))]
    );
    assert_eq!(workspace.palette, None);
}

#[test]
fn each_mode_reads_what_it_lists() {
    let cases = vec![
        (PaletteMode::Routes, Job::RouteIndex, Work::ListRoutes { root: "/srv".to_string() }),
        (PaletteMode::Artisan, Job::ArtisanList, Work::ListArtisan { root: "/srv".to_string() }),
        (PaletteMode::Branches, Job::RouteIndex, Work::ListBranches { root: "/srv".to_string() }),
        (
            PaletteMode::ComposerScripts,
            Job::RouteIndex,
            Work::ListScripts { root: "/srv".to_string() },
        ),
        (PaletteMode::GitLog, Job::RouteIndex, Work::ListCommits { root: "/srv".to_string() }),
    ];
    for (mode, job, work) in cases {
        let effects = workspace(&[]).toggle_palette(mode, &known());
        assert_eq!(effects.last(), Some(&Effect::Start(job, work)));
    }
    let mut served = workspace(&["/srv/a.php"]);
    served.lsp.client = Some(Client { triggers: vec![], rename: true });
    served.lsp.state = LspState::Running;
    assert_eq!(
        served.toggle_palette(PaletteMode::Symbols, &known()).last(),
        Some(&Effect::Ask(Question::Symbols { path: "/srv/a.php".to_string() }))
    );
    assert_eq!(
        served.toggle_palette(PaletteMode::WorkspaceSymbols, &known()).last(),
        Some(&Effect::Ask(Question::WorkspaceSymbols { query: String::new() }))
    );
    assert_eq!(
        served.palette_query_changed("Us".to_string()),
        vec![Effect::Ask(Question::WorkspaceSymbols { query: "Us".to_string() })]
    );
    served.palette = Some(PaletteMode::Files);
    assert!(served.palette_query_changed("Us".to_string()).is_empty());
}

#[test]
fn a_row_with_a_place_is_jumped_to() {
    let mut workspace = workspace(&["/srv/a.php"]);
    let effects = confirm(&mut workspace, PaletteMode::Symbols, "/srv/b.php:11");
    assert_eq!(
        effects.last(),
        Some(&Effect::Start(
            Job::OpenFile,
            Work::ReadFile {
                path: "/srv/b.php".to_string(),
                target: Some(Target::Point(Point { row: 11, column: 0 })),
            }
        ))
    );
    assert_eq!(workspace.history.back.len(), 1, "a symbol is a jump to come back from");
    confirm(&mut workspace, PaletteMode::Files, "/srv/c.php");
    assert_eq!(workspace.history.back.len(), 1, "opening a file is not");
    assert_eq!(workspace.palette, None);
}

#[test]
fn a_confirmed_row_does_what_its_mode_says() {
    let mut workspace = workspace(&["/srv/a.php"]);
    let effects = confirm(&mut workspace, PaletteMode::Artisan, "migrate");
    assert!(effects.contains(&Effect::TypeArtisan("migrate".to_string())));
    let effects = confirm(&mut workspace, PaletteMode::ComposerScripts, "test");
    assert!(effects.contains(&Effect::Type("composer run-script test ".to_string())));
    assert_eq!(
        confirm(&mut workspace, PaletteMode::GitLog, "abc123").len(),
        2,
        "a commit is there to be read"
    );
    let effects = confirm(&mut workspace, PaletteMode::Branches, "main");
    assert_eq!(
        effects.last(),
        Some(&Effect::Start(
            Job::GitWrite,
            Work::SwitchBranch { root: "/srv".to_string(), branch: "main".to_string() }
        ))
    );
    let effects = confirm(&mut workspace, PaletteMode::Languages, "Blade");
    assert_eq!(
        effects.last(),
        Some(&Effect::SetLanguage { editor: 1, language: "Blade".to_string() })
    );
    assert_eq!(confirm(&mut workspace, PaletteMode::Languages, "Klingon").len(), 2);
}

#[test]
fn a_fix_is_applied_once() {
    let mut workspace = workspace(&["/srv/a.php"]);
    workspace.pending_code_actions = 2;
    assert_eq!(
        confirm(&mut workspace, PaletteMode::CodeActions, "1").last(),
        Some(&Effect::ApplyFix(1))
    );
    assert_eq!(workspace.pending_code_actions, 0);
    assert_eq!(confirm(&mut workspace, PaletteMode::CodeActions, "1").len(), 2);
    workspace.pending_code_actions = 2;
    assert_eq!(confirm(&mut workspace, PaletteMode::CodeActions, "nonsense").len(), 2);
}

#[test]
fn a_new_name_is_sent_with_the_place_it_was_asked_for() {
    let mut workspace = workspace(&["/srv/a.php"]);
    workspace.lsp.client = Some(Client { triggers: vec![], rename: true });
    workspace.pending_rename = Some(("/srv/b.php".to_string(), 14));
    let effects = confirm(&mut workspace, PaletteMode::Rename, "member");
    assert_eq!(
        effects.last(),
        Some(&Effect::Ask(Question::Rename {
            path: "/srv/b.php".to_string(),
            offset: 14,
            name: "member".to_string(),
        }))
    );
    assert_eq!(workspace.pending_rename, None);
}

#[test]
fn a_closed_palette_confirms_nothing() {
    let mut workspace = workspace(&["/srv/a.php"]);
    let effects =
        workspace.confirm_palette("x".to_string(), Dispatch::Quit, &moment(known()), &mut app());
    assert!(!effects.contains(&Effect::Quit));
}

#[test]
fn commands_do_what_they_are_named() {
    let mut workspace = workspace(&["/srv/a.php"]);
    assert_eq!(
        run(&mut workspace, Dispatch::OpenFolder),
        vec![Effect::Start(Job::OpenFolder, Work::ChooseFolder)]
    );
    assert_eq!(run(&mut workspace, Dispatch::NewFile), vec![Effect::NewEditor { file: None }]);
    assert_eq!(run(&mut workspace, Dispatch::FoldAll), vec![Effect::FoldAll { editor: 1 }]);
    assert_eq!(run(&mut workspace, Dispatch::UnfoldAll), vec![Effect::UnfoldAll { editor: 1 }]);
    assert_eq!(run(&mut workspace, Dispatch::Quit), vec![Effect::Quit]);
    assert_eq!(
        run(&mut workspace, Dispatch::RunTests),
        vec![Effect::RequestTests(TestRequest::All)]
    );
    let effects = run(&mut workspace, Dispatch::ComposerRequire);
    assert!(effects.contains(&Effect::Type("composer require ".to_string())));
    let effects = run(&mut workspace, Dispatch::DockerLogs);
    assert!(effects.contains(&Effect::Type("docker compose logs -f ".to_string())));
    run(&mut workspace, Dispatch::GitLog);
    assert_eq!(workspace.palette, Some(PaletteMode::GitLog));
    run(&mut workspace, Dispatch::SetLanguage);
    assert_eq!(workspace.palette, Some(PaletteMode::Languages));
    run(&mut workspace, Dispatch::CompleteRouteName);
    assert!(workspace.completion.is_some());
    run(&mut workspace, Dispatch::GitPush);
    assert_eq!(workspace.status.as_deref(), Some("Pushing…"));
    run(&mut workspace, Dispatch::CloseTab);
    assert_eq!(workspace.strip.tabs.len(), 0);
    assert!(run(&mut workspace, Dispatch::Unhandled).is_empty());
    assert_eq!(workspace.status.as_deref(), Some("some.command is not implemented yet"));
}

#[test]
fn the_theme_command_changes_the_theme() {
    let mut workspace = workspace(&[]);
    let mut app = app();
    workspace.palette = Some(PaletteMode::Commands);
    let effects = workspace.confirm_palette(
        "view.toggle_theme".to_string(),
        Dispatch::ToggleTheme,
        &moment(known()),
        &mut app,
    );
    assert_eq!(effects.last(), Some(&Effect::RefreshWindows));
    assert_eq!(workspace.status.as_deref(), Some("Theme: One Dark Pro"));
}

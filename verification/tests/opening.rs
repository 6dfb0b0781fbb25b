use ellefuanti::disk::Disk;
use ellefuanti::effects::{Effect, Focus, GitState, Target, Walk, Work};
use ellefuanti::facts::{Buffer, Facts};
use ellefuanti::jobs::Job;
use ellefuanti::kinds::{FileKind, FileKinds, Language};
use ellefuanti::lsp::{Client, LspState};
use ellefuanti::opening::{PathKind, Save};
use ellefuanti::palette::Point;
use ellefuanti::tabs::Tab;
use ellefuanti::tree::Tree;
use ellefuanti::workspace_view::{GitEvent, Handle, WorkspaceView};

fn disk() -> Disk {
    Disk { existing: vec![], files: vec![], resolved: vec![] }
}

fn buffer(editor: u64, title: &str, text: &str) -> Buffer {
    Buffer {
        editor,
        title: title.to_string(),
        dirty: false,
        text: text.to_string(),
        version: 1,
        head: 0,
        point: Point { row: 0, column: 0 },
        selection: None,
        selected_text: None,
        word: None,
        prefix: String::new(),
        language: "PHP".to_string(),
    }
}

fn kind(path: &str, language: Language, served: bool) -> FileKind {
    FileKind { path: path.to_string(), language, served }
}

fn kinds() -> FileKinds {
    let known = vec![
        kind("/srv/a.php", Language::Php, true),
        kind("/srv/app/Models/User.php", Language::Php, true),
        kind("/srv/app/Post.php", Language::Php, true),
        kind("/srv/app/User.php", Language::Php, true),
        kind("/srv/b.php", Language::Php, true),
        kind("/srv/c.php", Language::Php, true),
        kind("/srv/n.php", Language::Php, true),
        kind("/srv/welcome.blade.php", Language::Blade, false),
    ];
    FileKinds { known }
}

fn facts(buffers: Vec<Buffer>) -> Facts {
    Facts {
        disk: disk(),
        kinds: kinds(),
        buffers,
        autosave: false,
        server_configured: true,
        search_focused: false,
        settings_path: None,
        laravel_reference: false,
        tests_detected: false,
        languages: vec!["PHP".to_string(), "Blade".to_string()],
    }
}

fn tree(root: &str) -> Tree {
    Tree {
        root: root.to_string(),
        name: "srv".to_string(),
        entries: vec![],
        show_hidden: false,
    }
}

fn workspace(paths: &[&str]) -> WorkspaceView {
    let mut workspace = WorkspaceView::new();
    workspace.tree = Some(tree("/srv"));
    let mut editor = 0;
    for path in paths {
        editor += 1;
        workspace.strip.push(Tab { path: Some(path.to_string()), editor });
    }
    workspace
}

fn client() -> Client {
    Client { triggers: vec![], rename: true }
}

#[test]
fn a_window_starts_out_empty() {
    let workspace = WorkspaceView::new();
    assert!(workspace.tree.is_none());
    assert_eq!(workspace.strip.tabs.len(), 0);
    assert_eq!(workspace.focus_editor_or_workspace(), Effect::Focus(Focus::Workspace));
}

#[test]
fn opening_a_file_twice_goes_to_its_tab() {
    let mut workspace = workspace(&["/srv/a.php", "/srv/b.php"]);
    let effects = workspace.open_path("/srv/a.php".to_string());
    assert_eq!(workspace.strip.active, 0);
    assert_eq!(workspace.strip.tabs.len(), 2);
    assert_eq!(
        effects,
        vec![
            Effect::ScrollToTab(0),
            Effect::ClearHoverCards,
            Effect::Focus(Focus::Editor(1)),
        ]
    );
    let effects = workspace.open_path("/srv/c.php".to_string());
    assert_eq!(
        effects,
        vec![Effect::Start(
            Job::OpenFile,
            Work::ReadFile { path: "/srv/c.php".to_string(), target: None }
        )]
    );
}

#[test]
fn a_file_that_was_read_is_shown_and_told_to_the_server() {
    let mut workspace = workspace(&["/srv/a.php"]);
    workspace.lsp.client = Some(client());
    workspace.lsp.state = LspState::Running;
    let target = Some(Target::Lsp { line: 3, character: 2 });
    let effects = workspace.file_loaded(
        "/srv/b.php".to_string(),
        target,
        Ok((7, "<?php".to_string())),
        &disk(),
        true,
        &kinds(),
    );
    assert_eq!(workspace.strip.active_editor(), Some(7));
    assert_eq!(
        effects,
        vec![
            Effect::Reveal { editor: 7, target: Target::Lsp { line: 3, character: 2 } },
            Effect::Focus(Focus::Editor(7)),
            Effect::ScrollToTab(1),
            Effect::ServerOpen { path: "/srv/b.php".to_string(), text: "<?php".to_string() },
        ]
    );
}

#[test]
fn a_file_that_cannot_be_read_says_why() {
    let mut workspace = workspace(&[]);
    let effects = workspace.file_loaded(
        "/srv/b.php".to_string(),
        None,
        Err("too large".to_string()),
        &disk(),
        true,
        &kinds(),
    );
    assert!(effects.is_empty());
    assert_eq!(workspace.status.as_deref(), Some("too large"));
    assert_eq!(workspace.strip.tabs.len(), 0);
}

#[test]
fn a_template_is_not_told_to_the_server() {
    let mut workspace = workspace(&[]);
    workspace.lsp.client = Some(client());
    let effects = workspace.open_on_lsp("/srv/welcome.blade.php", "<x/>", &disk(), true, &kinds());
    assert!(effects.is_empty());
}

#[test]
fn a_file_without_a_folder_starts_a_server_at_its_project() {
    let mut workspace = WorkspaceView::new();
    let project = Disk {
        existing: vec!["/srv/composer.json".to_string()],
        files: vec![],
        resolved: vec![],
    };
    let effects = workspace.open_on_lsp("/srv/app/User.php", "<?php", &project, true, &kinds());
    assert_eq!(
        effects,
        vec![Effect::Start(Job::Lsp, Work::StartServer { root: "/srv".to_string() })]
    );
    assert!(matches!(workspace.lsp.state, LspState::Starting));
    let again = workspace.open_on_lsp("/srv/app/Post.php", "<?php", &project, true, &kinds());
    assert!(again.is_empty(), "a server that is starting is not started again");
}

#[test]
fn no_server_to_start_is_not_an_error() {
    let mut workspace = workspace(&[]);
    let effects = workspace.start_lsp(false);
    assert!(effects.is_empty());
    assert!(matches!(workspace.lsp.state, LspState::Unavailable));
    assert_eq!(workspace.status, None);
}

#[test]
fn a_new_buffer_has_no_path() {
    let mut workspace = workspace(&["/srv/a.php"]);
    workspace.new_file(Ok(9));
    assert_eq!(workspace.strip.active_editor(), Some(9));
    assert_eq!(workspace.strip.active_path(), None);
    workspace.new_file(Err("no room".to_string()));
    assert_eq!(workspace.status.as_deref(), Some("no room"));
}

#[test]
fn the_command_line_opens_a_file_or_a_folder() {
    let mut workspace = WorkspaceView::new();
    assert_eq!(
        workspace.open_argument("/srv".to_string(), PathKind::Directory),
        vec![Effect::Start(Job::OpenFolder, Work::ReadTree { path: "/srv".to_string() })]
    );
    assert_eq!(
        workspace.open_argument("/srv/a.php".to_string(), PathKind::File),
        vec![Effect::Start(
            Job::OpenFile,
            Work::ReadFile { path: "/srv/a.php".to_string(), target: None }
        )]
    );
    assert!(workspace.open_argument("/nowhere".to_string(), PathKind::Missing).is_empty());
    assert_eq!(workspace.status.as_deref(), Some("/nowhere does not exist"));
    assert_eq!(workspace.open_folder(), vec![Effect::Start(Job::OpenFolder, Work::ChooseFolder)]);
}

#[test]
fn a_link_in_the_terminal_opens_the_file_it_names() {
    let mut workspace = workspace(&[]);
    let project = Disk {
        existing: vec![],
        files: vec!["/srv/app/User.php".to_string()],
        resolved: vec![],
    };
    let effects = workspace.open_terminal_link("app/User.php".to_string(), Some(12), &project);
    assert_eq!(
        effects,
        vec![Effect::Start(
            Job::OpenFile,
            Work::ReadFile {
                path: "/srv/app/User.php".to_string(),
                target: Some(Target::Point(Point { row: 11, column: 0 })),
            }
        )]
    );
    assert!(workspace.open_terminal_link("and/or".to_string(), None, &project).is_empty());
    assert_eq!(workspace.status, None, "prose that looks like a path is dropped silently");
}

#[test]
fn a_folder_brings_its_server_git_and_index() {
    let mut workspace = WorkspaceView::new();
    workspace.terminal = Some(Handle {});
    let effects = workspace.folder_loaded(Ok(tree("/srv")), true);
    assert_eq!(
        effects,
        vec![
            Effect::WatchTree("/srv".to_string()),
            Effect::CancelJob(Job::TestRun),
            Effect::Start(Job::Lsp, Work::StartServer { root: "/srv".to_string() }),
            Effect::ShowGit(GitState::Loading),
            Effect::Start(Job::GitStatus, Work::ReadGitStatus { root: "/srv".to_string() }),
            Effect::RebuildIndex("/srv".to_string()),
            Effect::SetTerminalDirectory(Some("/srv".to_string())),
        ]
    );
    assert!(workspace.folder_loaded(Err("not a directory".to_string()), true).is_empty());
    assert_eq!(workspace.status.as_deref(), Some("not a directory"));
}

#[test]
fn unsaved_changes_are_asked_about() {
    let mut workspace = workspace(&["/srv/a.php", "/srv/b.php"]);
    let mut known = facts(vec![buffer(1, "a.php", ""), buffer(2, "b.php", "")]);
    known.buffers[1].dirty = true;
    let effects = workspace.close_tab(&known);
    assert_eq!(workspace.strip.tabs.len(), 2);
    assert_eq!(
        effects,
        vec![Effect::Start(
            Job::ClosePrompt,
            Work::AskToDiscard {
                editor: 2,
                message: "b.php has unsaved changes.".to_string(),
                detail: "Closing this tab will discard them.".to_string(),
            }
        )]
    );
    assert!(workspace.discard_answered(2, false).is_empty());
    assert_eq!(workspace.strip.tabs.len(), 2);
    workspace.discard_answered(2, true);
    assert_eq!(workspace.strip.tabs.len(), 1);
    assert!(workspace.discard_answered(2, true).is_empty(), "the tab is gone already");
}

#[test]
fn closing_a_clean_tab_tells_the_server() {
    let mut workspace = workspace(&["/srv/a.php", "/srv/b.php"]);
    workspace.lsp.client = Some(client());
    let known = facts(vec![buffer(1, "a.php", ""), buffer(2, "b.php", "")]);
    let effects = workspace.close_tab_at(0, &known);
    assert_eq!(
        effects,
        vec![
            Effect::ServerClose("/srv/a.php".to_string()),
            Effect::ClearDiagnostics("/srv/a.php".to_string()),
            Effect::ScrollToTab(0),
            Effect::ClearHoverCards,
        ]
    );
    assert_eq!(workspace.strip.active_editor(), Some(2));
}

#[test]
fn tabs_are_selected_and_dragged() {
    let mut workspace = workspace(&["/srv/a.php", "/srv/b.php", "/srv/c.php"]);
    assert_eq!(
        workspace.select_tab(0),
        vec![Effect::ScrollToTab(0), Effect::ClearHoverCards]
    );
    assert_eq!(workspace.reorder_tab(0, 2), vec![Effect::ScrollToTab(2)]);
    assert_eq!(workspace.strip.active_editor(), Some(1));
    assert!(workspace.reorder_tab(0, 9).is_empty());
}

#[test]
fn a_save_writes_the_buffer_and_a_nameless_one_asks() {
    let mut workspace = workspace(&["/srv/a.php"]);
    let known = facts(vec![buffer(1, "a.php", "text"), buffer(9, "untitled", "x")]);
    assert_eq!(
        workspace.save(&known),
        vec![Effect::Start(
            Job::Save,
            Work::WriteFile {
                editor: 1,
                path: "/srv/a.php".to_string(),
                text: "text".to_string(),
                version: 1,
            }
        )]
    );
    workspace.new_file(Ok(9));
    assert_eq!(
        workspace.save(&known),
        vec![Effect::Start(
            Job::Save,
            Work::ChoosePath {
                editor: 9,
                directory: Some("/srv".to_string()),
                name: "untitled.php".to_string(),
            }
        )]
    );
    workspace.saved_as(9, "/srv/n.php".to_string(), 4, None);
    assert_eq!(workspace.strip.active_path().map(|path| path.as_str()), Some("/srv/n.php"));
    workspace.saved_as(9, "/srv/n.php".to_string(), 4, Some("disk full".to_string()));
    assert_eq!(workspace.status.as_deref(), Some("save failed: disk full"));
}

#[test]
fn saving_a_model_rebuilds_the_index() {
    let mut workspace = workspace(&["/srv/app/Models/User.php"]);
    workspace.git = GitState::Repo;
    let save = Save {
        editor: 1,
        path: "/srv/app/Models/User.php".to_string(),
        text: "<?php".to_string(),
        version: 2,
    };
    let effects = workspace.saved(&save, None, &disk(), &kinds());
    assert_eq!(
        effects,
        vec![
            Effect::MarkSaved { editor: 1, version: 2 },
            Effect::Start(Job::GitStatus, Work::ReadGitStatus { root: "/srv".to_string() }),
            Effect::RebuildIndex("/srv".to_string()),
        ]
    );
    let effects = workspace.saved(&save, Some("read-only".to_string()), &disk(), &kinds());
    assert!(effects.is_empty());
    assert_eq!(workspace.status.as_deref(), Some("save failed: read-only"));
}

#[test]
fn autosave_writes_what_changed_and_has_a_path() {
    let mut workspace = workspace(&["/srv/a.php", "/srv/b.php"]);
    workspace.new_file(Ok(3));
    let mut known = facts(vec![
        buffer(1, "a.php", "clean"),
        buffer(2, "b.php", "changed"),
        buffer(3, "untitled", "changed"),
    ]);
    known.buffers[1].dirty = true;
    known.buffers[2].dirty = true;
    assert!(workspace.autosave_dirty_tabs(&known).is_empty(), "autosave is off");
    assert!(workspace.schedule_autosave(&known).is_empty());
    known.autosave = true;
    assert_eq!(
        workspace.autosave_dirty_tabs(&known),
        vec![Effect::Autosave {
            editor: 2,
            path: "/srv/b.php".to_string(),
            text: "changed".to_string(),
            version: 1,
        }]
    );
    assert_eq!(
        workspace.schedule_autosave(&known),
        vec![Effect::Start(Job::AutosaveDebounce, Work::WaitToAutosave)]
    );
    let save = Save {
        editor: 2,
        path: "/srv/b.php".to_string(),
        text: "changed".to_string(),
        version: 1,
    };
    workspace.autosaved(&vec![(save, Some("disk full".to_string()))], &kinds());
    assert_eq!(workspace.status.as_deref(), Some("autosave failed: /srv/b.php: disk full"));
}

#[test]
fn a_status_walk_supersedes_the_one_before() {
    let mut workspace = workspace(&[]);
    workspace.refresh_git_status();
    let effects = workspace.refresh_git_status();
    assert_eq!(effects[0], Effect::CancelWalk(Walk::GitStatus));
    assert!(workspace.git_status_read(true, true, false).is_empty(), "superseded");
    assert_eq!(workspace.git_status_read(true, false, false), vec![Effect::ShowGit(GitState::Repo)]);
    assert_eq!(
        workspace.git_status_read(false, false, true),
        vec![Effect::ShowGit(GitState::NotARepo)]
    );
    let mut empty = WorkspaceView::new();
    assert_eq!(empty.refresh_git_status(), vec![Effect::ShowGit(GitState::NoFolder)]);
}

#[test]
fn the_source_control_panel_reads_stages_and_commits() {
    let mut workspace = workspace(&[]);
    workspace.git = GitState::Repo;
    assert_eq!(
        workspace.on_git_event(GitEvent::DiffRequested { path: "a.php".to_string() }),
        vec![Effect::Start(
            Job::GitDiff,
            Work::ReadGitDiff { root: "/srv".to_string(), path: "a.php".to_string() }
        )]
    );
    assert_eq!(
        workspace.on_git_event(GitEvent::StageRequested { path: "a.php".to_string(), stage: true }),
        vec![Effect::Start(
            Job::GitWrite,
            Work::Stage { root: "/srv".to_string(), path: "a.php".to_string(), stage: true }
        )]
    );
    assert_eq!(
        workspace.on_git_event(GitEvent::CommitRequested { message: "fix".to_string() }),
        vec![Effect::Start(
            Job::GitWrite,
            Work::Commit { root: "/srv".to_string(), message: "fix".to_string() }
        )]
    );
    let effects = workspace.git_written(&Err("fatal: nothing to commit".to_string()));
    assert!(!effects.contains(&Effect::ClearCommitMessage), "the message is kept");
    let effects = workspace.git_written(&Ok("[main 1234] fix".to_string()));
    assert_eq!(effects[0], Effect::ClearCommitMessage);
    workspace.git_diff_read(Some(Handle {}));
    assert!(workspace.git_diff.is_some());
}

#[test]
fn pushing_says_so_and_reads_the_outcome() {
    let mut workspace = workspace(&[]);
    assert_eq!(
        workspace.push_to_remote(),
        vec![Effect::Start(Job::GitWrite, Work::Push { root: "/srv".to_string() })]
    );
    assert_eq!(workspace.status.as_deref(), Some("Pushing…"));
    workspace.git_operation_done(&Ok("✓ Pushed".to_string()));
    assert_eq!(workspace.status.as_deref(), Some("✓ Pushed"));
    workspace.git_operation_done(&Ok("  ".to_string()));
    assert_eq!(workspace.status.as_deref(), Some("Done"));
    workspace.git_operation_done(&Err("fatal: no remote".to_string()));
    assert_eq!(workspace.status.as_deref(), Some("no remote"));
    assert_eq!(
        workspace.git_fetch(),
        vec![Effect::Start(Job::GitWrite, Work::Fetch { root: "/srv".to_string() })]
    );
    assert_eq!(
        workspace.switch_to_branch("main".to_string()),
        vec![Effect::Start(
            Job::GitWrite,
            Work::SwitchBranch { root: "/srv".to_string(), branch: "main".to_string() }
        )]
    );
}

#[test]
fn another_project_shuts_the_old_server_down() {
    let mut workspace = workspace(&[]);
    workspace.lsp.client = Some(client());
    workspace.lsp.state = LspState::Running;
    workspace.lsp.errors = 3;
    workspace.lsp.warnings = 1;
    workspace.lsp.record_synced("/srv/a.php", 4);
    let effects = workspace.folder_loaded(Ok(tree("/other")), false);
    assert!(effects.contains(&Effect::ShutDownServer));
    assert!(workspace.lsp.client.is_none(), "nothing is asked of the old project's server");
    assert_eq!((workspace.lsp.errors, workspace.lsp.warnings), (0, 0));
    assert!(workspace.lsp.synced.is_empty());
    assert!(matches!(workspace.lsp.state, LspState::Unavailable));

    workspace.lsp.client = Some(client());
    assert_eq!(
        workspace.start_lsp_at("/third".to_string(), true),
        vec![
            Effect::ShutDownServer,
            Effect::Start(Job::Lsp, Work::StartServer { root: "/third".to_string() }),
        ]
    );
}

use ellefuanti::disk::Disk;
use ellefuanti::effects::{Effect, Focus, Overlay, Panel, TreeOperation, Work};
use ellefuanti::facts::{Buffer, Facts};
use ellefuanti::file_actions::{tree_is_concerned, Dropped, MenuAction, Outcome};
use ellefuanti::jobs::Job;
use ellefuanti::kinds::{FileKind, FileKinds, Language};
use ellefuanti::palette::Point;
use ellefuanti::tabs::Tab;
use ellefuanti::tree::{Entry, Tree};
use ellefuanti::workspace_view::{PendingKind, Sidebar, WorkspaceView};

fn disk() -> Disk {
    Disk { existing: vec![], files: vec![], resolved: vec![] }
}

fn buffer(editor: u64, title: &str, text: &str) -> Buffer {
    Buffer {
        editor,
        title: title.to_string(),
        dirty: false,
        text: text.to_string(),
        version: 1,
        head: 0,
        point: Point { row: 0, column: 0 },
        selection: None,
        selected_text: None,
        word: None,
        prefix: String::new(),
        language: "PHP".to_string(),
    }
}

fn kind(path: &str, language: Language, served: bool) -> FileKind {
    FileKind { path: path.to_string(), language, served }
}

fn kinds() -> FileKinds {
    let known = vec![
        kind("/srv/User.php", Language::Php, true),
        kind("/srv/a.php", Language::Php, true),
        kind("/srv/app/Http/Kernel.php", Language::Php, true),
        kind("/srv/app/Member.php", Language::Php, true),
        kind("/srv/app/Post.php", Language::Php, true),
        kind("/srv/app/User.php", Language::Php, true),
    ];
    FileKinds { known }
}

fn facts(buffers: Vec<Buffer>) -> Facts {
    Facts {
        disk: disk(),
        kinds: kinds(),
        buffers,
        autosave: false,
        server_configured: true,
        search_focused: false,
        settings_path: None,
        laravel_reference: false,
        tests_detected: false,
        languages: vec!["PHP".to_string(), "Blade".to_string()],
    }
}

fn tree(root: &str) -> Tree {
    Tree {
        root: root.to_string(),
        name: "srv".to_string(),
        entries: vec![],
        show_hidden: false,
    }
}

fn workspace(paths: &[&str]) -> WorkspaceView {
    let mut workspace = WorkspaceView::new();
    workspace.tree = Some(tree("/srv"));
    let mut editor = 0;
    for path in paths {
        editor += 1;
        workspace.strip.push(Tab { path: Some(path.to_string()), editor });
    }
    workspace
}

fn with_rows() -> WorkspaceView {
    let mut workspace = workspace(&["/srv/app/User.php"]);
    let mut shown = tree("/srv");
    shown.entries = vec![
        Entry {
            path: "/srv/app".to_string(),
            name: "app".to_string(),
            depth: 0,
            is_dir: true,
            expanded: true,
        },
        Entry {
            path: "/srv/app/User.php".to_string(),
            name: "User.php".to_string(),
            depth: 1,
            is_dir: false,
            expanded: false,
        },
    ];
    workspace.tree = Some(shown);
    workspace
}

#[test]
fn a_row_opens_or_unfolds() {
    let mut workspace = with_rows();
    assert_eq!(workspace.tree_row_clicked(0), vec![Effect::Tree(TreeOperation::Toggle(0))]);
    assert_eq!(workspace.toggle_tree_entry(0), vec![Effect::Tree(TreeOperation::Toggle(0))]);
    assert_eq!(workspace.tree_row_clicked(1)[2], Effect::Focus(Focus::Editor(1)));
    assert!(workspace.tree_row_clicked(2).is_empty());
}

#[test]
fn the_trees_buttons_need_a_tree() {
    let workspace = with_rows();
    assert_eq!(
        workspace.toggle_hidden_files(),
        vec![Effect::Tree(TreeOperation::ShowHidden(true))]
    );
    assert_eq!(workspace.expand_all_tree(), vec![Effect::Tree(TreeOperation::ExpandAll)]);
    assert_eq!(workspace.collapse_all_tree(), vec![Effect::Tree(TreeOperation::CollapseAll)]);
    assert_eq!(workspace.refresh_tree(), vec![Effect::Tree(TreeOperation::Refresh)]);
    assert!(WorkspaceView::new().expand_all_tree().is_empty());
}

#[test]
fn the_active_file_is_revealed_in_the_tree() {
    let mut workspace = with_rows();
    workspace.sidebar = Sidebar::Git;
    assert_eq!(
        workspace.reveal_active_file(),
        vec![Effect::Tree(TreeOperation::Reveal("/srv/app/User.php".to_string()))]
    );
    assert_eq!(workspace.sidebar, Sidebar::Explorer);
    assert_eq!(workspace.revealed(Some(1)), vec![Effect::ScrollToTreeRow(1)]);
    assert!(workspace.revealed(None).is_empty());
}

#[test]
fn the_menu_of_a_row_creates_renames_and_deletes() {
    let mut workspace = with_rows();
    workspace.open_tree_menu(0);
    let effects = workspace.on_menu_action(MenuAction::NewFile);
    assert_eq!(
        effects,
        vec![
            Effect::ShowOverlay(Overlay::Prompt {
                verb: "New".to_string(),
                subject: "file in app".to_string(),
                seed: String::new(),
            }),
            Effect::Focus(Focus::Panel(Panel::Overlay)),
        ]
    );
    let effects = workspace.on_name_confirmed("Post.php".to_string());
    assert_eq!(
        effects[1],
        Effect::Start(
            Job::FileOperation,
            Work::CreateFile { path: "/srv/app/Post.php".to_string() }
        )
    );
    assert!(workspace.overlay.is_none());
    assert!(workspace.pending.is_none());

    workspace.open_tree_menu(1);
    workspace.on_menu_action(MenuAction::Rename);
    let effects = workspace.on_name_confirmed("Member.php".to_string());
    assert_eq!(
        effects[1],
        Effect::Start(
            Job::FileOperation,
            Work::Rename {
                path: "/srv/app/User.php".to_string(),
                name: "Member.php".to_string(),
            }
        )
    );

    workspace.open_tree_menu(0);
    let effects = workspace.on_menu_action(MenuAction::Delete);
    assert_eq!(
        effects[0],
        Effect::ShowOverlay(Overlay::Confirm {
            question: "Delete app?".to_string(),
            detail: "This folder and everything in it will be deleted permanently.".to_string(),
        })
    );
    assert_eq!(
        workspace.on_delete_confirmed()[1],
        Effect::Start(
            Job::FileOperation,
            Work::Delete { path: "/srv/app".to_string(), root: "/srv".to_string() }
        )
    );
}

#[test]
fn the_root_has_a_menu_of_its_own() {
    let mut workspace = with_rows();
    let effects = workspace.open_tree_root_menu();
    assert_eq!(effects[0], Effect::ShowOverlay(Overlay::RootMenu));
    assert_eq!(workspace.pending.as_ref().map(|p| p.kind), Some(PendingKind::Menu));
    workspace.on_menu_action(MenuAction::NewDirectory);
    assert_eq!(
        workspace.on_name_confirmed("docs".to_string())[1],
        Effect::Start(
            Job::FileOperation,
            Work::CreateDirectory { path: "/srv/docs".to_string() }
        )
    );
}

#[test]
fn copying_and_revealing_close_the_menu() {
    let mut workspace = with_rows();
    workspace.open_tree_menu(1);
    let effects = workspace.on_menu_action(MenuAction::CopyPath);
    assert_eq!(effects[0], Effect::CopyText("/srv/app/User.php".to_string()));
    assert!(workspace.overlay.is_none());
    workspace.open_tree_menu(1);
    let effects = workspace.on_menu_action(MenuAction::RevealInFinder);
    assert_eq!(effects[0], Effect::RevealInFinder("/srv/app/User.php".to_string()));
    workspace.dismiss_overlay();
    assert!(workspace.on_name_confirmed("x".to_string()).is_empty());
    assert!(workspace.on_delete_confirmed().is_empty(), "a dismissed prompt does nothing");
}

#[test]
fn what_was_created_opens_and_what_failed_is_told() {
    let mut workspace = with_rows();
    let known = facts(vec![buffer(1, "User.php", "")]);
    let effects = workspace.name_done(Outcome::Created("/srv/app/Post.php".to_string()), &known);
    assert_eq!(
        effects,
        vec![
            Effect::Tree(TreeOperation::Refresh),
            Effect::Start(
                Job::OpenFile,
                Work::ReadFile { path: "/srv/app/Post.php".to_string(), target: None }
            ),
        ]
    );
    assert_eq!(
        workspace.name_done(Outcome::Nothing, &known),
        vec![Effect::Tree(TreeOperation::Refresh)]
    );
    assert!(workspace.name_done(Outcome::Failed("exists".to_string()), &known).is_empty());
    assert_eq!(workspace.status.as_deref(), Some("exists"));
}

#[test]
fn deleting_a_directory_closes_what_was_open_in_it() {
    let mut workspace =
        workspace(&["/srv/app/User.php", "/srv/artisan", "/srv/app/Http/Kernel.php"]);
    workspace.select_tab(1);
    workspace.deleted("/srv/app", None, &disk());
    assert_eq!(workspace.strip.tabs.len(), 1);
    assert_eq!(workspace.strip.active_editor(), Some(2));
    assert!(workspace.deleted("/srv/x", Some("busy".to_string()), &disk()).is_empty());
    assert_eq!(workspace.status.as_deref(), Some("busy"));
}

#[test]
fn a_renamed_file_takes_its_tab_along() {
    let mut workspace = with_rows();
    let known = facts(vec![buffer(1, "User.php", "<?php")]);
    workspace.name_done(
        Outcome::Renamed {
            from: "/srv/app/User.php".to_string(),
            to: "/srv/app/Member.php".to_string(),
        },
        &known,
    );
    assert_eq!(
        workspace.strip.active_path().map(|path| path.as_str()),
        Some("/srv/app/Member.php")
    );
}

#[test]
fn a_dropped_row_moves_within_the_project() {
    let mut workspace = with_rows();
    let known = facts(vec![buffer(1, "User.php", "<?php")]);
    assert_eq!(
        workspace.drop_tree_entry("/srv/app/User.php".to_string(), "/srv".to_string()),
        Some(("/srv/app/User.php".to_string(), "/srv".to_string(), "/srv".to_string()))
    );
    assert!(WorkspaceView::new().drop_tree_entry("/a".to_string(), "/b".to_string()).is_none());
    let stayed =
        workspace.entry_moved("/srv/app/User.php", Ok("/srv/app/User.php".to_string()), &known);
    assert!(stayed.is_empty(), "it was dropped where it already lives");
    workspace.entry_moved("/srv/app/User.php", Ok("/srv/User.php".to_string()), &known);
    assert_eq!(workspace.strip.active_path().map(|path| path.as_str()), Some("/srv/User.php"));
    let refused =
        workspace.entry_moved("/srv/app", Err("into its own subtree".to_string()), &known);
    assert!(refused.is_empty());
    assert_eq!(workspace.status.as_deref(), Some("into its own subtree"));
}

#[test]
fn what_is_dropped_from_outside_opens() {
    let mut workspace = WorkspaceView::new();
    let tree = Tree {
        root: "/srv".to_string(),
        name: "srv".to_string(),
        entries: vec![],
        show_hidden: false,
    };
    let effects = workspace.external_drop(vec![
        Dropped::Folder { tree: Ok(tree), configured: false },
        Dropped::Other { path: "/srv/a.php".to_string() },
        Dropped::Folder { tree: Err("no access".to_string()), configured: true },
    ]);
    assert_eq!(effects[0], Effect::WatchTree("/srv".to_string()));
    assert!(
        !effects.iter().any(|effect| matches!(effect, Effect::Start(Job::OpenFolder, _))),
        "a folder load under way is left alone"
    );
    assert_eq!(
        effects[effects.len() - 1],
        Effect::Start(
            Job::OpenFile,
            Work::ReadFile { path: "/srv/a.php".to_string(), target: None }
        )
    );
    assert_eq!(workspace.root().as_deref(), Some("/srv"));
    assert_eq!(workspace.status.as_deref(), Some("no access"));
}

#[test]
fn churn_inside_git_does_not_concern_the_tree() {
    let inside = vec!["/srv/.git/index".to_string(), "/srv/.git/HEAD".to_string()];
    assert!(!tree_is_concerned(&inside, "/srv"));
    let mixed = vec!["/srv/.git/index".to_string(), "/srv/a.php".to_string()];
    assert!(tree_is_concerned(&mixed, "/srv"));
    assert!(tree_is_concerned(&vec![], "/srv"), "an event without paths may be about anything");
}

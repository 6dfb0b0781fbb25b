use ellefuanti::chrome::{activity_panel, ACTIVITY_PANELS, Below, editor_hint, EditorArea, HeaderButton, Layer, sidebar_header, SidebarBody};
use ellefuanti::completion::CompletionTrigger;
use ellefuanti::database::TableInfo;
use ellefuanti::disk::Disk;
use ellefuanti::effects::{Effect, Focus, TreeOperation};
use ellefuanti::facts::{Buffer, Facts};
use ellefuanti::kinds::{FileKind, FileKinds, Language};
use ellefuanti::palette::{PaletteMode, Point};
use ellefuanti::tabs::Tab;
use ellefuanti::theme::ThemeVariant;
use ellefuanti::tree::{Entry, Tree};
use ellefuanti::workspace_view::{Handle, Sidebar, WorkspaceView};

fn disk() -> Disk {
    Disk { existing: vec![], files: vec![], resolved: vec![] }
}

fn buffer(editor: u64, title: &str, text: &str) -> Buffer {
    Buffer {
        editor,
        title: title.to_string(),
        dirty: false,
        text: text.to_string(),
        version: 1,
        head: 0,
        point: Point { row: 0, column: 0 },
        selection: None,
        selected_text: None,
        word: None,
        prefix: String::new(),
        language: "PHP".to_string(),
    }
}

fn kind(path: &str, language: Language, served: bool) -> FileKind {
    FileKind { path: path.to_string(), language, served }
}

fn kinds() -> FileKinds {
    let known = vec![
        kind("/srv/a.php", Language::Php, true),
        kind("/srv/b.php", Language::Php, true),
    ];
    FileKinds { known }
}

fn facts(buffers: Vec<Buffer>) -> Facts {
    Facts {
        disk: disk(),
        kinds: kinds(),
        buffers,
        autosave: false,
        server_configured: true,
        search_focused: false,
        settings_path: None,
        laravel_reference: false,
        tests_detected: false,
        languages: vec!["PHP".to_string(), "Blade".to_string()],
    }
}

fn tree(root: &str) -> Tree {
    Tree {
        root: root.to_string(),
        name: "srv".to_string(),
        entries: vec![],
        show_hidden: false,
    }
}

fn workspace(paths: &[&str]) -> WorkspaceView {
    let mut workspace = WorkspaceView::new();
    workspace.tree = Some(tree("/srv"));
    let mut editor = 0;
    for path in paths {
        editor += 1;
        workspace.strip.push(Tab { path: Some(path.to_string()), editor });
    }
    workspace
}

fn known() -> Facts {
    facts(vec![buffer(1, "a.php", ""), buffer(2, "b.php", "")])
}

#[test]
fn every_enabled_panel_selects_a_distinct_and_reachable_sidebar() {
    let targets: Vec<Sidebar> =
        (0..ACTIVITY_PANELS).filter_map(|index| activity_panel(index).1).collect();

    let mut unique = targets.clone();
    unique.sort_by_key(|s| format!("{s:?}"));
    unique.dedup();
    assert_eq!(unique.len(), targets.len(), "two entries select the same sidebar: {targets:?}");

    for sidebar in [Sidebar::Explorer, Sidebar::Search, Sidebar::Git] {
        assert!(
            targets.contains(&sidebar),
            "{sidebar:?} has no activity-bar entry, so nothing can select it"
        );
    }
}

#[test]
fn the_shown_panel_stands_out_and_a_later_one_says_so() {
    let theme = ThemeVariant::Dark.build();
    let mut workspace = workspace(&[]);
    workspace.sidebar = Sidebar::Git;
    let items = workspace.render_activity_bar(&theme);
    assert_eq!(items.len(), 7);
    assert_eq!(items[2].name, "Git");
    assert_eq!(items[2].background, Some(theme.selected));
    assert_eq!(items[2].color, theme.accent);
    assert_eq!(items[0].background, None);
    assert_eq!(items[0].color, theme.text);
    assert_eq!(items[3].tooltip, "Laravel (coming soon)");
    assert!(items[3].dimmed);
    assert_eq!(items[3].target, None);
}

#[test]
fn the_title_names_the_file_and_the_folder() {
    let mut workspace = workspace(&["/srv/a.php"]);
    let mut facts = known();
    assert_eq!(workspace.title(&facts), "a.php — srv");
    facts.buffers[0].dirty = true;
    assert_eq!(workspace.title(&facts), "• a.php — srv");
    workspace.tree = None;
    assert_eq!(workspace.title(&facts), "• a.php");
    workspace.strip.remove(0);
    assert_eq!(workspace.title(&facts), "ellefuanti");
    workspace.tree = Some(tree("/srv"));
    assert_eq!(workspace.title(&facts), "srv");
}

#[test]
fn the_sidebar_says_what_it_lists() {
    let mut workspace = workspace(&[]);
    let shown = workspace.render_sidebar();
    assert_eq!(shown.header, "SRV");
    assert_eq!(shown.body, SidebarBody::EmptyTree);
    assert_eq!(shown.body.hint(), Some("Empty folder — right-click to create a file"));
    assert_eq!(
        shown.buttons,
        vec![HeaderButton::RevealActiveFile, HeaderButton::ExpandAll, HeaderButton::CollapseAll]
    );
    assert_eq!(HeaderButton::RevealActiveFile.label(), "Reveal active file in tree");
    let mut rows = tree("/srv");
    rows.entries.push(Entry {
        path: "/srv/a".to_string(),
        name: "a".to_string(),
        depth: 0,
        is_dir: false,
        expanded: false,
    });
    workspace.tree = Some(rows);
    assert_eq!(workspace.render_sidebar().body, SidebarBody::Tree);
    workspace.sidebar = Sidebar::Search;
    assert_eq!(workspace.render_sidebar().body, SidebarBody::Blank);
    workspace.show_search_panel();
    assert_eq!(workspace.render_sidebar().body, SidebarBody::SearchPanel);
    workspace.tree = None;
    assert_eq!(workspace.render_sidebar().body, SidebarBody::OpenFolderHint);
    workspace.sidebar = Sidebar::Explorer;
    let shown = workspace.render_sidebar();
    assert_eq!(shown.header, "NO FOLDER OPEN");
    assert_eq!(shown.body.hint(), Some("Press ⌘O to open a folder"));
    assert!(shown.buttons.is_empty());
    assert_eq!(sidebar_header(Sidebar::Git, None), "SOURCE CONTROL");
    assert_eq!(sidebar_header(Sidebar::Search, None), "SEARCH");
    assert_eq!(sidebar_header(Sidebar::Database, None), "DATABASE");
    assert_eq!(sidebar_header(Sidebar::Docker, None), "DOCKER");
}

#[test]
fn the_headers_buttons_act_on_what_is_shown() {
    let mut workspace = workspace(&["/srv/a.php"]);
    assert_eq!(
        workspace.header_button_clicked(HeaderButton::ExpandAll),
        vec![Effect::Tree(TreeOperation::ExpandAll)]
    );
    workspace.sidebar = Sidebar::Database;
    assert!(workspace.render_sidebar().buttons.is_empty(), "there is nothing to unfold");
    workspace.db_schema_read(Some(Ok(vec![TableInfo {
        name: "users".to_string(),
        columns: vec![],
    }])));
    assert_eq!(
        workspace.render_sidebar().buttons,
        vec![HeaderButton::ExpandAll, HeaderButton::CollapseAll]
    );
    assert!(workspace.header_button_clicked(HeaderButton::ExpandAll).is_empty());
    assert!(workspace.database.is_expanded("users"));
    workspace.header_button_clicked(HeaderButton::CollapseAll);
    assert!(!workspace.database.is_expanded("users"));
}

#[test]
fn a_tab_shows_whether_it_is_active_and_saved() {
    let theme = ThemeVariant::Dark.build();
    let workspace = workspace(&["/srv/a.php", "/srv/b.php"]);
    let mut facts = known();
    facts.buffers[0].dirty = true;
    let cells = workspace.render_tab_bar(&facts, &theme);
    assert_eq!(cells[0].title, "a.php");
    assert_eq!(cells[0].mark, "•");
    assert_eq!(cells[0].mark_color, theme.accent);
    assert_eq!(cells[0].color, theme.text_muted);
    assert!(cells[1].active);
    assert_eq!(cells[1].mark, "✕");
    assert_eq!(cells[1].background, Some(theme.background));
    assert_eq!(cells[1].underline, Some(theme.accent));
}

#[test]
fn the_middle_shows_what_is_looked_at() {
    let mut workspace = workspace(&["/srv/a.php"]);
    assert_eq!(workspace.render_editor_area(true), EditorArea::Editor(1));
    workspace.sidebar = Sidebar::Git;
    workspace.git_diff = Some(Handle {});
    assert_eq!(workspace.render_editor_area(true), EditorArea::Diff);
    assert_eq!(workspace.render_editor_area(false), EditorArea::Editor(1));
    workspace.sidebar = Sidebar::Database;
    workspace.open_db_table("users".to_string());
    assert_eq!(workspace.render_editor_area(true), EditorArea::Table);
    assert_eq!(WorkspaceView::new().render_editor_area(false), EditorArea::Hint);
    assert_eq!(editor_hint(), "⌘O open folder   ⌘P quick open   ⌘⇧P commands");
}

#[test]
fn the_status_bar_counts_from_one() {
    let theme = ThemeVariant::Dark.build();
    let mut workspace = workspace(&["/srv/a.php"]);
    let mut facts = known();
    facts.buffers[0].point = Point { row: 11, column: 4 };
    let bar = workspace.render_status_bar(&facts, 0, Some("undefined variable"), &theme);
    assert_eq!(bar.position, "Ln 12, Col 5");
    assert_eq!(bar.message, "undefined variable");
    assert_eq!(bar.message_color, theme.text_muted);
    assert_eq!(bar.language.as_deref(), Some("PHP"));
    assert_eq!(bar.terminals, "");
    assert_eq!(bar.tests, "");
    assert_eq!(bar.update, None);
    workspace.status = Some("Pushing…".to_string());
    workspace.terminal = Some(Handle {});
    let bar = workspace.render_status_bar(&facts, 1, Some("undefined variable"), &theme);
    assert_eq!(bar.message, "Pushing…");
    assert_eq!(bar.message_color, theme.accent);
    assert_eq!(bar.terminals, "1 terminal");
    assert_eq!(workspace.render_status_bar(&facts, 3, None, &theme).terminals, "3 terminals");
    let bare = WorkspaceView::new().render_status_bar(&facts, 0, None, &theme);
    assert_eq!(bare.position, "");
    assert_eq!(bare.language, None);
}

#[test]
fn what_is_drawn_last_is_on_top() {
    let mut workspace = workspace(&["/srv/a.php"]);
    workspace.palette = Some(PaletteMode::Files);
    workspace.completion = Some(CompletionTrigger::Invoked);
    workspace.settings_panel = Some(Handle {});
    workspace.overlay = Some(Handle {});
    workspace.logs = Some(Handle {});
    workspace.terminal = Some(Handle {});
    let (frame, effects) = workspace.render(&known(), true);
    assert_eq!(
        frame.layers,
        vec![Layer::Palette, Layer::Completion, Layer::Hover, Layer::Settings, Layer::Overlay]
    );
    assert_eq!(frame.below, vec![Below::Terminal, Below::Logs]);
    assert_eq!(frame.title, "a.php — srv");
    assert!(!frame.find_bar);
    assert_eq!(effects, vec![Effect::ObserveActivation, Effect::CheckForUpdates]);
    workspace.find = Some(Handle {});
    let (frame, effects) = workspace.render(&known(), false);
    assert!(frame.find_bar);
    assert_eq!(effects, vec![Effect::SearchDocument { editor: 1 }]);
}

#[test]
fn a_click_beside_a_panel_closes_it() {
    let mut workspace = workspace(&["/srv/a.php"]);
    workspace.palette = Some(PaletteMode::Files);
    workspace.settings_panel = Some(Handle {});
    workspace.overlay = Some(Handle {});
    workspace.backdrop_clicked(Layer::Palette);
    assert_eq!(workspace.palette, None);
    assert_eq!(
        workspace.backdrop_clicked(Layer::Settings),
        vec![Effect::Focus(Focus::Editor(1))]
    );
    workspace.backdrop_clicked(Layer::Overlay);
    assert!(workspace.overlay.is_none());
    assert!(workspace.backdrop_clicked(Layer::Hover).is_empty());
}

//! What the window shows around the text: its title, the activity bar, the
//! sidebar, the tabs, the editor area and the status bar.
//!
//! Each of these is worked out from the state and from what the window knows;
//! laying it out is left to whoever draws.

use vstd::prelude::*;
use vstd::string::*;

use crate::effects;
use crate::effects::{both, nothing, Effect, TreeOperation};
use crate::facts::Facts;
use crate::lsp;
use crate::lsp::lsp_label;
use crate::test_view;
use crate::text;
use crate::text::{decimal_text, join2, join3, owned, to_uppercase};
use crate::theme::Theme;
use crate::tooltip;
use crate::tooltip::activity_label;
use crate::workspace_view;
use crate::workspace_view::{Sidebar, WorkspaceModel, WorkspaceView};

verus! {

broadcast use vstd::seq::group_seq_axioms;

// ---------------------------------------------------------------------------
// The activity bar
// ---------------------------------------------------------------------------

/// The entries of the activity bar, in order, and the sidebar that each of
/// them selects. One that does not work yet is shown without.
pub open spec fn panels() -> Seq<(Seq<char>, Option<Sidebar>)> {
    seq![
        ("Explorer"@, Some(Sidebar::Explorer)),
        ("Search"@, Some(Sidebar::Search)),
        ("Git"@, Some(Sidebar::Git)),
        ("Laravel"@, None),
        ("Database"@, Some(Sidebar::Database)),
        ("Docker"@, Some(Sidebar::Docker)),
        ("Tests"@, None),
    ]
}

/// How many entries the activity bar has.
pub const ACTIVITY_PANELS: usize = 7;

/// The entry of the activity bar at an index.
pub fn activity_panel(index: usize) -> (panel: (&'static str, Option<Sidebar>))
    requires
        index < ACTIVITY_PANELS,
    ensures
        (panel.0@, panel.1) == panels()[index as int],
{
    match index {
        0 => ("Explorer", Some(Sidebar::Explorer)),
        1 => ("Search", Some(Sidebar::Search)),
        2 => ("Git", Some(Sidebar::Git)),
        3 => ("Laravel", None),
        4 => ("Database", Some(Sidebar::Database)),
        5 => ("Docker", Some(Sidebar::Docker)),
        _ => ("Tests", None),
    }
}

/// An entry of the activity bar as it is drawn.
pub struct ActivityItem {
    pub name: String,
    pub tooltip: String,
    /// What a click selects; without, it does not respond.
    pub target: Option<Sidebar>,
    pub background: Option<u32>,
    /// The colour of its icon.
    pub color: u32,
    pub dimmed: bool,
}

/// An entry of the activity bar as contracts see it.
pub struct ActivityView {
    pub name: Seq<char>,
    pub tooltip: Seq<char>,
    pub target: Option<Sidebar>,
    pub background: Option<u32>,
    pub color: u32,
    pub dimmed: bool,
}

impl vstd::view::DeepView for ActivityItem {
    type V = ActivityView;

    open spec fn deep_view(&self) -> ActivityView {
        ActivityView {
            name: self.name@,
            tooltip: self.tooltip@,
            target: self.target,
            background: self.background,
            color: self.color,
            dimmed: self.dimmed,
        }
    }
}

/// How an entry is drawn: the one whose sidebar is shown stands out, and one
/// that does not work yet is dimmed and says so.
pub open spec fn activity_item(panel: (Seq<char>, Option<Sidebar>), active: Sidebar, theme: Theme) -> ActivityView {
    let shown = panel.1 == Some(active);
    ActivityView {
        name: panel.0,
        tooltip: tooltip::activity_text(panel.0, panel.1 is Some),
        target: panel.1,
        background: if shown {
            Some(theme.selected)
        } else {
            None
        },
        color: if shown {
            theme.accent
        } else if panel.1 is Some {
            theme.text
        } else {
            theme.text_muted
        },
        dimmed: panel.1 is None,
    }
}

/// How an entry is drawn.
fn activity_item_of(name: &str, target: Option<Sidebar>, active: Sidebar, theme: &Theme) -> (item:
    ActivityItem)
    ensures
        item.deep_view() == activity_item((name@, target), active, *theme),
{
    let enabled = target.is_some();
    let shown = match target {
        Some(sidebar) => sidebar == active,
        None => false,
    };
    ActivityItem {
        name: owned(name),
        tooltip: activity_label(name, enabled),
        target,
        background: if shown {
            Some(theme.selected)
        } else {
            None
        },
        color: if shown {
            theme.accent
        } else if enabled {
            theme.text
        } else {
            theme.text_muted
        },
        dimmed: !enabled,
    }
}

// ---------------------------------------------------------------------------
// The sidebar
// ---------------------------------------------------------------------------

/// A button in the sidebar's header.
#[derive(Clone, Copy, PartialEq, Eq, Structural, Debug)]
pub enum HeaderButton {
    RevealActiveFile,
    ExpandAll,
    CollapseAll,
}

impl HeaderButton {
    /// What a button's tooltip says: a bare glyph says nothing.
    pub open spec fn text(self) -> Seq<char> {
        match self {
            HeaderButton::RevealActiveFile => "Reveal active file in tree"@,
            HeaderButton::ExpandAll => "Expand All"@,
            HeaderButton::CollapseAll => "Collapse All"@,
        }
    }

    /// What a button's tooltip says.
    pub fn label(self) -> (label: &'static str)
        ensures
            label@ == self.text(),
    {
        match self {
            HeaderButton::RevealActiveFile => "Reveal active file in tree",
            HeaderButton::ExpandAll => "Expand All",
            HeaderButton::CollapseAll => "Collapse All",
        }
    }
}

/// The buttons over the tree.
pub fn render_explorer_header_buttons() -> (buttons: Vec<HeaderButton>)
    ensures
        buttons@ == seq![
            HeaderButton::RevealActiveFile,
            HeaderButton::ExpandAll,
            HeaderButton::CollapseAll,
        ],
{
    let buttons = vec![
        HeaderButton::RevealActiveFile,
        HeaderButton::ExpandAll,
        HeaderButton::CollapseAll,
    ];
    assert(buttons@ =~= seq![
        HeaderButton::RevealActiveFile,
        HeaderButton::ExpandAll,
        HeaderButton::CollapseAll,
    ]);
    buttons
}

/// The buttons over the schema: the tree's own, so that the two panels read as
/// one system.
pub fn render_db_header_buttons() -> (buttons: Vec<HeaderButton>)
    ensures
        buttons@ == seq![HeaderButton::ExpandAll, HeaderButton::CollapseAll],
{
    let buttons = vec![HeaderButton::ExpandAll, HeaderButton::CollapseAll];
    assert(buttons@ =~= seq![HeaderButton::ExpandAll, HeaderButton::CollapseAll]);
    buttons
}

/// What is below the sidebar's header.
#[derive(Clone, Copy, PartialEq, Eq, Structural, Debug)]
pub enum SidebarBody {
    SourceControl,
    SearchPanel,
    Blank,
    Schema,
    Services,
    /// The tree's rows. Its empty space is the root: a menu opens on it, and
    /// what is dropped there moves to the root.
    Tree,
    /// A tree without rows: the root's menu opens on it too.
    EmptyTree,
    /// Nothing to list before a folder is open.
    OpenFolderHint,
}

impl SidebarBody {
    /// What a body without a list says instead.
    pub open spec fn text(self) -> Option<Seq<char>> {
        match self {
            SidebarBody::EmptyTree => Some("Empty folder — right-click to create a file"@),
            SidebarBody::OpenFolderHint => Some("Press ⌘O to open a folder"@),
            _ => None,
        }
    }

    /// What a body without a list says instead.
    pub fn hint(self) -> (hint: Option<&'static str>)
        ensures
            match hint {
                Some(hint) => self.text() == Some(hint@),
                None => self.text() is None,
            },
    {
        match self {
            SidebarBody::EmptyTree => Some("Empty folder — right-click to create a file"),
            SidebarBody::OpenFolderHint => Some("Press ⌘O to open a folder"),
            _ => None,
        }
    }
}

/// What the sidebar's header says; `upper` is the root's name in upper case.
pub open spec fn sidebar_title(sidebar: Sidebar, upper: Option<Seq<char>>) -> Seq<char> {
    match sidebar {
        Sidebar::Explorer => match upper {
            Some(name) => name,
            None => "NO FOLDER OPEN"@,
        },
        Sidebar::Git => "SOURCE CONTROL"@,
        Sidebar::Search => "SEARCH"@,
        Sidebar::Database => "DATABASE"@,
        Sidebar::Docker => "DOCKER"@,
    }
}

/// What the sidebar's header says; `upper` is the root's name in upper case,
/// where a folder is open.
pub fn sidebar_header(sidebar: Sidebar, upper: Option<String>) -> (header: String)
    ensures
        header@ == sidebar_title(sidebar, upper.deep_view()),
{
    match sidebar {
        Sidebar::Explorer => match upper {
            Some(name) => name,
            None => owned("NO FOLDER OPEN"),
        },
        Sidebar::Git => owned("SOURCE CONTROL"),
        Sidebar::Search => owned("SEARCH"),
        Sidebar::Database => owned("DATABASE"),
        Sidebar::Docker => owned("DOCKER"),
    }
}

/// The sidebar as it is drawn.
pub struct SidebarChrome {
    pub header: String,
    pub buttons: Vec<HeaderButton>,
    pub body: SidebarBody,
}

// ---------------------------------------------------------------------------
// The tabs
// ---------------------------------------------------------------------------

/// A tab as it is drawn.
pub struct TabCell {
    pub title: String,
    pub active: bool,
    pub background: Option<u32>,
    /// The line below the active tab.
    pub underline: Option<u32>,
    /// The colour of its text and of a plain icon.
    pub color: u32,
    /// What stands on the button that closes it: the cross, or a dot for
    /// changes that are not saved.
    pub mark: String,
    pub mark_color: u32,
}

/// A tab as contracts see it.
pub struct TabCellView {
    pub title: Seq<char>,
    pub active: bool,
    pub background: Option<u32>,
    pub underline: Option<u32>,
    pub color: u32,
    pub mark: Seq<char>,
    pub mark_color: u32,
}

impl vstd::view::DeepView for TabCell {
    type V = TabCellView;

    open spec fn deep_view(&self) -> TabCellView {
        TabCellView {
            title: self.title@,
            active: self.active,
            background: self.background,
            underline: self.underline,
            color: self.color,
            mark: self.mark@,
            mark_color: self.mark_color,
        }
    }
}

/// How a tab is drawn.
pub open spec fn tab_cell(title: Seq<char>, dirty: bool, active: bool, theme: Theme) -> TabCellView {
    TabCellView {
        title,
        active,
        background: if active {
            Some(theme.background)
        } else {
            None
        },
        underline: if active {
            Some(theme.accent)
        } else {
            None
        },
        color: if active {
            theme.text
        } else {
            theme.text_muted
        },
        mark: if dirty {
            "•"@
        } else {
            "✕"@
        },
        mark_color: if dirty {
            theme.accent
        } else {
            theme.text_muted
        },
    }
}

/// How a tab is drawn.
fn tab_cell_of(title: String, dirty: bool, active: bool, theme: &Theme) -> (cell: TabCell)
    ensures
        cell.deep_view() == tab_cell(title@, dirty, active, *theme),
{
    TabCell {
        title,
        active,
        background: if active {
            Some(theme.background)
        } else {
            None
        },
        underline: if active {
            Some(theme.accent)
        } else {
            None
        },
        color: if active {
            theme.text
        } else {
            theme.text_muted
        },
        mark: owned(
            if dirty {
                "•"
            } else {
                "✕"
            },
        ),
        mark_color: if dirty {
            theme.accent
        } else {
            theme.text_muted
        },
    }
}

// ---------------------------------------------------------------------------
// The editor area and the status bar
// ---------------------------------------------------------------------------

/// What the middle of the window shows.
#[derive(Clone, Copy, PartialEq, Eq, Structural, Debug)]
pub enum EditorArea {
    Diff,
    Table,
    Editor(u64),
    /// Nothing is open: the chords that open something.
    Hint,
}

/// What the editor area says where nothing is open.
pub fn editor_hint() -> (hint: &'static str)
    ensures
        hint@ == "⌘O open folder   ⌘P quick open   ⌘⇧P commands"@,
{
    "⌘O open folder   ⌘P quick open   ⌘⇧P commands"
}

/// The status bar as it is drawn, from left to right.
pub struct StatusBar {
    pub message: String,
    pub message_color: u32,
    /// The updater's cell, where there is something to offer.
    pub update: Option<String>,
    pub diagnostics: String,
    pub tests: String,
    pub terminals: String,
    pub position: String,
    /// The language's cell, where a buffer is open.
    pub language: Option<String>,
}

/// The status bar as contracts see it.
pub struct StatusView {
    pub message: Seq<char>,
    pub message_color: u32,
    pub update: Option<Seq<char>>,
    pub diagnostics: Seq<char>,
    pub tests: Seq<char>,
    pub terminals: Seq<char>,
    pub position: Seq<char>,
    pub language: Option<Seq<char>>,
}

impl View for StatusBar {
    type V = StatusView;

    open spec fn view(&self) -> StatusView {
        StatusView {
            message: self.message@,
            message_color: self.message_color,
            update: self.update.deep_view(),
            diagnostics: self.diagnostics@,
            tests: self.tests@,
            terminals: self.terminals@,
            position: self.position@,
            language: self.language.deep_view(),
        }
    }
}

/// How many shells run, where the terminal is open.
pub open spec fn terminals_text(open: bool, sessions: nat) -> Seq<char> {
    if !open {
        Seq::empty()
    } else if sessions == 1 {
        "1 terminal"@
    } else {
        text::decimal(sessions) + " terminals"@
    }
}

/// How many shells run, where the terminal is open.
fn terminals_label(open: bool, sessions: usize) -> (label: String)
    ensures
        label@ == terminals_text(open, sessions as nat),
{
    if !open {
        return String::new();
    }
    if sessions == 1 {
        return owned("1 terminal");
    }
    join2(decimal_text(sessions as u64).as_str(), " terminals")
}

/// Where the cursor is, counted from one.
pub open spec fn position_text(row: nat, column: nat) -> Seq<char> {
    "Ln "@ + text::decimal(row + 1) + ", Col "@ + text::decimal(column + 1)
}

/// Where the cursor is, counted from one.
fn position_label(row: usize, column: usize) -> (label: String)
    requires
        row < usize::MAX,
        column < usize::MAX,
    ensures
        label@ == position_text(row as nat, column as nat),
{
    let line = decimal_text(row as u64 + 1);
    let place = decimal_text(column as u64 + 1);
    let front = join3("Ln ", line.as_str(), ", Col ");
    join2(front.as_str(), place.as_str())
}

// ---------------------------------------------------------------------------
// The window
// ---------------------------------------------------------------------------

/// A panel below the editor area.
#[derive(Clone, Copy, PartialEq, Eq, Structural, Debug)]
pub enum Below {
    Terminal,
    Tests,
    Logs,
}

/// Something over the window. What is drawn last is on top.
#[derive(Clone, Copy, PartialEq, Eq, Structural, Debug)]
pub enum Layer {
    Palette,
    Completion,
    /// The message of the diagnostic under the mouse.
    Hover,
    Settings,
    Overlay,
}

/// The window as it is drawn.
pub struct Frame {
    pub title: String,
    pub find_bar: bool,
    pub below: Vec<Below>,
    pub layers: Vec<Layer>,
}

/// One thing, where it is there.
pub open spec fn shown<T>(held: bool, item: T) -> Seq<T> {
    if held {
        seq![item]
    } else {
        Seq::empty()
    }
}

impl WorkspaceModel {
    /// What an editor is called in the title, marked while it has changes that
    /// are not saved.
    pub open spec fn title_of(self, editor: u64, facts: Facts) -> Seq<char> {
        match facts.buffer_of(editor) {
            Some(buffer) => if buffer.dirty {
                "• "@ + buffer.title@
            } else {
                buffer.title@
            },
            None => Seq::empty(),
        }
    }

    /// The window's title.
    pub open spec fn title(self, facts: Facts) -> Seq<char> {
        match (self.strip.active_editor(), self.tree) {
            (Some(editor), Some(tree)) => self.title_of(editor, facts) + " — "@ + tree.name,
            (Some(editor), None) => self.title_of(editor, facts),
            (None, Some(tree)) => tree.name,
            (None, None) => "ellefuanti"@,
        }
    }

    /// The buttons of the sidebar's header.
    pub open spec fn header_buttons(self) -> Seq<HeaderButton> {
        if self.sidebar is Explorer && self.tree is Some {
            seq![
                HeaderButton::RevealActiveFile,
                HeaderButton::ExpandAll,
                HeaderButton::CollapseAll,
            ]
        } else if self.sidebar is Database && self.database.has_tables() {
            seq![HeaderButton::ExpandAll, HeaderButton::CollapseAll]
        } else {
            Seq::empty()
        }
    }

    /// A button of the sidebar's header was clicked. Over the schema it opens
    /// and closes tables, and else directories.
    pub open spec fn header_button_clicked(self, button: HeaderButton) -> workspace_view::Step {
        match button {
            HeaderButton::RevealActiveFile => self.reveal_active_file(),
            HeaderButton::ExpandAll => if self.sidebar is Database {
                WorkspaceModel { database: self.database.all_expanded(), ..self }.stays()
            } else {
                self.tree_does(TreeOperation::ExpandAll)
            },
            HeaderButton::CollapseAll => if self.sidebar is Database {
                WorkspaceModel { database: self.database.all_collapsed(), ..self }.stays()
            } else {
                self.tree_does(TreeOperation::CollapseAll)
            },
        }
    }

    /// What is below the sidebar's header.
    pub open spec fn sidebar_body(self) -> SidebarBody {
        match self.sidebar {
            Sidebar::Git => SidebarBody::SourceControl,
            Sidebar::Search => if self.tree is None {
                SidebarBody::OpenFolderHint
            } else if self.search_panel is Some {
                SidebarBody::SearchPanel
            } else {
                SidebarBody::Blank
            },
            Sidebar::Database => SidebarBody::Schema,
            Sidebar::Docker => SidebarBody::Services,
            Sidebar::Explorer => match self.tree {
                Some(tree) => if tree.entries.len() > 0 {
                    SidebarBody::Tree
                } else {
                    SidebarBody::EmptyTree
                },
                None => SidebarBody::OpenFolderHint,
            },
        }
    }

    /// The tab at an index as it is drawn.
    pub open spec fn tab_shown(self, index: int, facts: Facts, theme: Theme) -> TabCellView {
        let active = index == self.strip.active;
        match facts.buffer_of(self.strip.tabs[index].editor) {
            Some(buffer) => tab_cell(buffer.title@, buffer.dirty, active, theme),
            None => tab_cell(Seq::empty(), false, active, theme),
        }
    }

    /// What the middle of the window shows: the diff while source control is
    /// looked at, the rows while the database is, and else the editor.
    pub open spec fn editor_area(self, diff: bool) -> EditorArea {
        if self.sidebar is Git && self.git_diff is Some && diff {
            EditorArea::Diff
        } else if self.sidebar is Database && self.database.table is Some {
            EditorArea::Table
        } else {
            match self.strip.active_editor() {
                Some(editor) => EditorArea::Editor(editor),
                None => EditorArea::Hint,
            }
        }
    }

    /// Whether the file in front of the user is one for the language server.
    pub open spec fn active_tab_wants_a_server(self, facts: Facts) -> bool {
        match self.strip.active_path() {
            Some(path) => facts.kinds.serves(path),
            None => false,
        }
    }

    /// The status bar. A message comes before the diagnostic at the cursor.
    pub open spec fn status_bar(
        self,
        facts: Facts,
        sessions: nat,
        diagnostic: Option<Seq<char>>,
        theme: Theme,
    ) -> StatusView {
        let buffer = self.active_buffer(facts);
        StatusView {
            message: match (self.status, diagnostic) {
                (Some(status), _) => status,
                (None, Some(message)) => message,
                (None, None) => Seq::empty(),
            },
            message_color: if self.status is Some {
                theme.accent
            } else {
                theme.text_muted
            },
            update: self.update_state.label(),
            diagnostics: lsp::label(
                self.lsp.state,
                self.lsp.errors as nat,
                self.lsp.warnings as nat,
                self.active_tab_wants_a_server(facts),
            ),
            tests: match (self.tests_open, self.tests) {
                (Some(_), Some(tests)) => test_view::summary_text(
                    tests.state,
                    tests.report.summary,
                ),
                _ => Seq::empty(),
            },
            terminals: terminals_text(self.terminal is Some, sessions),
            position: match buffer {
                Some(buffer) => position_text(
                    buffer.point.row as nat,
                    buffer.point.column as nat,
                ),
                None => Seq::empty(),
            },
            language: match buffer {
                Some(buffer) => if buffer.language@.len() > 0 {
                    Some(buffer.language@)
                } else {
                    None
                },
                None => None,
            },
        }
    }

    /// The panels below the editor area, from the top.
    pub open spec fn panels_below(self) -> Seq<Below> {
        shown(self.terminal is Some, Below::Terminal) + shown(
            self.tests_open is Some,
            Below::Tests,
        ) + shown(self.logs is Some, Below::Logs)
    }

    /// What is over the window, from the bottom.
    pub open spec fn layers(self, hover: bool) -> Seq<Layer> {
        shown(self.palette is Some, Layer::Palette) + shown(
            self.completion is Some,
            Layer::Completion,
        ) + shown(hover && self.strip.active_editor() is Some, Layer::Hover) + shown(
            self.settings_panel is Some,
            Layer::Settings,
        ) + shown(self.overlay is Some, Layer::Overlay)
    }

    /// The window is drawn. What has to be running for a window is started
    /// with its first frame, and an open find bar searches again.
    pub open spec fn render(self) -> workspace_view::Step {
        let drawn = WorkspaceModel {
            window_activation: Some(workspace_view::Handle {}),
            update_check: Some(workspace_view::Handle {}),
            ..self
        };
        drawn.asks(
            shown(self.window_activation is None, Effect::ObserveActivation) + shown(
                self.update_check is None,
                Effect::CheckForUpdates,
            ) + self.apply_search(),
        )
    }

    /// Something outside a panel over the window was clicked: the panel goes.
    /// The popup and the hover card have nothing behind them to click.
    pub open spec fn backdrop_clicked(self, layer: Layer) -> workspace_view::Step {
        match layer {
            Layer::Palette => self.dismiss_palette(),
            Layer::Settings => self.dismiss_settings(),
            Layer::Overlay => self.dismiss_overlay(),
            _ => self.stays(),
        }
    }
}

impl WorkspaceView {
    /// The window's title: the file, marked while it has changes that are not
    /// saved, and the folder.
    pub fn title(&self, facts: &Facts) -> (title: String)
        ensures
            title@ == self@.title(*facts),
    {
        let file = match self.strip.active_editor() {
            Some(editor) => match facts.buffer(editor) {
                Some(buffer) => if buffer.dirty {
                    Some(join2("• ", buffer.title.as_str()))
                } else {
                    Some(buffer.title.clone())
                },
                None => {
                    let blank = String::new();
                    assert(blank@ =~= Seq::<char>::empty());
                    Some(blank)
                },
            },
            None => None,
        };
        match (file, &self.tree) {
            (Some(file), Some(tree)) => join3(file.as_str(), " — ", tree.name.as_str()),
            (Some(file), None) => file,
            (None, Some(tree)) => tree.name.clone(),
            (None, None) => owned("ellefuanti"),
        }
    }

    /// The activity bar.
    pub fn render_activity_bar(&self, theme: &Theme) -> (items: Vec<ActivityItem>)
        ensures
            items.deep_view() == Seq::new(
                panels().len(),
                |i: int| activity_item(panels()[i], self@.sidebar, *theme),
            ),
    {
        let mut items: Vec<ActivityItem> = Vec::new();
        let ghost whole = Seq::new(
            panels().len(),
            |i: int| activity_item(panels()[i], self@.sidebar, *theme),
        );
        let mut i: usize = 0;
        assert(items.deep_view() =~= whole.take(0));
        while i < ACTIVITY_PANELS
            invariant
                i <= ACTIVITY_PANELS,
                whole == Seq::new(
                    panels().len(),
                    |i: int| activity_item(panels()[i], self@.sidebar, *theme),
                ),
                items.deep_view() == whole.take(i as int),
            decreases ACTIVITY_PANELS - i,
        {
            let ghost before = items.deep_view();
            let (name, target) = activity_panel(i);
            let item = activity_item_of(name, target, self.sidebar, theme);
            items.push(item);
            assert(items.deep_view() =~= before.push(item.deep_view()));
            assert(items.deep_view() =~= whole.take(i + 1));
            i += 1;
        }
        assert(whole.take(i as int) =~= whole);
        items
    }

    /// The sidebar: its header, the header's buttons, and what is below.
    pub fn render_sidebar(&self) -> (sidebar: SidebarChrome)
        ensures
            sidebar.header@ == sidebar_title(
                self@.sidebar,
                match self@.tree {
                    Some(tree) => Some(text::uppercase(tree.name)),
                    None => None,
                },
            ),
            sidebar.buttons@ == self@.header_buttons(),
            sidebar.body == self@.sidebar_body(),
    {
        let upper = match &self.tree {
            Some(tree) => Some(to_uppercase(tree.name.as_str())),
            None => None,
        };
        let header = sidebar_header(self.sidebar, upper);
        let buttons = if self.sidebar == Sidebar::Explorer && self.tree.is_some() {
            render_explorer_header_buttons()
        } else if self.sidebar == Sidebar::Database && self.database.has_header_buttons() {
            render_db_header_buttons()
        } else {
            Vec::new()
        };
        assert(buttons@ =~= self@.header_buttons());
        let body = match self.sidebar {
            Sidebar::Git => SidebarBody::SourceControl,
            Sidebar::Search => if self.tree.is_none() {
                SidebarBody::OpenFolderHint
            } else if self.search_panel.is_some() {
                SidebarBody::SearchPanel
            } else {
                SidebarBody::Blank
            },
            Sidebar::Database => SidebarBody::Schema,
            Sidebar::Docker => SidebarBody::Services,
            Sidebar::Explorer => match &self.tree {
                Some(tree) => if tree.entries.len() > 0 {
                    SidebarBody::Tree
                } else {
                    SidebarBody::EmptyTree
                },
                None => SidebarBody::OpenFolderHint,
            },
        };
        SidebarChrome { header, buttons, body }
    }

    /// A button of the sidebar's header was clicked.
    pub fn header_button_clicked(&mut self, button: HeaderButton) -> (effects: Vec<Effect<String>>)
        ensures
            final(self)@ == old(self)@.header_button_clicked(button).state,
            effects::told(effects) == old(self)@.header_button_clicked(button).effects,
    {
        match button {
            HeaderButton::RevealActiveFile => {
                return self.reveal_active_file();
            },
            HeaderButton::ExpandAll => {
                if self.sidebar == Sidebar::Database {
                    self.expand_all_db();
                    return nothing();
                }
                return self.expand_all_tree();
            },
            HeaderButton::CollapseAll => {
                if self.sidebar == Sidebar::Database {
                    self.collapse_all_db();
                    return nothing();
                }
                return self.collapse_all_tree();
            },
        }
    }

    /// The tabs.
    pub fn render_tab_bar(&self, facts: &Facts, theme: &Theme) -> (cells: Vec<TabCell>)
        ensures
            cells.deep_view() == Seq::new(
                self@.strip.tabs.len(),
                |i: int| self@.tab_shown(i, *facts, *theme),
            ),
    {
        let mut cells: Vec<TabCell> = Vec::new();
        let ghost whole = Seq::new(
            self@.strip.tabs.len(),
            |i: int| self@.tab_shown(i, *facts, *theme),
        );
        let mut i: usize = 0;
        assert(cells.deep_view() =~= whole.take(0));
        while i < self.strip.tabs.len()
            invariant
                i <= self.strip.tabs.len(),
                whole == Seq::new(
                    self@.strip.tabs.len(),
                    |i: int| self@.tab_shown(i, *facts, *theme),
                ),
                cells.deep_view() == whole.take(i as int),
            decreases self.strip.tabs.len() - i,
        {
            let ghost before = cells.deep_view();
            let tab = &self.strip.tabs[i];
            assert(self@.strip.tabs[i as int] == tab.deep_view());
            let active = i == self.strip.active;
            let cell = match facts.buffer(tab.editor) {
                Some(buffer) => tab_cell_of(buffer.title.clone(), buffer.dirty, active, theme),
                None => {
                    let blank = String::new();
                    assert(blank@ =~= Seq::<char>::empty());
                    tab_cell_of(blank, false, active, theme)
                },
            };
            cells.push(cell);
            assert(cells.deep_view() =~= before.push(cell.deep_view()));
            assert(cells.deep_view() =~= whole.take(i + 1));
            i += 1;
        }
        assert(whole.take(i as int) =~= whole);
        cells
    }

    /// What the middle of the window shows. `diff` says whether the selected
    /// file's diff was read.
    pub fn render_editor_area(&self, diff: bool) -> (area: EditorArea)
        ensures
            area == self@.editor_area(diff),
    {
        if self.sidebar == Sidebar::Git && self.git_diff.is_some() && diff {
            return EditorArea::Diff;
        }
        if self.sidebar == Sidebar::Database && self.database.table.is_some() {
            return EditorArea::Table;
        }
        match self.strip.active_editor() {
            Some(editor) => EditorArea::Editor(editor),
            None => EditorArea::Hint,
        }
    }

    /// Whether the file in front of the user is one for the language server.
    pub fn active_tab_wants_a_server(&self, facts: &Facts) -> (held: bool)
        ensures
            held == self@.active_tab_wants_a_server(*facts),
    {
        match self.strip.active_path() {
            Some(path) => facts.kinds.handles(path.as_str()),
            None => false,
        }
    }

    /// The status bar. `sessions` is how many shells run, `diagnostic` the
    /// message at the cursor.
    pub fn render_status_bar(
        &self,
        facts: &Facts,
        sessions: usize,
        diagnostic: Option<&str>,
        theme: &Theme,
    ) -> (bar: StatusBar)
        requires
            self@.active_buffer(*facts) matches Some(buffer) ==> buffer.point.row < usize::MAX
                && buffer.point.column < usize::MAX,
        ensures
            bar@ == self@.status_bar(
                *facts,
                sessions as nat,
                match diagnostic {
                    Some(message) => Some(message@),
                    None => None,
                },
                *theme,
            ),
    {
        let mut position = String::new();
        let mut language: Option<String> = None;
        assert(position@ =~= Seq::<char>::empty());
        if let Some(editor) = self.strip.active_editor() {
            if let Some(buffer) = facts.buffer(editor) {
                position = position_label(buffer.point.row, buffer.point.column);
                if buffer.language.as_str().unicode_len() > 0 {
                    language = Some(buffer.language.clone());
                }
            }
        }
        let tests = if self.tests_open.is_some() {
            match &self.tests {
                Some(tests) => tests.summary(),
                None => String::new(),
            }
        } else {
            String::new()
        };
        let message = match &self.status {
            Some(status) => status.clone(),
            None => match diagnostic {
                Some(message) => owned(message),
                None => String::new(),
            },
        };
        let bar = StatusBar {
            message,
            message_color: if self.status.is_some() {
                theme.accent
            } else {
                theme.text_muted
            },
            update: self.update_state.status_label(),
            diagnostics: lsp_label(&self.lsp, self.active_tab_wants_a_server(facts)),
            tests,
            terminals: terminals_label(self.terminal.is_some(), sessions),
            position,
            language,
        };
        bar
    }

    /// The window is drawn. `hover` says whether the mouse rests on a
    /// diagnostic.
    pub fn render(&mut self, facts: &Facts, hover: bool) -> (drawn: (Frame, Vec<Effect<String>>))
        ensures
            final(self)@ == old(self)@.render().state,
            effects::told(drawn.1) == old(self)@.render().effects,
            drawn.0.title@ == old(self)@.title(*facts),
            drawn.0.find_bar == (old(self)@.find is Some),
            drawn.0.below@ == old(self)@.panels_below(),
            drawn.0.layers@ == old(self)@.layers(hover),
    {
        let observed = self.observe_window_focus();
        let checked = self.start_update_check();
        let searched = self.apply_search();
        let effects = both(both(observed, checked), searched);
        let title = self.title(facts);
        let mut below: Vec<Below> = Vec::new();
        if self.terminal.is_some() {
            below.push(Below::Terminal);
        }
        if self.tests_open.is_some() {
            below.push(Below::Tests);
        }
        if self.logs.is_some() {
            below.push(Below::Logs);
        }
        assert(below@ =~= old(self)@.panels_below());
        let layers = self.layers_over(hover);
        (Frame { title, find_bar: self.find.is_some(), below, layers }, effects)
    }

    /// What is over the window.
    fn layers_over(&self, hover: bool) -> (layers: Vec<Layer>)
        ensures
            layers@ == self@.layers(hover),
    {
        let mut layers: Vec<Layer> = Vec::new();
        if self.palette.is_some() {
            layers.push(Layer::Palette);
        }
        if self.completion.is_some() {
            layers.push(Layer::Completion);
        }
        if hover && self.strip.active_editor().is_some() {
            layers.push(Layer::Hover);
        }
        if self.settings_panel.is_some() {
            layers.push(Layer::Settings);
        }
        if self.overlay.is_some() {
            layers.push(Layer::Overlay);
        }
        assert(layers@ =~= self@.layers(hover));
        layers
    }

    /// Something outside a panel over the window was clicked.
    pub fn backdrop_clicked(&mut self, layer: Layer) -> (effects: Vec<Effect<String>>)
        ensures
            final(self)@ == old(self)@.backdrop_clicked(layer).state,
            effects::told(effects) == old(self)@.backdrop_clicked(layer).effects,
    {
        match layer {
            Layer::Palette => {
                return self.dismiss_palette();
            },
            Layer::Settings => {
                return self.dismiss_settings();
            },
            Layer::Overlay => {
                return self.dismiss_overlay();
            },
            _ => {
                return nothing();
            },
        }
    }
}

// ---------------------------------------------------------------------------
// Laws
// ---------------------------------------------------------------------------

/// Every sidebar can be selected from the activity bar, and no two entries
/// select the same one.
pub proof fn law_every_sidebar_has_one_entry(sidebar: Sidebar)
    ensures
        exists|i: int| 0 <= i < panels().len() && (#[trigger] panels()[i]).1 == Some(sidebar),
        forall|i: int, j: int|
            0 <= i < j < panels().len() && (#[trigger] panels()[i]).1 is Some ==> panels()[i].1 != (
            #[trigger] panels()[j]).1,
        panels().len() == ACTIVITY_PANELS,
{
    match sidebar {
        Sidebar::Explorer => {
            assert(panels()[0].1 == Some(sidebar));
        },
        Sidebar::Search => {
            assert(panels()[1].1 == Some(sidebar));
        },
        Sidebar::Git => {
            assert(panels()[2].1 == Some(sidebar));
        },
        Sidebar::Database => {
            assert(panels()[4].1 == Some(sidebar));
        },
        Sidebar::Docker => {
            assert(panels()[5].1 == Some(sidebar));
        },
    }
}

/// Exactly one entry of the activity bar stands out, whichever sidebar is
/// shown.
pub proof fn law_one_entry_stands_out(sidebar: Sidebar, theme: Theme, i: int, j: int)
    requires
        0 <= i < panels().len(),
        0 <= j < panels().len(),
        activity_item(panels()[i], sidebar, theme).background is Some,
        activity_item(panels()[j], sidebar, theme).background is Some,
    ensures
        i == j,
{
    law_every_sidebar_has_one_entry(sidebar);
    if i < j {
        assert(panels()[i].1 is Some);
    } else if j < i {
        assert(panels()[j].1 is Some);
    }
}

/// What has to run for a window is started by its first frame and by no other.
pub proof fn law_started_with_the_first_frame_alone(model: WorkspaceModel)
    ensures
        model.render().state.render().effects == model.apply_search(),
{
    assert(model.render().state.apply_search() == model.apply_search());
    assert(model.render().state.render().effects =~= model.apply_search());
}

/// Drawing the window changes nothing that can be seen in it.
pub proof fn law_drawing_is_still(model: WorkspaceModel, facts: Facts, hover: bool, diff: bool)
    ensures
        model.render().state.title(facts) == model.title(facts),
        model.render().state.sidebar_body() == model.sidebar_body(),
        model.render().state.editor_area(diff) == model.editor_area(diff),
        model.render().state.panels_below() == model.panels_below(),
        model.render().state.layers(hover) == model.layers(hover),
{
}

/// The window's title names the file in front of the user, marked while it has
/// changes, and the project it belongs to.
pub proof fn law_title_names_file_and_project(model: WorkspaceModel, facts: Facts)
    ensures
        model.strip.tabs.len() == 0 && model.tree is None ==> model.title(facts) == "ellefuanti"@,
        model.strip.tabs.len() == 0 && model.tree is Some ==> model.title(facts)
            == model.tree->0.name,
        0 <= model.strip.active < model.strip.tabs.len() ==> {
            let editor = model.strip.tabs[model.strip.active].editor;
            facts.buffer_of(editor) matches Some(buffer) ==> {
                let name = if buffer.dirty {
                    "• "@ + buffer.title@
                } else {
                    buffer.title@
                };
                &&& model.tree is Some ==> model.title(facts) == name + " — "@ + model.tree->0.name
                &&& model.tree is None ==> model.title(facts) == name
            }
        },
{
}

/// The buttons over the tree are there with a tree and over the schema with
/// tables, and nowhere else.
pub proof fn law_header_buttons_fit_the_panel(model: WorkspaceModel)
    ensures
        model.sidebar is Explorer && model.tree is Some ==> model.header_buttons() == seq![
            HeaderButton::RevealActiveFile,
            HeaderButton::ExpandAll,
            HeaderButton::CollapseAll,
        ],
        model.sidebar is Explorer && model.tree is None ==> model.header_buttons().len() == 0,
        model.sidebar is Database && (model.database.schema matches Some(Ok(tables)) && tables.len()
            > 0) ==> model.header_buttons() == seq![
            HeaderButton::ExpandAll,
            HeaderButton::CollapseAll,
        ],
        model.sidebar is Database && !(model.database.schema matches Some(Ok(tables))
            && tables.len() > 0) ==> model.header_buttons().len() == 0,
        model.sidebar is Git || model.sidebar is Search || model.sidebar is Docker
            ==> model.header_buttons().len() == 0,
{
}

/// A button over a panel acts on that panel: the schema's on the schema, the
/// others on the tree.
pub proof fn law_header_buttons_act_on_their_panel(model: WorkspaceModel)
    ensures
        model.sidebar is Database ==> {
            &&& model.header_button_clicked(HeaderButton::ExpandAll).state.database
                == model.database.all_expanded()
            &&& model.header_button_clicked(HeaderButton::CollapseAll).state.database
                == model.database.all_collapsed()
            &&& model.header_button_clicked(HeaderButton::ExpandAll).effects.len() == 0
            &&& model.header_button_clicked(HeaderButton::CollapseAll).effects.len() == 0
        },
        !(model.sidebar is Database) && model.tree is Some ==> {
            &&& model.header_button_clicked(HeaderButton::ExpandAll).effects == seq![
                Effect::<Seq<char>>::Tree(TreeOperation::ExpandAll),
            ]
            &&& model.header_button_clicked(HeaderButton::CollapseAll).effects == seq![
                Effect::<Seq<char>>::Tree(TreeOperation::CollapseAll),
            ]
        },
        model.header_button_clicked(HeaderButton::RevealActiveFile) == model.reveal_active_file(),
{
}

/// The sidebar's title is the chosen panel's, the project's name over the tree.
pub proof fn law_sidebar_is_titled(name: Seq<char>)
    ensures
        sidebar_title(Sidebar::Explorer, Some(name)) == name,
        sidebar_title(Sidebar::Explorer, None) == "NO FOLDER OPEN"@,
        sidebar_title(Sidebar::Git, Some(name)) == "SOURCE CONTROL"@,
        sidebar_title(Sidebar::Search, Some(name)) == "SEARCH"@,
        sidebar_title(Sidebar::Database, Some(name)) == "DATABASE"@,
        sidebar_title(Sidebar::Docker, Some(name)) == "DOCKER"@,
{
}

/// The sidebar shows the panel that was chosen; the tree and the search ask for
/// a folder where none is open.
pub proof fn law_sidebar_shows_its_panel(model: WorkspaceModel)
    ensures
        model.sidebar is Git ==> model.sidebar_body() is SourceControl,
        model.sidebar is Database ==> model.sidebar_body() is Schema,
        model.sidebar is Docker ==> model.sidebar_body() is Services,
        model.sidebar is Search && model.tree is None ==> model.sidebar_body() is OpenFolderHint,
        model.sidebar is Search && model.tree is Some && model.search_panel is Some
            ==> model.sidebar_body() is SearchPanel,
        model.sidebar is Search && model.tree is Some && model.search_panel is None
            ==> model.sidebar_body() is Blank,
        model.sidebar is Explorer && model.tree is None ==> model.sidebar_body() is OpenFolderHint,
        model.sidebar is Explorer && model.tree is Some ==> (model.sidebar_body() is Tree) == (
        model.tree->0.entries.len() > 0),
        model.sidebar is Explorer && model.tree is Some ==> (model.sidebar_body() is EmptyTree) == (
        model.tree->0.entries.len() == 0),
{
}

/// A tab shows its buffer's title; a changed one is marked by a dot in place of
/// the cross, and the one in front stands out.
pub proof fn law_tab_shows_its_buffer(model: WorkspaceModel, index: int, facts: Facts, theme: Theme)
    requires
        0 <= index < model.strip.tabs.len(),
        facts.buffer_of(model.strip.tabs[index].editor) is Some,
    ensures
        ({
            let buffer = facts.buffer_of(model.strip.tabs[index].editor)->0;
            let cell = model.tab_shown(index, facts, theme);
            &&& cell.title == buffer.title@
            &&& cell.active == (index == model.strip.active)
            &&& buffer.dirty ==> cell.mark == "•"@ && cell.mark_color == theme.accent
            &&& !buffer.dirty ==> cell.mark == "✕"@ && cell.mark_color == theme.text_muted
            &&& index == model.strip.active ==> cell.background == Some(theme.background)
                && cell.underline == Some(theme.accent) && cell.color == theme.text
            &&& index != model.strip.active ==> cell.background is None && cell.underline is None
                && cell.color == theme.text_muted
        }),
{
}

/// The middle of the window shows the difference while the repository's panel
/// has one, the rows while the database's has a table, and the editor in front
/// otherwise.
pub proof fn law_middle_shows_what_is_chosen(model: WorkspaceModel, diff: bool)
    ensures
        model.sidebar is Git && model.git_diff is Some && diff ==> model.editor_area(diff) is Diff,
        model.sidebar is Database && model.database.table is Some ==> model.editor_area(
            diff,
        ) is Table,
        !(model.sidebar is Git && model.git_diff is Some && diff) && !(model.sidebar is Database
            && model.database.table is Some) ==> {
            &&& 0 <= model.strip.active < model.strip.tabs.len() ==> model.editor_area(diff)
                == EditorArea::Editor(model.strip.tabs[model.strip.active].editor)
            &&& model.strip.tabs.len() == 0 ==> model.editor_area(diff) is Hint
        },
{
}

/// The status bar shows the message of the window before the one under the
/// cursor, the cursor's place counted from one, and the buffer's language.
pub proof fn law_status_bar_says_where(
    model: WorkspaceModel,
    facts: Facts,
    sessions: nat,
    diagnostic: Option<Seq<char>>,
    theme: Theme,
)
    ensures
        ({
            let bar = model.status_bar(facts, sessions, diagnostic, theme);
            &&& model.status is Some ==> bar.message == model.status->0 && bar.message_color
                == theme.accent
            &&& model.status is None && diagnostic is Some ==> bar.message == diagnostic->0
                && bar.message_color == theme.text_muted
            &&& model.status is None && diagnostic is None ==> bar.message.len() == 0
            &&& model.terminal is None ==> bar.terminals.len() == 0
            &&& model.terminal is Some && sessions == 1 ==> bar.terminals == "1 terminal"@
            &&& model.terminal is Some && sessions != 1 ==> bar.terminals == text::decimal(sessions)
                + " terminals"@
            &&& model.tests_open is None ==> bar.tests.len() == 0
            &&& model.tests_open is Some && model.tests is Some ==> bar.tests
                == test_view::summary_text(model.tests->0.state, model.tests->0.report.summary)
            &&& bar.update == model.update_state.label()
            &&& model.strip.tabs.len() == 0 ==> bar.position.len() == 0 && bar.language is None
            &&& 0 <= model.strip.active < model.strip.tabs.len() ==> {
                facts.buffer_of(model.strip.tabs[model.strip.active].editor) matches Some(buffer)
                    ==> {
                    &&& bar.position == "Ln "@ + text::decimal((buffer.point.row + 1) as nat)
                        + ", Col "@ + text::decimal((buffer.point.column + 1) as nat)
                    &&& buffer.language@.len() > 0 ==> bar.language == Some(buffer.language@)
                    &&& buffer.language@.len() == 0 ==> bar.language is None
                }
            }
        }),
{
}

/// A panel below the editor is shown exactly while it is open, the terminal over
/// the tests over the logs.
pub proof fn law_open_panels_are_shown(model: WorkspaceModel)
    ensures
        model.panels_below().contains(Below::Terminal) == (model.terminal is Some),
        model.panels_below().contains(Below::Tests) == (model.tests_open is Some),
        model.panels_below().contains(Below::Logs) == (model.logs is Some),
        model.terminal is Some && model.tests_open is Some && model.logs is Some
            ==> model.panels_below() == seq![Below::Terminal, Below::Tests, Below::Logs],
        model.terminal is None && model.tests_open is Some && model.logs is Some
            ==> model.panels_below() == seq![Below::Tests, Below::Logs],
        model.terminal is Some && model.tests_open is None && model.logs is Some
            ==> model.panels_below() == seq![Below::Terminal, Below::Logs],
        model.terminal is Some && model.tests_open is Some && model.logs is None
            ==> model.panels_below() == seq![Below::Terminal, Below::Tests],
{
    let below = model.panels_below();
    let a: int = if model.terminal is Some {
        1
    } else {
        0
    };
    let b: int = if model.tests_open is Some {
        a + 1
    } else {
        a
    };
    if model.terminal is Some {
        assert(below[0] == Below::Terminal);
    }
    if model.tests_open is Some {
        assert(below[a] == Below::Tests);
    }
    if model.logs is Some {
        assert(below[b] == Below::Logs);
    }
}

/// A layer is drawn over the window exactly while it is open, the overlay over
/// everything else.
pub proof fn law_open_layers_are_drawn(model: WorkspaceModel, hover: bool)
    ensures
        model.layers(hover).contains(Layer::Palette) == (model.palette is Some),
        model.layers(hover).contains(Layer::Completion) == (model.completion is Some),
        model.layers(hover).contains(Layer::Settings) == (model.settings_panel is Some),
        model.layers(hover).contains(Layer::Overlay) == (model.overlay is Some),
        model.strip.tabs.len() == 0 || !hover ==> !model.layers(hover).contains(Layer::Hover),
        hover && 0 <= model.strip.active < model.strip.tabs.len() ==> model.layers(
            hover,
        ).contains(Layer::Hover),
        model.overlay is Some ==> model.layers(hover).last() is Overlay,
        model.palette is Some ==> model.layers(hover)[0] is Palette,
{
    let layers = model.layers(hover);
    let a: int = if model.palette is Some {
        1
    } else {
        0
    };
    let b: int = if model.completion is Some {
        a + 1
    } else {
        a
    };
    let over = hover && model.strip.active_editor() is Some;
    let c: int = if over {
        b + 1
    } else {
        b
    };
    let d: int = if model.settings_panel is Some {
        c + 1
    } else {
        c
    };
    if model.palette is Some {
        assert(layers[0] == Layer::Palette);
    }
    if model.completion is Some {
        assert(layers[a] == Layer::Completion);
    }
    if over {
        assert(layers[b] == Layer::Hover);
    }
    if model.settings_panel is Some {
        assert(layers[c] == Layer::Settings);
    }
    if model.overlay is Some {
        assert(layers[d] == Layer::Overlay);
    }
}

/// The first frame starts watching the window and looking for an update; every
/// frame searches the document again.
pub proof fn law_first_frame_starts_the_watches(model: WorkspaceModel)
    ensures
        model.window_activation is None ==> model.render().effects.contains(
            Effect::ObserveActivation,
        ),
        model.window_activation is Some ==> forall|e: int|
            0 <= e < model.render().effects.len() ==> !((
            #[trigger] model.render().effects[e]) is ObserveActivation),
        model.update_check is None ==> model.render().effects.contains(Effect::CheckForUpdates),
        model.update_check is Some ==> forall|e: int|
            0 <= e < model.render().effects.len() ==> !((
            #[trigger] model.render().effects[e]) is CheckForUpdates),
        model.render().state.window_activation is Some,
        model.render().state.update_check is Some,
{
    let effects = model.render().effects;
    let a: int = if model.window_activation is None {
        1
    } else {
        0
    };
    if model.window_activation is None {
        assert(effects[0] == Effect::<Seq<char>>::ObserveActivation);
    }
    if model.update_check is None {
        assert(effects[a] == Effect::<Seq<char>>::CheckForUpdates);
    }
}

/// A click beside a layer closes that layer and no other.
pub proof fn law_click_beside_closes_the_layer(model: WorkspaceModel)
    ensures
        model.backdrop_clicked(Layer::Palette).state.palette is None,
        model.backdrop_clicked(Layer::Palette).state.overlay == model.overlay,
        model.backdrop_clicked(Layer::Palette).state.settings_panel == model.settings_panel,
        model.backdrop_clicked(Layer::Settings).state.settings_panel is None,
        model.backdrop_clicked(Layer::Settings).state.palette == model.palette,
        model.backdrop_clicked(Layer::Settings).state.overlay == model.overlay,
        model.backdrop_clicked(Layer::Overlay).state.overlay is None,
        model.backdrop_clicked(Layer::Overlay).state.palette == model.palette,
        model.backdrop_clicked(Layer::Overlay).state.settings_panel == model.settings_panel,
        model.backdrop_clicked(Layer::Completion) == model.stays(),
        model.backdrop_clicked(Layer::Hover) == model.stays(),
{
}

/// An entry of the activity bar is lit while its panel is shown, and dimmed
/// while it has none.
pub proof fn law_activity_entry_shows_its_state(
    name: Seq<char>,
    target: Option<Sidebar>,
    active: Sidebar,
    theme: Theme,
)
    ensures
        ({
            let item = activity_item((name, target), active, theme);
            &&& item.name == name
            &&& item.target == target
            &&& item.dimmed == (target is None)
            &&& target == Some(active) ==> item.background == Some(theme.selected) && item.color
                == theme.accent
            &&& target is Some && target != Some(active) ==> item.background is None && item.color
                == theme.text
            &&& target is None ==> item.background is None && item.color == theme.text_muted
        }),
{
}

/// Each entry of the activity bar is named after the panel that it shows.
pub proof fn law_entries_are_named_after_their_panel(i: int)
    requires
        0 <= i < panels().len(),
    ensures
        panels()[i].1 == Some(Sidebar::Explorer) ==> panels()[i].0 == "Explorer"@,
        panels()[i].1 == Some(Sidebar::Search) ==> panels()[i].0 == "Search"@,
        panels()[i].1 == Some(Sidebar::Git) ==> panels()[i].0 == "Git"@,
        panels()[i].1 == Some(Sidebar::Database) ==> panels()[i].0 == "Database"@,
        panels()[i].1 == Some(Sidebar::Docker) ==> panels()[i].0 == "Docker"@,
        panels()[i].1 is None ==> panels()[i].0 == "Laravel"@ || panels()[i].0 == "Tests"@,
{
}

/// Buttons and empty panels say what they are for.
pub proof fn law_buttons_and_hints_say_what_they_do(button: HeaderButton, body: SidebarBody)
    ensures
        button is RevealActiveFile ==> button.text() == "Reveal active file in tree"@,
        button is ExpandAll ==> button.text() == "Expand All"@,
        button is CollapseAll ==> button.text() == "Collapse All"@,
        body is EmptyTree ==> body.text() == Some("Empty folder — right-click to create a file"@),
        body is OpenFolderHint ==> body.text() == Some("Press ⌘O to open a folder"@),
        !(body is EmptyTree) && !(body is OpenFolderHint) ==> body.text() is None,
{
}

/// The status bar tells of the server what is to be told while the file in front
/// of the user is one that it serves.
pub proof fn law_status_bar_tells_of_the_server(
    model: WorkspaceModel,
    facts: Facts,
    sessions: nat,
    diagnostic: Option<Seq<char>>,
    theme: Theme,
)
    requires
        0 <= model.strip.active < model.strip.tabs.len(),
    ensures
        ({
            let tab = model.strip.tabs[model.strip.active];
            let served = tab.path is Some && facts.kinds.serves(tab.path->0);
            model.status_bar(facts, sessions, diagnostic, theme).diagnostics == lsp::label(
                model.lsp.state,
                model.lsp.errors as nat,
                model.lsp.warnings as nat,
                served,
            )
        }),
{
}

} // verus!

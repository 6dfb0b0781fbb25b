//! Opening, saving and closing files.

use vstd::prelude::*;
use vstd::string::*;

use crate::disk::{is_under, project_root_for, Disk};
use crate::effects;
use crate::effects::{also, both, nothing, only, Effect, Focus, Target, Work};
use crate::facts::Facts;
use crate::jobs::Job;
use crate::kinds::FileKinds;
use crate::lsp;
use crate::lsp::LspState;
use crate::palette::Point;
use crate::paths;
use crate::paths::{join_path, starts_at_root};
use crate::tabs;
use crate::tabs::Tab;
use crate::text::{join2, join3, owned};
use crate::tree;
use crate::tree::Tree;
use crate::workspace_view;
use crate::workspace_view::{WorkspaceModel, WorkspaceView};

verus! {

/// What is at a path.
#[derive(Clone, Copy, PartialEq, Eq, Structural, Debug)]
pub enum PathKind {
    File,
    Directory,
    Missing,
}

impl WorkspaceModel {
    // -----------------------------------------------------------------------
    // The language server's side of a file
    // -----------------------------------------------------------------------

    /// Starts a server rooted at `root`, in place of the one that runs: that
    /// one is shut down, and what it reported and was sent counts for nothing.
    pub open spec fn start_lsp_at(self, root: Seq<char>, configured: bool) -> workspace_view::Step {
        let state = WorkspaceModel {
            lsp: lsp::LspView {
                synced: Seq::empty(),
                root: Some(root),
                state: if configured {
                    lsp::StateView::Starting
                } else {
                    lsp::StateView::Unavailable
                },
                client: None,
                errors: 0,
                warnings: 0,
                restarts: self.lsp.restarts,
            },
            ..self
        };
        state.asks(
            (if self.lsp.client is Some {
                seq![Effect::<Seq<char>>::ShutDownServer]
            } else {
                Seq::empty()
            }) + (if configured {
                seq![Effect::Start(Job::Lsp, Work::StartServer { root })]
            } else {
                Seq::empty()
            }),
        )
    }

    /// Starts a server for the open project.
    pub open spec fn start_lsp(self, configured: bool) -> workspace_view::Step {
        match self.root() {
            Some(root) => self.start_lsp_at(root, configured),
            None => self.stays(),
        }
    }

    /// Starts a server for a file that was opened without a folder, unless one
    /// was ever started.
    pub open spec fn start_lsp_for_file(
        self,
        path: Seq<char>,
        disk: Disk,
        configured: bool,
    ) -> workspace_view::Step {
        if self.tree is Some || self.lsp.client is Some || !(self.lsp.state is Idle) {
            self.stays()
        } else {
            match disk.project_root(path) {
                Some(root) => self.start_lsp_at(root, configured),
                None => self.stays(),
            }
        }
    }

    /// Tells the server about a file that was opened, starting one for the
    /// first.
    pub open spec fn open_on_lsp(
        self,
        path: Seq<char>,
        text: Seq<char>,
        disk: Disk,
        configured: bool,
        kinds: FileKinds,
    ) -> workspace_view::Step {
        if !kinds.serves(path) {
            self.stays()
        } else {
            self.start_lsp_for_file(path, disk, configured).and(
                if self.lsp.client is Some {
                    seq![Effect::ServerOpen { path, text }]
                } else {
                    Seq::empty()
                },
            )
        }
    }

    /// Tells the server that a file was closed, so that it stops reporting on
    /// it, and drops what it reported.
    pub open spec fn close_on_lsp(self, path: Seq<char>) -> Seq<effects::EffectView> {
        (if self.lsp.client is Some {
            seq![Effect::ServerClose(path)]
        } else {
            Seq::empty()
        }).push(Effect::ClearDiagnostics(path))
    }

    /// Tells the server that a document changed.
    pub open spec fn notify_lsp_of_change(
        self,
        path: Seq<char>,
        text: Seq<char>,
        kinds: FileKinds,
    ) -> Seq<effects::EffectView> {
        if kinds.serves(path) && self.lsp.client is Some {
            seq![Effect::ServerChange { path, text }]
        } else {
            Seq::empty()
        }
    }

    // -----------------------------------------------------------------------
    // Opening
    // -----------------------------------------------------------------------

    /// Opens a file in a tab, or goes to the tab that shows it, and lands on
    /// the target.
    pub open spec fn open_path_target(self, path: Seq<char>, target: Option<Target>) -> workspace_view::Step {
        match tabs::tab_at_path(self.strip.tabs, path, 0) {
            Some(index) => {
                let editor = self.strip.tabs[index].editor;
                workspace_view::Step {
                    state: WorkspaceModel {
                        strip: tabs::StripView { active: index, ..self.strip },
                        ..self
                    },
                    effects: seq![Effect::ScrollToTab(index as usize), Effect::ClearHoverCards]
                        + (match target {
                        Some(place) => seq![Effect::Reveal { editor, target: place }],
                        None => Seq::empty(),
                    }) + seq![Effect::Focus(Focus::Editor(editor))],
                }
            },
            None => self.asks(seq![Effect::Start(Job::OpenFile, Work::ReadFile { path, target })]),
        }
    }

    /// Opens a file and puts the cursor somewhere.
    pub open spec fn open_path_at(self, path: Seq<char>, target: Option<Point>) -> workspace_view::Step {
        self.open_path_target(
            path,
            match target {
                Some(point) => Some(Target::Point(point)),
                None => None,
            },
        )
    }

    /// Opens a file.
    pub open spec fn open_path(self, path: Seq<char>) -> workspace_view::Step {
        self.open_path_target(path, None)
    }

    /// A file was read and has its editor, or it could not be read.
    pub open spec fn file_loaded(
        self,
        path: Seq<char>,
        target: Option<Target>,
        loaded: Result<(u64, Seq<char>), Seq<char>>,
        disk: Disk,
        configured: bool,
        kinds: FileKinds,
    ) -> workspace_view::Step {
        match loaded {
            Err(error) => self.says(error).stays(),
            Ok((editor, text)) => {
                let shown = WorkspaceModel {
                    strip: self.strip.with(tabs::TabView { path: Some(path), editor }),
                    status: None,
                    ..self
                };
                shown.asks(
                    (match target {
                        Some(place) => seq![Effect::Reveal { editor, target: place }],
                        None => Seq::<effects::EffectView>::empty(),
                    }) + seq![
                        Effect::Focus(Focus::Editor(editor)),
                        Effect::ScrollToTab(self.strip.tabs.len() as usize),
                    ],
                ).followed_by(shown.open_on_lsp(path, text, disk, configured, kinds))
            },
        }
    }

    /// An empty buffer has its editor, or it could not be made.
    pub open spec fn new_file(self, created: Result<u64, Seq<char>>) -> workspace_view::Step {
        match created {
            Err(error) => self.says(error).stays(),
            Ok(editor) => WorkspaceModel {
                strip: self.strip.with(tabs::TabView { path: None, editor }),
                status: None,
                ..self
            }.asks(
                seq![
                    Effect::Focus(Focus::Editor(editor)),
                    Effect::ScrollToTab(self.strip.tabs.len() as usize),
                ],
            ),
        }
    }

    /// Opens what the command line named: a folder as the project, a file in a
    /// tab.
    pub open spec fn open_argument(self, path: Seq<char>, kind: PathKind) -> workspace_view::Step {
        match kind {
            PathKind::File => self.open_path(path),
            PathKind::Directory => self.asks(
                seq![Effect::Start(Job::OpenFolder, Work::ReadTree { path })],
            ),
            PathKind::Missing => self.says(path + " does not exist"@).stays(),
        }
    }

    /// The file that a link in the terminal names: relative to the project's
    /// root, as a trace inside a project prints it.
    pub open spec fn linked_path(self, path: Seq<char>) -> Option<Seq<char>> {
        if paths::is_absolute(path) {
            Some(path)
        } else {
            match self.root() {
                Some(root) => Some(paths::join(root, path)),
                None => None,
            }
        }
    }

    /// A path in the terminal was clicked. One that names no file is dropped
    /// without a word: plain prose with a slash in it looks like a path too.
    pub open spec fn open_terminal_link(
        self,
        path: Seq<char>,
        line: Option<u32>,
        disk: Disk,
    ) -> workspace_view::Step {
        match self.linked_path(path) {
            Some(file) => if disk.is_file(file) {
                self.open_path_at(file, line_target(line))
            } else {
                self.stays()
            },
            None => self.stays(),
        }
    }

    /// Makes a tree the open project: the server, git, the index and the
    /// terminal's directory follow it, and the tests of the last one are gone.
    pub open spec fn adopt_tree(self, tree: tree::TreeView, configured: bool) -> workspace_view::Step {
        let root = tree.root;
        let opened = WorkspaceModel { tree: Some(tree), status: None, ..self };
        let stopped = opened.asks(seq![Effect::WatchTree(root)]).followed_by(
            opened.cancel_test_run(),
        );
        let cleared = workspace_view::Step {
            state: WorkspaceModel { tests: None, tests_open: None, ..stopped.state },
            effects: stopped.effects,
        };
        let served = cleared.followed_by(cleared.state.start_lsp(configured));
        served.followed_by(served.state.refresh_git_status()).and(
            seq![Effect::RebuildIndex(root)],
        ).and(
            if self.terminal is Some {
                seq![Effect::SetTerminalDirectory(Some(root))]
            } else {
                Seq::empty()
            },
        )
    }

    /// A folder was read, or it could not be.
    pub open spec fn folder_loaded(
        self,
        loaded: Result<tree::TreeView, Seq<char>>,
        configured: bool,
    ) -> workspace_view::Step {
        match loaded {
            Ok(tree) => self.adopt_tree(tree, configured),
            Err(error) => self.says(error).stays(),
        }
    }

    // -----------------------------------------------------------------------
    // Tabs
    // -----------------------------------------------------------------------

    /// Goes to a tab.
    pub open spec fn select_tab(self, index: usize) -> workspace_view::Step {
        workspace_view::Step {
            state: WorkspaceModel {
                strip: tabs::StripView { active: index as int, ..self.strip },
                ..self
            },
            effects: seq![Effect::ScrollToTab(index), Effect::ClearHoverCards],
        }
    }

    /// A tab was dragged to another slot.
    pub open spec fn reorder_tab(self, from: usize, to: usize) -> workspace_view::Step {
        if from == to || from >= self.strip.tabs.len() || to >= self.strip.tabs.len() {
            self.stays()
        } else {
            let strip = self.strip.reordered(from as int, to as int);
            WorkspaceModel { strip, ..self }.asks(
                seq![Effect::ScrollToTab(strip.active as usize)],
            )
        }
    }

    /// Removes a tab.
    pub open spec fn remove_tab(self, index: int) -> workspace_view::Step {
        if index < 0 || index >= self.strip.tabs.len() {
            self.stays()
        } else {
            let strip = self.strip.without(index);
            workspace_view::Step {
                state: WorkspaceModel { strip, ..self },
                effects: (match self.strip.tabs[index].path {
                    Some(path) => self.close_on_lsp(path),
                    None => Seq::empty(),
                }) + seq![
                    Effect::ScrollToTab(strip.active as usize),
                    Effect::ClearHoverCards,
                ],
            }
        }
    }

    /// Closes a tab, asking first where changes would be lost.
    pub open spec fn close_tab_at(self, index: usize, facts: Facts) -> workspace_view::Step {
        let quiet = self.dismiss_completion();
        if index >= self.strip.tabs.len() {
            quiet
        } else {
            let editor = self.strip.tabs[index as int].editor;
            match facts.buffer_of(editor) {
                Some(buffer) if buffer.dirty => quiet.and(
                    seq![
                        Effect::Start(
                            Job::ClosePrompt,
                            Work::AskToDiscard {
                                editor,
                                message: buffer.title@ + " has unsaved changes."@,
                                detail: "Closing this tab will discard them."@,
                            },
                        ),
                    ],
                ),
                _ => quiet.followed_by(quiet.state.remove_tab(index as int)),
            }
        }
    }

    /// Closes the active tab.
    pub open spec fn close_tab(self, facts: Facts) -> workspace_view::Step {
        self.close_tab_at(self.strip.active as usize, facts)
    }

    /// The question about unsaved changes was answered. The tab is found again
    /// by its editor, for its index may have changed meanwhile.
    pub open spec fn discard_answered(self, editor: u64, discard: bool) -> workspace_view::Step {
        if !discard {
            self.stays()
        } else {
            match tabs::tab_of_editor(self.strip.tabs, editor, 0) {
                Some(index) => self.remove_tab(index),
                None => self.stays(),
            }
        }
    }

    // -----------------------------------------------------------------------
    // Saving
    // -----------------------------------------------------------------------

    /// Asks where a buffer without a path goes.
    pub open spec fn save_as(self) -> workspace_view::Step {
        match self.strip.active_editor() {
            Some(editor) => self.asks(
                seq![
                    Effect::Start(
                        Job::Save,
                        Work::ChoosePath {
                            editor,
                            directory: self.root(),
                            name: "untitled.php"@,
                        },
                    ),
                ],
            ),
            None => self.stays(),
        }
    }

    /// Saves the active tab.
    pub open spec fn save(self, facts: Facts) -> workspace_view::Step {
        match self.strip.active_tab() {
            None => self.stays(),
            Some(tab) => match tab.path {
                None => self.save_as(),
                Some(path) => match facts.buffer_of(tab.editor) {
                    Some(buffer) => self.asks(
                        seq![
                            Effect::Start(
                                Job::Save,
                                Work::WriteFile {
                                    editor: tab.editor,
                                    path,
                                    text: buffer.text@,
                                    version: buffer.version,
                                },
                            ),
                        ],
                    ),
                    None => self.stays(),
                },
            },
        }
    }

    /// Whether saving a file changes what the index knows: models and
    /// migrations do.
    pub open spec fn is_indexed(self, path: Seq<char>, disk: Disk) -> bool {
        match self.root() {
            Some(root) => disk.under(path, paths::join(root, "app/Models"@)) || disk.under(
                path,
                paths::join(root, "database/migrations"@),
            ),
            None => false,
        }
    }

    /// A save ended.
    pub open spec fn saved(
        self,
        save: SaveView,
        error: Option<Seq<char>>,
        disk: Disk,
        kinds: FileKinds,
    ) -> workspace_view::Step {
        match error {
            Some(error) => self.says("save failed: "@ + error).stays(),
            None => {
                let clean = WorkspaceModel { status: None, ..self };
                clean.asks(
                    self.notify_lsp_of_change(save.path, save.text, kinds).push(
                        Effect::MarkSaved { editor: save.editor, version: save.version },
                    ),
                ).followed_by(clean.refresh_git_status()).and(
                    match self.root() {
                        Some(root) => if self.is_indexed(save.path, disk) {
                            seq![Effect::RebuildIndex(root)]
                        } else {
                            Seq::empty()
                        },
                        None => Seq::empty(),
                    },
                )
            },
        }
    }

    /// A buffer without a path was saved: its tab has a path from now on.
    pub open spec fn saved_as(
        self,
        editor: u64,
        path: Seq<char>,
        version: u64,
        error: Option<Seq<char>>,
    ) -> workspace_view::Step {
        match error {
            Some(error) => self.says("save failed: "@ + error).stays(),
            None => WorkspaceModel {
                strip: match tabs::tab_of_editor(self.strip.tabs, editor, 0) {
                    Some(index) => tabs::StripView {
                        tabs: self.strip.tabs.update(
                            index,
                            tabs::TabView { path: Some(path), editor },
                        ),
                        ..self.strip
                    },
                    None => self.strip,
                },
                status: None,
                ..self
            }.asks(
                seq![
                    Effect::MarkSaved { editor, version },
                    Effect::SetDocumentPath { editor, path },
                ],
            ),
        }
    }

    /// What autosave writes of the first `count` tabs: the buffers that
    /// changed and have a path. A buffer without one would need a dialog.
    pub open spec fn dirty_saves(self, facts: Facts, count: int) -> Seq<effects::EffectView>
        decreases count,
    {
        if count <= 0 {
            Seq::empty()
        } else {
            let before = self.dirty_saves(facts, count - 1);
            let tab = self.strip.tabs[count - 1];
            match (tab.path, facts.buffer_of(tab.editor)) {
                (Some(path), Some(buffer)) => if buffer.dirty {
                    before.push(
                        Effect::Autosave {
                            editor: tab.editor,
                            path,
                            text: buffer.text@,
                            version: buffer.version,
                        },
                    )
                } else {
                    before
                },
                _ => before,
            }
        }
    }

    /// Saves every buffer that changed and has a path.
    pub open spec fn autosave_dirty_tabs(self, facts: Facts) -> workspace_view::Step {
        if facts.autosave {
            self.asks(self.dirty_saves(facts, self.strip.tabs.len() as int))
        } else {
            self.stays()
        }
    }

    /// One write of autosave ended. A success is silent, a failure names its
    /// file.
    pub open spec fn autosaved_one(
        self,
        save: SaveView,
        error: Option<Seq<char>>,
        kinds: FileKinds,
    ) -> workspace_view::Step {
        match error {
            Some(error) => self.says("autosave failed: "@ + save.path + ": "@ + error).stays(),
            None => self.asks(
                self.notify_lsp_of_change(save.path, save.text, kinds).push(
                    Effect::MarkSaved { editor: save.editor, version: save.version },
                ),
            ),
        }
    }

    /// The first `count` writes of autosave ended.
    pub open spec fn autosaved_first(
        self,
        saves: Seq<(SaveView, Option<Seq<char>>)>,
        kinds: FileKinds,
        count: int,
    ) -> workspace_view::Step
        decreases count,
    {
        if count <= 0 {
            self.stays()
        } else {
            let before = self.autosaved_first(saves, kinds, count - 1);
            before.followed_by(
                before.state.autosaved_one(saves[count - 1].0, saves[count - 1].1, kinds),
            )
        }
    }

    /// The writes of autosave ended.
    pub open spec fn autosaved(
        self,
        saves: Seq<(SaveView, Option<Seq<char>>)>,
        kinds: FileKinds,
    ) -> workspace_view::Step {
        let done = self.autosaved_first(saves, kinds, saves.len() as int);
        done.followed_by(done.state.refresh_git_status())
    }

    /// Arms the timer that saves once typing pauses.
    pub open spec fn schedule_autosave(self, facts: Facts) -> Seq<effects::EffectView> {
        if facts.autosave {
            seq![Effect::Start(Job::AutosaveDebounce, Work::WaitToAutosave)]
        } else {
            Seq::empty()
        }
    }
}

/// Where a line of a trace lands: traces count from one, and some print a
/// zero.
pub open spec fn line_target(line: Option<u32>) -> Option<Point> {
    match line {
        Some(line) => Some(
            Point {
                row: (if line > 0 {
                    line - 1
                } else {
                    0
                }) as usize,
                column: 0,
            },
        ),
        None => None,
    }
}

/// A buffer as it was written.
pub struct Save {
    pub editor: u64,
    pub path: String,
    pub text: String,
    pub version: u64,
}

/// A buffer as it was written, as contracts see it.
pub struct SaveView {
    pub editor: u64,
    pub path: Seq<char>,
    pub text: Seq<char>,
    pub version: u64,
}

impl vstd::view::DeepView for Save {
    type V = SaveView;

    open spec fn deep_view(&self) -> SaveView {
        SaveView {
            editor: self.editor,
            path: self.path@,
            text: self.text@,
            version: self.version,
        }
    }
}

/// Where a line of a trace lands.
fn target_of_line(line: Option<u32>) -> (target: Option<Point>)
    ensures
        target == line_target(line),
{
    match line {
        Some(line) => {
            let row: usize = if line > 0 {
                (line - 1) as usize
            } else {
                0
            };
            Some(Point { row, column: 0 })
        },
        None => None,
    }
}

impl WorkspaceView {
    // -----------------------------------------------------------------------
    // The language server's side of a file
    // -----------------------------------------------------------------------

    /// Starts a server rooted at `root`, in place of the one that runs.
    pub fn start_lsp_at(&mut self, root: String, configured: bool) -> (effects: Vec<Effect<String>>)
        ensures
            final(self)@ == old(self)@.start_lsp_at(root@, configured).state,
            effects::told(effects) == old(self)@.start_lsp_at(root@, configured).effects,
    {
        let none: Vec<(String, u64)> = Vec::new();
        assert(none.deep_view() =~= Seq::<(Seq<char>, u64)>::empty());
        let stopped = if self.lsp.client.is_some() {
            only(Effect::ShutDownServer)
        } else {
            nothing()
        };
        self.lsp.client = None;
        self.lsp.errors = 0;
        self.lsp.warnings = 0;
        self.lsp.synced = none;
        self.lsp.root = Some(root.clone());
        self.lsp.state = if configured {
            LspState::Starting
        } else {
            LspState::Unavailable
        };
        if configured {
            also(stopped, Effect::Start(Job::Lsp, Work::StartServer { root }))
        } else {
            both(stopped, nothing())
        }
    }

    /// Starts a server for the open project.
    pub fn start_lsp(&mut self, configured: bool) -> (effects: Vec<Effect<String>>)
        ensures
            final(self)@ == old(self)@.start_lsp(configured).state,
            effects::told(effects) == old(self)@.start_lsp(configured).effects,
    {
        match self.root() {
            Some(root) => self.start_lsp_at(root, configured),
            None => nothing(),
        }
    }

    /// Starts a server for a file that was opened without a folder: in the
    /// project around it, and only where none was ever started.
    pub fn start_lsp_for_file(&mut self, path: &str, disk: &Disk, configured: bool) -> (effects: Vec<
        Effect<String>,
    >)
        ensures
            final(self)@ == old(self)@.start_lsp_for_file(path@, *disk, configured).state,
            effects::told(effects) == old(self)@.start_lsp_for_file(
                path@,
                *disk,
                configured,
            ).effects,
    {
        if self.tree.is_some() || self.lsp.client.is_some() {
            return nothing();
        }
        match self.lsp.state {
            LspState::Idle => {},
            _ => {
                return nothing();
            },
        }
        match project_root_for(path, disk) {
            Some(root) => self.start_lsp_at(root, configured),
            None => nothing(),
        }
    }

    /// Tells the server about a file that was opened, starting one for the
    /// first.
    pub fn open_on_lsp(
        &mut self,
        path: &str,
        text: &str,
        disk: &Disk,
        configured: bool,
        kinds: &FileKinds,
    ) -> (effects: Vec<Effect<String>>)
        ensures
            final(self)@ == old(self)@.open_on_lsp(path@, text@, *disk, configured, *kinds).state,
            effects::told(effects) == old(self)@.open_on_lsp(
                path@,
                text@,
                *disk,
                configured,
                *kinds,
            ).effects,
    {
        if !kinds.handles(path) {
            return nothing();
        }
        let known = self.lsp.client.is_some();
        let started = self.start_lsp_for_file(path, disk, configured);
        if known {
            also(started, Effect::ServerOpen { path: owned(path), text: owned(text) })
        } else {
            started
        }
    }

    /// Tells the server that a file was closed.
    pub fn close_on_lsp(&self, path: &str) -> (effects: Vec<Effect<String>>)
        ensures
            effects::told(effects) == self@.close_on_lsp(path@),
    {
        let closed = if self.lsp.client.is_some() {
            only(Effect::ServerClose(owned(path)))
        } else {
            nothing()
        };
        also(closed, Effect::ClearDiagnostics(owned(path)))
    }

    /// Tells the server that a document changed.
    pub fn notify_lsp_of_change(&self, path: &str, text: &str, kinds: &FileKinds) -> (effects: Vec<
        Effect<String>,
    >)
        ensures
            effects::told(effects) == self@.notify_lsp_of_change(path@, text@, *kinds),
    {
        if kinds.handles(path) && self.lsp.client.is_some() {
            only(Effect::ServerChange { path: owned(path), text: owned(text) })
        } else {
            nothing()
        }
    }

    // -----------------------------------------------------------------------
    // Opening
    // -----------------------------------------------------------------------

    /// Opens a file in a tab, or goes to the tab that shows it, and lands on
    /// the target. Either way the editor gets the keyboard.
    pub fn open_path_target(&mut self, path: String, target: Option<Target>) -> (effects: Vec<
        Effect<String>,
    >)
        ensures
            final(self)@ == old(self)@.open_path_target(path@, target).state,
            effects::told(effects) == old(self)@.open_path_target(path@, target).effects,
    {
        match self.strip.position_of_path(path.as_str()) {
            Some(index) => {
                self.strip.active = index;
                let editor = self.strip.tabs[index].editor;
                let shown = also(only(Effect::ScrollToTab(index)), Effect::ClearHoverCards);
                let landed = match target {
                    Some(target) => also(shown, Effect::Reveal { editor, target }),
                    None => shown,
                };
                also(landed, Effect::Focus(Focus::Editor(editor)))
            },
            None => only(Effect::Start(Job::OpenFile, Work::ReadFile { path, target })),
        }
    }

    /// Opens a file and, where a target is given, puts the cursor there.
    pub fn open_path_at(&mut self, path: String, target: Option<Point>) -> (effects: Vec<
        Effect<String>,
    >)
        ensures
            final(self)@ == old(self)@.open_path_at(path@, target).state,
            effects::told(effects) == old(self)@.open_path_at(path@, target).effects,
    {
        let place = match target {
            Some(point) => Some(Target::Point(point)),
            None => None,
        };
        self.open_path_target(path, place)
    }

    /// Opens a file in a tab, or goes to the tab that shows it.
    pub fn open_path(&mut self, path: String) -> (effects: Vec<Effect<String>>)
        ensures
            final(self)@ == old(self)@.open_path(path@).state,
            effects::told(effects) == old(self)@.open_path(path@).effects,
    {
        self.open_path_target(path, None)
    }

    /// Opens a file at a position in the server's units.
    pub fn open_path_at_lsp(&mut self, path: String, line: u32, character: u32) -> (effects: Vec<
        Effect<String>,
    >)
        ensures
            final(self)@ == old(self)@.open_path_target(
                path@,
                Some(Target::Lsp { line, character }),
            ).state,
            effects::told(effects) == old(self)@.open_path_target(
                path@,
                Some(Target::Lsp { line, character }),
            ).effects,
    {
        self.open_path_target(path, Some(Target::Lsp { line, character }))
    }

    /// A file was read and has its editor, or it could not be read.
    pub fn file_loaded(
        &mut self,
        path: String,
        target: Option<Target>,
        loaded: Result<(u64, String), String>,
        disk: &Disk,
        configured: bool,
        kinds: &FileKinds,
    ) -> (effects: Vec<Effect<String>>)
        ensures
            final(self)@ == old(self)@.file_loaded(
                path@,
                target,
                loaded_view(loaded),
                *disk,
                configured,
                *kinds,
            ).state,
            effects::told(effects) == old(self)@.file_loaded(
                path@,
                target,
                loaded_view(loaded),
                *disk,
                configured,
                *kinds,
            ).effects,
    {
        match loaded {
            Err(error) => {
                self.status = Some(error);
                nothing()
            },
            Ok((editor, text)) => {
                let slot = self.strip.tabs.len();
                self.strip.push(Tab { path: Some(path.clone()), editor });
                self.status = None;
                let landed = match target {
                    Some(target) => only(Effect::Reveal { editor, target }),
                    None => nothing(),
                };
                let focused = also(landed, Effect::Focus(Focus::Editor(editor)));
                let shown = also(focused, Effect::ScrollToTab(slot));
                let told = self.open_on_lsp(
                    path.as_str(),
                    text.as_str(),
                    disk,
                    configured,
                    kinds,
                );
                both(shown, told)
            },
        }
    }

    /// An empty buffer has its editor, or it could not be made.
    pub fn new_file(&mut self, created: Result<u64, String>) -> (effects: Vec<Effect<String>>)
        ensures
            final(self)@ == old(self)@.new_file(created_view(created)).state,
            effects::told(effects) == old(self)@.new_file(created_view(created)).effects,
    {
        match created {
            Err(error) => {
                self.status = Some(error);
                nothing()
            },
            Ok(editor) => {
                let slot = self.strip.tabs.len();
                self.strip.push(Tab { path: None, editor });
                self.status = None;
                also(only(Effect::Focus(Focus::Editor(editor))), Effect::ScrollToTab(slot))
            },
        }
    }

    /// Opens what the command line named: a folder as the project, a file in a
    /// tab.
    pub fn open_argument(&mut self, path: String, kind: PathKind) -> (effects: Vec<Effect<String>>)
        ensures
            final(self)@ == old(self)@.open_argument(path@, kind).state,
            effects::told(effects) == old(self)@.open_argument(path@, kind).effects,
    {
        match kind {
            PathKind::File => self.open_path(path),
            PathKind::Directory => only(Effect::Start(Job::OpenFolder, Work::ReadTree { path })),
            PathKind::Missing => {
                self.status = Some(join2(path.as_str(), " does not exist"));
                nothing()
            },
        }
    }

    /// Asks for a folder to open.
    pub fn open_folder(&self) -> (effects: Vec<Effect<String>>)
        ensures
            effects::told(effects) == seq![
                Effect::<Seq<char>>::Start(Job::OpenFolder, Work::ChooseFolder),
            ],
    {
        only(Effect::Start(Job::OpenFolder, Work::ChooseFolder))
    }

    /// A path in the terminal was clicked.
    pub fn open_terminal_link(&mut self, path: String, line: Option<u32>, disk: &Disk) -> (effects: Vec<
        Effect<String>,
    >)
        ensures
            final(self)@ == old(self)@.open_terminal_link(path@, line, *disk).state,
            effects::told(effects) == old(self)@.open_terminal_link(path@, line, *disk).effects,
    {
        let file = if starts_at_root(path.as_str()) {
            path
        } else {
            match self.root() {
                Some(root) => join_path(root.as_str(), path.as_str()),
                None => {
                    return nothing();
                },
            }
        };
        if !disk.has_file(file.as_str()) {
            return nothing();
        }
        self.open_path_at(file, target_of_line(line))
    }

    /// Makes a tree the open project.
    pub fn adopt_tree(&mut self, tree: Tree, configured: bool) -> (effects: Vec<Effect<String>>)
        ensures
            final(self)@ == old(self)@.adopt_tree(tree@, configured).state,
            effects::told(effects) == old(self)@.adopt_tree(tree@, configured).effects,
    {
        let root = tree.root.clone();
        let terminal = self.terminal.is_some();
        self.tree = Some(tree);
        self.status = None;
        let watched = only(Effect::WatchTree(root.clone()));
        let stopped = both(watched, self.cancel_test_run());
        self.tests = None;
        self.tests_open = None;
        let served = both(stopped, self.start_lsp(configured));
        let read = both(served, self.refresh_git_status());
        let indexed = also(read, Effect::RebuildIndex(root.clone()));
        if terminal {
            also(indexed, Effect::SetTerminalDirectory(Some(root)))
        } else {
            indexed
        }
    }

    /// A folder was read, or it could not be.
    pub fn folder_loaded(&mut self, loaded: Result<Tree, String>, configured: bool) -> (effects: Vec<
        Effect<String>,
    >)
        ensures
            final(self)@ == old(self)@.folder_loaded(tree_result(loaded), configured).state,
            effects::told(effects) == old(self)@.folder_loaded(
                tree_result(loaded),
                configured,
            ).effects,
    {
        match loaded {
            Ok(tree) => self.adopt_tree(tree, configured),
            Err(error) => {
                self.status = Some(error);
                nothing()
            },
        }
    }

    // -----------------------------------------------------------------------
    // Tabs
    // -----------------------------------------------------------------------

    /// A tab was clicked.
    pub fn select_tab(&mut self, index: usize) -> (effects: Vec<Effect<String>>)
        ensures
            final(self)@ == old(self)@.select_tab(index).state,
            effects::told(effects) == old(self)@.select_tab(index).effects,
    {
        self.strip.active = index;
        also(only(Effect::ScrollToTab(index)), Effect::ClearHoverCards)
    }

    /// A tab was dragged to another slot. The file that the user was in stays
    /// active.
    pub fn reorder_tab(&mut self, from: usize, to: usize) -> (effects: Vec<Effect<String>>)
        ensures
            final(self)@ == old(self)@.reorder_tab(from, to).state,
            effects::told(effects) == old(self)@.reorder_tab(from, to).effects,
    {
        if from == to || from >= self.strip.tabs.len() || to >= self.strip.tabs.len() {
            return nothing();
        }
        self.strip.reorder_tab(from, to);
        only(Effect::ScrollToTab(self.strip.active))
    }

    /// Removes a tab.
    pub fn remove_tab(&mut self, index: usize) -> (effects: Vec<Effect<String>>)
        ensures
            final(self)@ == old(self)@.remove_tab(index as int).state,
            effects::told(effects) == old(self)@.remove_tab(index as int).effects,
    {
        let ghost before = self@;
        let closed = self.strip.remove(index);
        match closed {
            None => nothing(),
            Some(tab) => {
                assert(tab.deep_view() == before.strip.tabs[index as int]);
                let told = match &tab.path {
                    Some(path) => self.close_on_lsp(path.as_str()),
                    None => nothing(),
                };
                also(also(told, Effect::ScrollToTab(self.strip.active)), Effect::ClearHoverCards)
            },
        }
    }

    /// Closes a tab, asking first where changes would be lost.
    pub fn close_tab_at(&mut self, index: usize, facts: &Facts) -> (effects: Vec<Effect<String>>)
        ensures
            final(self)@ == old(self)@.close_tab_at(index, *facts).state,
            effects::told(effects) == old(self)@.close_tab_at(index, *facts).effects,
    {
        let quiet = self.dismiss_completion();
        if index >= self.strip.tabs.len() {
            return quiet;
        }
        assert(self@.strip.tabs[index as int] == self.strip.tabs[index as int].deep_view());
        let editor = self.strip.tabs[index].editor;
        if let Some(buffer) = facts.buffer(editor) {
            if buffer.dirty {
                let message = join2(buffer.title.as_str(), " has unsaved changes.");
                let detail = owned("Closing this tab will discard them.");
                return also(
                    quiet,
                    Effect::Start(
                        Job::ClosePrompt,
                        Work::AskToDiscard { editor, message, detail },
                    ),
                );
            }
        }
        let removed = self.remove_tab(index);
        both(quiet, removed)
    }

    /// Closes the active tab.
    pub fn close_tab(&mut self, facts: &Facts) -> (effects: Vec<Effect<String>>)
        ensures
            final(self)@ == old(self)@.close_tab(*facts).state,
            effects::told(effects) == old(self)@.close_tab(*facts).effects,
    {
        let active = self.strip.active;
        self.close_tab_at(active, facts)
    }

    /// The question about unsaved changes was answered.
    pub fn discard_answered(&mut self, editor: u64, discard: bool) -> (effects: Vec<Effect<String>>)
        ensures
            final(self)@ == old(self)@.discard_answered(editor, discard).state,
            effects::told(effects) == old(self)@.discard_answered(editor, discard).effects,
    {
        if !discard {
            return nothing();
        }
        match self.strip.position_of_editor(editor) {
            Some(index) => self.remove_tab(index),
            None => nothing(),
        }
    }

    // -----------------------------------------------------------------------
    // Saving
    // -----------------------------------------------------------------------

    /// Asks where a buffer without a path goes, starting from the project's
    /// root.
    pub fn save_as(&self) -> (effects: Vec<Effect<String>>)
        ensures
            effects::told(effects) == self@.save_as().effects,
    {
        match self.strip.active_editor() {
            Some(editor) => only(
                Effect::Start(
                    Job::Save,
                    Work::ChoosePath {
                        editor,
                        directory: self.root(),
                        name: owned("untitled.php"),
                    },
                ),
            ),
            None => nothing(),
        }
    }

    /// Saves the active tab.
    pub fn save(&self, facts: &Facts) -> (effects: Vec<Effect<String>>)
        ensures
            effects::told(effects) == self@.save(*facts).effects,
            self@.save(*facts).state == self@,
    {
        let tab = match self.strip.active_tab() {
            Some(tab) => tab,
            None => {
                return nothing();
            },
        };
        match &tab.path {
            None => self.save_as(),
            Some(path) => match facts.buffer(tab.editor) {
                Some(buffer) => only(
                    Effect::Start(
                        Job::Save,
                        Work::WriteFile {
                            editor: tab.editor,
                            path: path.clone(),
                            text: buffer.text.clone(),
                            version: buffer.version,
                        },
                    ),
                ),
                None => nothing(),
            },
        }
    }

    /// Whether saving a file changes what the index knows.
    fn is_indexed(&self, path: &str, disk: &Disk) -> (held: bool)
        ensures
            held == self@.is_indexed(path@, *disk),
    {
        match self.root() {
            Some(root) => is_under(path, join_path(root.as_str(), "app/Models").as_str(), disk)
                || is_under(
                path,
                join_path(root.as_str(), "database/migrations").as_str(),
                disk,
            ),
            None => false,
        }
    }

    /// A save ended.
    pub fn saved(&mut self, save: &Save, error: Option<String>, disk: &Disk, kinds: &FileKinds) -> (effects:
        Vec<Effect<String>>)
        ensures
            final(self)@ == old(self)@.saved(
                save.deep_view(),
                error.deep_view(),
                *disk,
                *kinds,
            ).state,
            effects::told(effects) == old(self)@.saved(
                save.deep_view(),
                error.deep_view(),
                *disk,
                *kinds,
            ).effects,
    {
        match error {
            Some(error) => {
                self.status = Some(join2("save failed: ", error.as_str()));
                nothing()
            },
            None => {
                let told = self.notify_lsp_of_change(
                    save.path.as_str(),
                    save.text.as_str(),
                    kinds,
                );
                let marked = also(
                    told,
                    Effect::MarkSaved { editor: save.editor, version: save.version },
                );
                let indexed = if self.is_indexed(save.path.as_str(), disk) {
                    match self.root() {
                        Some(root) => only(Effect::RebuildIndex(root)),
                        None => nothing(),
                    }
                } else {
                    nothing()
                };
                self.status = None;
                let read = both(marked, self.refresh_git_status());
                both(read, indexed)
            },
        }
    }

    /// A buffer without a path was saved.
    pub fn saved_as(&mut self, editor: u64, path: String, version: u64, error: Option<String>) -> (effects:
        Vec<Effect<String>>)
        ensures
            final(self)@ == old(self)@.saved_as(
                editor,
                path@,
                version,
                error.deep_view(),
            ).state,
            effects::told(effects) == old(self)@.saved_as(
                editor,
                path@,
                version,
                error.deep_view(),
            ).effects,
    {
        match error {
            Some(error) => {
                self.status = Some(join2("save failed: ", error.as_str()));
                return nothing();
            },
            None => {},
        }
        let effects = also(
            only(Effect::MarkSaved { editor, version }),
            Effect::SetDocumentPath { editor, path: path.clone() },
        );
        self.status = None;
        match self.strip.position_of_editor(editor) {
            Some(index) => {
                let ghost before = self.strip@.tabs;
                self.strip.tabs.set(index, Tab { path: Some(path), editor });
                assert(self.strip@.tabs =~= before.update(
                    index as int,
                    tabs::TabView { path: Some(path@), editor },
                ));
                return effects;
            },
            None => {
                return effects;
            },
        }
    }

    /// Saves every buffer that changed and has a path, without a word.
    pub fn autosave_dirty_tabs(&self, facts: &Facts) -> (effects: Vec<Effect<String>>)
        ensures
            effects::told(effects) == self@.autosave_dirty_tabs(*facts).effects,
            self@.autosave_dirty_tabs(*facts).state == self@,
    {
        if !facts.autosave {
            return nothing();
        }
        let mut effects = nothing();
        let mut i: usize = 0;
        while i < self.strip.tabs.len()
            invariant
                i <= self.strip.tabs.len(),
                effects::told(effects) == self@.dirty_saves(*facts, i as int),
            decreases self.strip.tabs.len() - i,
        {
            assert(self@.strip.tabs[i as int] == self.strip.tabs[i as int].deep_view());
            let tab = &self.strip.tabs[i];
            if let Some(path) = &tab.path {
                if let Some(buffer) = facts.buffer(tab.editor) {
                    if buffer.dirty {
                        effects =
                        also(
                            effects,
                            Effect::Autosave {
                                editor: tab.editor,
                                path: path.clone(),
                                text: buffer.text.clone(),
                                version: buffer.version,
                            },
                        );
                    }
                }
            }
            i += 1;
        }
        effects
    }

    /// One write of autosave ended.
    fn autosaved_one(&mut self, save: &Save, error: &Option<String>, kinds: &FileKinds) -> (effects:
        Vec<Effect<String>>)
        ensures
            final(self)@ == old(self)@.autosaved_one(
                save.deep_view(),
                error.deep_view(),
                *kinds,
            ).state,
            effects::told(effects) == old(self)@.autosaved_one(
                save.deep_view(),
                error.deep_view(),
                *kinds,
            ).effects,
    {
        match error {
            Some(error) => {
                let front = join3("autosave failed: ", save.path.as_str(), ": ");
                self.status = Some(join2(front.as_str(), error.as_str()));
                nothing()
            },
            None => {
                let told = self.notify_lsp_of_change(
                    save.path.as_str(),
                    save.text.as_str(),
                    kinds,
                );
                also(told, Effect::MarkSaved { editor: save.editor, version: save.version })
            },
        }
    }

    /// The writes of autosave ended, each with its error where it failed.
    pub fn autosaved(&mut self, saves: &Vec<(Save, Option<String>)>, kinds: &FileKinds) -> (effects:
        Vec<Effect<String>>)
        ensures
            final(self)@ == old(self)@.autosaved(saves.deep_view(), *kinds).state,
            effects::told(effects) == old(self)@.autosaved(saves.deep_view(), *kinds).effects,
    {
        let ghost before = self@;
        let ghost all = saves.deep_view();
        let mut effects = nothing();
        let mut i: usize = 0;
        while i < saves.len()
            invariant
                i <= saves.len(),
                all == saves.deep_view(),
                before == old(self)@,
                self@ == before.autosaved_first(all, *kinds, i as int).state,
                effects::told(effects) == before.autosaved_first(all, *kinds, i as int).effects,
            decreases saves.len() - i,
        {
            assert(all[i as int] == (saves[i as int].0.deep_view(), saves[i as int].1.deep_view()));
            let one = self.autosaved_one(&saves[i].0, &saves[i].1, kinds);
            effects = both(effects, one);
            i += 1;
        }
        both(effects, self.refresh_git_status())
    }

    /// Arms the timer that saves once typing pauses.
    pub fn schedule_autosave(&self, facts: &Facts) -> (effects: Vec<Effect<String>>)
        ensures
            effects::told(effects) == self@.schedule_autosave(*facts),
    {
        if facts.autosave {
            only(Effect::Start(Job::AutosaveDebounce, Work::WaitToAutosave))
        } else {
            nothing()
        }
    }
}

/// A file that was read, as contracts see it.
pub open spec fn loaded_view(loaded: Result<(u64, String), String>) -> Result<
    (u64, Seq<char>),
    Seq<char>,
> {
    match loaded {
        Ok((editor, text)) => Ok((editor, text@)),
        Err(error) => Err(error@),
    }
}

/// A buffer that was made, as contracts see it.
pub open spec fn created_view(created: Result<u64, String>) -> Result<u64, Seq<char>> {
    match created {
        Ok(editor) => Ok(editor),
        Err(error) => Err(error@),
    }
}

/// A folder that was read, as contracts see it.
pub open spec fn tree_result(loaded: Result<Tree, String>) -> Result<tree::TreeView, Seq<char>> {
    match loaded {
        Ok(tree) => Ok(tree@),
        Err(error) => Err(error@),
    }
}

// ---------------------------------------------------------------------------
// Laws
// ---------------------------------------------------------------------------

/// Whether a tab shows a file, going by the spelling of its path.
pub open spec fn shows_path(tab: tabs::TabView, path: Seq<char>) -> bool {
    tab.path matches Some(open) && paths::same_path(open, path)
}

/// A path that a tab shows is found, and what is found shows it.
proof fn lemma_tab_is_found(tabs: Seq<tabs::TabView>, path: Seq<char>, at: int, from: int)
    requires
        0 <= from <= at < tabs.len(),
        shows_path(tabs[at], path),
    ensures
        tabs::tab_at_path(tabs, path, from) is Some,
    decreases at - from,
{
    if !shows_path(tabs[from], path) {
        lemma_tab_is_found(tabs, path, at, from + 1);
    }
}

/// What a search for a path finds shows that path.
proof fn lemma_found_tab_shows(tabs: Seq<tabs::TabView>, path: Seq<char>, from: int)
    requires
        0 <= from,
    ensures
        tabs::tab_at_path(tabs, path, from) matches Some(found) ==> from <= found < tabs.len()
            && shows_path(tabs[found], path),
    decreases tabs.len() - from,
{
    if from < tabs.len() && !shows_path(tabs[from], path) {
        lemma_found_tab_shows(tabs, path, from + 1);
    }
}

/// A server is never left over from another project: starting one, or finding
/// that there is none to start, shuts the one before it down first, and nothing
/// that it reported is shown any more.
pub proof fn law_one_server_at_a_time(
    model: WorkspaceModel,
    root: Seq<char>,
    tree: tree::TreeView,
    configured: bool,
)
    ensures
        ({
            let step = model.start_lsp_at(root, configured);
            &&& step.state.lsp.client is None
            &&& step.state.lsp.errors == 0
            &&& step.state.lsp.warnings == 0
            &&& step.state.lsp.synced == Seq::<(Seq<char>, u64)>::empty()
            &&& model.lsp.client is Some ==> step.effects.len() > 0 && step.effects[0]
                == Effect::<Seq<char>>::ShutDownServer
        }),
        model.adopt_tree(tree, configured).state.lsp.client is None,
        model.lsp.client is Some ==> model.adopt_tree(tree, configured).effects.contains(
            Effect::ShutDownServer,
        ),
{
    let opened = WorkspaceModel { tree: Some(tree), status: None, ..model };
    let stopped = opened.asks(seq![Effect::WatchTree(tree.root)]).followed_by(
        opened.cancel_test_run(),
    );
    let cleared = WorkspaceModel { tests: None, tests_open: None, ..stopped.state };
    if model.lsp.client is Some {
        let at = stopped.effects.len() as int;
        let started = cleared.start_lsp(configured);
        assert(started.effects[0] == Effect::<Seq<char>>::ShutDownServer);
        assert(model.adopt_tree(tree, configured).effects[at]
            == Effect::<Seq<char>>::ShutDownServer);
    }
}

/// Opening a file never opens it twice: it goes to the tab that shows it, and
/// reads the file only where there is none.
pub proof fn law_a_file_is_open_once(
    model: WorkspaceModel,
    path: Seq<char>,
    target: Option<Target>,
    at: int,
)
    requires
        model.well_formed(),
        0 <= at < model.strip.tabs.len(),
        shows_path(model.strip.tabs[at], path),
    ensures
        ({
            let step = model.open_path_target(path, target);
            &&& step.state.strip.tabs == model.strip.tabs
            &&& step.state.strip.active_tab() matches Some(tab)
            &&& shows_path(tab, path)
            &&& step.state.well_formed()
            &&& forall|i: int|
                0 <= i < step.effects.len() ==> !((#[trigger] step.effects[i]) is Start)
        }),
{
    lemma_tab_is_found(model.strip.tabs, path, at, 0);
    lemma_found_tab_shows(model.strip.tabs, path, 0);
}

/// A file that was read is the active tab, the server hears of it, and opening
/// it again goes to its tab.
pub proof fn law_opened_file_is_found(
    model: WorkspaceModel,
    path: Seq<char>,
    target: Option<Target>,
    editor: u64,
    text: Seq<char>,
    disk: Disk,
    configured: bool,
    kinds: FileKinds,
)
    ensures
        ({
            let opened = model.file_loaded(
                path,
                target,
                Ok((editor, text)),
                disk,
                configured,
                kinds,
            ).state;
            &&& opened.strip.active_path() == Some(path)
            &&& opened.strip.active_editor() == Some(editor)
            &&& opened.strip.well_formed()
            &&& tabs::tab_at_path(opened.strip.tabs, path, 0) is Some
        }),
{
    let opened = model.file_loaded(
        path,
        target,
        Ok((editor, text)),
        disk,
        configured,
        kinds,
    ).state;
    let last = model.strip.tabs.len() as int;
    assert(opened.strip.tabs[last].path == Some(path));
    lemma_tab_is_found(opened.strip.tabs, path, last, 0);
}

/// Changes are never lost without a question: closing a tab that has some
/// leaves every tab where it is, and a no leaves them too.
pub proof fn law_changes_are_not_lost_unasked(
    model: WorkspaceModel,
    index: usize,
    facts: Facts,
    editor: u64,
)
    requires
        index < model.strip.tabs.len(),
        facts.buffer_of(model.strip.tabs[index as int].editor) matches Some(buffer)
            && buffer.dirty,
    ensures
        model.close_tab_at(index, facts).state.strip == model.strip,
        model.close_tab_at(index, facts).effects.last() matches Effect::Start(
            Job::ClosePrompt,
            Work::AskToDiscard { .. },
        ),
        model.discard_answered(editor, false).state == model,
{
}

/// Everything that autosave does is a write to a file that has a path: it
/// never asks anything.
pub proof fn law_autosave_asks_nothing(model: WorkspaceModel, facts: Facts, count: int)
    ensures
        forall|i: int|
            0 <= i < model.dirty_saves(facts, count).len() ==> (#[trigger] model.dirty_saves(
                facts,
                count,
            )[i]) is Autosave,
    decreases count,
{
    if count > 0 {
        law_autosave_asks_nothing(model, facts, count - 1);
        let all = model.dirty_saves(facts, count);
        let before = model.dirty_saves(facts, count - 1);
        assert forall|i: int| 0 <= i < all.len() implies (#[trigger] all[i]) is Autosave by {
            if i < before.len() {
                assert(all[i] == before[i]);
            }
        }
    }
}

/// A write that failed leaves the buffer marked as changed, and says so.
pub proof fn law_a_failed_save_is_told(
    model: WorkspaceModel,
    save: SaveView,
    error: Seq<char>,
    disk: Disk,
    kinds: FileKinds,
)
    ensures
        model.saved(save, Some(error), disk, kinds).effects == Seq::<effects::EffectView>::empty(),
        model.saved(save, Some(error), disk, kinds).state.status == Some("save failed: "@ + error),
        model.autosaved_one(save, Some(error), kinds).effects == Seq::<effects::EffectView>::empty(),
        model.autosaved_one(save, Some(error), kinds).state.status is Some,
{
}

/// Whatever happens to the tabs, the active one is one of them.
pub proof fn law_tabs_keep_the_state(
    model: WorkspaceModel,
    index: usize,
    from: usize,
    to: usize,
    facts: Facts,
    created: Result<u64, Seq<char>>,
)
    requires
        model.well_formed(),
    ensures
        model.close_tab_at(index, facts).state.well_formed(),
        model.remove_tab(index as int).state.well_formed(),
        model.reorder_tab(from, to).state.well_formed(),
        index < model.strip.tabs.len() ==> model.select_tab(index).state.well_formed(),
        model.new_file(created).state.well_formed(),
{
}

/// Saving writes the file in front of the user whenever it has a path: the text
/// and the version that are in its buffer now, once, whether they changed or
/// not. A buffer without a path is asked a place for instead.
pub proof fn law_save_writes_what_is_in_the_buffer(model: WorkspaceModel, facts: Facts)
    requires
        0 <= model.strip.active < model.strip.tabs.len(),
    ensures
        ({
            let tab = model.strip.tabs[model.strip.active];
            let step = model.save(facts);
            &&& step.state == model
            &&& tab.path is Some && facts.buffer_of(tab.editor) is Some ==> {
                &&& step.effects.len() == 1
                &&& step.effects[0] matches Effect::Start(Job::Save, Work::WriteFile {
                    editor,
                    path,
                    text,
                    version,
                }) && editor == tab.editor && path == tab.path->0 && text == facts.buffer_of(
                    tab.editor,
                )->0.text@ && version == facts.buffer_of(tab.editor)->0.version
            }
            &&& tab.path is None ==> step.effects == seq![
                Effect::<Seq<char>>::Start(
                    Job::Save,
                    Work::ChoosePath {
                        editor: tab.editor,
                        directory: model.root(),
                        name: "untitled.php"@,
                    },
                ),
            ] && model.save_as() == step
        }),
{
}

/// With no tab open there is nothing to save.
pub proof fn law_nothing_to_save_without_a_tab(model: WorkspaceModel, facts: Facts)
    requires
        model.strip.tabs.len() == 0,
    ensures
        model.save(facts) == model.stays(),
        model.save_as() == model.stays(),
        model.autosave_dirty_tabs(facts).effects.len() == 0,
{
}

/// Opening a file goes to the first tab that shows it, puts the cursor where it
/// was asked for, and gives that editor the keyboard; a file that no tab shows
/// is read, with the same place in mind. Nothing else changes.
pub proof fn law_opening_lands_on_its_target(
    model: WorkspaceModel,
    path: Seq<char>,
    target: Option<Target>,
)
    ensures
        ({
            let step = model.open_path_target(path, target);
            &&& (forall|k: int|
                0 <= k < model.strip.tabs.len() ==> !shows_path(
                    #[trigger] model.strip.tabs[k],
                    path,
                )) ==> step.state == model && step.effects == seq![
                Effect::<Seq<char>>::Start(Job::OpenFile, Work::ReadFile { path, target }),
            ]
            &&& forall|i: int|
                0 <= i < model.strip.tabs.len() && shows_path(#[trigger] model.strip.tabs[i], path)
                    && (forall|k: int|
                    0 <= k < i ==> !shows_path(#[trigger] model.strip.tabs[k], path)) ==> {
                    let editor = model.strip.tabs[i].editor;
                    &&& step.state == (WorkspaceModel {
                        strip: tabs::StripView { active: i, ..model.strip },
                        ..model
                    })
                    &&& step.effects.last() == Effect::<Seq<char>>::Focus(Focus::Editor(editor))
                    &&& step.effects.contains(Effect::ScrollToTab(i as usize))
                    &&& step.effects.contains(Effect::ClearHoverCards)
                    &&& target is Some ==> step.effects.contains(
                        Effect::Reveal { editor, target: target->0 },
                    )
                    &&& target is None ==> forall|e: int|
                        0 <= e < step.effects.len() ==> !((#[trigger] step.effects[e]) is Reveal)
                }
        }),
{
    let step = model.open_path_target(path, target);
    tabs::law_first_tab_of_a_path(model.strip.tabs, path, 0);
    match tabs::tab_at_path(model.strip.tabs, path, 0) {
        Some(found) => {
            assert(shows_path(model.strip.tabs[found], path));
            assert(step.effects[0] == Effect::<Seq<char>>::ScrollToTab(found as usize));
            assert(step.effects[1] == Effect::<Seq<char>>::ClearHoverCards);
            if target is Some {
                assert(step.effects[2] == Effect::<Seq<char>>::Reveal {
                    editor: model.strip.tabs[found].editor,
                    target: target->0,
                });
            }
            assert forall|i: int|
                0 <= i < model.strip.tabs.len() && shows_path(#[trigger] model.strip.tabs[i], path)
                    && (forall|k: int|
                    0 <= k < i ==> !shows_path(#[trigger] model.strip.tabs[k], path)) implies i
                == found by {
                if i < found {
                    assert(!shows_path(model.strip.tabs[i], path));
                } else if found < i {
                    assert(!shows_path(model.strip.tabs[found], path));
                }
            }
        },
        None => {},
    }
}

/// The ways to open a file are one: without a place, with a point, and with a
/// position of the server's.
pub proof fn law_all_opens_are_one(model: WorkspaceModel, path: Seq<char>, point: Point)
    ensures
        model.open_path(path) == model.open_path_target(path, None),
        model.open_path_at(path, None) == model.open_path_target(path, None),
        model.open_path_at(path, Some(point)) == model.open_path_target(
            path,
            Some(Target::Point(point)),
        ),
{
}

/// A file that was read becomes the last tab and the active one; its editor
/// lands where it was asked to and gets the keyboard, and the server is told of
/// its text where it reads such files. One that could not be read only says why.
pub proof fn law_read_file_is_shown(
    model: WorkspaceModel,
    path: Seq<char>,
    target: Option<Target>,
    editor: u64,
    text: Seq<char>,
    error: Seq<char>,
    disk: Disk,
    configured: bool,
    kinds: FileKinds,
)
    ensures
        model.file_loaded(path, target, Err(error), disk, configured, kinds) == (
        workspace_view::Step {
            state: WorkspaceModel { status: Some(error), ..model },
            effects: Seq::empty(),
        }),
        ({
            let step = model.file_loaded(path, target, Ok((editor, text)), disk, configured, kinds);
            &&& step.state.strip.tabs == model.strip.tabs.push(
                tabs::TabView { path: Some(path), editor },
            )
            &&& step.state.strip.active == model.strip.tabs.len()
            &&& step.state.status is None
            &&& step.effects.contains(Effect::Focus(Focus::Editor(editor)))
            &&& step.effects.contains(Effect::ScrollToTab(model.strip.tabs.len() as usize))
            &&& target is Some ==> step.effects[0] == Effect::<Seq<char>>::Reveal {
                editor,
                target: target->0,
            }
            &&& kinds.serves(path) && model.lsp.client is Some ==> step.effects.contains(
                Effect::ServerOpen { path, text },
            )
            &&& !kinds.serves(path) || model.lsp.client is None ==> forall|e: int|
                0 <= e < step.effects.len() ==> !((#[trigger] step.effects[e]) is ServerOpen)
        }),
{
    let step = model.file_loaded(path, target, Ok((editor, text)), disk, configured, kinds);
    let at: int = if target is Some {
        1
    } else {
        0
    };
    assert(step.effects[at] == Effect::<Seq<char>>::Focus(Focus::Editor(editor)));
    assert(step.effects[at + 1] == Effect::<Seq<char>>::ScrollToTab(
        model.strip.tabs.len() as usize,
    ));
    if kinds.serves(path) && model.lsp.client is Some {
        assert(step.effects.last() == Effect::<Seq<char>>::ServerOpen { path, text });
    }
}

/// An empty buffer becomes the last tab, without a path, and gets the keyboard;
/// one that could not be made only says why.
pub proof fn law_new_buffer_is_shown(model: WorkspaceModel, editor: u64, error: Seq<char>)
    ensures
        model.new_file(Err(error)) == (workspace_view::Step {
            state: WorkspaceModel { status: Some(error), ..model },
            effects: Seq::empty(),
        }),
        model.new_file(Ok(editor)).state.strip.tabs == model.strip.tabs.push(
            tabs::TabView { path: None, editor },
        ),
        model.new_file(Ok(editor)).state.strip.active == model.strip.tabs.len(),
        model.new_file(Ok(editor)).state.status is None,
        model.new_file(Ok(editor)).effects == seq![
            Effect::<Seq<char>>::Focus(Focus::Editor(editor)),
            Effect::<Seq<char>>::ScrollToTab(model.strip.tabs.len() as usize),
        ],
{
}

/// What the command line names is opened for what it is, and something that is
/// not there is said not to be.
pub proof fn law_arguments_are_opened_for_what_they_are(model: WorkspaceModel, path: Seq<char>)
    ensures
        model.open_argument(path, PathKind::File) == model.open_path_target(path, None),
        model.open_argument(path, PathKind::Directory).effects == seq![
            Effect::<Seq<char>>::Start(Job::OpenFolder, Work::ReadTree { path }),
        ],
        model.open_argument(path, PathKind::Directory).state == model,
        model.open_argument(path, PathKind::Missing).effects.len() == 0,
        model.open_argument(path, PathKind::Missing).state == (WorkspaceModel {
            status: Some(path + " does not exist"@),
            ..model
        }),
{
}

/// A link in the terminal opens the file it names, below the project's root
/// where it does not start at the root, on the line counted from zero; one that
/// names no file does nothing.
pub proof fn law_terminal_links_open_files(
    model: WorkspaceModel,
    path: Seq<char>,
    line: Option<u32>,
    disk: Disk,
)
    ensures
        path.len() > 0 && path[0] == '/' && disk.is_file(path) ==> model.open_terminal_link(
            path,
            line,
            disk,
        ) == model.open_path_at(path, line_target(line)),
        path.len() > 0 && path[0] == '/' && !disk.is_file(path) ==> model.open_terminal_link(
            path,
            line,
            disk,
        ) == model.stays(),
        !(path.len() > 0 && path[0] == '/') && model.tree is Some ==> {
            let file = paths::join(model.tree->0.root, path);
            &&& disk.is_file(file) ==> model.open_terminal_link(path, line, disk)
                == model.open_path_at(file, line_target(line))
            &&& !disk.is_file(file) ==> model.open_terminal_link(path, line, disk) == model.stays()
        },
        !(path.len() > 0 && path[0] == '/') && model.tree is None ==> model.open_terminal_link(
            path,
            line,
            disk,
        ) == model.stays(),
        line is None ==> line_target(line) is None,
        line is Some ==> line_target(line) is Some && line_target(line)->0.column == 0,
        line is Some && line->0 > 0 ==> line_target(line)->0.row + 1 == line->0,
        line is Some && line->0 == 0 ==> line_target(line)->0.row == 0,
{
}

/// An opened folder becomes the project: it is watched, its git status and its
/// index are read, an open terminal follows it, and the tests of the last one
/// are stopped and gone. A folder that could not be read only says why.
pub proof fn law_opened_folder_becomes_the_project(
    model: WorkspaceModel,
    tree: tree::TreeView,
    configured: bool,
    error: Seq<char>,
)
    ensures
        model.folder_loaded(Err(error), configured) == (workspace_view::Step {
            state: WorkspaceModel { status: Some(error), ..model },
            effects: Seq::empty(),
        }),
        model.folder_loaded(Ok(tree), configured) == model.adopt_tree(tree, configured),
        ({
            let step = model.adopt_tree(tree, configured);
            let root = tree.root;
            &&& step.state.tree == Some(tree)
            &&& step.state.status is None
            &&& step.state.tests is None
            &&& step.state.tests_open is None
            &&& step.state.test_cancel is None
            &&& step.state.strip == model.strip
            &&& step.state.lsp.root == Some(root)
            &&& step.effects[0] == Effect::<Seq<char>>::WatchTree(root)
            &&& model.test_cancel is Some ==> step.effects.contains(Effect::CancelWalk(effects::Walk::Tests))
            &&& step.effects.contains(Effect::RebuildIndex(root))
            &&& step.effects.contains(
                Effect::Start(Job::GitStatus, Work::ReadGitStatus { root }),
            )
            &&& configured ==> step.effects.contains(
                Effect::Start(Job::Lsp, Work::StartServer { root }),
            )
            &&& model.terminal is Some ==> step.effects.last() == Effect::<
                Seq<char>,
            >::SetTerminalDirectory(Some(root))
        }),
{
    let opened = WorkspaceModel { tree: Some(tree), status: None, ..model };
    let root = tree.root;
    let watched = opened.asks(seq![Effect::WatchTree(root)]).followed_by(opened.cancel_test_run());
    let cleared = WorkspaceModel { tests: None, tests_open: None, ..watched.state };
    let started = cleared.start_lsp(configured);
    let read = started.state.refresh_git_status();
    let step = model.adopt_tree(tree, configured);
    let a = watched.effects.len() as int;
    let b = started.effects.len() as int;
    let c = read.effects.len() as int;
    if model.test_cancel is Some {
        assert(step.effects[1] == Effect::<Seq<char>>::CancelWalk(effects::Walk::Tests));
    }
    if configured {
        assert(started.effects[b - 1] == Effect::<Seq<char>>::Start(
            Job::Lsp,
            Work::StartServer { root },
        ));
        assert(step.effects[a + b - 1] == started.effects[b - 1]);
    }
    assert(read.effects[c - 1] == Effect::<Seq<char>>::Start(
        Job::GitStatus,
        Work::ReadGitStatus { root },
    ));
    assert(step.effects[a + b + c - 1] == read.effects[c - 1]);
    assert(step.effects[a + b + c] == Effect::<Seq<char>>::RebuildIndex(root));
}

/// Clicking a tab goes to it; closing a clean one takes it out and tells the
/// server that its file is closed, and nothing is asked.
pub proof fn law_clean_tab_closes_unasked(model: WorkspaceModel, index: usize, facts: Facts)
    requires
        model.well_formed(),
        index < model.strip.tabs.len(),
        facts.buffer_of(model.strip.tabs[index as int].editor) is None || !facts.buffer_of(
            model.strip.tabs[index as int].editor,
        )->0.dirty,
    ensures
        model.select_tab(index).state == (WorkspaceModel {
            strip: tabs::StripView { active: index as int, ..model.strip },
            ..model
        }),
        model.select_tab(index).effects.contains(Effect::ScrollToTab(index)),
        model.close_tab_at(index, facts).state.strip.tabs == model.strip.tabs.remove(index as int),
        model.strip.tabs[index as int].path is Some ==> model.close_tab_at(
            index,
            facts,
        ).effects.contains(Effect::ClearDiagnostics(model.strip.tabs[index as int].path->0)),
        model.strip.tabs[index as int].path is Some && model.lsp.client is Some
            ==> model.close_tab_at(index, facts).effects.contains(
            Effect::ServerClose(model.strip.tabs[index as int].path->0),
        ),
        forall|e: int|
            0 <= e < model.close_tab_at(index, facts).effects.len() ==> !((
            #[trigger] model.close_tab_at(index, facts).effects[e]) is Start),
{
    assert(model.select_tab(index).effects[0] == Effect::<Seq<char>>::ScrollToTab(index));
    let quiet = model.dismiss_completion();
    let step = model.close_tab_at(index, facts);
    let a = quiet.effects.len() as int;
    if model.strip.tabs[index as int].path is Some {
        let path = model.strip.tabs[index as int].path->0;
        if model.lsp.client is Some {
            assert(step.effects[a] == Effect::<Seq<char>>::ServerClose(path));
            assert(step.effects[a + 1] == Effect::<Seq<char>>::ClearDiagnostics(path));
        } else {
            assert(step.effects[a] == Effect::<Seq<char>>::ClearDiagnostics(path));
        }
    }
}

/// A tab with changes is asked about by its own name before it is closed; a yes
/// closes the tab of that editor, wherever it is by then, and a no leaves it.
pub proof fn law_dirty_tab_is_asked_about(
    model: WorkspaceModel,
    index: usize,
    facts: Facts,
    later: WorkspaceModel,
    at: int,
)
    requires
        index < model.strip.tabs.len(),
        facts.buffer_of(model.strip.tabs[index as int].editor) is Some && facts.buffer_of(
            model.strip.tabs[index as int].editor,
        )->0.dirty,
        0 <= at < later.strip.tabs.len(),
        later.strip.tabs[at].editor == model.strip.tabs[index as int].editor,
        forall|k: int|
            0 <= k < at ==> (#[trigger] later.strip.tabs[k]).editor != later.strip.tabs[at].editor,
    ensures
        ({
            let editor = model.strip.tabs[index as int].editor;
            let buffer = facts.buffer_of(editor)->0;
            &&& model.close_tab_at(index, facts).effects.last() == Effect::<Seq<char>>::Start(
                Job::ClosePrompt,
                Work::AskToDiscard {
                    editor,
                    message: buffer.title@ + " has unsaved changes."@,
                    detail: "Closing this tab will discard them."@,
                },
            )
            &&& later.discard_answered(editor, true).state.strip.tabs == later.strip.tabs.remove(at)
            &&& later.discard_answered(editor, false) == later.stays()
        }),
{
    tabs::law_first_tab_of_an_editor(
        later.strip.tabs,
        model.strip.tabs[index as int].editor,
        0,
    );
}

/// Closing the tab in front of the user is closing the tab at its index.
pub proof fn law_close_closes_the_active_tab(model: WorkspaceModel, facts: Facts)
    requires
        0 <= model.strip.active < model.strip.tabs.len() <= usize::MAX,
    ensures
        model.close_tab(facts) == model.close_tab_at(model.strip.active as usize, facts),
{
}

/// A save that worked marks that version of that buffer as saved, tells the
/// server the text that was written, reads git's status again and clears the
/// status bar; the index is built anew for models and migrations alone.
pub proof fn law_finished_save_is_told(
    model: WorkspaceModel,
    save: SaveView,
    disk: Disk,
    kinds: FileKinds,
)
    ensures
        ({
            let step = model.saved(save, None, disk, kinds);
            &&& step.state.status is None
            &&& step.effects.contains(
                Effect::MarkSaved { editor: save.editor, version: save.version },
            )
            &&& kinds.serves(save.path) && model.lsp.client is Some ==> step.effects[0] == Effect::<
                Seq<char>,
            >::ServerChange { path: save.path, text: save.text }
            &&& model.tree is Some ==> step.effects.contains(
                Effect::Start(
                    Job::GitStatus,
                    Work::ReadGitStatus { root: model.tree->0.root },
                ),
            )
            &&& model.tree is Some && (disk.under(
                save.path,
                paths::join(model.tree->0.root, "app/Models"@),
            ) || disk.under(save.path, paths::join(model.tree->0.root, "database/migrations"@)))
                ==> step.effects.last() == Effect::<Seq<char>>::RebuildIndex(model.tree->0.root)
            &&& model.tree is Some && !disk.under(
                save.path,
                paths::join(model.tree->0.root, "app/Models"@),
            ) && !disk.under(save.path, paths::join(model.tree->0.root, "database/migrations"@))
                ==> forall|e: int|
                0 <= e < step.effects.len() ==> !((#[trigger] step.effects[e]) is RebuildIndex)
        }),
{
    let step = model.saved(save, None, disk, kinds);
    let told = model.notify_lsp_of_change(save.path, save.text, kinds);
    let clean = WorkspaceModel { status: None, ..model };
    let read = clean.refresh_git_status();
    let a = told.len() as int;
    let b = read.effects.len() as int;
    assert(step.effects[a] == Effect::<Seq<char>>::MarkSaved {
        editor: save.editor,
        version: save.version,
    });
    if model.tree is Some {
        assert(read.effects[b - 1] == Effect::<Seq<char>>::Start(
            Job::GitStatus,
            Work::ReadGitStatus { root: model.tree->0.root },
        ));
        assert(step.effects[a + b] == read.effects[b - 1]);
    }
}

/// A buffer that was given a path keeps its editor and its place among the tabs,
/// and is marked as saved under that path.
pub proof fn law_named_buffer_has_its_path(
    model: WorkspaceModel,
    at: int,
    path: Seq<char>,
    version: u64,
    error: Seq<char>,
)
    requires
        0 <= at < model.strip.tabs.len(),
        forall|k: int|
            0 <= k < at ==> (#[trigger] model.strip.tabs[k]).editor != model.strip.tabs[at].editor,
    ensures
        ({
            let editor = model.strip.tabs[at].editor;
            let step = model.saved_as(editor, path, version, None);
            &&& step.state.strip.tabs == model.strip.tabs.update(
                at,
                tabs::TabView { path: Some(path), editor },
            )
            &&& step.state.strip.active == model.strip.active
            &&& step.state.status is None
            &&& step.effects == seq![
                Effect::<Seq<char>>::MarkSaved { editor, version },
                Effect::<Seq<char>>::SetDocumentPath { editor, path },
            ]
            &&& model.saved_as(editor, path, version, Some(error)) == (workspace_view::Step {
                state: WorkspaceModel { status: Some("save failed: "@ + error), ..model },
                effects: Seq::empty(),
            })
        }),
{
    tabs::law_first_tab_of_an_editor(model.strip.tabs, model.strip.tabs[at].editor, 0);
}

/// Autosave writes every buffer that changed and has a path, each with its own
/// text and version and in the order of the tabs, and no other; where it is
/// switched off it writes nothing. It changes nothing itself.
pub proof fn law_autosave_writes_every_change(model: WorkspaceModel, facts: Facts)
    ensures
        model.autosave_dirty_tabs(facts).state == model,
        !facts.autosave ==> model.autosave_dirty_tabs(facts).effects.len() == 0,
        facts.autosave ==> model.autosave_dirty_tabs(facts).effects == model.strip.tabs.filter_map(
            |tab: tabs::TabView| written_by_autosave(tab, facts),
        ),
        facts.autosave ==> model.schedule_autosave(facts) == seq![
            Effect::<Seq<char>>::Start(Job::AutosaveDebounce, Work::WaitToAutosave),
        ],
        !facts.autosave ==> model.schedule_autosave(facts).len() == 0,
{
    let all = model.strip.tabs;
    lemma_autosave_of(model, facts, all.len() as int);
    assert(all.take(all.len() as int) =~= all);
}

/// What autosave writes of one tab: a buffer with changes, to its path.
pub open spec fn written_by_autosave(tab: tabs::TabView, facts: Facts) -> Option<
    effects::EffectView,
> {
    if tab.path is Some && facts.buffer_of(tab.editor) is Some && facts.buffer_of(
        tab.editor,
    )->0.dirty {
        Some(
            Effect::Autosave {
                editor: tab.editor,
                path: tab.path->0,
                text: facts.buffer_of(tab.editor)->0.text@,
                version: facts.buffer_of(tab.editor)->0.version,
            },
        )
    } else {
        None
    }
}

proof fn lemma_autosave_of(model: WorkspaceModel, facts: Facts, count: int)
    requires
        0 <= count <= model.strip.tabs.len(),
    ensures
        model.dirty_saves(facts, count) == model.strip.tabs.take(count).filter_map(
            |tab: tabs::TabView| written_by_autosave(tab, facts),
        ),
    decreases count,
{
    let f = |tab: tabs::TabView| written_by_autosave(tab, facts);
    if count > 0 {
        lemma_autosave_of(model, facts, count - 1);
        let front = model.strip.tabs.take(count);
        assert(front.drop_last() =~= model.strip.tabs.take(count - 1));
        assert(front.last() == model.strip.tabs[count - 1]);
    }
    assert(model.dirty_saves(facts, count) =~= model.strip.tabs.take(count).filter_map(f));
}

/// Each write of autosave is answered for itself: a success marks that version
/// as saved and tells the server, a failure names its file.
pub proof fn law_autosave_answers_for_each_file(
    model: WorkspaceModel,
    save: SaveView,
    error: Seq<char>,
    kinds: FileKinds,
)
    ensures
        model.autosaved_one(save, None, kinds).state == model,
        model.autosaved_one(save, None, kinds).effects.last() == (Effect::<Seq<char>>::MarkSaved {
            editor: save.editor,
            version: save.version,
        }),
        kinds.serves(save.path) && model.lsp.client is Some ==> model.autosaved_one(
            save,
            None,
            kinds,
        ).effects[0] == (Effect::<Seq<char>>::ServerChange { path: save.path, text: save.text }),
        model.autosaved_one(save, Some(error), kinds).state == (WorkspaceModel {
            status: Some("autosave failed: "@ + save.path + ": "@ + error),
            ..model
        }),
{
}

/// After autosave every write was answered for, and git's status is read again.
pub proof fn law_autosave_is_answered_whole(
    model: WorkspaceModel,
    saves: Seq<(SaveView, Option<Seq<char>>)>,
    kinds: FileKinds,
    i: int,
)
    requires
        0 <= i < saves.len(),
        saves[i].1 is None,
        model.tree is Some,
    ensures
        model.autosaved(saves, kinds).effects.contains(
            Effect::MarkSaved { editor: saves[i].0.editor, version: saves[i].0.version },
        ),
        model.autosaved(saves, kinds).effects.last() == Effect::<Seq<char>>::Start(
            Job::GitStatus,
            Work::ReadGitStatus { root: model.tree->0.root },
        ),
{
    lemma_autosaved_mark(model, saves, kinds, i, saves.len() as int);
    let done = model.autosaved_first(saves, kinds, saves.len() as int);
    let mark = Effect::<Seq<char>>::MarkSaved {
        editor: saves[i].0.editor,
        version: saves[i].0.version,
    };
    let at = choose|at: int| 0 <= at < done.effects.len() && done.effects[at] == mark;
    assert(model.autosaved(saves, kinds).effects[at] == mark);
}

proof fn lemma_autosaved_mark(
    model: WorkspaceModel,
    saves: Seq<(SaveView, Option<Seq<char>>)>,
    kinds: FileKinds,
    i: int,
    count: int,
)
    requires
        0 <= i < saves.len(),
        saves[i].1 is None,
        0 <= count <= saves.len(),
    ensures
        model.autosaved_first(saves, kinds, count).state.tree == model.tree,
        i < count ==> model.autosaved_first(saves, kinds, count).effects.contains(
            Effect::MarkSaved { editor: saves[i].0.editor, version: saves[i].0.version },
        ),
    decreases count,
{
    if count > 0 {
        lemma_autosaved_mark(model, saves, kinds, i, count - 1);
        let before = model.autosaved_first(saves, kinds, count - 1);
        let all = model.autosaved_first(saves, kinds, count);
        let mark = Effect::<Seq<char>>::MarkSaved {
            editor: saves[i].0.editor,
            version: saves[i].0.version,
        };
        if i < count - 1 {
            let at = choose|at: int| 0 <= at < before.effects.len() && before.effects[at] == mark;
            assert(all.effects[at] == mark);
        } else if i == count - 1 {
            assert(all.effects.last() == mark);
        }
    }
}

/// A server is started for a file only where no folder is open and none was ever
/// tried, in the project around the file; the server that a file is opened for
/// hears of it once it runs.
pub proof fn law_a_file_starts_one_server(
    model: WorkspaceModel,
    path: Seq<char>,
    text: Seq<char>,
    disk: Disk,
    configured: bool,
    kinds: FileKinds,
)
    ensures
        model.tree is Some || model.lsp.client is Some || !(model.lsp.state is Idle)
            ==> model.start_lsp_for_file(path, disk, configured) == model.stays(),
        model.tree is None && model.lsp.client is None && model.lsp.state is Idle
            && disk.project_root(path) is Some ==> model.start_lsp_for_file(path, disk, configured)
            == model.start_lsp_at(disk.project_root(path)->0, configured),
        !kinds.serves(path) ==> model.open_on_lsp(path, text, disk, configured, kinds)
            == model.stays(),
        kinds.serves(path) && model.lsp.client is Some ==> model.open_on_lsp(
            path,
            text,
            disk,
            configured,
            kinds,
        ).effects == seq![Effect::<Seq<char>>::ServerOpen { path, text }],
        kinds.serves(path) && model.lsp.client is None ==> model.open_on_lsp(
            path,
            text,
            disk,
            configured,
            kinds,
        ).effects == model.start_lsp_for_file(path, disk, configured).effects,
        model.tree is Some ==> model.start_lsp(configured) == model.start_lsp_at(
            model.tree->0.root,
            configured,
        ),
        model.tree is None ==> model.start_lsp(configured) == model.stays(),
{
    if kinds.serves(path) {
        assert(model.open_on_lsp(path, text, disk, configured, kinds).effects
            =~= model.start_lsp_for_file(path, disk, configured).effects + (
        if model.lsp.client is Some {
            seq![Effect::<Seq<char>>::ServerOpen { path, text }]
        } else {
            Seq::empty()
        }));
    }
}

/// A server that is started is at the root it was asked for, and starting; one
/// that is not configured is not there.
pub proof fn law_server_starts_at_its_root(model: WorkspaceModel, root: Seq<char>)
    ensures
        model.start_lsp_at(root, true).state.lsp.root == Some(root),
        model.start_lsp_at(root, true).state.lsp.state is Starting,
        model.start_lsp_at(root, true).effects.last() == Effect::<Seq<char>>::Start(
            Job::Lsp,
            Work::StartServer { root },
        ),
        model.start_lsp_at(root, false).state.lsp.root == Some(root),
        model.start_lsp_at(root, false).state.lsp.state is Unavailable,
        forall|e: int|
            0 <= e < model.start_lsp_at(root, false).effects.len() ==> !((
            #[trigger] model.start_lsp_at(root, false).effects[e]) is Start),
        model.start_lsp_at(root, true).state.lsp.restarts == model.lsp.restarts,
        model.start_lsp_at(root, true).state.strip == model.strip,
{
}

/// The server hears of a change, with the text as it is now, exactly where it is
/// there and reads such files; of a close wherever it is there, and what it
/// reported on the file goes away in any case.
pub proof fn law_server_hears_of_its_files(
    model: WorkspaceModel,
    path: Seq<char>,
    text: Seq<char>,
    kinds: FileKinds,
)
    ensures
        model.lsp.client is Some && kinds.serves(path) ==> model.notify_lsp_of_change(
            path,
            text,
            kinds,
        ) == seq![Effect::<Seq<char>>::ServerChange { path, text }],
        model.lsp.client is None || !kinds.serves(path) ==> model.notify_lsp_of_change(
            path,
            text,
            kinds,
        ).len() == 0,
        model.lsp.client is Some ==> model.close_on_lsp(path) == seq![
            Effect::<Seq<char>>::ServerClose(path),
            Effect::<Seq<char>>::ClearDiagnostics(path),
        ],
        model.lsp.client is None ==> model.close_on_lsp(path) == seq![
            Effect::<Seq<char>>::ClearDiagnostics(path),
        ],
{
}

/// A dragged tab moves to its slot and nothing else in the window changes; a drag
/// onto itself or outside the strip moves nothing.
pub proof fn law_dragged_tab_is_moved(model: WorkspaceModel, from: usize, to: usize)
    requires
        model.well_formed(),
    ensures
        from < model.strip.tabs.len() && to < model.strip.tabs.len() ==> {
            let step = model.reorder_tab(from, to);
            &&& step.state.strip.tabs[to as int] == model.strip.tabs[from as int]
            &&& step.state.strip.tabs.remove(to as int) == model.strip.tabs.remove(from as int)
            &&& step.state.strip.tabs[step.state.strip.active]
                == model.strip.tabs[model.strip.active]
            &&& step.state == (WorkspaceModel { strip: step.state.strip, ..model })
            &&& from != to ==> step.effects == seq![
                Effect::<Seq<char>>::ScrollToTab(step.state.strip.active as usize),
            ]
            &&& from == to ==> step.effects.len() == 0
        },
        from >= model.strip.tabs.len() || to >= model.strip.tabs.len() ==> model.reorder_tab(
            from,
            to,
        ) == model.stays(),
{
    if from < model.strip.tabs.len() && to < model.strip.tabs.len() {
        tabs::law_dragged_tab_lands_in_its_slot(model.strip, from as int, to as int);
        tabs::law_reorder_keeps_active_file(
            model.strip.tabs,
            model.strip.active,
            from as int,
            to as int,
        );
    }
}

/// A removed tab is taken out of the strip, the server is told that its file is
/// closed, and nothing else in the window changes.
pub proof fn law_removed_tab_is_closed(model: WorkspaceModel, index: int)
    requires
        0 <= index < model.strip.tabs.len(),
    ensures
        ({
            let step = model.remove_tab(index);
            &&& step.state == (WorkspaceModel { strip: model.strip.without(index), ..model })
            &&& step.state.strip.tabs == model.strip.tabs.remove(index)
            &&& model.strip.tabs[index].path matches Some(path) ==> {
                &&& model.lsp.client is Some ==> step.effects == seq![
                    Effect::<Seq<char>>::ServerClose(path),
                    Effect::<Seq<char>>::ClearDiagnostics(path),
                    Effect::<Seq<char>>::ScrollToTab(step.state.strip.active as usize),
                    Effect::<Seq<char>>::ClearHoverCards,
                ]
                &&& model.lsp.client is None ==> step.effects == seq![
                    Effect::<Seq<char>>::ClearDiagnostics(path),
                    Effect::<Seq<char>>::ScrollToTab(step.state.strip.active as usize),
                    Effect::<Seq<char>>::ClearHoverCards,
                ]
            }
            &&& model.strip.tabs[index].path is None ==> step.effects == seq![
                Effect::<Seq<char>>::ScrollToTab(step.state.strip.active as usize),
                Effect::<Seq<char>>::ClearHoverCards,
            ]
        }),
{
}

/// Closing a tab closes the completion popup first, and a tab that is not there
/// closes nothing more.
pub proof fn law_popup_closes_with_a_tab(model: WorkspaceModel, index: usize, facts: Facts)
    ensures
        index >= model.strip.tabs.len() ==> model.close_tab_at(index, facts)
            == model.dismiss_completion(),
        index < model.strip.tabs.len() && (facts.buffer_of(
            model.strip.tabs[index as int].editor,
        ) is None || !facts.buffer_of(model.strip.tabs[index as int].editor)->0.dirty) ==> {
            let closed = model.dismiss_completion();
            let removed = closed.state.remove_tab(index as int);
            &&& model.close_tab_at(index, facts).state == removed.state
            &&& model.close_tab_at(index, facts).effects == closed.effects + removed.effects
        },
        index < model.strip.tabs.len() && facts.buffer_of(
            model.strip.tabs[index as int].editor,
        ) is Some && facts.buffer_of(model.strip.tabs[index as int].editor)->0.dirty
            ==> model.close_tab_at(index, facts).state == model.dismiss_completion().state,
{
}

/// A server that is started begins with nothing: it has heard of no document and
/// reported no problem, and the one before it is shut down.
pub proof fn law_started_server_begins_clean(
    model: WorkspaceModel,
    root: Seq<char>,
    configured: bool,
)
    ensures
        ({
            let step = model.start_lsp_at(root, configured);
            &&& step.state.lsp.synced.len() == 0
            &&& step.state.lsp.errors == 0
            &&& step.state.lsp.warnings == 0
            &&& step.state.lsp.client is None
            &&& step.state == (WorkspaceModel { lsp: step.state.lsp, ..model })
            &&& model.lsp.client is Some ==> step.effects[0] == Effect::<Seq<char>>::ShutDownServer
            &&& model.lsp.client is None && configured ==> step.effects.len() == 1
            &&& model.lsp.client is None && !configured ==> step.effects.len() == 0
        }),
{
}

/// A tab whose buffer is not known is not written, and the answer about a tab
/// that is gone closes nothing.
pub proof fn law_nothing_is_done_to_what_is_gone(
    model: WorkspaceModel,
    editor: u64,
    discard: bool,
    facts: Facts,
)
    ensures
        0 <= model.strip.active < model.strip.tabs.len()
            && model.strip.tabs[model.strip.active].path is Some && facts.buffer_of(
            model.strip.tabs[model.strip.active].editor,
        ) is None ==> model.save(facts) == model.stays(),
        (forall|k: int|
            0 <= k < model.strip.tabs.len() ==> (#[trigger] model.strip.tabs[k]).editor != editor)
            ==> model.discard_answered(editor, discard) == model.stays(),
{
    tabs::law_first_tab_of_an_editor(model.strip.tabs, editor, 0);
}

} // verus!

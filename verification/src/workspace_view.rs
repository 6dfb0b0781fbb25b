//! The workspace: the state behind the window, and what each event makes of
//! it.
//!
//! A handler takes an event, changes the state, and hands back what is to be
//! carried out. Contracts speak of the state by its model: each handler has a
//! spec function of the same name that says which state it leads to and which
//! effects it asks for.

use vstd::prelude::*;
use vstd::string::*;

use crate::completion::CompletionTrigger;
use crate::database;
use crate::database::Database;
use crate::docker;
use crate::docker::Services;
use crate::effects;
use crate::effects::{also, both, nothing, only, Effect, Focus, GitState, Walk, Work};
use crate::git;
use crate::git::{git_operation_status, git_write_status};
use crate::history;
use crate::history::JumpHistory;
use crate::jobs::Job;
use crate::lsp;
use crate::lsp::Lsp;
use crate::palette::PaletteMode;
use crate::search;
use crate::search::SearchPanel;
use crate::tabs;
use crate::tabs::TabStrip;
use crate::test_view;
use crate::test_view::TestView;
use crate::text::owned;
use crate::tree;
use crate::tree::Tree;
use crate::update::UpdateState;

verus! {

/// Something that lives outside the state and is only known to be there: an
/// open panel, or the flag that stops a walk.
#[derive(Clone, Copy, PartialEq, Eq, Structural, Debug)]
pub struct Handle {}

/// Which panel the sidebar shows.
#[derive(Clone, Copy, PartialEq, Eq, Structural, Debug)]
pub enum Sidebar {
    Explorer,
    Search,
    Git,
    Database,
    Docker,
}

impl Default for Sidebar {
    fn default() -> (sidebar: Self)
        ensures
            sidebar == Sidebar::Explorer,
    {
        Sidebar::Explorer
    }
}

/// Which step of the context menu is in flight.
#[derive(Clone, Copy, PartialEq, Eq, Structural, Debug)]
pub enum PendingKind {
    /// The menu is open and nothing was chosen.
    Menu,
    CreateFile,
    CreateDirectory,
    Rename,
    Delete,
}

/// The row that a context menu is about, and what is about to happen to it.
pub struct PendingFileAction {
    /// The row's path. For a create, the directory to create in.
    pub path: String,
    pub is_dir: bool,
    pub kind: PendingKind,
}

/// What a context menu is about, as contracts see it.
pub struct PendingView {
    pub path: Seq<char>,
    pub is_dir: bool,
    pub kind: PendingKind,
}

impl View for PendingFileAction {
    type V = PendingView;

    open spec fn view(&self) -> PendingView {
        PendingView { path: self.path@, is_dir: self.is_dir, kind: self.kind }
    }
}

/// The state behind the window.
pub struct WorkspaceView {
    pub tree: Option<Tree>,
    pub strip: TabStrip,
    pub palette: Option<PaletteMode>,
    /// The settings panel, while it is open.
    pub settings_panel: Option<Handle>,
    /// The tree's menu, its prompt or its question, while one is open.
    pub overlay: Option<Handle>,
    pub pending: Option<PendingFileAction>,
    /// The find bar, while it is open.
    pub find: Option<Handle>,
    /// The search panel, once it was used.
    pub search_panel: Option<SearchPanel>,
    /// What stops the project search.
    pub search_cancel: Option<Handle>,
    /// The terminal panel, while it is open.
    pub terminal: Option<Handle>,
    /// The test panel, once it was used: what a run reports is there when the
    /// panel is opened again.
    pub tests: Option<TestView>,
    /// Whether the test panel is on screen.
    pub tests_open: Option<Handle>,
    /// What stops the test run.
    pub test_cancel: Option<Handle>,
    /// The log panel, while it is open.
    pub logs: Option<Handle>,
    /// What the status bar says.
    pub status: Option<String>,
    /// What stops the walk of the project's files.
    pub quick_open_cancel: Option<Handle>,
    pub lsp: Lsp,
    pub history: JumpHistory,
    /// The question to the language server that is in flight.
    pub in_flight_query: Option<u64>,
    /// What a rename prompt is about: the file and the byte in it.
    pub pending_rename: Option<(String, usize)>,
    /// How many fixes the open palette offers.
    pub pending_code_actions: usize,
    pub database: Database,
    pub docker_services: Services,
    pub git: GitState,
    /// What stops the status walk.
    pub git_cancel: Option<Handle>,
    /// The diff of the selected file, once it was read.
    pub git_diff: Option<Handle>,
    pub sidebar: Sidebar,
    /// The observer of the window's activation.
    pub window_activation: Option<Handle>,
    pub update_state: UpdateState,
    /// The check for releases.
    pub update_check: Option<Handle>,
    /// What opened the completion popup, while it is open.
    pub completion: Option<CompletionTrigger>,
    /// Where the popup overwrites from: the editor, and the byte in it.
    pub completion_word_start: Option<(u64, usize)>,
    /// The completion request that is in flight.
    pub completion_query: Option<u64>,
}

/// The state behind the window, as contracts see it.
pub struct WorkspaceModel {
    pub tree: Option<tree::TreeView>,
    pub strip: tabs::StripView,
    pub palette: Option<PaletteMode>,
    pub settings_panel: Option<Handle>,
    pub overlay: Option<Handle>,
    pub pending: Option<PendingView>,
    pub find: Option<Handle>,
    pub search_panel: Option<search::SearchView>,
    pub search_cancel: Option<Handle>,
    pub terminal: Option<Handle>,
    pub tests: Option<test_view::PanelView>,
    pub tests_open: Option<Handle>,
    pub test_cancel: Option<Handle>,
    pub logs: Option<Handle>,
    pub status: Option<Seq<char>>,
    pub quick_open_cancel: Option<Handle>,
    pub lsp: lsp::LspView,
    pub history: history::Trail,
    pub in_flight_query: Option<u64>,
    pub pending_rename: Option<(Seq<char>, usize)>,
    pub pending_code_actions: usize,
    pub database: database::DatabaseView,
    pub docker_services: docker::ServicesView,
    pub git: GitState,
    pub git_cancel: Option<Handle>,
    pub git_diff: Option<Handle>,
    pub sidebar: Sidebar,
    pub window_activation: Option<Handle>,
    pub update_state: UpdateState,
    pub update_check: Option<Handle>,
    pub completion: Option<CompletionTrigger>,
    pub completion_word_start: Option<(u64, usize)>,
    pub completion_query: Option<u64>,
}

impl View for WorkspaceView {
    type V = WorkspaceModel;

    open spec fn view(&self) -> WorkspaceModel {
        WorkspaceModel {
            tree: match self.tree {
                Some(tree) => Some(tree@),
                None => None,
            },
            strip: self.strip@,
            palette: self.palette,
            settings_panel: self.settings_panel,
            overlay: self.overlay,
            pending: match self.pending {
                Some(pending) => Some(pending@),
                None => None,
            },
            find: self.find,
            search_panel: match self.search_panel {
                Some(panel) => Some(panel@),
                None => None,
            },
            search_cancel: self.search_cancel,
            terminal: self.terminal,
            tests: match self.tests {
                Some(panel) => Some(panel@),
                None => None,
            },
            tests_open: self.tests_open,
            test_cancel: self.test_cancel,
            logs: self.logs,
            status: self.status.deep_view(),
            quick_open_cancel: self.quick_open_cancel,
            lsp: self.lsp@,
            history: self.history@,
            in_flight_query: self.in_flight_query,
            pending_rename: match self.pending_rename {
                Some((path, offset)) => Some((path@, offset)),
                None => None,
            },
            pending_code_actions: self.pending_code_actions,
            database: self.database@,
            docker_services: self.docker_services@,
            git: self.git,
            git_cancel: self.git_cancel,
            git_diff: self.git_diff,
            sidebar: self.sidebar,
            window_activation: self.window_activation,
            update_state: self.update_state,
            update_check: self.update_check,
            completion: self.completion,
            completion_word_start: self.completion_word_start,
            completion_query: self.completion_query,
        }
    }
}

/// What an event comes to: the state it leads to, and what is to be carried
/// out on the way.
pub struct Step {
    pub state: WorkspaceModel,
    pub effects: Seq<effects::EffectView>,
}

impl Step {
    /// With more to carry out.
    pub open spec fn and(self, more: Seq<effects::EffectView>) -> Step {
        Step { state: self.state, effects: self.effects + more }
    }

    /// With a second step taken from where this one led.
    pub open spec fn followed_by(self, next: Step) -> Step {
        Step { state: next.state, effects: self.effects + next.effects }
    }
}

impl WorkspaceModel {
    /// Nothing happens.
    pub open spec fn stays(self) -> Step {
        Step { state: self, effects: Seq::empty() }
    }

    /// The state stays, and something is carried out.
    pub open spec fn asks(self, effects: Seq<effects::EffectView>) -> Step {
        Step { state: self, effects }
    }

    /// The status bar says something.
    pub open spec fn says(self, status: Seq<char>) -> WorkspaceModel {
        WorkspaceModel { status: Some(status), ..self }
    }

    /// The root of the open project.
    pub open spec fn root(self) -> Option<Seq<char>> {
        match self.tree {
            Some(tree) => Some(tree.root),
            None => None,
        }
    }

    /// A window that nothing was opened in.
    pub open spec fn new() -> WorkspaceModel {
        WorkspaceModel {
            tree: None,
            strip: tabs::StripView { tabs: Seq::empty(), active: 0 },
            palette: None,
            settings_panel: None,
            overlay: None,
            pending: None,
            find: None,
            search_panel: None,
            search_cancel: None,
            terminal: None,
            tests: None,
            tests_open: None,
            test_cancel: None,
            logs: None,
            status: None,
            quick_open_cancel: None,
            lsp: lsp::LspView::fresh(),
            history: history::Trail { back: Seq::empty(), forward: Seq::empty() },
            in_flight_query: None,
            pending_rename: None,
            pending_code_actions: 0,
            database: database::DatabaseView::fresh(),
            docker_services: None,
            git: GitState::NoFolder,
            git_cancel: None,
            git_diff: None,
            sidebar: Sidebar::Explorer,
            window_activation: None,
            update_state: UpdateState::Idle,
            update_check: None,
            completion: None,
            completion_word_start: None,
            completion_query: None,
        }
    }

    /// Whether the state holds together: the active index is that of a tab,
    /// the trail of jumps is bounded, and there is a word to complete only
    /// while the popup is open.
    pub open spec fn well_formed(self) -> bool {
        &&& self.strip.well_formed()
        &&& self.history.bounded()
        &&& self.completion is None ==> self.completion_word_start is None
            && self.completion_query is None
    }

    // -----------------------------------------------------------------------
    // Focus, and work that is stopped
    // -----------------------------------------------------------------------

    /// Who gets the keyboard back: the editor, and the window where there is
    /// none.
    pub open spec fn focus_editor_or_workspace(self) -> effects::EffectView {
        match self.strip.active_editor() {
            Some(editor) => Effect::Focus(Focus::Editor(editor)),
            None => Effect::Focus(Focus::Workspace),
        }
    }

    /// Tells the server to stop computing an answer, while there is one.
    pub open spec fn withdraw(self, query: Option<u64>) -> Seq<effects::EffectView> {
        match query {
            Some(id) => if self.lsp.client is Some {
                seq![Effect::CancelRequest(id)]
            } else {
                Seq::empty()
            },
            None => Seq::empty(),
        }
    }

    /// Stops a status walk.
    pub open spec fn cancel_git_status(self) -> Step {
        Step {
            state: WorkspaceModel { git_cancel: None, ..self },
            effects: if self.git_cancel is Some {
                seq![Effect::CancelWalk(Walk::GitStatus)]
            } else {
                Seq::empty()
            },
        }
    }

    /// Stops a walk of the project's files.
    pub open spec fn cancel_quick_open_walk(self) -> Step {
        Step {
            state: WorkspaceModel { quick_open_cancel: None, ..self },
            effects: (if self.quick_open_cancel is Some {
                seq![Effect::CancelWalk(Walk::QuickOpen)]
            } else {
                Seq::empty()
            }).push(Effect::CancelJob(Job::QuickOpenIndex)),
        }
    }

    /// Stops a project search.
    pub open spec fn cancel_project_search(self) -> Step {
        Step {
            state: WorkspaceModel { search_cancel: None, ..self },
            effects: (if self.search_cancel is Some {
                seq![Effect::CancelWalk(Walk::ProjectSearch)]
            } else {
                Seq::empty()
            }).push(Effect::CancelJob(Job::ProjectSearch)),
        }
    }

    /// Stops a test run.
    pub open spec fn cancel_test_run(self) -> Step {
        Step {
            state: WorkspaceModel { test_cancel: None, ..self },
            effects: (if self.test_cancel is Some {
                seq![Effect::CancelWalk(Walk::Tests)]
            } else {
                Seq::empty()
            }).push(Effect::CancelJob(Job::TestRun)),
        }
    }

    /// Withdraws the question that is in flight.
    pub open spec fn cancel_in_flight_query(self) -> Step {
        Step {
            state: WorkspaceModel { in_flight_query: None, ..self },
            effects: self.withdraw(self.in_flight_query),
        }
    }

    /// Withdraws the completion request that is in flight.
    pub open spec fn cancel_completion_query(self) -> Step {
        Step {
            state: WorkspaceModel { completion_query: None, ..self },
            effects: self.withdraw(self.completion_query),
        }
    }

    /// Closes the popup, gives the keyboard back, and stops the server's work
    /// for it.
    pub open spec fn dismiss_completion(self) -> Step {
        if self.completion is None {
            self.stays()
        } else {
            Step {
                state: WorkspaceModel {
                    completion: None,
                    completion_word_start: None,
                    completion_query: None,
                    ..self
                },
                effects: self.withdraw(self.completion_query) + seq![
                    Effect::CancelJob(Job::Completion),
                    self.focus_editor_or_workspace(),
                ],
            }
        }
    }

    // -----------------------------------------------------------------------
    // Git
    // -----------------------------------------------------------------------

    /// Reads git's status again, in place of a read that is still under way.
    pub open spec fn refresh_git_status(self) -> Step {
        match self.root() {
            None => Step {
                state: WorkspaceModel { git: GitState::NoFolder, ..self },
                effects: seq![Effect::ShowGit(GitState::NoFolder)],
            },
            Some(root) => {
                let stopped = self.cancel_git_status();
                let first = self.git is NoFolder;
                Step {
                    state: WorkspaceModel {
                        git_cancel: Some(Handle {}),
                        git: if first {
                            GitState::Loading
                        } else {
                            self.git
                        },
                        ..stopped.state
                    },
                    effects: stopped.effects + (if first {
                        seq![Effect::ShowGit(GitState::Loading)]
                    } else {
                        Seq::empty()
                    }) + seq![Effect::Start(Job::GitStatus, Work::ReadGitStatus { root })],
                }
            },
        }
    }

    /// Git's status was read. A read that was superseded is dropped; with no
    /// file selected there is no diff to show.
    pub open spec fn git_status_read(self, repository: bool, superseded: bool, selected: bool) -> Step {
        if superseded {
            self.stays()
        } else {
            let state = if repository {
                GitState::Repo
            } else {
                GitState::NotARepo
            };
            Step {
                state: WorkspaceModel {
                    git: state,
                    git_diff: if selected {
                        self.git_diff
                    } else {
                        None
                    },
                    ..self
                },
                effects: seq![Effect::ShowGit(state)],
            }
        }
    }

    /// Reads the diff of one file.
    pub open spec fn load_git_diff(self, path: Seq<char>) -> Step {
        match self.root() {
            Some(root) => self.asks(
                seq![Effect::Start(Job::GitDiff, Work::ReadGitDiff { root, path })],
            ),
            None => self.stays(),
        }
    }

    /// Something in the source control panel was clicked.
    pub open spec fn on_git_event(self, event: GitEvent<Seq<char>>) -> Step {
        match event {
            GitEvent::DiffRequested { path } => self.load_git_diff(path),
            GitEvent::StageRequested { path, stage } => match self.root() {
                Some(root) => self.asks(
                    seq![Effect::Start(Job::GitWrite, Work::Stage { root, path, stage })],
                ),
                None => self.stays(),
            },
            GitEvent::CommitRequested { message } => match self.root() {
                Some(root) => self.asks(
                    seq![Effect::Start(Job::GitWrite, Work::Commit { root, message })],
                ),
                None => self.stays(),
            },
        }
    }

    /// A stage or a commit ended. Whatever came of it, the panel reads what is
    /// true now.
    pub open spec fn git_written(self, done: Result<Seq<char>, Seq<char>>) -> Step {
        let told = match git::write_status(done) {
            Some(status) => self.says(status),
            None => self,
        };
        let cleared: Seq<effects::EffectView> = if done is Ok {
            seq![Effect::ClearCommitMessage]
        } else {
            Seq::empty()
        };
        told.asks(cleared).followed_by(told.refresh_git_status())
    }

    /// A fetch, a push or a switch ended. It may have moved something even
    /// where it failed, so the panel reads what is true now.
    pub open spec fn git_operation_done(self, outcome: Result<Seq<char>, Seq<char>>) -> Step {
        self.says(git::operation_status(outcome)).refresh_git_status()
    }

    /// Fetches.
    pub open spec fn git_fetch(self) -> Step {
        match self.root() {
            Some(root) => self.asks(seq![Effect::Start(Job::GitWrite, Work::Fetch { root })]),
            None => self.stays(),
        }
    }

    /// Pushes the current branch.
    pub open spec fn push_to_remote(self) -> Step {
        let told = self.says("Pushing…"@);
        match self.root() {
            Some(root) => told.asks(seq![Effect::Start(Job::GitWrite, Work::Push { root })]),
            None => told.stays(),
        }
    }

    /// Switches to a branch.
    pub open spec fn switch_to_branch(self, branch: Seq<char>) -> Step {
        match self.root() {
            Some(root) => self.asks(
                seq![Effect::Start(Job::GitWrite, Work::SwitchBranch { root, branch })],
            ),
            None => self.stays(),
        }
    }
}

/// A click in the source control panel.
pub enum GitEvent<S> {
    DiffRequested { path: S },
    StageRequested { path: S, stage: bool },
    CommitRequested { message: S },
}

impl vstd::view::DeepView for GitEvent<String> {
    type V = GitEvent<Seq<char>>;

    open spec fn deep_view(&self) -> GitEvent<Seq<char>> {
        match *self {
            GitEvent::DiffRequested { path } => GitEvent::DiffRequested { path: path@ },
            GitEvent::StageRequested { path, stage } => GitEvent::StageRequested {
                path: path@,
                stage,
            },
            GitEvent::CommitRequested { message } => GitEvent::CommitRequested {
                message: message@,
            },
        }
    }
}

/// A result as contracts see it.
pub open spec fn outcome_view(outcome: Result<String, String>) -> Result<Seq<char>, Seq<char>> {
    match outcome {
        Ok(text) => Ok(text@),
        Err(error) => Err(error@),
    }
}

impl WorkspaceView {
    /// A window that nothing was opened in.
    pub fn new() -> (workspace: Self)
        ensures
            workspace@ == WorkspaceModel::new(),
            workspace@.well_formed(),
    {
        WorkspaceView {
            tree: None,
            strip: TabStrip::default(),
            palette: None,
            settings_panel: None,
            overlay: None,
            pending: None,
            find: None,
            search_panel: None,
            search_cancel: None,
            terminal: None,
            tests: None,
            tests_open: None,
            test_cancel: None,
            logs: None,
            status: None,
            quick_open_cancel: None,
            lsp: Lsp::new(),
            history: JumpHistory::default(),
            in_flight_query: None,
            pending_rename: None,
            pending_code_actions: 0,
            database: Database::new(),
            docker_services: Services::new(),
            git: GitState::NoFolder,
            git_cancel: None,
            git_diff: None,
            sidebar: Sidebar::default(),
            window_activation: None,
            update_state: UpdateState::default(),
            update_check: None,
            completion: None,
            completion_word_start: None,
            completion_query: None,
        }
    }

    /// The root of the open project.
    pub fn root(&self) -> (root: Option<String>)
        ensures
            root.deep_view() == self@.root(),
    {
        match &self.tree {
            Some(tree) => Some(tree.root.clone()),
            None => None,
        }
    }

    /// Who gets the keyboard back.
    pub fn focus_editor_or_workspace(&self) -> (effect: Effect<String>)
        ensures
            effect.deep_view() == self@.focus_editor_or_workspace(),
    {
        match self.strip.active_editor() {
            Some(editor) => Effect::Focus(Focus::Editor(editor)),
            None => Effect::Focus(Focus::Workspace),
        }
    }

    /// Tells the server to stop computing an answer, while there is one.
    pub(crate) fn withdraw(&self, query: Option<u64>) -> (effects: Vec<Effect<String>>)
        ensures
            effects::told(effects) == self@.withdraw(query),
    {
        match query {
            Some(id) => if self.lsp.client.is_some() {
                only(Effect::CancelRequest(id))
            } else {
                nothing()
            },
            None => nothing(),
        }
    }

    /// Stops a status walk.
    pub fn cancel_git_status(&mut self) -> (effects: Vec<Effect<String>>)
        ensures
            final(self)@ == old(self)@.cancel_git_status().state,
            effects::told(effects) == old(self)@.cancel_git_status().effects,
    {
        let running = self.git_cancel.is_some();
        self.git_cancel = None;
        if running {
            only(Effect::CancelWalk(Walk::GitStatus))
        } else {
            nothing()
        }
    }

    /// Stops a walk of the project's files. Called whenever the palette that
    /// would show them goes away.
    pub fn cancel_quick_open_walk(&mut self) -> (effects: Vec<Effect<String>>)
        ensures
            final(self)@ == old(self)@.cancel_quick_open_walk().state,
            effects::told(effects) == old(self)@.cancel_quick_open_walk().effects,
    {
        let stopped = if self.quick_open_cancel.is_some() {
            only(Effect::CancelWalk(Walk::QuickOpen))
        } else {
            nothing()
        };
        self.quick_open_cancel = None;
        also(stopped, Effect::CancelJob(Job::QuickOpenIndex))
    }

    /// Stops a project search.
    pub fn cancel_project_search(&mut self) -> (effects: Vec<Effect<String>>)
        ensures
            final(self)@ == old(self)@.cancel_project_search().state,
            effects::told(effects) == old(self)@.cancel_project_search().effects,
    {
        let stopped = if self.search_cancel.is_some() {
            only(Effect::CancelWalk(Walk::ProjectSearch))
        } else {
            nothing()
        };
        self.search_cancel = None;
        also(stopped, Effect::CancelJob(Job::ProjectSearch))
    }

    /// Stops a test run.
    pub fn cancel_test_run(&mut self) -> (effects: Vec<Effect<String>>)
        ensures
            final(self)@ == old(self)@.cancel_test_run().state,
            effects::told(effects) == old(self)@.cancel_test_run().effects,
    {
        let stopped = if self.test_cancel.is_some() {
            only(Effect::CancelWalk(Walk::Tests))
        } else {
            nothing()
        };
        self.test_cancel = None;
        also(stopped, Effect::CancelJob(Job::TestRun))
    }

    /// Withdraws the question that is in flight.
    pub fn cancel_in_flight_query(&mut self) -> (effects: Vec<Effect<String>>)
        ensures
            final(self)@ == old(self)@.cancel_in_flight_query().state,
            effects::told(effects) == old(self)@.cancel_in_flight_query().effects,
    {
        let effects = self.withdraw(self.in_flight_query);
        self.in_flight_query = None;
        effects
    }

    /// Withdraws the completion request that is in flight.
    pub fn cancel_completion_query(&mut self) -> (effects: Vec<Effect<String>>)
        ensures
            final(self)@ == old(self)@.cancel_completion_query().state,
            effects::told(effects) == old(self)@.cancel_completion_query().effects,
    {
        let effects = self.withdraw(self.completion_query);
        self.completion_query = None;
        effects
    }

    /// Closes the popup, gives the keyboard back, and stops the server's work
    /// for it.
    pub fn dismiss_completion(&mut self) -> (effects: Vec<Effect<String>>)
        ensures
            final(self)@ == old(self)@.dismiss_completion().state,
            effects::told(effects) == old(self)@.dismiss_completion().effects,
    {
        if self.completion.is_none() {
            return nothing();
        }
        self.completion = None;
        self.completion_word_start = None;
        let withdrawn = self.cancel_completion_query();
        let stopped = also(withdrawn, Effect::CancelJob(Job::Completion));
        also(stopped, self.focus_editor_or_workspace())
    }

    // -----------------------------------------------------------------------
    // Git
    // -----------------------------------------------------------------------

    /// Reads git's status again. It is read when a folder is opened, when the
    /// window is looked at again and when a file was saved, never on a timer.
    pub fn refresh_git_status(&mut self) -> (effects: Vec<Effect<String>>)
        ensures
            final(self)@ == old(self)@.refresh_git_status().state,
            effects::told(effects) == old(self)@.refresh_git_status().effects,
    {
        let root = match self.root() {
            Some(root) => root,
            None => {
                self.git = GitState::NoFolder;
                return only(Effect::ShowGit(GitState::NoFolder));
            },
        };
        let stopped = self.cancel_git_status();
        self.git_cancel = Some(Handle {});
        let first = self.git == GitState::NoFolder;
        self.git = if first {
            GitState::Loading
        } else {
            self.git
        };
        let shown = if first {
            also(stopped, Effect::ShowGit(GitState::Loading))
        } else {
            stopped
        };
        also(shown, Effect::Start(Job::GitStatus, Work::ReadGitStatus { root }))
    }

    /// Git's status was read.
    pub fn git_status_read(&mut self, repository: bool, superseded: bool, selected: bool) -> (effects:
        Vec<Effect<String>>)
        ensures
            final(self)@ == old(self)@.git_status_read(repository, superseded, selected).state,
            effects::told(effects) == old(self)@.git_status_read(
                repository,
                superseded,
                selected,
            ).effects,
    {
        if superseded {
            return nothing();
        }
        let state = if repository {
            GitState::Repo
        } else {
            GitState::NotARepo
        };
        self.git = state;
        self.git_diff = if selected {
            self.git_diff
        } else {
            None
        };
        only(Effect::ShowGit(state))
    }

    /// Reads the diff of one file.
    pub fn load_git_diff(&mut self, path: String) -> (effects: Vec<Effect<String>>)
        ensures
            final(self)@ == old(self)@.load_git_diff(path@).state,
            effects::told(effects) == old(self)@.load_git_diff(path@).effects,
    {
        match self.root() {
            Some(root) => only(Effect::Start(Job::GitDiff, Work::ReadGitDiff { root, path })),
            None => nothing(),
        }
    }

    /// The diff was read, and may be there to be shown.
    pub fn git_diff_read(&mut self, rendered: Option<Handle>)
        ensures
            final(self)@ == (WorkspaceModel { git_diff: rendered, ..old(self)@ }),
    {
        self.git_diff = rendered;
    }

    /// Something in the source control panel was clicked.
    pub fn on_git_event(&mut self, event: GitEvent<String>) -> (effects: Vec<Effect<String>>)
        ensures
            final(self)@ == old(self)@.on_git_event(event.deep_view()).state,
            effects::told(effects) == old(self)@.on_git_event(event.deep_view()).effects,
    {
        match event {
            GitEvent::DiffRequested { path } => self.load_git_diff(path),
            GitEvent::StageRequested { path, stage } => match self.root() {
                Some(root) => only(
                    Effect::Start(Job::GitWrite, Work::Stage { root, path, stage }),
                ),
                None => nothing(),
            },
            GitEvent::CommitRequested { message } => match self.root() {
                Some(root) => only(
                    Effect::Start(Job::GitWrite, Work::Commit { root, message }),
                ),
                None => nothing(),
            },
        }
    }

    /// A stage or a commit ended.
    pub fn git_written(&mut self, done: &Result<String, String>) -> (effects: Vec<Effect<String>>)
        ensures
            final(self)@ == old(self)@.git_written(outcome_view(*done)).state,
            effects::told(effects) == old(self)@.git_written(outcome_view(*done)).effects,
    {
        let cleared = match done {
            Ok(_) => only(Effect::ClearCommitMessage),
            Err(_) => nothing(),
        };
        match git_write_status(done) {
            Some(status) => {
                self.status = Some(status);
                return both(cleared, self.refresh_git_status());
            },
            None => {
                return both(cleared, self.refresh_git_status());
            },
        }
    }

    /// A fetch, a push or a switch ended.
    pub fn git_operation_done(&mut self, outcome: &Result<String, String>) -> (effects: Vec<
        Effect<String>,
    >)
        ensures
            final(self)@ == old(self)@.git_operation_done(outcome_view(*outcome)).state,
            effects::told(effects) == old(self)@.git_operation_done(outcome_view(*outcome)).effects,
    {
        self.status = Some(git_operation_status(outcome));
        self.refresh_git_status()
    }

    /// Fetches.
    pub fn git_fetch(&mut self) -> (effects: Vec<Effect<String>>)
        ensures
            final(self)@ == old(self)@.git_fetch().state,
            effects::told(effects) == old(self)@.git_fetch().effects,
    {
        match self.root() {
            Some(root) => only(Effect::Start(Job::GitWrite, Work::Fetch { root })),
            None => nothing(),
        }
    }

    /// Pushes the current branch.
    pub fn push_to_remote(&mut self) -> (effects: Vec<Effect<String>>)
        ensures
            final(self)@ == old(self)@.push_to_remote().state,
            effects::told(effects) == old(self)@.push_to_remote().effects,
    {
        self.status = Some(owned("Pushing…"));
        match self.root() {
            Some(root) => only(Effect::Start(Job::GitWrite, Work::Push { root })),
            None => nothing(),
        }
    }

    /// Switches to a branch.
    pub fn switch_to_branch(&mut self, branch: String) -> (effects: Vec<Effect<String>>)
        ensures
            final(self)@ == old(self)@.switch_to_branch(branch@).state,
            effects::told(effects) == old(self)@.switch_to_branch(branch@).effects,
    {
        match self.root() {
            Some(root) => only(Effect::Start(Job::GitWrite, Work::SwitchBranch { root, branch })),
            None => nothing(),
        }
    }
}

/// Nothing keeps a word to complete once the popup is closed, so that nothing
/// can be written into a file it was not opened in.
pub proof fn law_dismissed_popup_leaves_nothing(model: WorkspaceModel)
    requires
        model.well_formed(),
    ensures
        model.dismiss_completion().state.completion is None,
        model.dismiss_completion().state.completion_word_start is None,
        model.dismiss_completion().state.completion_query is None,
        model.dismiss_completion().state.well_formed(),
{
}

/// Reading git's status anew always stops the read before it, and never two
/// run at once.
pub proof fn law_one_status_walk(model: WorkspaceModel)
    requires
        model.git_cancel is Some,
        model.tree is Some,
    ensures
        model.refresh_git_status().effects[0] == Effect::<Seq<char>>::CancelWalk(Walk::GitStatus),
        model.refresh_git_status().state.git_cancel is Some,
{
}

/// The project's root is that of the open tree, and there is none without one.
pub proof fn law_root_is_the_open_trees(model: WorkspaceModel)
    ensures
        model.tree is Some ==> model.root() == Some(model.tree->0.root),
        model.tree is None ==> model.root() is None,
{
}

/// A window starts with nothing open, nothing under way and nothing to say.
pub proof fn law_a_new_window_is_empty()
    ensures
        ({
            let model = WorkspaceModel::new();
            &&& model.well_formed()
            &&& model.tree is None
            &&& model.strip.tabs.len() == 0
            &&& model.palette is None
            &&& model.overlay is None
            &&& model.pending is None
            &&& model.find is None
            &&& model.search_panel is None
            &&& model.terminal is None
            &&& model.tests is None
            &&& model.tests_open is None
            &&& model.logs is None
            &&& model.settings_panel is None
            &&& model.status is None
            &&& model.completion is None
            &&& model.lsp.client is None
            &&& model.history.back.len() == 0
            &&& model.history.forward.len() == 0
            &&& model.sidebar is Explorer
            &&& model.git is NoFolder
            &&& model.update_state is Idle
        }),
{
}

/// The keyboard goes back to the editor in front of the user, and to the window
/// where there is none.
pub proof fn law_keyboard_goes_back_to_the_editor(model: WorkspaceModel)
    ensures
        0 <= model.strip.active < model.strip.tabs.len() ==> model.focus_editor_or_workspace()
            == Effect::<Seq<char>>::Focus(
            Focus::Editor(model.strip.tabs[model.strip.active].editor),
        ),
        model.strip.tabs.len() == 0 ==> model.focus_editor_or_workspace() == Effect::<
            Seq<char>,
        >::Focus(Focus::Workspace),
{
}

/// A question is withdrawn from the server by its own number, and only while
/// there is a server and a question.
pub proof fn law_withdrawing_names_the_question(model: WorkspaceModel, id: u64)
    ensures
        model.lsp.client is Some ==> model.withdraw(Some(id)) == seq![
            Effect::<Seq<char>>::CancelRequest(id),
        ],
        model.lsp.client is None ==> model.withdraw(Some(id)).len() == 0,
        model.withdraw(None).len() == 0,
{
}

/// Stopping one kind of work raises the flag of that kind alone, where there is
/// one, and leaves every other kind running.
pub proof fn law_stopping_stops_its_own_kind(model: WorkspaceModel)
    ensures
        model.cancel_git_status().state == (WorkspaceModel { git_cancel: None, ..model }),
        model.git_cancel is Some ==> model.cancel_git_status().effects == seq![
            Effect::<Seq<char>>::CancelWalk(Walk::GitStatus),
        ],
        model.git_cancel is None ==> model.cancel_git_status().effects.len() == 0,
        model.cancel_quick_open_walk().state == (WorkspaceModel {
            quick_open_cancel: None,
            ..model
        }),
        model.quick_open_cancel is Some ==> model.cancel_quick_open_walk().effects == seq![
            Effect::<Seq<char>>::CancelWalk(Walk::QuickOpen),
            Effect::<Seq<char>>::CancelJob(Job::QuickOpenIndex),
        ],
        model.quick_open_cancel is None ==> model.cancel_quick_open_walk().effects == seq![
            Effect::<Seq<char>>::CancelJob(Job::QuickOpenIndex),
        ],
        model.cancel_project_search().state == (WorkspaceModel { search_cancel: None, ..model }),
        model.search_cancel is Some ==> model.cancel_project_search().effects == seq![
            Effect::<Seq<char>>::CancelWalk(Walk::ProjectSearch),
            Effect::<Seq<char>>::CancelJob(Job::ProjectSearch),
        ],
        model.search_cancel is None ==> model.cancel_project_search().effects == seq![
            Effect::<Seq<char>>::CancelJob(Job::ProjectSearch),
        ],
        model.cancel_test_run().state == (WorkspaceModel { test_cancel: None, ..model }),
        model.test_cancel is Some ==> model.cancel_test_run().effects == seq![
            Effect::<Seq<char>>::CancelWalk(Walk::Tests),
            Effect::<Seq<char>>::CancelJob(Job::TestRun),
        ],
        model.test_cancel is None ==> model.cancel_test_run().effects == seq![
            Effect::<Seq<char>>::CancelJob(Job::TestRun),
        ],
        model.cancel_in_flight_query().state == (WorkspaceModel { in_flight_query: None, ..model }),
        model.in_flight_query is Some && model.lsp.client is Some
            ==> model.cancel_in_flight_query().effects == seq![
            Effect::<Seq<char>>::CancelRequest(model.in_flight_query->0),
        ],
        model.cancel_completion_query().state == (WorkspaceModel {
            completion_query: None,
            ..model
        }),
        model.completion_query is Some && model.lsp.client is Some
            ==> model.cancel_completion_query().effects == seq![
            Effect::<Seq<char>>::CancelRequest(model.completion_query->0),
        ],
{
}

/// Closing the popup gives the keyboard back, withdraws its question and stops
/// its work; the rest of the state stays, and a popup that is not open is not
/// closed.
pub proof fn law_closing_the_popup_ends_its_work(model: WorkspaceModel)
    ensures
        model.completion is None ==> model.dismiss_completion() == model.stays(),
        model.completion is Some ==> {
            let step = model.dismiss_completion();
            &&& step.effects.contains(Effect::CancelJob(Job::Completion))
            &&& step.effects.last() == model.focus_editor_or_workspace()
            &&& model.completion_query is Some && model.lsp.client is Some ==> step.effects[0]
                == Effect::<Seq<char>>::CancelRequest(model.completion_query->0)
            &&& step.state == (WorkspaceModel {
                completion: None,
                completion_word_start: None,
                completion_query: None,
                ..model
            })
        },
{
    if model.completion is Some {
        let step = model.dismiss_completion();
        let at = model.withdraw(model.completion_query).len() as int;
        assert(step.effects[at] == Effect::<Seq<char>>::CancelJob(Job::Completion));
        assert(step.effects[at + 1] == model.focus_editor_or_workspace());
    }
}

/// A click in the source control panel asks for exactly the one thing it stands
/// for, in the open project: staging and unstaging are told apart by their
/// direction, a commit carries its message, a diff is of the file that was
/// clicked. Without a project nothing is asked for.
pub proof fn law_git_clicks_do_what_they_say(
    model: WorkspaceModel,
    path: Seq<char>,
    stage: bool,
    message: Seq<char>,
)
    ensures
        model.tree is Some ==> {
            let root = model.tree->0.root;
            let staged = model.on_git_event(GitEvent::StageRequested { path, stage });
            let committed = model.on_git_event(GitEvent::CommitRequested { message });
            let compared = model.on_git_event(GitEvent::DiffRequested { path });
            &&& staged.effects.len() == 1
            &&& staged.effects[0] matches Effect::Start(Job::GitWrite, Work::Stage {
                root: at,
                path: of,
                stage: direction,
            }) && at == root && of == path && direction == stage
            &&& staged.effects != model.on_git_event(
                GitEvent::StageRequested { path, stage: !stage },
            ).effects
            &&& committed.effects == seq![
                Effect::<Seq<char>>::Start(Job::GitWrite, Work::Commit { root, message }),
            ]
            &&& compared.effects == seq![
                Effect::<Seq<char>>::Start(Job::GitDiff, Work::ReadGitDiff { root, path }),
            ]
            &&& staged.state == model
            &&& committed.state == model
            &&& compared.state == model
        },
        model.tree is None ==> {
            &&& model.on_git_event(GitEvent::StageRequested { path, stage }) == model.stays()
            &&& model.on_git_event(GitEvent::CommitRequested { message }) == model.stays()
            &&& model.on_git_event(GitEvent::DiffRequested { path }) == model.stays()
        },
{
    if model.tree is Some {
        let one = model.on_git_event(GitEvent::StageRequested { path, stage }).effects;
        let other = model.on_git_event(GitEvent::StageRequested { path, stage: !stage }).effects;
        assert(one[0] != other[0]);
    }
}

/// A fetch, a push and a switch each ask for their own git command in the open
/// project, and only a push says that it is under way.
pub proof fn law_git_commands_go_to_the_project(model: WorkspaceModel, branch: Seq<char>)
    ensures
        model.tree is Some ==> {
            let root = model.tree->0.root;
            &&& model.git_fetch().effects == seq![
                Effect::<Seq<char>>::Start(Job::GitWrite, Work::Fetch { root }),
            ]
            &&& model.push_to_remote().effects == seq![
                Effect::<Seq<char>>::Start(Job::GitWrite, Work::Push { root }),
            ]
            &&& model.switch_to_branch(branch).effects == seq![
                Effect::<Seq<char>>::Start(Job::GitWrite, Work::SwitchBranch { root, branch }),
            ]
        },
        model.tree is None ==> {
            &&& model.git_fetch().effects.len() == 0
            &&& model.push_to_remote().effects.len() == 0
            &&& model.switch_to_branch(branch).effects.len() == 0
        },
        model.git_fetch().state == model,
        model.switch_to_branch(branch).state == model,
        model.push_to_remote().state == (WorkspaceModel { status: Some("Pushing…"@), ..model }),
{
}

/// Git's status is read in the open project, in place of a read under way, and
/// the panel says that it is loading only the first time; without a project it
/// says that there is none.
pub proof fn law_status_is_read_in_the_project(model: WorkspaceModel)
    ensures
        ({
            let step = model.refresh_git_status();
            &&& model.tree is Some ==> {
                &&& step.effects.len() > 0
                &&& step.effects.last() == Effect::<Seq<char>>::Start(
                    Job::GitStatus,
                    Work::ReadGitStatus { root: model.tree->0.root },
                )
                &&& step.state.git_cancel is Some
                &&& model.git is NoFolder ==> step.state.git is Loading && step.effects.contains(
                    Effect::ShowGit(GitState::Loading),
                )
                &&& !(model.git is NoFolder) ==> step.state.git == model.git
                &&& model.git_cancel is Some ==> step.effects[0] == Effect::<Seq<char>>::CancelWalk(
                    Walk::GitStatus,
                )
            }
            &&& model.tree is None ==> step.state.git is NoFolder && step.effects == seq![
                Effect::<Seq<char>>::ShowGit(GitState::NoFolder),
            ]
            &&& step.state == (WorkspaceModel {
                git: step.state.git,
                git_cancel: step.state.git_cancel,
                ..model
            })
        }),
{
    if model.tree is Some && model.git is NoFolder {
        let step = model.refresh_git_status();
        let at = model.cancel_git_status().effects.len() as int;
        assert(step.effects[at] == Effect::<Seq<char>>::ShowGit(GitState::Loading));
    }
}

/// What was read of git's status is shown, unless a newer read took its place;
/// with no file selected no diff stays behind.
pub proof fn law_read_status_is_shown(model: WorkspaceModel, repository: bool, selected: bool)
    ensures
        model.git_status_read(repository, true, selected) == model.stays(),
        ({
            let step = model.git_status_read(repository, false, selected);
            &&& repository ==> step.state.git is Repo
            &&& !repository ==> step.state.git is NotARepo
            &&& step.effects == seq![Effect::<Seq<char>>::ShowGit(step.state.git)]
            &&& selected ==> step.state.git_diff == model.git_diff
            &&& !selected ==> step.state.git_diff is None
        }),
{
}

/// After a git write the panel reads what is true now, whatever came of it; the
/// message field is emptied only by a success.
pub proof fn law_git_is_read_again_after_a_write(
    model: WorkspaceModel,
    done: Result<Seq<char>, Seq<char>>,
    outcome: Result<Seq<char>, Seq<char>>,
)
    requires
        model.tree is Some,
    ensures
        ({
            let read = Effect::<Seq<char>>::Start(
                Job::GitStatus,
                Work::ReadGitStatus { root: model.tree->0.root },
            );
            &&& model.git_written(done).effects.last() == read
            &&& model.git_operation_done(outcome).effects.last() == read
            &&& done is Ok ==> model.git_written(done).effects[0] == Effect::<
                Seq<char>,
            >::ClearCommitMessage
            &&& done is Err ==> !model.git_written(done).effects.contains(
                Effect::ClearCommitMessage,
            )
        }),
        git::write_status(done) is Some ==> model.git_written(done).state.status
            == git::write_status(done),
        git::write_status(done) is None ==> model.git_written(done).state.status == model.status,
        model.git_operation_done(outcome).state.status == Some(git::operation_status(outcome)),
{
}

/// A window is seen in contracts as it is.
pub proof fn law_window_is_seen_as_it_is(view: WorkspaceView)
    ensures
        view.tree is None ==> view@.tree is None,
        view.tree matches Some(tree) ==> view@.tree == Some(tree@),
        view@.strip == view.strip@,
        view@.palette == view.palette,
        view@.settings_panel == view.settings_panel,
        view@.overlay == view.overlay,
        view.pending is None ==> view@.pending is None,
        view.pending matches Some(pending) ==> view@.pending matches Some(seen) && seen.path
            == pending.path@ && seen.is_dir == pending.is_dir && seen.kind == pending.kind,
        view@.find == view.find,
        view.search_panel is None ==> view@.search_panel is None,
        view.search_panel matches Some(panel) ==> view@.search_panel == Some(panel@),
        view@.search_cancel == view.search_cancel,
        view@.terminal == view.terminal,
        view.tests is None ==> view@.tests is None,
        view.tests matches Some(panel) ==> view@.tests == Some(panel@),
        view@.tests_open == view.tests_open,
        view@.test_cancel == view.test_cancel,
        view@.logs == view.logs,
        view.status is None ==> view@.status is None,
        view.status matches Some(status) ==> view@.status == Some(status@),
        view@.quick_open_cancel == view.quick_open_cancel,
        view@.lsp == view.lsp@,
        view@.history == view.history@,
        view@.in_flight_query == view.in_flight_query,
        view.pending_rename is None ==> view@.pending_rename is None,
        view.pending_rename matches Some((path, offset)) ==> view@.pending_rename == Some(
            (path@, offset),
        ),
        view@.pending_code_actions == view.pending_code_actions,
        view@.database == view.database@,
        view@.docker_services == view.docker_services@,
        view@.git == view.git,
        view@.git_cancel == view.git_cancel,
        view@.git_diff == view.git_diff,
        view@.sidebar == view.sidebar,
        view@.window_activation == view.window_activation,
        view@.update_state == view.update_state,
        view@.update_check == view.update_check,
        view@.completion == view.completion,
        view@.completion_word_start == view.completion_word_start,
        view@.completion_query == view.completion_query,
{
}

} // verus!

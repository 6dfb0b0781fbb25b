//! The file tree's own actions: its buttons, its context menu, and what a
//! create, a rename, a move or a delete means for the tabs.

use vstd::prelude::*;
use vstd::string::*;

use crate::disk;
use crate::disk::{file_name_of, Disk};
use crate::effects;
use crate::effects::{
    also, both, nothing, only, Effect, Focus, Overlay, Panel, TreeOperation, Work,
};
use crate::facts::Facts;
use crate::jobs::Job;
use crate::lsp;
use crate::opening;
use crate::paths;
use crate::paths::{are_same_path, is_below, join_path};
use crate::tabs;
use crate::text::{join2, join3, owned};
use crate::tree;
use crate::tree::Tree;
use crate::workspace_view;
use crate::workspace_view::{
    Handle, PendingFileAction, PendingKind, Sidebar, WorkspaceModel, WorkspaceView,
};

verus! {

/// An entry of the context menu.
#[derive(Clone, Copy, PartialEq, Eq, Structural, Debug)]
pub enum MenuAction {
    NewFile,
    NewDirectory,
    Rename,
    Delete,
    RevealInFinder,
    CopyPath,
}

/// What a create or a rename came to.
pub enum Outcome<S> {
    Created(S),
    Renamed { from: S, to: S },
    Nothing,
    Failed(S),
}

impl vstd::view::DeepView for Outcome<String> {
    type V = Outcome<Seq<char>>;

    open spec fn deep_view(&self) -> Outcome<Seq<char>> {
        match *self {
            Outcome::Created(path) => Outcome::Created(path@),
            Outcome::Renamed { from, to } => Outcome::Renamed { from: from@, to: to@ },
            Outcome::Nothing => Outcome::Nothing,
            Outcome::Failed(error) => Outcome::Failed(error@),
        }
    }
}

/// Something from outside that was dropped on the window.
pub enum Dropped {
    /// A folder that was read, or why it could not be. `configured` says
    /// whether a language server is configured for it.
    Folder { tree: Result<Tree, String>, configured: bool },
    /// Anything that is not a folder.
    Other { path: String },
}

/// Something that was dropped, as contracts see it.
pub enum DropView {
    Folder { tree: Result<tree::TreeView, Seq<char>>, configured: bool },
    Other { path: Seq<char> },
}

impl vstd::view::DeepView for Dropped {
    type V = DropView;

    open spec fn deep_view(&self) -> DropView {
        match *self {
            Dropped::Folder { tree, configured } => DropView::Folder {
                tree: opening::tree_result(tree),
                configured,
            },
            Dropped::Other { path } => DropView::Other { path: path@ },
        }
    }
}

/// The last component of a path, or the path itself.
pub open spec fn shown_name(path: Seq<char>) -> Seq<char> {
    match paths::file_name(path) {
        Some(name) => name,
        None => path,
    }
}

impl WorkspaceModel {
    // -----------------------------------------------------------------------
    // The tree's buttons
    // -----------------------------------------------------------------------

    /// Has the tree do something, while there is one.
    pub open spec fn tree_does(self, operation: TreeOperation<Seq<char>>) -> workspace_view::Step {
        if self.tree is Some {
            self.asks(seq![Effect::Tree(operation)])
        } else {
            self.stays()
        }
    }

    /// The tree did something, or failed to.
    pub open spec fn tree_done(self, done: Result<tree::TreeView, Seq<char>>) -> WorkspaceModel {
        match done {
            Ok(tree) => WorkspaceModel { tree: Some(tree), ..self },
            Err(error) => self.says(error),
        }
    }

    /// Shows or hides hidden files.
    pub open spec fn toggle_hidden_files(self) -> workspace_view::Step {
        match self.tree {
            Some(tree) => self.asks(seq![Effect::Tree(TreeOperation::ShowHidden(!tree.show_hidden))]),
            None => self.stays(),
        }
    }

    /// Shows the active file in the tree; a buffer without a file shows
    /// nothing.
    pub open spec fn reveal_active_file(self) -> workspace_view::Step {
        match self.strip.active_path() {
            None => self.stays(),
            Some(path) => WorkspaceModel { sidebar: Sidebar::Explorer, ..self }.tree_does(
                TreeOperation::Reveal(path),
            ),
        }
    }

    /// A row of the tree was clicked: a directory opens or closes, a file is
    /// opened.
    pub open spec fn tree_row_clicked(self, index: usize) -> workspace_view::Step {
        match self.tree {
            None => self.stays(),
            Some(tree) => if index >= tree.entries.len() {
                self.stays()
            } else if tree.entries[index as int].is_dir {
                self.tree_does(TreeOperation::Toggle(index))
            } else {
                self.open_path(tree.entries[index as int].path)
            },
        }
    }

    // -----------------------------------------------------------------------
    // The context menu
    // -----------------------------------------------------------------------

    /// Puts a step of the menu on screen and gives it the keyboard.
    pub open spec fn show_overlay(self, overlay: Overlay<Seq<char>>) -> workspace_view::Step {
        let quiet = self.dismiss_completion();
        workspace_view::Step {
            state: WorkspaceModel { overlay: Some(Handle {}), ..quiet.state },
            effects: quiet.effects + seq![
                Effect::ShowOverlay(overlay),
                Effect::Focus(Focus::Panel(Panel::Overlay)),
            ],
        }
    }

    /// Closes the menu and gives the keyboard back.
    pub open spec fn dismiss_overlay(self) -> workspace_view::Step {
        WorkspaceModel { overlay: None, pending: None, ..self }.asks(
            seq![self.focus_editor_or_workspace()],
        )
    }

    /// With an action on a path pending.
    pub open spec fn with_pending(self, path: Seq<char>, is_dir: bool, kind: PendingKind) -> WorkspaceModel {
        WorkspaceModel {
            pending: Some(workspace_view::PendingView { path, is_dir, kind }),
            ..self
        }
    }

    /// Opens the menu for a row.
    pub open spec fn open_tree_menu(self, index: usize) -> workspace_view::Step {
        match self.tree {
            None => self.stays(),
            Some(tree) => if index >= tree.entries.len() {
                self.stays()
            } else {
                let entry = tree.entries[index as int];
                self.with_pending(entry.path, entry.is_dir, PendingKind::Menu).show_overlay(
                    Overlay::Menu { is_dir: entry.is_dir },
                )
            },
        }
    }

    /// Opens the menu for the project's root, which has no row.
    pub open spec fn open_tree_root_menu(self) -> workspace_view::Step {
        match self.root() {
            None => self.stays(),
            Some(root) => self.with_pending(root, true, PendingKind::Menu).show_overlay(
                Overlay::RootMenu,
            ),
        }
    }

    /// An entry of the menu was chosen: it acts, or opens the prompt that it
    /// needs.
    pub open spec fn on_menu_action(self, action: MenuAction) -> workspace_view::Step {
        match self.pending {
            None => self.stays(),
            Some(pending) => {
                let name = shown_name(pending.path);
                match action {
                    MenuAction::NewFile => self.with_pending(
                        pending.path,
                        pending.is_dir,
                        PendingKind::CreateFile,
                    ).show_overlay(
                        Overlay::Prompt {
                            verb: "New"@,
                            subject: "file in "@ + name,
                            seed: Seq::empty(),
                        },
                    ),
                    MenuAction::NewDirectory => self.with_pending(
                        pending.path,
                        pending.is_dir,
                        PendingKind::CreateDirectory,
                    ).show_overlay(
                        Overlay::Prompt {
                            verb: "New"@,
                            subject: "folder in "@ + name,
                            seed: Seq::empty(),
                        },
                    ),
                    MenuAction::Rename => self.with_pending(
                        pending.path,
                        pending.is_dir,
                        PendingKind::Rename,
                    ).show_overlay(
                        Overlay::Prompt { verb: "Rename"@, subject: name, seed: name },
                    ),
                    MenuAction::Delete => self.with_pending(
                        pending.path,
                        pending.is_dir,
                        PendingKind::Delete,
                    ).show_overlay(
                        Overlay::Confirm {
                            question: "Delete "@ + name + "?"@,
                            detail: if pending.is_dir {
                                "This folder and everything in it will be deleted permanently."@
                            } else {
                                "This file will be deleted permanently."@
                            },
                        },
                    ),
                    MenuAction::RevealInFinder => self.asks(
                        seq![Effect::RevealInFinder(pending.path)],
                    ).followed_by(self.dismiss_overlay()),
                    MenuAction::CopyPath => self.asks(
                        seq![Effect::CopyText(pending.path)],
                    ).followed_by(self.dismiss_overlay()),
                }
            },
        }
    }

    /// A name was typed and confirmed.
    pub open spec fn on_name_confirmed(self, name: Seq<char>) -> workspace_view::Step {
        match self.pending {
            None => self.stays(),
            Some(pending) => {
                let path = pending.path;
                let closed = self.dismiss_overlay();
                match pending.kind {
                    PendingKind::CreateFile => closed.and(
                        seq![
                            Effect::Start(
                                Job::FileOperation,
                                Work::CreateFile { path: paths::join(path, name) },
                            ),
                        ],
                    ),
                    PendingKind::CreateDirectory => closed.and(
                        seq![
                            Effect::Start(
                                Job::FileOperation,
                                Work::CreateDirectory { path: paths::join(path, name) },
                            ),
                        ],
                    ),
                    PendingKind::Rename => closed.and(
                        seq![Effect::Start(Job::FileOperation, Work::Rename { path, name })],
                    ),
                    PendingKind::Menu | PendingKind::Delete => closed.and(
                        seq![Effect::Start(Job::FileOperation, Work::DoNothing)],
                    ),
                }
            },
        }
    }

    /// A create or a rename ended: what was created opens, what was renamed
    /// takes its tabs along.
    pub open spec fn name_done(self, outcome: Outcome<Seq<char>>, facts: Facts) -> workspace_view::Step {
        let read = self.tree_does(TreeOperation::Refresh);
        match outcome {
            Outcome::Created(path) => read.followed_by(read.state.open_path(path)),
            Outcome::Renamed { from, to } => read.followed_by(
                read.state.retarget_tabs(from, to, facts),
            ),
            Outcome::Nothing => read,
            Outcome::Failed(error) => self.says(error).stays(),
        }
    }

    /// The delete was confirmed.
    pub open spec fn on_delete_confirmed(self) -> workspace_view::Step {
        match (self.pending, self.root()) {
            (Some(pending), Some(root)) => self.dismiss_overlay().and(
                seq![
                    Effect::Start(
                        Job::FileOperation,
                        Work::Delete { path: pending.path, root },
                    ),
                ],
            ),
            _ => self.stays(),
        }
    }

    /// A delete ended.
    pub open spec fn deleted(self, path: Seq<char>, error: Option<Seq<char>>, disk: Disk) -> workspace_view::Step {
        match error {
            Some(error) => self.says(error).stays(),
            None => {
                let closed = self.close_tabs_under(path, disk);
                closed.followed_by(closed.state.tree_does(TreeOperation::Refresh))
            },
        }
    }

    /// Closes the tabs that are inside `path`, from the tab before `count`
    /// down.
    pub open spec fn close_under(self, path: Seq<char>, disk: Disk, count: int) -> workspace_view::Step
        decreases count,
    {
        if count <= 0 {
            self.stays()
        } else if tabs::tab_under(self.strip.tabs[count - 1], path, disk) {
            let closed = self.remove_tab(count - 1);
            closed.followed_by(closed.state.close_under(path, disk, count - 1))
        } else {
            self.close_under(path, disk, count - 1)
        }
    }

    /// Closes every tab whose file was deleted. Nothing is asked: what the
    /// question would be about is gone.
    pub open spec fn close_tabs_under(self, path: Seq<char>, disk: Disk) -> workspace_view::Step {
        self.close_under(path, disk, self.strip.tabs.len() as int)
    }

    // -----------------------------------------------------------------------
    // Moving
    // -----------------------------------------------------------------------

    /// One tab follows its file: to the server, a rename is a close and an
    /// open.
    pub open spec fn follow_file(self, step: tabs::MoveView, facts: Facts) -> workspace_view::Step {
        let editor = self.strip.tabs[step.index].editor;
        let text = match facts.buffer_of(editor) {
            Some(buffer) => buffer.text@,
            None => Seq::empty(),
        };
        let forgot = WorkspaceModel {
            lsp: lsp::LspView { synced: lsp::forgotten(self.lsp.synced, step.from), ..self.lsp },
            ..self
        };
        forgot.asks(
            self.close_on_lsp(step.from).push(
                Effect::SetDocumentPath { editor, path: step.to },
            ),
        ).followed_by(
            forgot.open_on_lsp(step.to, text, facts.disk, facts.server_configured, facts.kinds),
        )
    }

    /// The first `count` tabs that move follow their files.
    pub open spec fn follow_files(self, steps: Seq<tabs::MoveView>, facts: Facts, count: int) -> workspace_view::Step
        decreases count,
    {
        if count <= 0 {
            self.stays()
        } else {
            let before = self.follow_files(steps, facts, count - 1);
            before.followed_by(before.state.follow_file(steps[count - 1], facts))
        }
    }

    /// Points every tab under `from` at its new home under `to`.
    pub open spec fn retarget_tabs(self, from: Seq<char>, to: Seq<char>, facts: Facts) -> workspace_view::Step {
        let steps = tabs::moved(self.strip.tabs, from, to, facts.disk);
        WorkspaceModel { strip: self.strip.renamed(from, to, facts.disk), ..self }.follow_files(
            steps,
            facts,
            steps.len() as int,
        )
    }

    /// A row was dropped on a directory and moved there, or it was refused. One
    /// dropped where it already is moves nothing.
    pub open spec fn entry_moved(
        self,
        source: Seq<char>,
        moved: Result<Seq<char>, Seq<char>>,
        facts: Facts,
    ) -> workspace_view::Step {
        match moved {
            Err(error) => self.says(error).stays(),
            Ok(dest) => if paths::same_path(dest, source) {
                self.stays()
            } else {
                let pointed = self.retarget_tabs(source, dest, facts);
                pointed.followed_by(pointed.state.tree_does(TreeOperation::Refresh))
            },
        }
    }

    /// One thing from outside was dropped on the window: a folder that was read
    /// becomes the project at once, and a file becomes a tab.
    pub open spec fn dropped_one(self, drop: DropView) -> workspace_view::Step {
        match drop {
            DropView::Folder { tree, configured } => self.folder_loaded(tree, configured),
            DropView::Other { path } => self.open_path(path),
        }
    }

    /// The first `count` of the things that were dropped.
    pub open spec fn dropped_first(self, drops: Seq<DropView>, count: int) -> workspace_view::Step
        decreases count,
    {
        if count <= 0 {
            self.stays()
        } else {
            let before = self.dropped_first(drops, count - 1);
            before.followed_by(before.state.dropped_one(drops[count - 1]))
        }
    }

    /// Things from outside were dropped on the window.
    pub open spec fn external_drop(self, drops: Seq<DropView>) -> workspace_view::Step {
        self.dropped_first(drops, drops.len() as int)
    }
}

/// Whether a change on disk is worth reading the tree again: one in git's own
/// directory is not, for every status read makes some.
pub open spec fn concerns_tree(changed: Seq<Seq<char>>, root: Seq<char>) -> bool {
    changed.len() == 0 || exists|i: int|
        0 <= i < changed.len() && !paths::below(
            #[trigger] changed[i],
            paths::join(root, ".git"@),
        )
}

/// How long a burst of changes is gathered before the tree is read again, in
/// milliseconds.
pub const TREE_DEBOUNCE: u64 = 300;

/// Whether a change on disk is worth reading the tree again.
pub fn tree_is_concerned(changed: &Vec<String>, root: &str) -> (held: bool)
    ensures
        held == concerns_tree(changed.deep_view(), root@),
{
    if changed.len() == 0 {
        return true;
    }
    let git = join_path(root, ".git");
    let mut i: usize = 0;
    while i < changed.len()
        invariant
            i <= changed.len(),
            git@ == paths::join(root@, ".git"@),
            forall|k: int|
                0 <= k < i ==> paths::below(#[trigger] changed.deep_view()[k], git@),
        decreases changed.len() - i,
    {
        assert(changed.deep_view()[i as int] == changed[i as int]@);
        if !is_below(changed[i].as_str(), git.as_str()) {
            return true;
        }
        i += 1;
    }
    false
}

impl WorkspaceView {
    // -----------------------------------------------------------------------
    // The tree's buttons
    // -----------------------------------------------------------------------

    /// Has the tree do something, while there is one.
    fn tree_does(&self, operation: TreeOperation<String>) -> (effects: Vec<Effect<String>>)
        ensures
            effects::told(effects) == self@.tree_does(operation.deep_view()).effects,
            self@.tree_does(operation.deep_view()).state == self@,
    {
        if self.tree.is_some() {
            only(Effect::Tree(operation))
        } else {
            nothing()
        }
    }

    /// The tree did something, or failed to.
    pub fn tree_done(&mut self, done: Result<Tree, String>)
        ensures
            final(self)@ == old(self)@.tree_done(opening::tree_result(done)),
    {
        match done {
            Ok(tree) => {
                self.tree = Some(tree);
            },
            Err(error) => {
                self.status = Some(error);
            },
        }
    }

    /// Shows or hides hidden files.
    pub fn toggle_hidden_files(&self) -> (effects: Vec<Effect<String>>)
        ensures
            effects::told(effects) == self@.toggle_hidden_files().effects,
            self@.toggle_hidden_files().state == self@,
    {
        match &self.tree {
            Some(tree) => only(Effect::Tree(TreeOperation::ShowHidden(!tree.show_hidden))),
            None => nothing(),
        }
    }

    /// Opens or closes the directory at a row.
    pub fn toggle_tree_entry(&self, index: usize) -> (effects: Vec<Effect<String>>)
        ensures
            effects::told(effects) == self@.tree_does(TreeOperation::Toggle(index)).effects,
    {
        self.tree_does(TreeOperation::Toggle(index))
    }

    /// Opens every directory.
    pub fn expand_all_tree(&self) -> (effects: Vec<Effect<String>>)
        ensures
            effects::told(effects) == self@.tree_does(TreeOperation::ExpandAll).effects,
    {
        self.tree_does(TreeOperation::ExpandAll)
    }

    /// Closes every directory.
    pub fn collapse_all_tree(&self) -> (effects: Vec<Effect<String>>)
        ensures
            effects::told(effects) == self@.tree_does(TreeOperation::CollapseAll).effects,
    {
        self.tree_does(TreeOperation::CollapseAll)
    }

    /// Reads the tree again, keeping what is open.
    pub fn refresh_tree(&self) -> (effects: Vec<Effect<String>>)
        ensures
            effects::told(effects) == self@.tree_does(TreeOperation::Refresh).effects,
    {
        self.tree_does(TreeOperation::Refresh)
    }

    /// Shows the active file in the tree.
    pub fn reveal_active_file(&mut self) -> (effects: Vec<Effect<String>>)
        ensures
            final(self)@ == old(self)@.reveal_active_file().state,
            effects::told(effects) == old(self)@.reveal_active_file().effects,
    {
        let path = match self.strip.active_path() {
            Some(path) => path.clone(),
            None => {
                return nothing();
            },
        };
        self.sidebar = Sidebar::Explorer;
        self.tree_does(TreeOperation::Reveal(path))
    }

    /// A file was found in the tree, at a row, or it is not in it.
    pub fn revealed(&self, row: Option<usize>) -> (effects: Vec<Effect<String>>)
        ensures
            effects::told(effects) == (match row {
                Some(row) => seq![Effect::<Seq<char>>::ScrollToTreeRow(row)],
                None => Seq::empty(),
            }),
    {
        match row {
            Some(row) => only(Effect::ScrollToTreeRow(row)),
            None => nothing(),
        }
    }

    /// A row of the tree was clicked.
    pub fn tree_row_clicked(&mut self, index: usize) -> (effects: Vec<Effect<String>>)
        ensures
            final(self)@ == old(self)@.tree_row_clicked(index).state,
            effects::told(effects) == old(self)@.tree_row_clicked(index).effects,
    {
        let path = match &self.tree {
            None => {
                return nothing();
            },
            Some(tree) => match tree.entry(index) {
                None => {
                    return nothing();
                },
                Some(entry) => {
                    if entry.is_dir {
                        return self.tree_does(TreeOperation::Toggle(index));
                    }
                    entry.path.clone()
                },
            },
        };
        self.open_path(path)
    }

    // -----------------------------------------------------------------------
    // The context menu
    // -----------------------------------------------------------------------

    /// Puts a step of the menu on screen and gives it the keyboard.
    fn show_overlay(&mut self, overlay: Overlay<String>) -> (effects: Vec<Effect<String>>)
        ensures
            final(self)@ == old(self)@.show_overlay(overlay.deep_view()).state,
            effects::told(effects) == old(self)@.show_overlay(overlay.deep_view()).effects,
    {
        let quiet = self.dismiss_completion();
        self.overlay = Some(Handle {});
        let shown = also(quiet, Effect::ShowOverlay(overlay));
        also(shown, Effect::Focus(Focus::Panel(Panel::Overlay)))
    }

    /// Closes the menu and gives the keyboard back.
    pub fn dismiss_overlay(&mut self) -> (effects: Vec<Effect<String>>)
        ensures
            final(self)@ == old(self)@.dismiss_overlay().state,
            effects::told(effects) == old(self)@.dismiss_overlay().effects,
    {
        self.overlay = None;
        self.pending = None;
        only(self.focus_editor_or_workspace())
    }

    /// Opens the menu for a row of the tree.
    pub fn open_tree_menu(&mut self, index: usize) -> (effects: Vec<Effect<String>>)
        ensures
            final(self)@ == old(self)@.open_tree_menu(index).state,
            effects::told(effects) == old(self)@.open_tree_menu(index).effects,
    {
        let (path, is_dir) = match &self.tree {
            None => {
                return nothing();
            },
            Some(tree) => match tree.entry(index) {
                None => {
                    return nothing();
                },
                Some(entry) => (entry.path.clone(), entry.is_dir),
            },
        };
        self.pending = Some(PendingFileAction { path, is_dir, kind: PendingKind::Menu });
        self.show_overlay(Overlay::Menu { is_dir })
    }

    /// Opens the menu for the project's root.
    pub fn open_tree_root_menu(&mut self) -> (effects: Vec<Effect<String>>)
        ensures
            final(self)@ == old(self)@.open_tree_root_menu().state,
            effects::told(effects) == old(self)@.open_tree_root_menu().effects,
    {
        let root = match self.root() {
            Some(root) => root,
            None => {
                return nothing();
            },
        };
        self.pending =
        Some(PendingFileAction { path: root, is_dir: true, kind: PendingKind::Menu });
        self.show_overlay(Overlay::RootMenu)
    }

    /// An entry of the menu was chosen.
    pub fn on_menu_action(&mut self, action: MenuAction) -> (effects: Vec<Effect<String>>)
        ensures
            final(self)@ == old(self)@.on_menu_action(action).state,
            effects::told(effects) == old(self)@.on_menu_action(action).effects,
    {
        let (path, is_dir) = match &self.pending {
            Some(pending) => (pending.path.clone(), pending.is_dir),
            None => {
                return nothing();
            },
        };
        let name = file_name_of(path.as_str());
        match action {
            MenuAction::NewFile => {
                self.pending = Some(
                    PendingFileAction { path, is_dir, kind: PendingKind::CreateFile },
                );
                let subject = join2("file in ", name.as_str());
                return self.show_overlay(
                    Overlay::Prompt { verb: owned("New"), subject, seed: String::new() },
                );
            },
            MenuAction::NewDirectory => {
                self.pending = Some(
                    PendingFileAction { path, is_dir, kind: PendingKind::CreateDirectory },
                );
                let subject = join2("folder in ", name.as_str());
                return self.show_overlay(
                    Overlay::Prompt { verb: owned("New"), subject, seed: String::new() },
                );
            },
            MenuAction::Rename => {
                self.pending = Some(
                    PendingFileAction { path, is_dir, kind: PendingKind::Rename },
                );
                return self.show_overlay(
                    Overlay::Prompt {
                        verb: owned("Rename"),
                        subject: name.clone(),
                        seed: name,
                    },
                );
            },
            MenuAction::Delete => {
                self.pending = Some(
                    PendingFileAction { path, is_dir, kind: PendingKind::Delete },
                );
                let detail = if is_dir {
                    owned("This folder and everything in it will be deleted permanently.")
                } else {
                    owned("This file will be deleted permanently.")
                };
                let question = join3("Delete ", name.as_str(), "?");
                return self.show_overlay(Overlay::Confirm { question, detail });
            },
            MenuAction::RevealInFinder => {
                let shown = only(Effect::RevealInFinder(path));
                return both(shown, self.dismiss_overlay());
            },
            MenuAction::CopyPath => {
                let copied = only(Effect::CopyText(path));
                return both(copied, self.dismiss_overlay());
            },
        }
    }

    /// The file could not be shown outside the window.
    pub fn reveal_in_finder_failed(&mut self, path: &str, error: &str)
        ensures
            final(self)@ == old(self)@.says("could not reveal "@ + path@ + ": "@ + error@),
    {
        let front = join3("could not reveal ", path, ": ");
        self.status = Some(join2(front.as_str(), error));
    }

    /// A name was typed and confirmed.
    pub fn on_name_confirmed(&mut self, name: String) -> (effects: Vec<Effect<String>>)
        ensures
            final(self)@ == old(self)@.on_name_confirmed(name@).state,
            effects::told(effects) == old(self)@.on_name_confirmed(name@).effects,
    {
        let (path, kind) = match &self.pending {
            Some(pending) => (pending.path.clone(), pending.kind),
            None => {
                return nothing();
            },
        };
        let closed = self.dismiss_overlay();
        match kind {
            PendingKind::CreateFile => also(
                closed,
                Effect::Start(
                    Job::FileOperation,
                    Work::CreateFile { path: join_path(path.as_str(), name.as_str()) },
                ),
            ),
            PendingKind::CreateDirectory => also(
                closed,
                Effect::Start(
                    Job::FileOperation,
                    Work::CreateDirectory { path: join_path(path.as_str(), name.as_str()) },
                ),
            ),
            PendingKind::Rename => also(
                closed,
                Effect::Start(Job::FileOperation, Work::Rename { path, name }),
            ),
            PendingKind::Menu => also(closed, Effect::Start(Job::FileOperation, Work::DoNothing)),
            PendingKind::Delete => also(
                closed,
                Effect::Start(Job::FileOperation, Work::DoNothing),
            ),
        }
    }

    /// A create or a rename ended.
    pub fn name_done(&mut self, outcome: Outcome<String>, facts: &Facts) -> (effects: Vec<
        Effect<String>,
    >)
        ensures
            final(self)@ == old(self)@.name_done(outcome.deep_view(), *facts).state,
            effects::told(effects) == old(self)@.name_done(outcome.deep_view(), *facts).effects,
    {
        let read = self.tree_does(TreeOperation::Refresh);
        match outcome {
            Outcome::Created(path) => {
                return both(read, self.open_path(path));
            },
            Outcome::Renamed { from, to } => {
                return both(read, self.retarget_tabs(from.as_str(), to.as_str(), facts));
            },
            Outcome::Nothing => {
                return read;
            },
            Outcome::Failed(error) => {
                self.status = Some(error);
                return nothing();
            },
        }
    }

    /// The delete was confirmed. It goes out with the project's root, so that
    /// it stays inside it.
    pub fn on_delete_confirmed(&mut self) -> (effects: Vec<Effect<String>>)
        ensures
            final(self)@ == old(self)@.on_delete_confirmed().state,
            effects::told(effects) == old(self)@.on_delete_confirmed().effects,
    {
        let path = match &self.pending {
            Some(pending) => pending.path.clone(),
            None => {
                return nothing();
            },
        };
        let root = match self.root() {
            Some(root) => root,
            None => {
                return nothing();
            },
        };
        let closed = self.dismiss_overlay();
        also(closed, Effect::Start(Job::FileOperation, Work::Delete { path, root }))
    }

    /// A delete ended.
    pub fn deleted(&mut self, path: &str, error: Option<String>, disk: &Disk) -> (effects: Vec<
        Effect<String>,
    >)
        ensures
            final(self)@ == old(self)@.deleted(path@, error.deep_view(), *disk).state,
            effects::told(effects) == old(self)@.deleted(
                path@,
                error.deep_view(),
                *disk,
            ).effects,
    {
        if let Some(error) = error {
            self.status = Some(error);
            return nothing();
        }
        let closed = self.close_tabs_under(path, disk);
        both(closed, self.tree_does(TreeOperation::Refresh))
    }

    /// Closes every tab whose file was deleted.
    pub fn close_tabs_under(&mut self, path: &str, disk: &Disk) -> (effects: Vec<Effect<String>>)
        ensures
            final(self)@ == old(self)@.close_tabs_under(path@, *disk).state,
            effects::told(effects) == old(self)@.close_tabs_under(path@, *disk).effects,
    {
        let ghost before = self@;
        let ghost whole = before.close_tabs_under(path@, *disk);
        let mut effects = nothing();
        let mut i: usize = self.strip.tabs.len();
        while i > 0
            invariant
                i <= self.strip.tabs.len(),
                before == old(self)@,
                whole == before.close_tabs_under(path@, *disk),
                self@.close_under(path@, *disk, i as int).state == whole.state,
                effects::told(effects) + self@.close_under(path@, *disk, i as int).effects
                    == whole.effects,
            decreases i,
        {
            let ghost now = self@;
            let ghost done = effects::told(effects);
            assert(self@.strip.tabs[i - 1] == self.strip.tabs[i - 1].deep_view());
            let doomed = match &self.strip.tabs[i - 1].path {
                Some(open) => disk::is_under(open.as_str(), path, disk),
                None => false,
            };
            i -= 1;
            if doomed {
                let one = self.remove_tab(i);
                effects = both(effects, one);
                proof {
                    let rest = self@.close_under(path@, *disk, i as int).effects;
                    assert(done + (effects::told(one) + rest) =~= done + effects::told(one) + rest);
                }
            }
        }
        assert(effects::told(effects) + Seq::<effects::EffectView>::empty() =~= effects::told(
            effects,
        ));
        effects
    }

    // -----------------------------------------------------------------------
    // Moving
    // -----------------------------------------------------------------------

    /// One tab follows its file.
    fn follow_file(&mut self, step: &tabs::TabMove, facts: &Facts) -> (effects: Vec<
        Effect<String>,
    >)
        requires
            step.index < old(self).strip.tabs.len(),
        ensures
            final(self)@ == old(self)@.follow_file(step.deep_view(), *facts).state,
            effects::told(effects) == old(self)@.follow_file(step.deep_view(), *facts).effects,
    {
        assert(self@.strip.tabs[step.index as int]
            == self.strip.tabs[step.index as int].deep_view());
        let editor = self.strip.tabs[step.index].editor;
        let text = match facts.buffer(editor) {
            Some(buffer) => buffer.text.clone(),
            None => String::new(),
        };
        let closed = self.close_on_lsp(step.from.as_str());
        self.lsp.forget_synced(step.from.as_str());
        let pointed = also(closed, Effect::SetDocumentPath { editor, path: step.to.clone() });
        let opened = self.open_on_lsp(
            step.to.as_str(),
            text.as_str(),
            &facts.disk,
            facts.server_configured,
            &facts.kinds,
        );
        both(pointed, opened)
    }

    /// Points every tab under `from` at its new home under `to`.
    pub fn retarget_tabs(&mut self, from: &str, to: &str, facts: &Facts) -> (effects: Vec<
        Effect<String>,
    >)
        ensures
            final(self)@ == old(self)@.retarget_tabs(from@, to@, *facts).state,
            effects::told(effects) == old(self)@.retarget_tabs(from@, to@, *facts).effects,
    {
        let ghost before = self@;
        let moves = self.strip.retarget_tabs(from, to, &facts.disk);
        let ghost steps = moves.deep_view();
        let ghost pointed = self@;
        assert(pointed == (WorkspaceModel {
            strip: before.strip.renamed(from@, to@, facts.disk),
            ..before
        }));
        proof {
            lemma_moved_indices(before.strip.tabs, from@, to@, facts.disk);
        }
        let mut effects = nothing();
        let mut i: usize = 0;
        while i < moves.len()
            invariant
                i <= moves.len(),
                steps == moves.deep_view(),
                forall|k: int|
                    0 <= k < steps.len() ==> 0 <= (#[trigger] steps[k]).index
                        < pointed.strip.tabs.len(),
                self@.strip == pointed.strip,
                self@ == pointed.follow_files(steps, *facts, i as int).state,
                effects::told(effects) == pointed.follow_files(steps, *facts, i as int).effects,
            decreases moves.len() - i,
        {
            assert(steps[i as int] == moves[i as int].deep_view());
            let one = self.follow_file(&moves[i], facts);
            effects = both(effects, one);
            i += 1;
        }
        effects
    }

    /// A row was dropped on a directory, or on the empty space for the root.
    pub fn drop_tree_entry(&self, source: String, dest_dir: String) -> (request: Option<
        (String, String, String),
    >)
        ensures
            request.deep_view() == (match self@.root() {
                Some(root) => Some((source@, dest_dir@, root)),
                None => None,
            }),
    {
        match self.root() {
            Some(root) => Some((source, dest_dir, root)),
            None => None,
        }
    }

    /// A row that was dropped moved, or was refused.
    pub fn entry_moved(&mut self, source: &str, moved: Result<String, String>, facts: &Facts) -> (effects:
        Vec<Effect<String>>)
        ensures
            final(self)@ == old(self)@.entry_moved(
                source@,
                workspace_view::outcome_view(moved),
                *facts,
            ).state,
            effects::told(effects) == old(self)@.entry_moved(
                source@,
                workspace_view::outcome_view(moved),
                *facts,
            ).effects,
    {
        match moved {
            Err(error) => {
                self.status = Some(error);
                return nothing();
            },
            Ok(dest) => {
                if are_same_path(dest.as_str(), source) {
                    return nothing();
                }
                let pointed = self.retarget_tabs(source, dest.as_str(), facts);
                return both(pointed, self.tree_does(TreeOperation::Refresh));
            },
        }
    }

    /// A file or a folder from outside was dropped on the window: a folder
    /// becomes the project, a file a tab.
    pub fn external_drop(&mut self, drops: Vec<Dropped>) -> (effects: Vec<Effect<String>>)
        ensures
            final(self)@ == old(self)@.external_drop(drops.deep_view()).state,
            effects::told(effects) == old(self)@.external_drop(drops.deep_view()).effects,
    {
        let ghost before = self@;
        let ghost all = drops.deep_view();
        let mut left = drops;
        let mut effects = nothing();
        let ghost mut done: int = 0;
        while left.len() > 0
            invariant
                before == old(self)@,
                all == drops.deep_view(),
                0 <= done <= all.len(),
                left.deep_view() == all.skip(done),
                self@ == before.dropped_first(all, done).state,
                effects::told(effects) == before.dropped_first(all, done).effects,
            decreases left.len(),
        {
            let ghost rest = left.deep_view();
            assert(rest[0] == left[0].deep_view());
            assert(rest.len() == left.len());
            assert(all.skip(done).len() == all.len() - done);
            assert(all.skip(done)[0] == all[done]);
            let drop = left.remove(0);
            assert(left.deep_view() =~= rest.skip(1));
            assert(left.deep_view() =~= all.skip(done + 1));
            assert(drop.deep_view() == all[done]);
            let one = match drop {
                Dropped::Folder { tree, configured } => self.folder_loaded(tree, configured),
                Dropped::Other { path } => self.open_path(path),
            };
            effects = both(effects, one);
            proof {
                done = done + 1;
            }
        }
        assert(done == all.len());
        effects
    }
}

/// A tab that moves is one of the tabs.
proof fn lemma_moved_indices(all: Seq<tabs::TabView>, from: Seq<char>, to: Seq<char>, disk: Disk)
    ensures
        forall|k: int|
            0 <= k < tabs::moved(all, from, to, disk).len() ==> 0 <= (#[trigger] tabs::moved(
                all,
                from,
                to,
                disk,
            )[k]).index < all.len(),
    decreases all.len(),
{
    if all.len() > 0 {
        lemma_moved_indices(all.drop_last(), from, to, disk);
        let before = tabs::moved(all.drop_last(), from, to, disk);
        let steps = tabs::moved(all, from, to, disk);
        assert forall|k: int| 0 <= k < steps.len() implies 0 <= (#[trigger] steps[k]).index
            < all.len() by {
            if k < before.len() {
                assert(steps[k] == before[k]);
            }
        }
    }
}

/// Closing what was deleted, tab by tab, comes to the strip without those
/// tabs.
proof fn lemma_close_under(model: WorkspaceModel, path: Seq<char>, disk: Disk, count: int)
    requires
        count <= model.strip.tabs.len(),
    ensures
        model.close_under(path, disk, count).state.strip == model.strip.without_under(
            path,
            disk,
            count,
        ),
    decreases count,
{
    if count > 0 {
        if tabs::tab_under(model.strip.tabs[count - 1], path, disk) {
            lemma_close_under(model.remove_tab(count - 1).state, path, disk, count - 1);
        } else {
            lemma_close_under(model, path, disk, count - 1);
        }
    }
}

/// After a delete no tab is left on a file that is gone, where the next save
/// would bring it back.
pub proof fn law_delete_leaves_no_tab_behind(
    model: WorkspaceModel,
    path: Seq<char>,
    disk: Disk,
    index: int,
)
    requires
        0 <= index < model.close_tabs_under(path, disk).state.strip.tabs.len(),
    ensures
        !tabs::tab_under(
            model.close_tabs_under(path, disk).state.strip.tabs[index],
            path,
            disk,
        ),
{
    let count = model.strip.tabs.len() as int;
    lemma_close_under(model, path, disk, count);
    tabs::lemma_without_under(model.strip, path, disk, count);
    assert(model.strip.tabs.take(count) =~= model.strip.tabs);
    let left = tabs::outside(model.strip.tabs, path, disk);
    assert(left + model.strip.tabs.skip(count) =~= left);
    tabs::law_none_inside_is_left(model.strip.tabs, path, disk);
}

/// A delete leaves the user in the file they were in, unless it was deleted.
pub proof fn law_delete_keeps_the_active_file(model: WorkspaceModel, path: Seq<char>, disk: Disk)
    requires
        model.well_formed(),
        model.strip.tabs.len() > 0,
        !tabs::tab_under(model.strip.tabs[model.strip.active], path, disk),
    ensures
        model.close_tabs_under(path, disk).state.strip.active_tab()
            == model.strip.active_tab(),
{
    let count = model.strip.tabs.len() as int;
    lemma_close_under(model, path, disk, count);
    tabs::law_delete_keeps_active_file(model.strip, path, disk, count);
}

/// A file that was renamed is saved under its new name from then on: the tab
/// that showed it follows it, and stays the active one where it was.
pub proof fn law_renamed_file_takes_its_tab_along(
    model: WorkspaceModel,
    from: Seq<char>,
    to: Seq<char>,
    facts: Facts,
)
    requires
        model.strip.active_path() == Some(from),
    ensures
        model.retarget_tabs(from, to, facts).state.strip.active_path() == Some(to),
        model.retarget_tabs(from, to, facts).state.strip.active_editor()
            == model.strip.active_editor(),
{
    let steps = tabs::moved(model.strip.tabs, from, to, facts.disk);
    let pointed = WorkspaceModel {
        strip: model.strip.renamed(from, to, facts.disk),
        ..model
    };
    lemma_follow_keeps_strip(pointed, steps, facts, steps.len() as int);
    tabs::law_renamed_file_follows(from, to, facts.disk);
}

/// Telling the server about renamed files moves no tab.
proof fn lemma_follow_keeps_strip(
    model: WorkspaceModel,
    steps: Seq<tabs::MoveView>,
    facts: Facts,
    count: int,
)
    ensures
        model.follow_files(steps, facts, count).state.strip == model.strip,
    decreases count,
{
    if count > 0 {
        lemma_follow_keeps_strip(model, steps, facts, count - 1);
    }
}

/// A dismissed prompt leaves nothing armed: confirming a name afterwards does
/// nothing.
pub proof fn law_dismissed_prompt_does_nothing(model: WorkspaceModel, name: Seq<char>)
    ensures
        model.dismiss_overlay().state.on_name_confirmed(name)
            == model.dismiss_overlay().state.stays(),
        model.dismiss_overlay().state.on_delete_confirmed()
            == model.dismiss_overlay().state.stays(),
{
}

/// A folder that is dropped on the window and one that is opened cannot be told
/// apart afterwards.
pub proof fn law_dropped_folder_is_an_opened_one(
    model: WorkspaceModel,
    tree: Result<tree::TreeView, Seq<char>>,
    configured: bool,
)
    ensures
        model.external_drop(seq![DropView::Folder { tree, configured }]) == model.folder_loaded(
            tree,
            configured,
        ),
{
    let drops = seq![DropView::Folder { tree, configured }];
    assert(drops[0] == DropView::Folder { tree, configured });
    assert(model.dropped_first(drops, 0) == model.stays());
    let step = model.dropped_first(drops, 1);
    assert(step.effects =~= model.folder_loaded(tree, configured).effects);
}

/// An operation on the tree is asked for while there is one, and its outcome is
/// the new tree, or why there is none.
pub proof fn law_tree_operations_need_a_tree(
    model: WorkspaceModel,
    operation: TreeOperation<Seq<char>>,
    tree: tree::TreeView,
    error: Seq<char>,
)
    ensures
        model.tree is Some ==> model.tree_does(operation).effects == seq![
            Effect::<Seq<char>>::Tree(operation),
        ],
        model.tree is None ==> model.tree_does(operation).effects.len() == 0,
        model.tree_does(operation).state == model,
        model.tree_done(Ok(tree)) == (WorkspaceModel { tree: Some(tree), ..model }),
        model.tree_done(Err(error)) == (WorkspaceModel { status: Some(error), ..model }),
        model.tree is Some ==> model.toggle_hidden_files().effects == seq![
            Effect::<Seq<char>>::Tree(
                TreeOperation::ShowHidden(!model.tree->0.show_hidden),
            ),
        ],
        model.tree is None ==> model.toggle_hidden_files().effects.len() == 0,
{
}

/// Revealing the file in front of the user shows the tree and opens the way to
/// that very file.
pub proof fn law_active_file_is_revealed(model: WorkspaceModel)
    ensures
        0 <= model.strip.active < model.strip.tabs.len()
            && model.strip.tabs[model.strip.active].path is Some && model.tree is Some
            ==> model.reveal_active_file().effects == seq![
            Effect::<Seq<char>>::Tree(
                TreeOperation::Reveal(model.strip.tabs[model.strip.active].path->0),
            ),
        ] && model.reveal_active_file().state.sidebar is Explorer,
        model.strip.tabs.len() == 0 ==> model.reveal_active_file() == model.stays(),
{
}

/// A click on a row opens or closes a directory, and opens a file: the one of
/// that row. A click beside the rows does nothing.
pub proof fn law_tree_click_is_for_its_row(model: WorkspaceModel, index: usize)
    ensures
        model.tree is Some && index < model.tree->0.entries.len() ==> {
            let entry = model.tree->0.entries[index as int];
            &&& entry.is_dir ==> model.tree_row_clicked(index).effects == seq![
                Effect::<Seq<char>>::Tree(TreeOperation::Toggle(index)),
            ] && model.tree_row_clicked(index).state == model
            &&& !entry.is_dir ==> model.tree_row_clicked(index) == model.open_path_target(
                entry.path,
                None,
            )
        },
        model.tree is None || index >= model.tree->0.entries.len() ==> model.tree_row_clicked(index)
            == model.stays(),
{
}

/// The menu of a row is about that row, and the menu of the background about the
/// project's root; either takes the keyboard.
pub proof fn law_menu_is_about_its_row(model: WorkspaceModel, index: usize)
    ensures
        model.tree is Some && index < model.tree->0.entries.len() ==> {
            let entry = model.tree->0.entries[index as int];
            let step = model.open_tree_menu(index);
            &&& step.state.pending == Some(
                workspace_view::PendingView {
                    path: entry.path,
                    is_dir: entry.is_dir,
                    kind: PendingKind::Menu,
                },
            )
            &&& step.state.overlay is Some
            &&& step.effects.contains(
                Effect::ShowOverlay(Overlay::Menu { is_dir: entry.is_dir }),
            )
            &&& step.effects.last() == Effect::<Seq<char>>::Focus(Focus::Panel(Panel::Overlay))
        },
        model.tree is Some ==> {
            let step = model.open_tree_root_menu();
            &&& step.state.pending == Some(
                workspace_view::PendingView {
                    path: model.tree->0.root,
                    is_dir: true,
                    kind: PendingKind::Menu,
                },
            )
            &&& step.effects.contains(Effect::ShowOverlay(Overlay::RootMenu))
        },
        model.tree is None ==> model.open_tree_menu(index) == model.stays()
            && model.open_tree_root_menu() == model.stays(),
{
    if model.tree is Some {
        let a = model.dismiss_completion().effects.len() as int;
        if index < model.tree->0.entries.len() {
            let entry = model.tree->0.entries[index as int];
            let armed = model.with_pending(entry.path, entry.is_dir, PendingKind::Menu);
            assert(armed.dismiss_completion().effects =~= model.dismiss_completion().effects);
            assert(model.open_tree_menu(index).effects[a] == Effect::<Seq<char>>::ShowOverlay(
                Overlay::Menu { is_dir: entry.is_dir },
            ));
        }
        let armed = model.with_pending(model.tree->0.root, true, PendingKind::Menu);
        assert(armed.dismiss_completion().effects =~= model.dismiss_completion().effects);
        assert(model.open_tree_root_menu().effects[a] == Effect::<Seq<char>>::ShowOverlay(
            Overlay::RootMenu,
        ));
    }
}

/// An entry of the menu arms the step it stands for, on the row that the menu is
/// about, and asks before anything is deleted; showing and copying a path are
/// done at once and close the menu. Without a menu nothing is done.
pub proof fn law_menu_entries_do_what_they_say(model: WorkspaceModel)
    requires
        model.pending is Some,
        model.completion is None,
    ensures
        ({
            let path = model.pending->0.path;
            let is_dir = model.pending->0.is_dir;
            let name = shown_name(path);
            let armed = |kind: PendingKind|
                Some(workspace_view::PendingView { path, is_dir, kind });
            &&& model.on_menu_action(MenuAction::NewFile).state.pending == armed(
                PendingKind::CreateFile,
            )
            &&& model.on_menu_action(MenuAction::NewFile).effects[0] == Effect::<
                Seq<char>,
            >::ShowOverlay(
                Overlay::Prompt {
                    verb: "New"@,
                    subject: "file in "@ + name,
                    seed: Seq::empty(),
                },
            )
            &&& model.on_menu_action(MenuAction::NewDirectory).state.pending == armed(
                PendingKind::CreateDirectory,
            )
            &&& model.on_menu_action(MenuAction::NewDirectory).effects[0] == Effect::<
                Seq<char>,
            >::ShowOverlay(
                Overlay::Prompt {
                    verb: "New"@,
                    subject: "folder in "@ + name,
                    seed: Seq::empty(),
                },
            )
            &&& model.on_menu_action(MenuAction::Rename).state.pending == armed(
                PendingKind::Rename,
            )
            &&& model.on_menu_action(MenuAction::Rename).effects[0] == Effect::<
                Seq<char>,
            >::ShowOverlay(Overlay::Prompt { verb: "Rename"@, subject: name, seed: name })
            &&& model.on_menu_action(MenuAction::Delete).state.pending == armed(
                PendingKind::Delete,
            )
            &&& model.on_menu_action(MenuAction::Delete).effects[0] == Effect::<
                Seq<char>,
            >::ShowOverlay(
                Overlay::Confirm {
                    question: "Delete "@ + name + "?"@,
                    detail: if is_dir {
                        "This folder and everything in it will be deleted permanently."@
                    } else {
                        "This file will be deleted permanently."@
                    },
                },
            )
            &&& forall|e: int|
                0 <= e < model.on_menu_action(MenuAction::Delete).effects.len() ==> !((
                #[trigger] model.on_menu_action(MenuAction::Delete).effects[e]) is Start)
            &&& model.on_menu_action(MenuAction::RevealInFinder).effects[0] == Effect::<
                Seq<char>,
            >::RevealInFinder(path)
            &&& model.on_menu_action(MenuAction::RevealInFinder).state.pending is None
            &&& model.on_menu_action(MenuAction::CopyPath).effects[0] == Effect::<
                Seq<char>,
            >::CopyText(path)
            &&& model.on_menu_action(MenuAction::CopyPath).state.pending is None
        }),
{
}

/// Without a row that a menu is about, no entry of a menu does anything.
pub proof fn law_no_menu_no_action(model: WorkspaceModel, action: MenuAction, name: Seq<char>)
    requires
        model.pending is None,
    ensures
        model.on_menu_action(action) == model.stays(),
        model.on_name_confirmed(name) == model.stays(),
        model.on_delete_confirmed() == model.stays(),
{
}

/// A confirmed name creates or renames what was armed and nothing else: a file
/// or a folder of that name below the row's path, or the row's own path under
/// the new name. The prompt is closed.
pub proof fn law_confirmed_name_is_carried_out(model: WorkspaceModel, name: Seq<char>)
    requires
        model.pending is Some,
    ensures
        ({
            let path = model.pending->0.path;
            let step = model.on_name_confirmed(name);
            &&& step.state.pending is None
            &&& step.state.overlay is None
            &&& step.effects.len() == 2
            &&& step.effects[0] == model.focus_editor_or_workspace()
            &&& model.pending->0.kind is CreateFile ==> step.effects[1] == Effect::<
                Seq<char>,
            >::Start(Job::FileOperation, Work::CreateFile { path: paths::join(path, name) })
            &&& model.pending->0.kind is CreateDirectory ==> step.effects[1] == Effect::<
                Seq<char>,
            >::Start(Job::FileOperation, Work::CreateDirectory { path: paths::join(path, name) })
            &&& model.pending->0.kind is Rename ==> step.effects[1] == Effect::<Seq<char>>::Start(
                Job::FileOperation,
                Work::Rename { path, name },
            )
            &&& model.pending->0.kind is Menu || model.pending->0.kind is Delete ==> step.effects[1]
                == Effect::<Seq<char>>::Start(Job::FileOperation, Work::DoNothing)
        }),
{
}

/// A confirmed delete deletes the row's own path, inside the open project.
pub proof fn law_confirmed_delete_is_carried_out(model: WorkspaceModel)
    requires
        model.pending is Some,
        model.tree is Some,
    ensures
        model.on_delete_confirmed().effects.last() == Effect::<Seq<char>>::Start(
            Job::FileOperation,
            Work::Delete { path: model.pending->0.path, root: model.tree->0.root },
        ),
        model.on_delete_confirmed().effects.len() == 2,
        model.on_delete_confirmed().state.pending is None,
        model.on_delete_confirmed().state.overlay is None,
{
}

/// What a create, a rename or a delete came to: the tree is read again, a new
/// file is opened, the tabs of a renamed one follow it, those of a deleted one
/// are closed; a failure says why and changes nothing else.
pub proof fn law_file_operations_are_followed_up(
    model: WorkspaceModel,
    path: Seq<char>,
    to: Seq<char>,
    error: Seq<char>,
    facts: Facts,
)
    requires
        model.tree is Some,
    ensures
        ({
            let refresh = Effect::<Seq<char>>::Tree(TreeOperation::Refresh);
            &&& model.name_done(Outcome::Created(path), facts).effects == seq![refresh]
                + model.open_path_target(path, None).effects
            &&& model.name_done(Outcome::Created(path), facts).state == model.open_path_target(
                path,
                None,
            ).state
            &&& model.name_done(Outcome::Renamed { from: path, to }, facts).effects == seq![refresh]
                + model.retarget_tabs(path, to, facts).effects
            &&& model.name_done(Outcome::Renamed { from: path, to }, facts).state
                == model.retarget_tabs(path, to, facts).state
            &&& model.name_done(Outcome::Nothing, facts).effects == seq![refresh]
            &&& model.name_done(Outcome::Failed(error), facts) == (workspace_view::Step {
                state: WorkspaceModel { status: Some(error), ..model },
                effects: Seq::empty(),
            })
            &&& model.deleted(path, Some(error), facts.disk) == (workspace_view::Step {
                state: WorkspaceModel { status: Some(error), ..model },
                effects: Seq::empty(),
            })
            &&& model.deleted(path, None, facts.disk).state == model.close_tabs_under(
                path,
                facts.disk,
            ).state
            &&& model.deleted(path, None, facts.disk).effects.last() == refresh
        }),
{
    lemma_close_keeps_tree(model, path, facts.disk, model.strip.tabs.len() as int);
}

proof fn lemma_close_keeps_tree(model: WorkspaceModel, path: Seq<char>, disk: Disk, count: int)
    ensures
        model.close_under(path, disk, count).state.tree == model.tree,
    decreases count,
{
    if count > 0 {
        if tabs::tab_under(model.strip.tabs[count - 1], path, disk) {
            lemma_close_keeps_tree(model.remove_tab(count - 1).state, path, disk, count - 1);
        } else {
            lemma_close_keeps_tree(model, path, disk, count - 1);
        }
    }
}

/// A delete closes exactly the tabs under what was deleted: every other tab
/// stays, in its order.
pub proof fn law_delete_closes_only_what_is_gone(model: WorkspaceModel, path: Seq<char>, disk: Disk)
    ensures
        model.close_tabs_under(path, disk).state.strip.tabs == model.strip.tabs.filter(
            |tab: tabs::TabView| tab.path is None || !disk.under(tab.path->0, path),
        ),
{
    lemma_close_under(model, path, disk, model.strip.tabs.len() as int);
    tabs::lemma_without_under(model.strip, path, disk, model.strip.tabs.len() as int);
    tabs::law_outside_keeps_the_rest(model.strip.tabs, path, disk);
    assert(model.strip.tabs.take(model.strip.tabs.len() as int) =~= model.strip.tabs);
    assert(model.strip.tabs.skip(model.strip.tabs.len() as int) =~= Seq::<tabs::TabView>::empty());
}

/// A tab that follows its file: its document gets the new path, the server is
/// told that the old one is closed and the new one open with the same text, and
/// forgets what it was sent of the old one.
pub proof fn law_followed_file_is_reopened(model: WorkspaceModel, step: tabs::MoveView, facts: Facts)
    requires
        0 <= step.index < model.strip.tabs.len(),
        model.lsp.client is Some,
        facts.kinds.serves(step.to),
        facts.buffer_of(model.strip.tabs[step.index].editor) is Some,
    ensures
        ({
            let editor = model.strip.tabs[step.index].editor;
            &&& model.follow_file(step, facts).effects == seq![
                Effect::<Seq<char>>::ServerClose(step.from),
                Effect::<Seq<char>>::ClearDiagnostics(step.from),
                Effect::<Seq<char>>::SetDocumentPath { editor, path: step.to },
                Effect::<Seq<char>>::ServerOpen {
                    path: step.to,
                    text: facts.buffer_of(editor)->0.text@,
                },
            ]
            &&& lsp::version_sent(model.follow_file(step, facts).state.lsp.synced, step.from) is None
        }),
{
    lsp::law_forgotten_document_is_sent_again(model.lsp.synced, step.from);
}

/// Every tab that moves has its document pointed at the new path.
pub proof fn law_every_moved_tab_is_followed(
    model: WorkspaceModel,
    from: Seq<char>,
    to: Seq<char>,
    facts: Facts,
    k: int,
)
    requires
        0 <= k < tabs::moved(model.strip.tabs, from, to, facts.disk).len(),
    ensures
        ({
            let step = tabs::moved(model.strip.tabs, from, to, facts.disk)[k];
            model.retarget_tabs(from, to, facts).effects.contains(
                Effect::SetDocumentPath {
                    editor: model.strip.tabs[step.index].editor,
                    path: step.to,
                },
            )
        }),
{
    let steps = tabs::moved(model.strip.tabs, from, to, facts.disk);
    let pointed = WorkspaceModel { strip: model.strip.renamed(from, to, facts.disk), ..model };
    lemma_moved_indices(model.strip.tabs, from, to, facts.disk);
    lemma_followed(pointed, steps, facts, k, steps.len() as int);
    tabs::law_rename_touches_only_what_moved(model.strip, from, to, facts.disk, steps[k].index);
}

proof fn lemma_followed(
    model: WorkspaceModel,
    steps: Seq<tabs::MoveView>,
    facts: Facts,
    k: int,
    count: int,
)
    requires
        0 <= k < steps.len(),
        0 <= count <= steps.len(),
    ensures
        model.follow_files(steps, facts, count).state.strip == model.strip,
        k < count ==> model.follow_files(steps, facts, count).effects.contains(
            Effect::SetDocumentPath {
                editor: model.strip.tabs[steps[k].index].editor,
                path: steps[k].to,
            },
        ),
    decreases count,
{
    if count > 0 {
        lemma_followed(model, steps, facts, k, count - 1);
        let before = model.follow_files(steps, facts, count - 1);
        let all = model.follow_files(steps, facts, count);
        let told = Effect::<Seq<char>>::SetDocumentPath {
            editor: model.strip.tabs[steps[k].index].editor,
            path: steps[k].to,
        };
        if k < count - 1 {
            let at = choose|at: int| 0 <= at < before.effects.len() && before.effects[at] == told;
            assert(all.effects[at] == told);
        } else if k == count - 1 {
            let at = before.effects.len() + before.state.close_on_lsp(steps[k].from).len();
            assert(all.effects[at as int] == told);
        }
    }
}

/// A row that was dropped where it already is changes nothing; one that moved
/// takes its tabs along and the tree is read again; one that was refused says
/// why.
pub proof fn law_dropped_row_is_followed(
    model: WorkspaceModel,
    source: Seq<char>,
    dest: Seq<char>,
    error: Seq<char>,
    facts: Facts,
)
    ensures
        model.entry_moved(source, Err(error), facts) == (workspace_view::Step {
            state: WorkspaceModel { status: Some(error), ..model },
            effects: Seq::empty(),
        }),
        paths::components(source) == paths::components(dest) ==> model.entry_moved(
            source,
            Ok(dest),
            facts,
        ) == model.stays(),
        paths::components(source) != paths::components(dest) ==> model.entry_moved(
            source,
            Ok(dest),
            facts,
        ).state == model.retarget_tabs(source, dest, facts).state,
        paths::components(source) != paths::components(dest) && model.retarget_tabs(
            source,
            dest,
            facts,
        ).state.tree is Some ==> model.entry_moved(source, Ok(dest), facts).effects.last()
            == Effect::<Seq<char>>::Tree(TreeOperation::Refresh),
{
}

/// Closing a prompt or a menu leaves nothing armed and gives the keyboard back;
/// opening one takes it.
pub proof fn law_overlays_take_and_give_the_keyboard(
    model: WorkspaceModel,
    overlay: Overlay<Seq<char>>,
)
    ensures
        model.dismiss_overlay().state == (WorkspaceModel { overlay: None, pending: None, ..model }),
        model.dismiss_overlay().effects == seq![model.focus_editor_or_workspace()],
        model.show_overlay(overlay).state.overlay is Some,
        model.show_overlay(overlay).state.pending == model.pending,
        model.show_overlay(overlay).state.completion is None,
        model.show_overlay(overlay).effects.last() == Effect::<Seq<char>>::Focus(
            Focus::Panel(Panel::Overlay),
        ),
        model.completion is None ==> model.show_overlay(overlay).effects == seq![
            Effect::<Seq<char>>::ShowOverlay(overlay),
            Effect::<Seq<char>>::Focus(Focus::Panel(Panel::Overlay)),
        ],
{
}

/// A change on disk concerns the tree unless everything that changed is in git's
/// own directory.
pub proof fn law_gits_own_changes_are_passed_over(changed: Seq<Seq<char>>, root: Seq<char>, i: int)
    ensures
        changed.len() == 0 ==> concerns_tree(changed, root),
        0 <= i < changed.len() && !paths::components(paths::join(root, ".git"@)).is_prefix_of(
            paths::components(changed[i]),
        ) ==> concerns_tree(changed, root),
        changed.len() > 0 && (forall|k: int|
            0 <= k < changed.len() ==> paths::components(
                paths::join(root, ".git"@),
            ).is_prefix_of(paths::components(#[trigger] changed[k]))) ==> !concerns_tree(
            changed,
            root,
        ),
{
    if 0 <= i < changed.len() && !paths::below(changed[i], paths::join(root, ".git"@)) {
        assert(concerns_tree(changed, root));
    }
}

/// Everything that is dropped is taken in, in its order.
pub proof fn law_everything_dropped_is_taken_in(model: WorkspaceModel, drops: Seq<DropView>, last: DropView)
    ensures
        model.external_drop(Seq::empty()) == model.stays(),
        ({
            let before = model.external_drop(drops);
            let after = match last {
                DropView::Folder { tree, configured } => before.state.folder_loaded(
                    tree,
                    configured,
                ),
                DropView::Other { path } => before.state.open_path_target(path, None),
            };
            &&& model.external_drop(drops.push(last)).state == after.state
            &&& model.external_drop(drops.push(last)).effects == before.effects + after.effects
        }),
{
    lemma_dropped_same(model, drops, drops.push(last), drops.len() as int);
    assert(drops.push(last)[drops.len() as int] == last);
}

proof fn lemma_dropped_same(
    model: WorkspaceModel,
    a: Seq<DropView>,
    b: Seq<DropView>,
    count: int,
)
    requires
        count <= a.len() <= b.len(),
        forall|k: int| 0 <= k < a.len() ==> #[trigger] a[k] == b[k],
    ensures
        model.dropped_first(a, count) == model.dropped_first(b, count),
    decreases count,
{
    if count > 0 {
        lemma_dropped_same(model, a, b, count - 1);
        assert(a[count - 1] == b[count - 1]);
    }
}

/// What a row is called in a prompt: the last name of its path, or the path.
pub proof fn law_prompts_name_the_file(path: Seq<char>)
    ensures
        paths::file_name(path) is Some ==> shown_name(path) == paths::components(path).last(),
        paths::file_name(path) is None ==> shown_name(path) == path,
{
}

/// A step of the menu closes the completion popup first, and is then shown as if
/// the popup had not been there.
pub proof fn law_popup_gives_way_to_the_menu(model: WorkspaceModel, overlay: Overlay<Seq<char>>)
    requires
        model.completion is Some,
    ensures
        ({
            let closed = model.dismiss_completion();
            &&& model.show_overlay(overlay).state == closed.state.show_overlay(overlay).state
            &&& model.show_overlay(overlay).effects == closed.effects + closed.state.show_overlay(
                overlay,
            ).effects
        }),
{
}

} // verus!

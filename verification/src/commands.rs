//! The palette: what it offers, and what confirming a row does.

use vstd::prelude::*;
use vstd::string::*;

use crate::completing::Contexts;
use crate::completion::CompletionTrigger;
use crate::effects;
use crate::effects::{also, both, nothing, only, Effect, Focus, Panel, Question, Work};
use crate::facts::Facts;
use crate::jobs::Job;
use crate::palette;
use crate::palette::{split_target_id, PaletteMode, Point};
use crate::text;
use crate::text::{chars_of, join2, join3, owned, parse_number, same};
use crate::theme::App;
use crate::themes;
use crate::workspace_view;
use crate::workspace_view::{Handle, WorkspaceModel, WorkspaceView};

verus! {

/// What a command of the palette runs.
#[derive(Clone, Copy, PartialEq, Eq, Structural, Debug)]
pub enum Dispatch {
    OpenFolder,
    NewFile,
    Save,
    CloseTab,
    QuickOpen,
    Routes,
    CompleteRouteName,
    GoToSymbol,
    SetLanguage,
    OpenSettingsFile,
    GoToDefinition,
    FindReferences,
    NavigateBack,
    NavigateForward,
    NewTerminal,
    ToggleTerminal,
    ToggleTheme,
    ToggleHiddenFiles,
    OpenSettings,
    Find,
    Replace,
    ToggleTestPanel,
    RunTests,
    RunTestsInFile,
    RerunFailedTests,
    FindInProject,
    Artisan,
    FormatDocument,
    GoToWorkspaceSymbol,
    RenameSymbol,
    QuickFix,
    ToggleLogPanel,
    ComposerInstall,
    ComposerUpdate,
    ComposerRequire,
    ComposerScript,
    DockerUp,
    DockerStop,
    DockerLogs,
    GitFetch,
    GitPush,
    GitSwitchBranch,
    GitLog,
    FoldAll,
    UnfoldAll,
    Quit,
    /// The command is in the list and nothing carries it out.
    Unhandled,
}

/// What the window knows at the moment a row of the palette is confirmed.
pub struct Moment {
    pub facts: Facts,
    /// Whether the cursor is on screen.
    pub placed: bool,
    pub contexts: Contexts,
}

impl WorkspaceModel {
    /// Closes the palette and gives the keyboard back.
    pub open spec fn dismiss_palette(self) -> workspace_view::Step {
        let stopped = self.cancel_quick_open_walk();
        workspace_view::Step {
            state: WorkspaceModel { palette: None, ..stopped.state },
            effects: stopped.effects.push(self.focus_editor_or_workspace()),
        }
    }

    /// What a mode of the palette lists has to be found first.
    pub open spec fn load_palette_items(self, mode: PaletteMode, facts: Facts) -> workspace_view::Step {
        match mode {
            PaletteMode::Symbols => self.asks(self.load_symbol_items(facts)),
            PaletteMode::WorkspaceSymbols => self.asks(
                self.ask(Question::WorkspaceSymbols { query: Seq::empty() }),
            ),
            PaletteMode::Files => match self.root() {
                None => self.stays(),
                Some(root) => {
                    let stopped = self.cancel_quick_open_walk();
                    workspace_view::Step {
                        state: WorkspaceModel {
                            quick_open_cancel: Some(Handle {}),
                            ..stopped.state
                        },
                        effects: stopped.effects.push(
                            Effect::Start(Job::QuickOpenIndex, Work::ListFiles { root }),
                        ),
                    }
                },
            },
            _ => match (self.root(), listing(mode)) {
                (Some(root), Some(job)) => self.asks(
                    seq![Effect::Start(job, listing_work(mode, root))],
                ),
                _ => self.stays(),
            },
        }
    }

    /// Opens the palette in a mode; in the mode it is open in, closes it.
    pub open spec fn toggle_palette(self, mode: PaletteMode, facts: Facts) -> workspace_view::Step {
        if self.palette == Some(mode) {
            self.dismiss_palette()
        } else {
            let quiet = self.dismiss_completion();
            let stopped = quiet.followed_by(quiet.state.cancel_quick_open_walk());
            let shown = workspace_view::Step {
                state: WorkspaceModel { palette: Some(mode), ..stopped.state },
                effects: stopped.effects + seq![
                    Effect::OpenPalette(mode),
                    Effect::Focus(Focus::Panel(Panel::Palette)),
                ],
            };
            shown.followed_by(shown.state.load_palette_items(mode, facts))
        }
    }

    // -----------------------------------------------------------------------
    // Confirming
    // -----------------------------------------------------------------------

    /// A row that names a place was confirmed. Going to a symbol or to a usage
    /// is a jump to come back from; opening a file is not.
    pub open spec fn jump_to_row(self, mode: PaletteMode, id: Seq<char>, facts: Facts) -> workspace_view::Step {
        let (path, row) = palette::target_of_id(id);
        let left = if row is Some && (mode is Symbols || mode is References) {
            self.jumped_from(self.current_location(facts))
        } else {
            self
        };
        left.open_path_at(path, row_point(row))
    }

    /// A fix was chosen. Whatever comes of it, the list is gone.
    pub open spec fn fix_chosen(self, id: Seq<char>) -> workspace_view::Step {
        WorkspaceModel { pending_code_actions: 0, ..self }.asks(
            match text::parsed_number(id, usize::MAX as nat) {
                Some(index) => if index < self.pending_code_actions {
                    seq![Effect::ApplyFix(index as usize)]
                } else {
                    Seq::empty()
                },
                None => Seq::empty(),
            },
        )
    }

    /// A new name was given.
    pub open spec fn name_chosen(self, name: Seq<char>, facts: Facts) -> workspace_view::Step {
        let left = WorkspaceModel { pending_rename: None, ..self };
        match self.pending_rename {
            Some((path, offset)) => left.asks(left.perform_rename(path, offset, name, facts)),
            None => left.stays(),
        }
    }

    /// Folds or unfolds everything in the active editor.
    pub open spec fn fold(self, folding: bool) -> Seq<effects::EffectView> {
        match self.strip.active_editor() {
            Some(editor) => if folding {
                seq![Effect::FoldAll { editor }]
            } else {
                seq![Effect::UnfoldAll { editor }]
            },
            None => Seq::empty(),
        }
    }

    /// Runs a command on files, tabs and the window. `theme` is the name of
    /// the theme that follows the active one.
    #[verifier::opaque]
    pub open spec fn run_window_command(
        self,
        command: Dispatch,
        id: Seq<char>,
        moment: Moment,
        theme: Seq<char>,
    ) -> workspace_view::Step {
        match command {
            Dispatch::OpenFolder => self.asks(
                seq![Effect::Start(Job::OpenFolder, Work::ChooseFolder)],
            ),
            Dispatch::NewFile => self.asks(seq![Effect::NewEditor { file: None }]),
            Dispatch::Save => self.save(moment.facts),
            Dispatch::CloseTab => self.close_tab(moment.facts),
            Dispatch::OpenSettingsFile => self.open_settings_file(moment.facts),
            Dispatch::ToggleTheme => self.says("Theme: "@ + theme).asks(
                seq![Effect::RefreshWindows],
            ),
            Dispatch::ToggleHiddenFiles => self.toggle_hidden_files(),
            Dispatch::OpenSettings => self.open_settings(),
            Dispatch::FoldAll => self.asks(self.fold(true)),
            Dispatch::UnfoldAll => self.asks(self.fold(false)),
            Dispatch::Quit => self.asks(seq![Effect::Quit]),
            _ => self.says(id + " is not implemented yet"@).stays(),
        }
    }

    /// Runs a command that goes somewhere in the code.
    #[verifier::opaque]
    pub open spec fn run_code_command(self, command: Dispatch, moment: Moment) -> workspace_view::Step {
        match command {
            Dispatch::CompleteRouteName => self.open_completion(
                CompletionTrigger::Invoked,
                moment.facts,
                moment.placed,
                moment.contexts,
            ),
            Dispatch::GoToDefinition => self.asks(
                self.go_to_definition_at_cursor(moment.facts),
            ),
            Dispatch::FindReferences => self.find_references(moment.facts),
            Dispatch::NavigateBack => self.navigate_back(moment.facts),
            Dispatch::NavigateForward => self.navigate_forward(moment.facts),
            Dispatch::FormatDocument => self.asks(self.format_document(moment.facts)),
            Dispatch::RenameSymbol => self.rename_symbol(moment.facts),
            Dispatch::QuickFix => self.asks(self.quick_fix(moment.facts)),
            Dispatch::Find => self.open_find(false, moment.facts),
            Dispatch::Replace => self.open_find(true, moment.facts),
            Dispatch::FindInProject => self.find_in_project(moment.facts),
            _ => self.stays(),
        }
    }

    /// Runs a command on a panel or on a tool of the project.
    #[verifier::opaque]
    pub open spec fn run_panel_command(self, command: Dispatch, moment: Moment) -> workspace_view::Step {
        match command {
            Dispatch::NewTerminal => self.new_terminal(),
            Dispatch::ToggleTerminal => self.toggle_terminal(),
            Dispatch::ToggleTestPanel => self.toggle_test_panel(moment.facts.tests_detected),
            Dispatch::RunTests => self.asks(
                seq![Effect::RequestTests(effects::TestRequest::All)],
            ),
            Dispatch::RunTestsInFile => self.asks(self.run_tests_in_file()),
            Dispatch::RerunFailedTests => self.asks(self.rerun_failed_tests()),
            Dispatch::ToggleLogPanel => self.toggle_log_panel(),
            Dispatch::ComposerInstall => self.type_terminal_command("composer install "@),
            Dispatch::ComposerUpdate => self.type_terminal_command("composer update "@),
            Dispatch::ComposerRequire => self.type_terminal_command("composer require "@),
            Dispatch::DockerUp => self.type_terminal_command(
                "docker compose "@ + "up -d"@ + " "@,
            ),
            Dispatch::DockerStop => self.type_terminal_command(
                "docker compose "@ + "stop"@ + " "@,
            ),
            Dispatch::DockerLogs => self.type_terminal_command(
                "docker compose "@ + "logs -f"@ + " "@,
            ),
            Dispatch::GitFetch => self.git_fetch(),
            Dispatch::GitPush => self.push_to_remote(),
            _ => self.stays(),
        }
    }

    /// Runs a command.
    #[verifier::opaque]
    pub open spec fn run_command(
        self,
        command: Dispatch,
        id: Seq<char>,
        moment: Moment,
        theme: Seq<char>,
    ) -> workspace_view::Step {
        match opens_palette(command) {
            Some(mode) => self.toggle_palette(mode, moment.facts),
            None => match kind_of(command) {
                CommandKind::Window => self.run_window_command(command, id, moment, theme),
                CommandKind::Code => self.run_code_command(command, moment),
                CommandKind::Panel => self.run_panel_command(command, moment),
            },
        }
    }

    /// What a confirmed row does, once the palette is gone.
    #[verifier::opaque]
    pub open spec fn confirmed(
        self,
        mode: PaletteMode,
        id: Seq<char>,
        command: Dispatch,
        moment: Moment,
        theme: Seq<char>,
    ) -> workspace_view::Step {
        match mode {
            PaletteMode::Artisan => self.type_artisan_command(id),
            PaletteMode::ComposerScripts => self.type_terminal_command(
                "composer run-script "@ + id + " "@,
            ),
            PaletteMode::GitLog => self.stays(),
            PaletteMode::Branches => self.switch_to_branch(id),
            PaletteMode::CodeActions => self.fix_chosen(id),
            PaletteMode::Rename => self.name_chosen(id, moment.facts),
            PaletteMode::Languages => if moment.facts.languages.deep_view().contains(id) {
                self.asks(self.set_active_language(id))
            } else {
                self.stays()
            },
            PaletteMode::Commands => self.run_command(command, id, moment, theme),
            _ => self.jump_to_row(mode, id, moment.facts),
        }
    }

    /// A row was confirmed. `command` is what the id stands for where the
    /// palette lists commands.
    pub open spec fn confirm_palette(
        self,
        id: Seq<char>,
        command: Dispatch,
        moment: Moment,
        theme: Seq<char>,
    ) -> workspace_view::Step {
        let closed = self.dismiss_palette();
        match self.palette {
            Some(mode) => closed.followed_by(
                closed.state.confirmed(mode, id, command, moment, theme),
            ),
            None => closed,
        }
    }

    /// Whether confirming a row goes on to the next theme.
    pub open spec fn changes_theme(self, command: Dispatch) -> bool {
        self.palette == Some(PaletteMode::Commands) && command is ToggleTheme
    }
}

/// The start of a row.
pub open spec fn row_point(row: Option<nat>) -> Option<Point> {
    match row {
        Some(row) => Some(Point { row: row as usize, column: 0 }),
        None => None,
    }
}

/// What a command is about.
#[derive(Clone, Copy, PartialEq, Eq, Structural, Debug)]
pub enum CommandKind {
    Window,
    Code,
    Panel,
}

/// The mode of the palette that a command opens.
pub open spec fn opens_palette(command: Dispatch) -> Option<PaletteMode> {
    match command {
        Dispatch::QuickOpen => Some(PaletteMode::Files),
        Dispatch::Routes => Some(PaletteMode::Routes),
        Dispatch::GoToSymbol => Some(PaletteMode::Symbols),
        Dispatch::SetLanguage => Some(PaletteMode::Languages),
        Dispatch::Artisan => Some(PaletteMode::Artisan),
        Dispatch::GoToWorkspaceSymbol => Some(PaletteMode::WorkspaceSymbols),
        Dispatch::ComposerScript => Some(PaletteMode::ComposerScripts),
        Dispatch::GitSwitchBranch => Some(PaletteMode::Branches),
        Dispatch::GitLog => Some(PaletteMode::GitLog),
        _ => None,
    }
}

/// What a command is about.
pub open spec fn kind_of(command: Dispatch) -> CommandKind {
    match command {
        Dispatch::CompleteRouteName
        | Dispatch::GoToDefinition
        | Dispatch::FindReferences
        | Dispatch::NavigateBack
        | Dispatch::NavigateForward
        | Dispatch::FormatDocument
        | Dispatch::RenameSymbol
        | Dispatch::QuickFix
        | Dispatch::Find
        | Dispatch::Replace
        | Dispatch::FindInProject => CommandKind::Code,
        Dispatch::NewTerminal
        | Dispatch::ToggleTerminal
        | Dispatch::ToggleTestPanel
        | Dispatch::RunTests
        | Dispatch::RunTestsInFile
        | Dispatch::RerunFailedTests
        | Dispatch::ToggleLogPanel
        | Dispatch::ComposerInstall
        | Dispatch::ComposerUpdate
        | Dispatch::ComposerRequire
        | Dispatch::DockerUp
        | Dispatch::DockerStop
        | Dispatch::DockerLogs
        | Dispatch::GitFetch
        | Dispatch::GitPush => CommandKind::Panel,
        _ => CommandKind::Window,
    }
}

/// The mode of the palette that a command opens.
fn palette_of(command: Dispatch) -> (mode: Option<PaletteMode>)
    ensures
        mode == opens_palette(command),
{
    match command {
        Dispatch::QuickOpen => Some(PaletteMode::Files),
        Dispatch::Routes => Some(PaletteMode::Routes),
        Dispatch::GoToSymbol => Some(PaletteMode::Symbols),
        Dispatch::SetLanguage => Some(PaletteMode::Languages),
        Dispatch::Artisan => Some(PaletteMode::Artisan),
        Dispatch::GoToWorkspaceSymbol => Some(PaletteMode::WorkspaceSymbols),
        Dispatch::ComposerScript => Some(PaletteMode::ComposerScripts),
        Dispatch::GitSwitchBranch => Some(PaletteMode::Branches),
        Dispatch::GitLog => Some(PaletteMode::GitLog),
        _ => None,
    }
}

/// What a command is about.
fn command_kind(command: Dispatch) -> (kind: CommandKind)
    ensures
        kind == kind_of(command),
{
    match command {
        Dispatch::CompleteRouteName
        | Dispatch::GoToDefinition
        | Dispatch::FindReferences
        | Dispatch::NavigateBack
        | Dispatch::NavigateForward
        | Dispatch::FormatDocument
        | Dispatch::RenameSymbol
        | Dispatch::QuickFix
        | Dispatch::Find
        | Dispatch::Replace
        | Dispatch::FindInProject => CommandKind::Code,
        Dispatch::NewTerminal
        | Dispatch::ToggleTerminal
        | Dispatch::ToggleTestPanel
        | Dispatch::RunTests
        | Dispatch::RunTestsInFile
        | Dispatch::RerunFailedTests
        | Dispatch::ToggleLogPanel
        | Dispatch::ComposerInstall
        | Dispatch::ComposerUpdate
        | Dispatch::ComposerRequire
        | Dispatch::DockerUp
        | Dispatch::DockerStop
        | Dispatch::DockerLogs
        | Dispatch::GitFetch
        | Dispatch::GitPush => CommandKind::Panel,
        _ => CommandKind::Window,
    }
}

/// The job that finds what a mode lists, for the modes that read the project.
/// The lists share a job: the palette shows one of them at a time.
pub open spec fn listing(mode: PaletteMode) -> Option<Job> {
    match mode {
        PaletteMode::Routes => Some(Job::RouteIndex),
        PaletteMode::Artisan => Some(Job::ArtisanList),
        PaletteMode::Branches => Some(Job::RouteIndex),
        PaletteMode::ComposerScripts => Some(Job::RouteIndex),
        PaletteMode::GitLog => Some(Job::RouteIndex),
        _ => None,
    }
}

/// What that job reads.
pub open spec fn listing_work(mode: PaletteMode, root: Seq<char>) -> Work<Seq<char>> {
    match mode {
        PaletteMode::Routes => Work::ListRoutes { root },
        PaletteMode::Artisan => Work::ListArtisan { root },
        PaletteMode::Branches => Work::ListBranches { root },
        PaletteMode::ComposerScripts => Work::ListScripts { root },
        _ => Work::ListCommits { root },
    }
}

impl WorkspaceView {
    /// Closes the palette and gives the keyboard back.
    pub fn dismiss_palette(&mut self) -> (effects: Vec<Effect<String>>)
        ensures
            final(self)@ == old(self)@.dismiss_palette().state,
            effects::told(effects) == old(self)@.dismiss_palette().effects,
    {
        let stopped = self.cancel_quick_open_walk();
        self.palette = None;
        also(stopped, self.focus_editor_or_workspace())
    }

    /// Finds what a mode of the palette lists.
    fn load_palette_items(&mut self, mode: PaletteMode, facts: &Facts) -> (effects: Vec<
        Effect<String>,
    >)
        ensures
            final(self)@ == old(self)@.load_palette_items(mode, *facts).state,
            effects::told(effects) == old(self)@.load_palette_items(mode, *facts).effects,
    {
        if mode == PaletteMode::Symbols {
            return self.load_symbol_items(facts);
        }
        if mode == PaletteMode::WorkspaceSymbols {
            let query = String::new();
            assert(query@ =~= Seq::<char>::empty());
            return self.load_workspace_symbol_items(query);
        }
        let root = match self.root() {
            Some(root) => root,
            None => {
                return nothing();
            },
        };
        match mode {
            PaletteMode::Files => {
                let stopped = self.cancel_quick_open_walk();
                self.quick_open_cancel = Some(Handle {});
                return also(
                    stopped,
                    Effect::Start(Job::QuickOpenIndex, Work::ListFiles { root }),
                );
            },
            PaletteMode::Routes => {
                return only(Effect::Start(Job::RouteIndex, Work::ListRoutes { root }));
            },
            PaletteMode::Artisan => {
                return only(Effect::Start(Job::ArtisanList, Work::ListArtisan { root }));
            },
            PaletteMode::Branches => {
                return only(Effect::Start(Job::RouteIndex, Work::ListBranches { root }));
            },
            PaletteMode::ComposerScripts => {
                return only(Effect::Start(Job::RouteIndex, Work::ListScripts { root }));
            },
            PaletteMode::GitLog => {
                return only(Effect::Start(Job::RouteIndex, Work::ListCommits { root }));
            },
            _ => {
                return nothing();
            },
        }
    }

    /// Opens the palette in a mode; in the mode it is open in, closes it. It
    /// opens at once, and what it lists comes in later.
    pub fn toggle_palette(&mut self, mode: PaletteMode, facts: &Facts) -> (effects: Vec<
        Effect<String>,
    >)
        ensures
            final(self)@ == old(self)@.toggle_palette(mode, *facts).state,
            effects::told(effects) == old(self)@.toggle_palette(mode, *facts).effects,
    {
        if let Some(open) = self.palette {
            if open == mode {
                return self.dismiss_palette();
            }
        }
        let quiet = self.dismiss_completion();
        let stopped = both(quiet, self.cancel_quick_open_walk());
        self.palette = Some(mode);
        let opened = also(stopped, Effect::OpenPalette(mode));
        let shown = also(opened, Effect::Focus(Focus::Panel(Panel::Palette)));
        both(shown, self.load_palette_items(mode, facts))
    }

    /// The query of the palette changed. Only the symbols of the project are
    /// matched elsewhere.
    pub fn palette_query_changed(&self, query: String) -> (effects: Vec<Effect<String>>)
        ensures
            effects::told(effects) == (if self@.palette == Some(PaletteMode::WorkspaceSymbols) {
                self@.ask(Question::WorkspaceSymbols { query: query@ })
            } else {
                Seq::<effects::EffectView>::empty()
            }),
    {
        match self.palette {
            Some(PaletteMode::WorkspaceSymbols) => self.load_workspace_symbol_items(query),
            _ => nothing(),
        }
    }

    // -----------------------------------------------------------------------
    // Confirming
    // -----------------------------------------------------------------------

    /// A row that names a place was confirmed.
    fn jump_to_row(&mut self, mode: PaletteMode, id: &str, facts: &Facts) -> (effects: Vec<
        Effect<String>,
    >)
        ensures
            final(self)@ == old(self)@.jump_to_row(mode, id@, *facts).state,
            effects::told(effects) == old(self)@.jump_to_row(mode, id@, *facts).effects,
    {
        let (path, target) = split_target_id(id);
        assert(target == row_point(palette::target_of_id(id@).1));
        let jumps = target.is_some() && (mode == PaletteMode::Symbols || mode
            == PaletteMode::References);
        if jumps {
            let origin = self.current_location(facts);
            self.jumped_from(origin);
            return self.open_path_at(path, target);
        }
        self.open_path_at(path, target)
    }

    /// A fix was chosen.
    fn fix_chosen(&mut self, id: &str) -> (effects: Vec<Effect<String>>)
        ensures
            final(self)@ == old(self)@.fix_chosen(id@).state,
            effects::told(effects) == old(self)@.fix_chosen(id@).effects,
    {
        let offered = self.pending_code_actions;
        self.pending_code_actions = 0;
        let chars = chars_of(id);
        assert(chars@.subrange(0, chars.len() as int) =~= id@);
        match parse_number(&chars, 0, chars.len(), usize::MAX as u64) {
            Some(index) => if index < offered as u64 {
                only(Effect::ApplyFix(index as usize))
            } else {
                nothing()
            },
            None => nothing(),
        }
    }

    /// A new name was given.
    fn name_chosen(&mut self, name: String, facts: &Facts) -> (effects: Vec<Effect<String>>)
        ensures
            final(self)@ == old(self)@.name_chosen(name@, *facts).state,
            effects::told(effects) == old(self)@.name_chosen(name@, *facts).effects,
    {
        let mut pending: Option<(String, usize)> = None;
        std::mem::swap(&mut pending, &mut self.pending_rename);
        match pending {
            Some((path, offset)) => self.perform_rename(path, offset, name, facts),
            None => nothing(),
        }
    }

    /// A language was chosen.
    fn language_chosen(&self, name: String, facts: &Facts) -> (effects: Vec<Effect<String>>)
        ensures
            effects::told(effects) == (if facts.languages.deep_view().contains(name@) {
                self@.set_active_language(name@)
            } else {
                Seq::<effects::EffectView>::empty()
            }),
    {
        let ghost names = facts.languages.deep_view();
        let mut i: usize = 0;
        while i < facts.languages.len()
            invariant
                i <= facts.languages.len(),
                names == facts.languages.deep_view(),
                forall|k: int| 0 <= k < i ==> #[trigger] names[k] != name@,
            decreases facts.languages.len() - i,
        {
            assert(names[i as int] == facts.languages[i as int]@);
            if same(facts.languages[i].as_str(), name.as_str()) {
                return self.set_active_language(name);
            }
            i += 1;
        }
        nothing()
    }

    /// Folds or unfolds everything in the active editor.
    pub fn fold(&self, folding: bool) -> (effects: Vec<Effect<String>>)
        ensures
            effects::told(effects) == self@.fold(folding),
    {
        match self.strip.active_editor() {
            Some(editor) => if folding {
                only(Effect::FoldAll { editor })
            } else {
                only(Effect::UnfoldAll { editor })
            },
            None => nothing(),
        }
    }

    /// Runs a command on files, tabs and the window.
    fn run_window_command(&mut self, command: Dispatch, id: &str, moment: &Moment, app: &mut App) -> (effects:
        Vec<Effect<String>>)
        requires
            old(app).active is Some,
        ensures
            final(self)@ == old(self)@.run_window_command(command, id@, *moment, themes::cycled(old(app)@).1).state,
            effects::told(effects) == old(self)@.run_window_command(command, id@, *moment, themes::cycled(old(app)@).1).effects,
            final(app)@ == (if command is ToggleTheme {
                themes::cycled(old(app)@).0
            } else {
                old(app)@
            }),
    {
        reveal(WorkspaceModel::run_window_command);
        match command {
            Dispatch::OpenFolder => {
                return self.open_folder();
            },
            Dispatch::NewFile => {
                return only(Effect::NewEditor { file: None });
            },
            Dispatch::Save => {
                return self.save(&moment.facts);
            },
            Dispatch::CloseTab => {
                return self.close_tab(&moment.facts);
            },
            Dispatch::OpenSettingsFile => {
                return self.open_settings_file(&moment.facts);
            },
            Dispatch::ToggleTheme => {
                return self.toggle_theme(app);
            },
            Dispatch::ToggleHiddenFiles => {
                return self.toggle_hidden_files();
            },
            Dispatch::OpenSettings => {
                return self.open_settings();
            },
            Dispatch::FoldAll => {
                return self.fold(true);
            },
            Dispatch::UnfoldAll => {
                return self.fold(false);
            },
            Dispatch::Quit => {
                return only(Effect::Quit);
            },
            _ => {
                self.status = Some(join2(id, " is not implemented yet"));
                return nothing();
            },
        }
    }

    /// Runs a command that goes somewhere in the code.
    fn run_code_command(&mut self, command: Dispatch, moment: &Moment) -> (effects: Vec<
        Effect<String>,
    >)
        ensures
            final(self)@ == old(self)@.run_code_command(command, *moment).state,
            effects::told(effects) == old(self)@.run_code_command(command, *moment).effects,
    {
        reveal(WorkspaceModel::run_code_command);
        match command {
            Dispatch::CompleteRouteName => {
                return self.complete(&moment.facts, moment.placed, &moment.contexts);
            },
            Dispatch::GoToDefinition => {
                return self.go_to_definition_at_cursor(&moment.facts);
            },
            Dispatch::FindReferences => {
                return self.find_references(&moment.facts);
            },
            Dispatch::NavigateBack => {
                return self.navigate_back(&moment.facts);
            },
            Dispatch::NavigateForward => {
                return self.navigate_forward(&moment.facts);
            },
            Dispatch::FormatDocument => {
                return self.format_document(&moment.facts);
            },
            Dispatch::RenameSymbol => {
                return self.rename_symbol(&moment.facts);
            },
            Dispatch::QuickFix => {
                return self.quick_fix(&moment.facts);
            },
            Dispatch::Find => {
                return self.open_find(false, &moment.facts);
            },
            Dispatch::Replace => {
                return self.open_find(true, &moment.facts);
            },
            Dispatch::FindInProject => {
                return self.find_in_project(&moment.facts);
            },
            _ => {
                return nothing();
            },
        }
    }

    /// Runs a command on a panel or on a tool of the project.
    fn run_panel_command(&mut self, command: Dispatch, moment: &Moment) -> (effects: Vec<
        Effect<String>,
    >)
        ensures
            final(self)@ == old(self)@.run_panel_command(command, *moment).state,
            effects::told(effects) == old(self)@.run_panel_command(command, *moment).effects,
    {
        reveal(WorkspaceModel::run_panel_command);
        match command {
            Dispatch::NewTerminal => {
                return self.new_terminal();
            },
            Dispatch::ToggleTerminal => {
                return self.toggle_terminal();
            },
            Dispatch::ToggleTestPanel => {
                return self.toggle_test_panel(moment.facts.tests_detected);
            },
            Dispatch::RunTests => {
                return self.run_tests();
            },
            Dispatch::RunTestsInFile => {
                return self.run_tests_in_file();
            },
            Dispatch::RerunFailedTests => {
                return self.rerun_failed_tests();
            },
            Dispatch::ToggleLogPanel => {
                return self.toggle_log_panel();
            },
            Dispatch::ComposerInstall => {
                return self.type_terminal_command(owned("composer install "));
            },
            Dispatch::ComposerUpdate => {
                return self.type_terminal_command(owned("composer update "));
            },
            Dispatch::ComposerRequire => {
                return self.type_terminal_command(owned("composer require "));
            },
            Dispatch::DockerUp => {
                return self.type_docker_command("up -d");
            },
            Dispatch::DockerStop => {
                return self.type_docker_command("stop");
            },
            Dispatch::DockerLogs => {
                return self.type_docker_command("logs -f");
            },
            Dispatch::GitFetch => {
                return self.git_fetch();
            },
            Dispatch::GitPush => {
                return self.push_to_remote();
            },
            _ => {
                return nothing();
            },
        }
    }

    /// Runs a command.
    pub fn run_command(&mut self, command: Dispatch, id: &str, moment: &Moment, app: &mut App) -> (effects:
        Vec<Effect<String>>)
        requires
            old(app).active is Some,
        ensures
            final(self)@ == old(self)@.run_command(command, id@, *moment, themes::cycled(old(app)@).1).state,
            effects::told(effects) == old(self)@.run_command(command, id@, *moment, themes::cycled(old(app)@).1).effects,
            final(app)@ == (if command is ToggleTheme {
                themes::cycled(old(app)@).0
            } else {
                old(app)@
            }),
    {
        reveal(WorkspaceModel::run_command);
        if let Some(mode) = palette_of(command) {
            return self.toggle_palette(mode, &moment.facts);
        }
        match command_kind(command) {
            CommandKind::Window => self.run_window_command(command, id, moment, app),
            CommandKind::Code => self.run_code_command(command, moment),
            CommandKind::Panel => self.run_panel_command(command, moment),
        }
    }

    /// Does what a confirmed row says, once the palette is gone.
    fn confirmed(
        &mut self,
        mode: PaletteMode,
        id: String,
        command: Dispatch,
        moment: &Moment,
        app: &mut App,
    ) -> (effects: Vec<Effect<String>>)
        requires
            old(app).active is Some,
        ensures
            final(self)@ == old(self)@.confirmed(mode, id@, command, *moment, themes::cycled(old(app)@).1).state,
            effects::told(effects) == old(self)@.confirmed(mode, id@, command, *moment, themes::cycled(old(app)@).1).effects,
            final(app)@ == (if mode is Commands && command is ToggleTheme {
                themes::cycled(old(app)@).0
            } else {
                old(app)@
            }),
    {
        reveal(WorkspaceModel::confirmed);
        match mode {
            PaletteMode::Artisan => self.type_artisan_command(id),
            PaletteMode::ComposerScripts => self.type_terminal_command(
                join3("composer run-script ", id.as_str(), " "),
            ),
            PaletteMode::GitLog => nothing(),
            PaletteMode::Branches => self.switch_to_branch(id),
            PaletteMode::CodeActions => self.fix_chosen(id.as_str()),
            PaletteMode::Rename => self.name_chosen(id, &moment.facts),
            PaletteMode::Languages => self.language_chosen(id, &moment.facts),
            PaletteMode::Commands => self.run_command(command, id.as_str(), moment, app),
            _ => self.jump_to_row(mode, id.as_str(), &moment.facts),
        }
    }

    /// A row was confirmed: the palette closes, and what the row says is done.
    pub fn confirm_palette(&mut self, id: String, command: Dispatch, moment: &Moment, app: &mut App) -> (effects:
        Vec<Effect<String>>)
        requires
            old(app).active is Some,
        ensures
            final(self)@ == old(self)@.confirm_palette(id@, command, *moment, themes::cycled(old(app)@).1).state,
            effects::told(effects) == old(self)@.confirm_palette(id@, command, *moment, themes::cycled(old(app)@).1).effects,
            final(app)@ == (if old(self)@.changes_theme(command) {
                themes::cycled(old(app)@).0
            } else {
                old(app)@
            }),
    {
        let mode = self.palette;
        let closed = self.dismiss_palette();
        match mode {
            Some(mode) => {
                let done = self.confirmed(mode, id, command, moment, app);
                both(closed, done)
            },
            None => closed,
        }
    }
}

// ---------------------------------------------------------------------------
// Laws
// ---------------------------------------------------------------------------

/// The chord of a mode opens the palette in it, and closes it where it is open
/// in that mode; then the keyboard goes back to the editor.
pub proof fn law_toggling_opens_or_closes(model: WorkspaceModel, mode: PaletteMode, facts: Facts)
    ensures
        model.palette != Some(mode) ==> model.toggle_palette(mode, facts).state.palette == Some(
            mode,
        ),
        model.palette == Some(mode) ==> model.toggle_palette(mode, facts).state.palette is None,
        model.palette == Some(mode) ==> model.toggle_palette(mode, facts).effects.last()
            == model.focus_editor_or_workspace(),
{
}

/// The chord that opens the palette closes it again.
pub proof fn law_toggling_twice_closes(model: WorkspaceModel, mode: PaletteMode, facts: Facts)
    requires
        model.palette != Some(mode),
    ensures
        model.toggle_palette(mode, facts).state.toggle_palette(
            mode,
            facts,
        ).state.palette is None,
{
    law_toggling_opens_or_closes(model, mode, facts);
    law_toggling_opens_or_closes(model.toggle_palette(mode, facts).state, mode, facts);
}

/// Closing the palette, or replacing it by another mode, stops the walk that
/// was filling it: nothing works for a list that is not on screen.
pub proof fn law_no_walk_outlives_its_palette(
    model: WorkspaceModel,
    mode: PaletteMode,
    facts: Facts,
)
    ensures
        model.dismiss_palette().state.quick_open_cancel is None,
        !(mode is Files) ==> model.toggle_palette(mode, facts).state.quick_open_cancel is None,
{
}

/// A row of the log of commits is there to be read: confirming it closes the
/// palette and does nothing else.
pub proof fn law_log_rows_are_read_only(
    model: WorkspaceModel,
    id: Seq<char>,
    command: Dispatch,
    moment: Moment,
    theme: Seq<char>,
)
    requires
        model.palette == Some(PaletteMode::GitLog),
    ensures
        model.confirm_palette(id, command, moment, theme).state == model.dismiss_palette().state,
        model.confirm_palette(id, command, moment, theme).effects
            == model.dismiss_palette().effects,
{
    reveal(WorkspaceModel::confirmed);
    assert(model.confirm_palette(id, command, moment, theme).effects
        =~= model.dismiss_palette().effects);
}

/// A fix is applied at most once: the list is gone with the palette, and a
/// confirmed row that is not in it does nothing.
pub proof fn law_a_fix_is_applied_once(model: WorkspaceModel, id: Seq<char>, again: Seq<char>)
    ensures
        model.fix_chosen(id).state.pending_code_actions == 0,
        model.fix_chosen(id).state.fix_chosen(again).effects == Seq::<effects::EffectView>::empty(),
{
}

/// Closing the palette stops the walk that filled it and gives the keyboard back
/// to the editor; nothing else changes.
pub proof fn law_closed_palette_gives_the_keyboard_back(model: WorkspaceModel)
    ensures
        model.dismiss_palette().state == (WorkspaceModel {
            palette: None,
            quick_open_cancel: None,
            ..model
        }),
        model.quick_open_cancel is None ==> model.dismiss_palette().effects == seq![
            Effect::<Seq<char>>::CancelJob(Job::QuickOpenIndex),
            model.focus_editor_or_workspace(),
        ],
        model.quick_open_cancel is Some ==> model.dismiss_palette().effects == seq![
            Effect::<Seq<char>>::CancelWalk(effects::Walk::QuickOpen),
            Effect::<Seq<char>>::CancelJob(Job::QuickOpenIndex),
            model.focus_editor_or_workspace(),
        ],
{
}

/// A palette is filled with what its kind lists, read in the project's root.
pub proof fn law_palette_lists_its_kind(model: WorkspaceModel, facts: Facts)
    requires
        model.tree is Some,
    ensures
        ({
            let root = model.tree->0.root;
            &&& model.load_palette_items(PaletteMode::Files, facts).effects.last() == Effect::<
                Seq<char>,
            >::Start(Job::QuickOpenIndex, Work::ListFiles { root })
            &&& model.load_palette_items(
                PaletteMode::Files,
                facts,
            ).state.quick_open_cancel is Some
            &&& model.load_palette_items(PaletteMode::Routes, facts).effects == seq![
                Effect::<Seq<char>>::Start(Job::RouteIndex, Work::ListRoutes { root }),
            ]
            &&& model.load_palette_items(PaletteMode::Artisan, facts).effects == seq![
                Effect::<Seq<char>>::Start(Job::ArtisanList, Work::ListArtisan { root }),
            ]
            &&& model.load_palette_items(PaletteMode::Branches, facts).effects == seq![
                Effect::<Seq<char>>::Start(Job::RouteIndex, Work::ListBranches { root }),
            ]
            &&& model.load_palette_items(PaletteMode::ComposerScripts, facts).effects == seq![
                Effect::<Seq<char>>::Start(Job::RouteIndex, Work::ListScripts { root }),
            ]
            &&& model.load_palette_items(PaletteMode::GitLog, facts).effects == seq![
                Effect::<Seq<char>>::Start(Job::RouteIndex, Work::ListCommits { root }),
            ]
        }),
        model.load_palette_items(PaletteMode::Commands, facts) == model.stays(),
        model.load_palette_items(PaletteMode::Languages, facts) == model.stays(),
        model.load_palette_items(PaletteMode::Symbols, facts).effects == model.load_symbol_items(
            facts,
        ),
        model.load_palette_items(PaletteMode::WorkspaceSymbols, facts).effects == model.ask(
            Question::WorkspaceSymbols { query: Seq::empty() },
        ),
{
}

/// An opened palette is shown, takes the keyboard and is then filled.
pub proof fn law_opened_palette_is_filled(model: WorkspaceModel, mode: PaletteMode, facts: Facts)
    requires
        model.completion is None,
        model.quick_open_cancel is None,
        model.palette != Some(mode),
    ensures
        ({
            let shown = WorkspaceModel { palette: Some(mode), ..model };
            let step = model.toggle_palette(mode, facts);
            &&& step.state == shown.load_palette_items(mode, facts).state
            &&& step.effects == seq![
                Effect::<Seq<char>>::CancelJob(Job::QuickOpenIndex),
                Effect::<Seq<char>>::OpenPalette(mode),
                Effect::<Seq<char>>::Focus(Focus::Panel(Panel::Palette)),
            ] + shown.load_palette_items(mode, facts).effects
        }),
{
    let quiet = model.dismiss_completion();
    assert(quiet == model.stays());
    let stopped = quiet.followed_by(quiet.state.cancel_quick_open_walk());
    assert(stopped.state == model);
    assert(stopped.effects =~= seq![Effect::<Seq<char>>::CancelJob(Job::QuickOpenIndex)]);
    assert(stopped.effects + seq![
        Effect::<Seq<char>>::OpenPalette(mode),
        Effect::<Seq<char>>::Focus(Focus::Panel(Panel::Palette)),
    ] =~= seq![
        Effect::<Seq<char>>::CancelJob(Job::QuickOpenIndex),
        Effect::<Seq<char>>::OpenPalette(mode),
        Effect::<Seq<char>>::Focus(Focus::Panel(Panel::Palette)),
    ]);
}

/// Without a project a palette that lists the project's things stays empty.
pub proof fn law_palette_is_empty_without_a_project(
    model: WorkspaceModel,
    mode: PaletteMode,
    facts: Facts,
)
    requires
        model.tree is None,
        mode is Files || mode is Routes || mode is Artisan || mode is Branches
            || mode is ComposerScripts || mode is GitLog,
    ensures
        model.load_palette_items(mode, facts) == model.stays(),
{
}

/// A row leads to the line that its id holds; from a symbol or a usage the place
/// that was left is remembered, from a file it is not.
pub proof fn law_row_leads_to_its_line(
    model: WorkspaceModel,
    path: Seq<char>,
    row: nat,
    bare: Seq<char>,
    facts: Facts,
)
    requires
        row <= usize::MAX,
        forall|k: int| 0 <= k < bare.len() ==> bare[k] != ':',
    ensures
        ({
            let id = path + ":"@ + text::decimal(row);
            let point = Some(Point { row: row as usize, column: 0 });
            let left = model.jumped_from(model.current_location(facts));
            &&& model.jump_to_row(PaletteMode::Symbols, id, facts) == left.open_path_at(path, point)
            &&& model.jump_to_row(PaletteMode::References, id, facts) == left.open_path_at(
                path,
                point,
            )
            &&& model.jump_to_row(PaletteMode::Files, id, facts) == model.open_path_at(path, point)
            &&& model.jump_to_row(PaletteMode::Routes, id, facts) == model.open_path_at(path, point)
            &&& model.jump_to_row(PaletteMode::WorkspaceSymbols, id, facts) == model.open_path_at(
                path,
                point,
            )
            &&& model.jump_to_row(PaletteMode::Files, bare, facts) == model.open_path_at(bare, None)
            &&& model.jump_to_row(PaletteMode::Symbols, bare, facts) == model.open_path_at(
                bare,
                None,
            )
        }),
{
    palette::law_target_id_round_trip(path, row);
    palette::law_bare_path_has_no_target(bare);
}

/// The fix that was chosen is the one that is applied, and only one that was
/// offered; no fix is offered twice.
pub proof fn law_chosen_fix_is_applied(model: WorkspaceModel, index: nat)
    ensures
        index < model.pending_code_actions ==> model.fix_chosen(text::decimal(index)).effects
            == seq![Effect::<Seq<char>>::ApplyFix(index as usize)],
        index >= model.pending_code_actions ==> model.fix_chosen(
            text::decimal(index),
        ).effects.len() == 0,
        model.fix_chosen(text::decimal(index)).state == (WorkspaceModel {
            pending_code_actions: 0,
            ..model
        }),
{
    text::lemma_decimal(index);
    let digits = text::decimal(index);
    assert(text::is_digit(digits[0]));
    text::law_numbers_read_back(index, usize::MAX as nat, digits, '+');
}

/// The name that was chosen is asked for at the place that the rename was begun
/// from, once.
pub proof fn law_chosen_name_is_asked_for(model: WorkspaceModel, name: Seq<char>, facts: Facts)
    ensures
        model.name_chosen(name, facts).state == (WorkspaceModel { pending_rename: None, ..model }),
        model.pending_rename is None ==> model.name_chosen(name, facts).effects.len() == 0,
        model.pending_rename matches Some((path, offset)) ==> model.name_chosen(name, facts).effects
            == model.perform_rename(path, offset, name, facts),
{
    if let Some((path, offset)) = model.pending_rename {
        let left = WorkspaceModel { pending_rename: None, ..model };
        assert(left.perform_rename(path, offset, name, facts) == model.perform_rename(
            path,
            offset,
            name,
            facts,
        ));
    }
}

/// Folding and unfolding are about the editor in front of the user.
pub proof fn law_folding_is_for_the_active_editor(model: WorkspaceModel)
    ensures
        model.strip.tabs.len() == 0 ==> model.fold(true).len() == 0 && model.fold(false).len() == 0,
        0 <= model.strip.active < model.strip.tabs.len() ==> {
            let editor = model.strip.tabs[model.strip.active].editor;
            &&& model.fold(true) == seq![Effect::<Seq<char>>::FoldAll { editor }]
            &&& model.fold(false) == seq![Effect::<Seq<char>>::UnfoldAll { editor }]
        },
{
}

/// Each command about the window does what it is named after, and one that there
/// is nothing for yet says so by its id.
pub proof fn law_window_commands_do_what_they_say(
    model: WorkspaceModel,
    id: Seq<char>,
    moment: Moment,
    theme: Seq<char>,
)
    ensures
        model.run_command(Dispatch::OpenFolder, id, moment, theme) == model.asks(
            seq![Effect::Start(Job::OpenFolder, Work::ChooseFolder)],
        ),
        model.run_command(Dispatch::NewFile, id, moment, theme) == model.asks(
            seq![Effect::NewEditor { file: None }],
        ),
        model.run_command(Dispatch::Save, id, moment, theme) == model.save(moment.facts),
        model.run_command(Dispatch::CloseTab, id, moment, theme) == model.close_tab(moment.facts),
        model.run_command(Dispatch::OpenSettingsFile, id, moment, theme)
            == model.open_settings_file(moment.facts),
        model.run_command(Dispatch::ToggleTheme, id, moment, theme).state.status == Some(
            "Theme: "@ + theme,
        ),
        model.run_command(Dispatch::ToggleTheme, id, moment, theme).effects == seq![
            Effect::<Seq<char>>::RefreshWindows,
        ],
        model.run_command(Dispatch::ToggleHiddenFiles, id, moment, theme)
            == model.toggle_hidden_files(),
        model.run_command(Dispatch::OpenSettings, id, moment, theme) == model.open_settings(),
        model.run_command(Dispatch::FoldAll, id, moment, theme) == model.asks(model.fold(true)),
        model.run_command(Dispatch::UnfoldAll, id, moment, theme) == model.asks(model.fold(false)),
        model.run_command(Dispatch::Quit, id, moment, theme) == model.asks(seq![Effect::Quit]),
{
    reveal(WorkspaceModel::run_command);
    reveal(WorkspaceModel::run_window_command);
}

/// A command that lists something opens the palette for it.
pub proof fn law_listing_commands_open_their_palette(
    model: WorkspaceModel,
    id: Seq<char>,
    moment: Moment,
    theme: Seq<char>,
)
    ensures
        model.run_command(Dispatch::QuickOpen, id, moment, theme) == model.toggle_palette(
            PaletteMode::Files,
            moment.facts,
        ),
        model.run_command(Dispatch::Routes, id, moment, theme) == model.toggle_palette(
            PaletteMode::Routes,
            moment.facts,
        ),
        model.run_command(Dispatch::GoToSymbol, id, moment, theme) == model.toggle_palette(
            PaletteMode::Symbols,
            moment.facts,
        ),
        model.run_command(Dispatch::SetLanguage, id, moment, theme) == model.toggle_palette(
            PaletteMode::Languages,
            moment.facts,
        ),
        model.run_command(Dispatch::Artisan, id, moment, theme) == model.toggle_palette(
            PaletteMode::Artisan,
            moment.facts,
        ),
        model.run_command(Dispatch::GoToWorkspaceSymbol, id, moment, theme) == model.toggle_palette(
            PaletteMode::WorkspaceSymbols,
            moment.facts,
        ),
        model.run_command(Dispatch::ComposerScript, id, moment, theme) == model.toggle_palette(
            PaletteMode::ComposerScripts,
            moment.facts,
        ),
        model.run_command(Dispatch::GitSwitchBranch, id, moment, theme) == model.toggle_palette(
            PaletteMode::Branches,
            moment.facts,
        ),
        model.run_command(Dispatch::GitLog, id, moment, theme) == model.toggle_palette(
            PaletteMode::GitLog,
            moment.facts,
        ),
{
    reveal(WorkspaceModel::run_command);
}

/// The theme changes exactly where that command was chosen among the commands.
pub proof fn law_theme_changes_on_its_command(model: WorkspaceModel, command: Dispatch)
    ensures
        model.changes_theme(command) == (model.palette == Some(PaletteMode::Commands) && command
            == Dispatch::ToggleTheme),
{
}

/// Each command about the code does what it is named after.
pub proof fn law_code_commands_do_what_they_say(
    model: WorkspaceModel,
    id: Seq<char>,
    moment: Moment,
    theme: Seq<char>,
)
    ensures
        model.run_command(Dispatch::CompleteRouteName, id, moment, theme) == model.open_completion(
            CompletionTrigger::Invoked,
            moment.facts,
            moment.placed,
            moment.contexts,
        ),
        model.run_command(Dispatch::GoToDefinition, id, moment, theme) == model.asks(
            model.go_to_definition_at_cursor(moment.facts),
        ),
        model.run_command(Dispatch::FindReferences, id, moment, theme) == model.find_references(
            moment.facts,
        ),
        model.run_command(Dispatch::NavigateBack, id, moment, theme) == model.navigate_back(
            moment.facts,
        ),
        model.run_command(Dispatch::NavigateForward, id, moment, theme) == model.navigate_forward(
            moment.facts,
        ),
        model.run_command(Dispatch::FormatDocument, id, moment, theme) == model.asks(
            model.format_document(moment.facts),
        ),
        model.run_command(Dispatch::RenameSymbol, id, moment, theme) == model.rename_symbol(
            moment.facts,
        ),
        model.run_command(Dispatch::QuickFix, id, moment, theme) == model.asks(
            model.quick_fix(moment.facts),
        ),
        model.run_command(Dispatch::Find, id, moment, theme) == model.open_find(
            false,
            moment.facts,
        ),
        model.run_command(Dispatch::Replace, id, moment, theme) == model.open_find(
            true,
            moment.facts,
        ),
        model.run_command(Dispatch::FindInProject, id, moment, theme) == model.find_in_project(
            moment.facts,
        ),
{
    reveal(WorkspaceModel::run_command);
    reveal(WorkspaceModel::run_code_command);
}

/// Each command about a panel does what it is named after.
pub proof fn law_panel_commands_do_what_they_say(
    model: WorkspaceModel,
    id: Seq<char>,
    moment: Moment,
    theme: Seq<char>,
)
    ensures
        model.run_command(Dispatch::NewTerminal, id, moment, theme) == model.new_terminal(),
        model.run_command(Dispatch::ToggleTerminal, id, moment, theme) == model.toggle_terminal(),
        model.run_command(Dispatch::ToggleTestPanel, id, moment, theme) == model.toggle_test_panel(
            moment.facts.tests_detected,
        ),
        model.run_command(Dispatch::RunTests, id, moment, theme) == model.asks(
            seq![Effect::RequestTests(effects::TestRequest::All)],
        ),
        model.run_command(Dispatch::RunTestsInFile, id, moment, theme) == model.asks(
            model.run_tests_in_file(),
        ),
        model.run_command(Dispatch::RerunFailedTests, id, moment, theme) == model.asks(
            model.rerun_failed_tests(),
        ),
        model.run_command(Dispatch::ToggleLogPanel, id, moment, theme) == model.toggle_log_panel(),
        model.run_command(Dispatch::GitFetch, id, moment, theme) == model.git_fetch(),
        model.run_command(Dispatch::GitPush, id, moment, theme) == model.push_to_remote(),
{
    reveal(WorkspaceModel::run_command);
    reveal(WorkspaceModel::run_panel_command);
}

proof fn lemma_docker_commands()
    ensures
        "docker compose "@ + "up -d"@ + " "@ == "docker compose up -d "@,
        "docker compose "@ + "stop"@ + " "@ == "docker compose stop "@,
        "docker compose "@ + "logs -f"@ + " "@ == "docker compose logs -f "@,
{
    reveal_strlit("docker compose ");
    reveal_strlit("up -d");
    reveal_strlit("stop");
    reveal_strlit("logs -f");
    reveal_strlit(" ");
    reveal_strlit("docker compose up -d ");
    reveal_strlit("docker compose stop ");
    reveal_strlit("docker compose logs -f ");
}

/// Composer's and docker's commands are typed into the terminal, ready to be
/// completed.
pub proof fn law_tool_commands_are_typed(
    model: WorkspaceModel,
    id: Seq<char>,
    moment: Moment,
    theme: Seq<char>,
)
    ensures
        model.run_command(Dispatch::ComposerInstall, id, moment, theme)
            == model.type_terminal_command("composer install "@),
        model.run_command(Dispatch::ComposerUpdate, id, moment, theme)
            == model.type_terminal_command("composer update "@),
        model.run_command(Dispatch::ComposerRequire, id, moment, theme)
            == model.type_terminal_command("composer require "@),
        model.run_command(Dispatch::DockerUp, id, moment, theme) == model.type_terminal_command(
            "docker compose up -d "@,
        ),
        model.run_command(Dispatch::DockerStop, id, moment, theme) == model.type_terminal_command(
            "docker compose stop "@,
        ),
        model.run_command(Dispatch::DockerLogs, id, moment, theme) == model.type_terminal_command(
            "docker compose logs -f "@,
        ),
{
    reveal(WorkspaceModel::run_command);
    reveal(WorkspaceModel::run_panel_command);
    lemma_docker_commands();
}

/// Choosing a row closes the palette, and what the palette is for is then done
/// in the window as that left it.
pub proof fn law_chosen_row_closes_the_palette_first(
    model: WorkspaceModel,
    mode: PaletteMode,
    id: Seq<char>,
    command: Dispatch,
    moment: Moment,
    theme: Seq<char>,
)
    requires
        model.palette == Some(mode),
    ensures
        ({
            let closed = WorkspaceModel { palette: None, quick_open_cancel: None, ..model };
            let chosen = model.confirm_palette(id, command, moment, theme);
            &&& chosen.state == closed.confirmed(mode, id, command, moment, theme).state
            &&& chosen.effects == model.dismiss_palette().effects + closed.confirmed(
                mode,
                id,
                command,
                moment,
                theme,
            ).effects
        }),
{
}

/// A row of the palette does what the palette is for: runs the command, types
/// the script, switches the branch, applies the fix, renames, sets the language,
/// or goes to the place; a commit does nothing.
pub proof fn law_chosen_row_does_what_the_palette_is_for(
    model: WorkspaceModel,
    mode: PaletteMode,
    id: Seq<char>,
    command: Dispatch,
    moment: Moment,
    theme: Seq<char>,
)
    ensures
        mode is Artisan ==> model.confirmed(mode, id, command, moment, theme)
            == model.type_artisan_command(id),
        mode is ComposerScripts ==> model.confirmed(mode, id, command, moment, theme)
            == model.type_terminal_command("composer run-script "@ + id + " "@),
        mode is GitLog ==> model.confirmed(mode, id, command, moment, theme) == model.stays(),
        mode is Branches ==> model.confirmed(mode, id, command, moment, theme)
            == model.switch_to_branch(id),
        mode is CodeActions ==> model.confirmed(mode, id, command, moment, theme)
            == model.fix_chosen(id),
        mode is Rename ==> model.confirmed(mode, id, command, moment, theme) == model.name_chosen(
            id,
            moment.facts,
        ),
        mode is Commands ==> model.confirmed(mode, id, command, moment, theme) == model.run_command(
            command,
            id,
            moment,
            theme,
        ),
        mode is Files || mode is Routes || mode is Symbols || mode is References
            || mode is WorkspaceSymbols ==> model.confirmed(mode, id, command, moment, theme)
            == model.jump_to_row(mode, id, moment.facts),
        mode is Languages && moment.facts.languages.deep_view().contains(id) ==> model.confirmed(
            mode,
            id,
            command,
            moment,
            theme,
        ) == model.asks(model.set_active_language(id)),
        mode is Languages && !moment.facts.languages.deep_view().contains(id) ==> model.confirmed(
            mode,
            id,
            command,
            moment,
            theme,
        ) == model.stays(),
{
    reveal(WorkspaceModel::confirmed);
}

proof fn lemma_regrouped<A>(q: Seq<A>, c: Seq<A>, o: Seq<A>, l: Seq<A>)
    ensures
        q + c + o + l == q + (Seq::<A>::empty() + c + o + l),
{
    assert(q + c + o + l =~= q + (Seq::<A>::empty() + c + o + l));
}

/// The palette closes the completion popup first, and then opens as if the popup
/// had not been there.
pub proof fn law_popup_gives_way_to_the_palette(
    model: WorkspaceModel,
    mode: PaletteMode,
    facts: Facts,
)
    requires
        model.palette != Some(mode),
        model.completion is Some,
    ensures
        model.toggle_palette(mode, facts).state == model.dismiss_completion().state.toggle_palette(
            mode,
            facts,
        ).state,
        model.toggle_palette(mode, facts).effects == model.dismiss_completion().effects
            + model.dismiss_completion().state.toggle_palette(mode, facts).effects,
{
    let quiet = model.dismiss_completion();
    let next = quiet.state;
    assert(next.dismiss_completion() == next.stays());
    let stop = next.cancel_quick_open_walk();
    let open = seq![
        Effect::<Seq<char>>::OpenPalette(mode),
        Effect::<Seq<char>>::Focus(Focus::Panel(Panel::Palette)),
    ];
    let shown = WorkspaceModel { palette: Some(mode), ..stop.state };
    let load = shown.load_palette_items(mode, facts);
    assert(model.toggle_palette(mode, facts).state == load.state);
    assert(model.toggle_palette(mode, facts).effects == quiet.effects + stop.effects + open
        + load.effects);
    assert(next.toggle_palette(mode, facts).state == load.state);
    assert(next.toggle_palette(mode, facts).effects == Seq::<effects::EffectView>::empty()
        + stop.effects + open + load.effects);
    lemma_regrouped(quiet.effects, stop.effects, open, load.effects);
}

/// A walk that was under way is stopped before another palette opens.
pub proof fn law_walk_gives_way_to_the_palette(
    model: WorkspaceModel,
    mode: PaletteMode,
    facts: Facts,
)
    requires
        model.palette != Some(mode),
        model.completion is None,
        model.quick_open_cancel is Some,
    ensures
        model.toggle_palette(mode, facts).effects[0] == Effect::<Seq<char>>::CancelWalk(
            effects::Walk::QuickOpen,
        ),
        model.toggle_palette(mode, facts).effects[1] == Effect::<Seq<char>>::CancelJob(
            Job::QuickOpenIndex,
        ),
        model.toggle_palette(mode, facts).effects[2] == Effect::<Seq<char>>::OpenPalette(mode),
{
    let quiet = model.dismiss_completion();
    assert(quiet == model.stays());
    let stop = model.cancel_quick_open_walk();
    let open = seq![
        Effect::<Seq<char>>::OpenPalette(mode),
        Effect::<Seq<char>>::Focus(Focus::Panel(Panel::Palette)),
    ];
    let shown = WorkspaceModel { palette: Some(mode), ..stop.state };
    let load = shown.load_palette_items(mode, facts);
    assert(model.toggle_palette(mode, facts).effects == Seq::<effects::EffectView>::empty()
        + stop.effects + open + load.effects);
}

} // verus!

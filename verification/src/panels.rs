//! The panels around the editor: the terminal, the tests, finding, the
//! settings, the log, the database, Docker and the updater.

use vstd::prelude::*;
use vstd::string::*;

use crate::database;
use crate::database::{BeginEdit, CellKey, TableInfo, TablePage};
use crate::disk::Disk;
use crate::docker;
use crate::docker::{docker_command, Services};
use crate::effects;
use crate::effects::{
    also, both, nothing, only, Effect, Focus, Panel, TestRequest, Walk, Work,
};
use crate::facts::Facts;
use crate::jobs::Job;
use crate::palette::Point;
use crate::paths;
use crate::paths::path_below;
use crate::search;
use crate::search::{replaced_status, FileMatches, SearchPanel};
use crate::test_view;
use crate::test_view::{jump_target, Report, RunState, Scope, TestCase, TestView};
use crate::text::{join2, join3, owned};
use crate::theme::App;
use crate::themes;
use crate::themes::cycle;
use crate::update;
use crate::update::{Available, UpdateAction, UpdateState};
use crate::workspace_view;
use crate::workspace_view::{Handle, Sidebar, WorkspaceModel, WorkspaceView};

verus! {

impl WorkspaceModel {
    // -----------------------------------------------------------------------
    // The terminal
    // -----------------------------------------------------------------------

    /// Opens the terminal with one session, or closes it.
    pub open spec fn toggle_terminal(self) -> workspace_view::Step {
        let quiet = self.dismiss_completion();
        match self.terminal {
            Some(_) => workspace_view::Step {
                state: WorkspaceModel { terminal: None, ..quiet.state },
                effects: quiet.effects + seq![
                    Effect::CloseTerminal,
                    self.focus_editor_or_workspace(),
                ],
            },
            None => workspace_view::Step {
                state: WorkspaceModel { terminal: Some(Handle {}), ..quiet.state },
                effects: quiet.effects + seq![
                    Effect::OpenTerminal(self.root()),
                    Effect::Focus(Focus::Panel(Panel::Terminal)),
                ],
            },
        }
    }

    /// Adds a session, opening the terminal first if it was closed.
    pub open spec fn new_terminal(self) -> workspace_view::Step {
        match self.terminal {
            Some(_) => self.asks(
                seq![Effect::OpenSession, Effect::Focus(Focus::Panel(Panel::Terminal))],
            ),
            None => self.toggle_terminal(),
        }
    }

    /// The terminal, opened where it was closed.
    pub open spec fn with_terminal(self) -> workspace_view::Step {
        match self.terminal {
            Some(_) => self.stays(),
            None => self.toggle_terminal(),
        }
    }

    /// Types a command into the terminal. It is not run: Enter is the user's
    /// to press.
    pub open spec fn type_terminal_command(self, command: Seq<char>) -> workspace_view::Step {
        self.with_terminal().and(
            seq![Effect::Type(command), Effect::Focus(Focus::Panel(Panel::Terminal))],
        )
    }

    /// Types an artisan command into the terminal.
    pub open spec fn type_artisan_command(self, name: Seq<char>) -> workspace_view::Step {
        self.with_terminal().and(
            seq![Effect::TypeArtisan(name), Effect::Focus(Focus::Panel(Panel::Terminal))],
        )
    }

    // -----------------------------------------------------------------------
    // Tests
    // -----------------------------------------------------------------------

    /// The test panel, built where it never was. Each time it is opened the
    /// project's test framework is looked for anew: `detected` says whether it
    /// has one.
    pub open spec fn with_tests(self, detected: bool) -> WorkspaceModel {
        WorkspaceModel {
            tests: match self.tests {
                Some(panel) => if self.tests_open is Some {
                    Some(panel)
                } else {
                    Some(test_view::PanelView { runner: detected, ..panel })
                },
                None => Some(test_view::PanelView::fresh(detected)),
            },
            tests_open: Some(Handle {}),
            ..self
        }
    }

    /// Opens the test panel, or closes it. A run goes on either way.
    pub open spec fn toggle_test_panel(self, detected: bool) -> workspace_view::Step {
        match self.tests_open {
            Some(_) => WorkspaceModel { tests_open: None, ..self }.asks(
                seq![self.focus_editor_or_workspace()],
            ),
            None => self.with_tests(detected).asks(seq![Effect::OpenTests]),
        }
    }

    /// The active file as the runner is told about it: below the project's
    /// root, where it is.
    pub open spec fn tested_file(self) -> Option<Seq<char>> {
        match self.strip.active_path() {
            None => None,
            Some(path) => match self.root() {
                Some(root) => match paths::relative_to(path, root) {
                    Some(below) => Some(below),
                    None => Some(path),
                },
                None => Some(path),
            },
        }
    }

    /// Runs the tests of the active file.
    pub open spec fn run_tests_in_file(self) -> Seq<effects::EffectView> {
        match self.tested_file() {
            Some(path) => seq![Effect::RequestTests(TestRequest::InFile(path))],
            None => Seq::empty(),
        }
    }

    /// Runs again what failed, while there is something that did.
    pub open spec fn rerun_failed_tests(self) -> Seq<effects::EffectView> {
        match (self.tests_open, self.tests) {
            (Some(_), Some(panel)) => if test_view::failed_names(panel.report.tests).len() > 0 {
                seq![Effect::RequestTests(TestRequest::Failed)]
            } else {
                Seq::empty()
            },
            _ => Seq::empty(),
        }
    }

    /// Starts a run, in place of the one that is under way. `command` is what
    /// the runner makes of the scope, `named` says whether the scope is one of
    /// named tests.
    pub open spec fn start_test_run(self, command: Seq<char>, named: bool, detected: bool) -> workspace_view::Step {
        let opened = workspace_view::Step {
            state: self.with_tests(detected),
            effects: if self.tests_open is Some {
                Seq::empty()
            } else {
                seq![Effect::OpenTests, Effect::Focus(Focus::Panel(Panel::Tests))]
            },
        };
        let panel = opened.state.tests->0;
        if !panel.runner {
            workspace_view::Step {
                state: WorkspaceModel {
                    tests: Some(
                        test_view::PanelView {
                            state: test_view::RunView::Failed {
                                message: "No Pest or PHPUnit found in vendor/bin"@,
                            },
                            ..panel
                        },
                    ),
                    ..opened.state
                },
                effects: opened.effects,
            }
        } else {
            let stopped = opened.followed_by(opened.state.cancel_test_run());
            workspace_view::Step {
                state: WorkspaceModel {
                    tests: Some(panel.begun(command, named)),
                    test_cancel: Some(Handle {}),
                    ..stopped.state
                },
                effects: stopped.effects.push(
                    Effect::Start(Job::TestRun, Work::RunTests { command }),
                ),
            }
        }
    }

    /// A result of the run came in.
    pub open spec fn test_reported(self, report: test_view::ReportView) -> WorkspaceModel {
        WorkspaceModel {
            tests: match self.tests {
                Some(panel) => Some(test_view::PanelView { report, ..panel }),
                None => None,
            },
            ..self
        }
    }

    /// The run ended.
    pub open spec fn test_run_ended(self, state: test_view::RunView) -> WorkspaceModel {
        WorkspaceModel {
            tests: match self.tests {
                Some(panel) => Some(test_view::PanelView { state, ..panel }),
                None => None,
            },
            test_cancel: None,
            ..self
        }
    }

    /// A test's row was clicked: the file opens at its line.
    pub open spec fn test_jump(self, test: test_view::CaseView, disk: Disk) -> workspace_view::Step {
        match test_view::jump_of(test, self.root(), disk) {
            Some((path, point)) => self.open_path_at(path, Some(point)),
            None => self.stays(),
        }
    }

    // -----------------------------------------------------------------------
    // Finding in a file
    // -----------------------------------------------------------------------

    /// Opens the find bar, or goes back to it: what was typed into it stays.
    pub open spec fn open_find(self, replacing: bool, facts: Facts) -> workspace_view::Step {
        match self.strip.active_editor() {
            None => self.stays(),
            Some(editor) => {
                let quiet = self.dismiss_completion();
                let seed = match facts.buffer_of(editor) {
                    Some(buffer) => buffer.selected_text.deep_view(),
                    None => None,
                };
                workspace_view::Step {
                    state: WorkspaceModel { find: Some(Handle {}), ..quiet.state },
                    effects: quiet.effects + seq![
                        if self.find is Some {
                            Effect::ReopenFind { replacing }
                        } else {
                            Effect::OpenFind { replacing, seed }
                        },
                        Effect::Focus(Focus::Panel(Panel::Find)),
                        Effect::SearchDocument { editor },
                    ],
                }
            },
        }
    }

    /// Gives the active document the bar's query.
    pub open spec fn apply_search(self) -> Seq<effects::EffectView> {
        match (self.find, self.strip.active_editor()) {
            (Some(_), Some(editor)) => seq![Effect::SearchDocument { editor }],
            _ => Seq::empty(),
        }
    }

    /// Counts the matches again.
    pub open spec fn refresh_find_status(self) -> Seq<effects::EffectView> {
        match (self.find, self.strip.active_editor()) {
            (Some(_), Some(editor)) => seq![Effect::CountMatches { editor }],
            _ => Seq::empty(),
        }
    }

    /// Goes to the next or to the last match.
    pub open spec fn navigate_match(self, forward: bool) -> Seq<effects::EffectView> {
        match self.strip.active_editor() {
            Some(editor) => seq![Effect::SelectMatch { editor, forward }]
                + self.refresh_find_status(),
            None => Seq::empty(),
        }
    }

    /// Replaces the match that is selected.
    pub open spec fn replace_one(self) -> Seq<effects::EffectView> {
        match (self.find, self.strip.active_editor()) {
            (Some(_), Some(editor)) => seq![Effect::ReplaceOne { editor }]
                + self.refresh_find_status(),
            _ => Seq::empty(),
        }
    }

    /// Replaces every match.
    pub open spec fn replace_all(self) -> Seq<effects::EffectView> {
        match (self.find, self.strip.active_editor()) {
            (Some(_), Some(editor)) => seq![Effect::ReplaceAll { editor }],
            _ => Seq::empty(),
        }
    }

    /// Every match was replaced.
    pub open spec fn replaced(self, count: nat) -> workspace_view::Step {
        self.says(search::replaced_text(count)).asks(self.refresh_find_status())
    }

    /// Closes the find bar, and with it the highlights.
    pub open spec fn dismiss_find(self) -> workspace_view::Step {
        WorkspaceModel { find: None, ..self }.asks(
            match self.strip.active_editor() {
                Some(editor) => seq![
                    Effect::ClearSearch { editor },
                    Effect::Focus(Focus::Editor(editor)),
                ],
                None => seq![Effect::Focus(Focus::Workspace)],
            },
        )
    }

    // -----------------------------------------------------------------------
    // Finding in the project
    // -----------------------------------------------------------------------

    /// The search panel, built where it never was.
    pub open spec fn with_search_panel(self) -> WorkspaceModel {
        WorkspaceModel {
            search_panel: match self.search_panel {
                Some(panel) => Some(panel),
                None => Some(search::SearchView::fresh()),
            },
            ..self
        }
    }

    /// Shows the search panel and goes into it; from inside it, goes back to
    /// the tree.
    pub open spec fn toggle_search_panel(self, facts: Facts) -> workspace_view::Step {
        let built = self.with_search_panel();
        if self.sidebar is Search && facts.search_focused {
            WorkspaceModel { sidebar: Sidebar::Explorer, ..built }.cancel_project_search().and(
                seq![Effect::Focus(Focus::Workspace)],
            )
        } else {
            WorkspaceModel { sidebar: Sidebar::Search, ..built }.asks(
                seq![Effect::Focus(Focus::Panel(Panel::Search))],
            ).and(
                match self.selected_text(facts) {
                    Some(text) => seq![Effect::SeedSearch(text)],
                    None => Seq::empty(),
                },
            )
        }
    }

    /// The text that is selected in the active editor.
    pub open spec fn selected_text(self, facts: Facts) -> Option<Seq<char>> {
        match self.strip.active_editor() {
            Some(editor) => match facts.buffer_of(editor) {
                Some(buffer) => buffer.selected_text.deep_view(),
                None => None,
            },
            None => None,
        }
    }

    /// Finds in the project.
    pub open spec fn find_in_project(self, facts: Facts) -> workspace_view::Step {
        let quiet = self.dismiss_completion();
        quiet.followed_by(quiet.state.toggle_search_panel(facts))
    }

    /// Starts a project search, in place of the one that is under way.
    pub open spec fn schedule_project_search(self, debounce: bool) -> workspace_view::Step {
        match (self.search_panel, self.root()) {
            (Some(panel), Some(root)) => {
                let stopped = self.cancel_project_search();
                let begun = WorkspaceModel { search_panel: Some(panel.begun()), ..stopped.state };
                if panel.query.len() == 0 {
                    workspace_view::Step { state: begun, effects: stopped.effects }
                } else {
                    workspace_view::Step {
                        state: WorkspaceModel { search_cancel: Some(Handle {}), ..begun },
                        effects: stopped.effects.push(
                            Effect::Start(
                                Job::ProjectSearch,
                                Work::SearchProject { root, debounce },
                            ),
                        ),
                    }
                }
            },
            _ => self.stays(),
        }
    }

    /// The search field holds something else.
    pub open spec fn search_query_changed(self, query: Seq<char>, debounce: bool) -> workspace_view::Step {
        WorkspaceModel {
            search_panel: match self.search_panel {
                Some(panel) => Some(search::SearchView { query, ..panel }),
                None => None,
            },
            ..self
        }.schedule_project_search(debounce)
    }

    /// The search field was seeded: a query that changed is searched for at
    /// once.
    pub open spec fn search_seeded(self, query: Seq<char>, changed: bool) -> workspace_view::Step {
        if changed {
            self.search_query_changed(query, false)
        } else {
            self.stays()
        }
    }

    /// A project search ended. One that was superseded is dropped.
    pub open spec fn project_searched(self, files: Seq<search::MatchesView>, superseded: bool) -> WorkspaceModel {
        if superseded {
            self
        } else {
            WorkspaceModel {
                search_panel: match self.search_panel {
                    Some(panel) => Some(panel.found(files)),
                    None => None,
                },
                ..self
            }
        }
    }

    /// A row of the results was clicked.
    pub open spec fn open_search_result(self, file: usize, line: usize) -> workspace_view::Step {
        match self.search_panel {
            None => self.stays(),
            Some(panel) => match panel.place(file as int, line as int) {
                None => self.stays(),
                Some((path, point)) => self.open_path_at(path, Some(point)),
            },
        }
    }

    // -----------------------------------------------------------------------
    // Settings and the log
    // -----------------------------------------------------------------------

    /// Opens the settings, or closes them.
    pub open spec fn open_settings(self) -> workspace_view::Step {
        match self.settings_panel {
            Some(_) => self.dismiss_settings(),
            None => {
                let quiet = self.dismiss_completion();
                workspace_view::Step {
                    state: WorkspaceModel { settings_panel: Some(Handle {}), ..quiet.state },
                    effects: quiet.effects + seq![
                        Effect::OpenSettings,
                        Effect::Focus(Focus::Panel(Panel::Settings)),
                    ],
                }
            },
        }
    }

    /// Closes the settings and gives the keyboard back.
    pub open spec fn dismiss_settings(self) -> workspace_view::Step {
        WorkspaceModel { settings_panel: None, ..self }.asks(
            seq![self.focus_editor_or_workspace()],
        )
    }

    /// Opens the settings file in a tab.
    pub open spec fn open_settings_file(self, facts: Facts) -> workspace_view::Step {
        match facts.settings_path {
            Some(path) => self.open_path(path@),
            None => self.says("no settings file to open — see the log"@).stays(),
        }
    }

    /// Reads the log again, while its panel is open.
    pub open spec fn refresh_log_panel(self) -> Seq<effects::EffectView> {
        match (self.logs, self.root()) {
            (Some(_), Some(root)) => seq![Effect::Start(Job::LogRead, Work::ReadLog { root })],
            _ => Seq::empty(),
        }
    }

    /// Opens the log panel, or closes it.
    pub open spec fn toggle_log_panel(self) -> workspace_view::Step {
        match self.logs {
            Some(_) => WorkspaceModel { logs: None, ..self }.stays(),
            None => {
                let opened = WorkspaceModel { logs: Some(Handle {}), ..self };
                opened.asks(seq![Effect::OpenLogs] + opened.refresh_log_panel())
            },
        }
    }

    /// A place in the log was clicked.
    pub open spec fn log_jump(self, path: Seq<char>, line: u32, disk: Disk) -> workspace_view::Step {
        if disk.is_file(path) {
            self.open_path_at(path, crate::opening::line_target(Some(line)))
        } else {
            self.stays()
        }
    }

    // -----------------------------------------------------------------------
    // The database and Docker
    // -----------------------------------------------------------------------

    /// Reads the schema.
    pub open spec fn load_db_schema(self) -> Seq<effects::EffectView> {
        match self.root() {
            Some(root) => seq![Effect::Start(Job::DbSchema, Work::ReadSchema { root })],
            None => Seq::empty(),
        }
    }

    /// Opens a table's rows.
    pub open spec fn open_db_table(self, table: Seq<char>) -> workspace_view::Step {
        match self.root() {
            None => self.stays(),
            Some(root) => WorkspaceModel {
                database: self.database.opened(table),
                ..self
            }.asks(seq![Effect::Start(Job::DbSchema, Work::ReadTable { root, table })]),
        }
    }

    /// A table's name was clicked: its columns show or hide, its rows open.
    pub open spec fn toggle_db_table(self, table: Seq<char>) -> workspace_view::Step {
        WorkspaceModel { database: self.database.toggled(table), ..self }.open_db_table(table)
    }

    /// A cell was clicked.
    pub open spec fn begin_db_edit(self, row: usize, column: usize) -> workspace_view::Step {
        let clicked = WorkspaceModel { database: self.database.edited(row, column), ..self };
        match self.database.begin(row as int) {
            BeginEdit::NoRows => self.stays(),
            BeginEdit::ReadOnly => self.says(
                "This table has no rowid — its cells are read-only"@,
            ).stays(),
            BeginEdit::Editing => clicked.asks(seq![Effect::Focus(Focus::Workspace)]),
        }
    }

    /// The cell's text is written.
    pub open spec fn db_edit_commit(self) -> workspace_view::Step {
        let left = WorkspaceModel { database: self.database.released(), ..self };
        match (self.database.write(), self.root()) {
            (Some(cell), Some(root)) => left.asks(
                seq![
                    Effect::Start(
                        Job::DbSchema,
                        Work::UpdateCell {
                            root,
                            table: cell.table,
                            column: cell.column,
                            rowid: cell.rowid,
                            value: cell.value,
                        },
                    ),
                ],
            ),
            _ => left.stays(),
        }
    }

    /// Adds a row to the open table.
    pub open spec fn db_insert_row(self) -> workspace_view::Step {
        match (self.database.insert_into(), self.root()) {
            (Some(table), Some(root)) => self.asks(
                seq![Effect::Start(Job::DbSchema, Work::InsertRow { root, table })],
            ),
            _ => self.stays(),
        }
    }

    /// A write to the database ended: its table is read again, or the status
    /// bar says why not. `None` is a project without a database.
    pub open spec fn db_written(
        self,
        insert: bool,
        outcome: Option<Result<Seq<char>, Seq<char>>>,
    ) -> workspace_view::Step {
        let front = if insert {
            "insert failed: "@
        } else {
            "update failed: "@
        };
        match outcome {
            Some(Ok(table)) => self.open_db_table(table),
            Some(Err(message)) => self.says(front + message).stays(),
            None => self.says(front + "no sqlite database"@).stays(),
        }
    }

    /// A key was pressed while a cell is in its editor.
    pub open spec fn db_key(self, key: Seq<char>, text: Option<Seq<char>>) -> workspace_view::Step {
        match database::cell_key(key, text) {
            CellKey::Commit => self.db_edit_commit(),
            CellKey::Cancel => WorkspaceModel {
                database: self.database.released(),
                ..self
            }.stays(),
            CellKey::Backspace => WorkspaceModel {
                database: self.database.erased(),
                ..self
            }.stays(),
            CellKey::Type => WorkspaceModel {
                database: self.database.typed(text->0),
                ..self
            }.stays(),
            CellKey::Nothing => self.stays(),
        }
    }

    /// Asks Docker for the project's services.
    pub open spec fn load_docker_services(self) -> Seq<effects::EffectView> {
        match self.root() {
            Some(root) => seq![Effect::Start(Job::DockerPs, Work::ReadServices { root })],
            None => Seq::empty(),
        }
    }

    // -----------------------------------------------------------------------
    // The activity bar and the window
    // -----------------------------------------------------------------------

    /// An entry of the activity bar was clicked. Leaving the search stops it:
    /// what can be seen of it stays, the work goes.
    pub open spec fn select_sidebar(self, target: Sidebar) -> workspace_view::Step {
        let first = if target is Search {
            self.with_search_panel().asks(seq![Effect::Focus(Focus::Panel(Panel::Search))])
        } else if self.sidebar is Search {
            self.cancel_project_search()
        } else {
            self.stays()
        };
        workspace_view::Step {
            state: WorkspaceModel { sidebar: target, ..first.state },
            effects: first.effects + (if target is Database {
                self.load_db_schema()
            } else {
                Seq::empty()
            }) + (if target is Docker {
                self.load_docker_services()
            } else {
                Seq::empty()
            }),
        }
    }

    /// The window is looked at again: everything that may have changed outside
    /// it is read again.
    pub open spec fn window_became_active(self) -> workspace_view::Step {
        let read = self.refresh_git_status();
        read.and(
            match self.root() {
                Some(root) => seq![Effect::RebuildIndex(root)],
                None => Seq::empty(),
            },
        ).and(
            if self.sidebar is Database {
                self.load_db_schema()
            } else {
                Seq::empty()
            },
        ).and(
            if self.sidebar is Docker {
                self.load_docker_services()
            } else {
                Seq::empty()
            },
        ).and(self.refresh_log_panel())
    }

    /// The window was activated or left; leaving it saves.
    pub open spec fn window_activation_changed(self, active: bool, facts: Facts) -> workspace_view::Step {
        if active {
            self.window_became_active()
        } else {
            self.autosave_dirty_tabs(facts)
        }
    }

    // -----------------------------------------------------------------------
    // Updates
    // -----------------------------------------------------------------------

    /// The updater's cell was clicked.
    pub open spec fn update_clicked(self, installed: bool) -> workspace_view::Step {
        match self.update_state {
            UpdateState::Available(release) => match release.dmg_url {
                Some(url) if installed => WorkspaceModel {
                    update_state: UpdateState::Downloading,
                    ..self
                }.asks(
                    seq![
                        Effect::Start(
                            Job::UpdateInstall,
                            Work::InstallUpdate { script: update::install_script_text(url@) },
                        ),
                    ],
                ),
                _ => self.asks(seq![Effect::OpenPage(release.html_url@)]),
            },
            UpdateState::ReadyToRestart => self.asks(seq![Effect::RestartIntoUpdate]),
            _ => self.stays(),
        }
    }
}

impl WorkspaceView {
    // -----------------------------------------------------------------------
    // The terminal
    // -----------------------------------------------------------------------

    /// Opens the terminal with one session, or closes it and with it its
    /// shells.
    pub fn toggle_terminal(&mut self) -> (effects: Vec<Effect<String>>)
        ensures
            final(self)@ == old(self)@.toggle_terminal().state,
            effects::told(effects) == old(self)@.toggle_terminal().effects,
    {
        let quiet = self.dismiss_completion();
        let open = self.terminal.is_some();
        if open {
            self.terminal = None;
            return also(also(quiet, Effect::CloseTerminal), self.focus_editor_or_workspace());
        }
        self.terminal = Some(Handle {});
        let opened = also(quiet, Effect::OpenTerminal(self.root()));
        also(opened, Effect::Focus(Focus::Panel(Panel::Terminal)))
    }

    /// Adds a session, opening the terminal first if it was closed.
    pub fn new_terminal(&mut self) -> (effects: Vec<Effect<String>>)
        ensures
            final(self)@ == old(self)@.new_terminal().state,
            effects::told(effects) == old(self)@.new_terminal().effects,
    {
        if self.terminal.is_some() {
            return also(
                only(Effect::OpenSession),
                Effect::Focus(Focus::Panel(Panel::Terminal)),
            );
        }
        self.toggle_terminal()
    }

    /// Opens the terminal where it was closed.
    fn with_terminal(&mut self) -> (effects: Vec<Effect<String>>)
        ensures
            final(self)@ == old(self)@.with_terminal().state,
            effects::told(effects) == old(self)@.with_terminal().effects,
    {
        if self.terminal.is_some() {
            return nothing();
        }
        self.toggle_terminal()
    }

    /// Types a command into the terminal.
    pub fn type_terminal_command(&mut self, command: String) -> (effects: Vec<Effect<String>>)
        ensures
            final(self)@ == old(self)@.type_terminal_command(command@).state,
            effects::told(effects) == old(self)@.type_terminal_command(command@).effects,
    {
        let opened = self.with_terminal();
        also(also(opened, Effect::Type(command)), Effect::Focus(Focus::Panel(Panel::Terminal)))
    }

    /// Types an artisan command into the terminal.
    pub fn type_artisan_command(&mut self, name: String) -> (effects: Vec<Effect<String>>)
        ensures
            final(self)@ == old(self)@.type_artisan_command(name@).state,
            effects::told(effects) == old(self)@.type_artisan_command(name@).effects,
    {
        let opened = self.with_terminal();
        also(
            also(opened, Effect::TypeArtisan(name)),
            Effect::Focus(Focus::Panel(Panel::Terminal)),
        )
    }

    /// Types a command of Docker's into the terminal.
    pub fn type_docker_command(&mut self, command: &str) -> (effects: Vec<Effect<String>>)
        ensures
            final(self)@ == old(self)@.type_terminal_command(
                "docker compose "@ + command@ + " "@,
            ).state,
            effects::told(effects) == old(self)@.type_terminal_command(
                "docker compose "@ + command@ + " "@,
            ).effects,
    {
        self.type_terminal_command(docker_command(command))
    }

    // -----------------------------------------------------------------------
    // Tests
    // -----------------------------------------------------------------------

    /// Shows the test panel, built where it never was, and looks for the
    /// project's runner where it was closed.
    fn with_tests(&mut self, detected: bool)
        ensures
            final(self)@ == old(self)@.with_tests(detected),
    {
        let open = self.tests_open.is_some();
        self.tests_open = Some(Handle {});
        let mut held: Option<TestView> = None;
        std::mem::swap(&mut held, &mut self.tests);
        match held {
            Some(panel) => {
                let mut shown = panel;
                if !open {
                    shown.runner = detected;
                }
                self.tests = Some(shown);
            },
            None => {
                let mut panel = TestView::new();
                panel.runner = detected;
                self.tests = Some(panel);
            },
        }
    }

    /// Opens the test panel, or closes it. Closing it does not stop a run.
    pub fn toggle_test_panel(&mut self, detected: bool) -> (effects: Vec<Effect<String>>)
        ensures
            final(self)@ == old(self)@.toggle_test_panel(detected).state,
            effects::told(effects) == old(self)@.toggle_test_panel(detected).effects,
    {
        if self.tests_open.is_some() {
            self.tests_open = None;
            return only(self.focus_editor_or_workspace());
        }
        self.with_tests(detected);
        only(Effect::OpenTests)
    }

    /// Runs every test.
    pub fn run_tests(&self) -> (effects: Vec<Effect<String>>)
        ensures
            effects::told(effects) == seq![
                Effect::<Seq<char>>::RequestTests(TestRequest::All),
            ],
    {
        only(Effect::RequestTests(TestRequest::All))
    }

    /// Runs the tests of the active file.
    pub fn run_tests_in_file(&self) -> (effects: Vec<Effect<String>>)
        ensures
            effects::told(effects) == self@.run_tests_in_file(),
    {
        let path = match self.strip.active_path() {
            Some(path) => path,
            None => {
                return nothing();
            },
        };
        let scoped = match self.root() {
            Some(root) => match path_below(path.as_str(), root.as_str()) {
                Some(below) => below,
                None => path.clone(),
            },
            None => path.clone(),
        };
        only(Effect::RequestTests(TestRequest::InFile(scoped)))
    }

    /// Runs again what failed, while there is something that did.
    pub fn rerun_failed_tests(&self) -> (effects: Vec<Effect<String>>)
        ensures
            effects::told(effects) == self@.rerun_failed_tests(),
    {
        if self.tests_open.is_none() {
            return nothing();
        }
        match &self.tests {
            Some(panel) => if panel.failed_scope().is_some() {
                only(Effect::RequestTests(TestRequest::Failed))
            } else {
                nothing()
            },
            None => nothing(),
        }
    }

    /// Starts a run, in place of the one that is under way.
    pub fn start_test_run(&mut self, scope: &Scope, command: String, detected: bool) -> (effects: Vec<
        Effect<String>,
    >)
        ensures
            final(self)@ == old(self)@.start_test_run(
                command@,
                scope is Names || scope is Name,
                detected,
            ).state,
            effects::told(effects) == old(self)@.start_test_run(
                command@,
                scope is Names || scope is Name,
                detected,
            ).effects,
    {
        let opened = if self.tests_open.is_some() {
            nothing()
        } else {
            also(only(Effect::OpenTests), Effect::Focus(Focus::Panel(Panel::Tests)))
        };
        self.with_tests(detected);
        let mut held: Option<TestView> = None;
        std::mem::swap(&mut held, &mut self.tests);
        let mut panel = match held {
            Some(panel) => panel,
            None => {
                return opened;
            },
        };
        if !panel.runner {
            panel.finish(
                RunState::Failed { message: owned("No Pest or PHPUnit found in vendor/bin") },
            );
            self.tests = Some(panel);
            return opened;
        }
        let stopped = both(opened, self.cancel_test_run());
        panel.begin(command.clone(), scope);
        self.tests = Some(panel);
        self.test_cancel = Some(Handle {});
        also(stopped, Effect::Start(Job::TestRun, Work::RunTests { command }))
    }

    /// A result of the run came in.
    pub fn test_reported(&mut self, report: Report)
        ensures
            final(self)@ == old(self)@.test_reported(report@),
    {
        let mut held: Option<TestView> = None;
        std::mem::swap(&mut held, &mut self.tests);
        match held {
            Some(panel) => {
                let mut shown = panel;
                shown.push(report);
                self.tests = Some(shown);
            },
            None => {},
        }
    }

    /// The run ended.
    pub fn test_run_ended(&mut self, state: RunState)
        ensures
            final(self)@ == old(self)@.test_run_ended(state@),
    {
        self.test_cancel = None;
        let mut held: Option<TestView> = None;
        std::mem::swap(&mut held, &mut self.tests);
        match held {
            Some(panel) => {
                let mut shown = panel;
                shown.finish(state);
                self.tests = Some(shown);
            },
            None => {},
        }
    }

    /// A test's row was clicked.
    pub fn test_jump(&mut self, test: &TestCase, disk: &Disk) -> (effects: Vec<Effect<String>>)
        ensures
            final(self)@ == old(self)@.test_jump(test.deep_view(), *disk).state,
            effects::told(effects) == old(self)@.test_jump(test.deep_view(), *disk).effects,
    {
        let root = self.root();
        let target = match &root {
            Some(root) => jump_target(test, Some(root.as_str()), disk),
            None => jump_target(test, None, disk),
        };
        match target {
            Some((path, point)) => self.open_path_at(path, Some(point)),
            None => nothing(),
        }
    }

    // -----------------------------------------------------------------------
    // Finding in a file
    // -----------------------------------------------------------------------

    /// Opens the find bar, or goes back to it.
    pub fn open_find(&mut self, replacing: bool, facts: &Facts) -> (effects: Vec<Effect<String>>)
        ensures
            final(self)@ == old(self)@.open_find(replacing, *facts).state,
            effects::told(effects) == old(self)@.open_find(replacing, *facts).effects,
    {
        let editor = match self.strip.active_editor() {
            Some(editor) => editor,
            None => {
                return nothing();
            },
        };
        let quiet = self.dismiss_completion();
        let shown = if self.find.is_some() {
            also(quiet, Effect::ReopenFind { replacing })
        } else {
            let seed = match facts.buffer(editor) {
                Some(buffer) => match &buffer.selected_text {
                    Some(text) => Some(text.clone()),
                    None => None,
                },
                None => None,
            };
            also(quiet, Effect::OpenFind { replacing, seed })
        };
        self.find = Some(Handle {});
        let focused = also(shown, Effect::Focus(Focus::Panel(Panel::Find)));
        also(focused, Effect::SearchDocument { editor })
    }

    /// Gives the active document the bar's query, and so shows the count.
    pub fn apply_search(&self) -> (effects: Vec<Effect<String>>)
        ensures
            effects::told(effects) == self@.apply_search(),
    {
        if self.find.is_none() {
            return nothing();
        }
        match self.strip.active_editor() {
            Some(editor) => only(Effect::SearchDocument { editor }),
            None => nothing(),
        }
    }

    /// Counts the matches again after something moved.
    pub fn refresh_find_status(&self) -> (effects: Vec<Effect<String>>)
        ensures
            effects::told(effects) == self@.refresh_find_status(),
    {
        if self.find.is_none() {
            return nothing();
        }
        match self.strip.active_editor() {
            Some(editor) => only(Effect::CountMatches { editor }),
            None => nothing(),
        }
    }

    /// Goes to the next or to the last match.
    pub fn navigate_match(&self, forward: bool) -> (effects: Vec<Effect<String>>)
        ensures
            effects::told(effects) == self@.navigate_match(forward),
    {
        match self.strip.active_editor() {
            Some(editor) => both(
                only(Effect::SelectMatch { editor, forward }),
                self.refresh_find_status(),
            ),
            None => nothing(),
        }
    }

    /// Replaces the match that is selected.
    pub fn replace_one(&self) -> (effects: Vec<Effect<String>>)
        ensures
            effects::told(effects) == self@.replace_one(),
    {
        if self.find.is_none() {
            return nothing();
        }
        match self.strip.active_editor() {
            Some(editor) => both(
                only(Effect::ReplaceOne { editor }),
                self.refresh_find_status(),
            ),
            None => nothing(),
        }
    }

    /// Replaces every match.
    pub fn replace_all(&self) -> (effects: Vec<Effect<String>>)
        ensures
            effects::told(effects) == self@.replace_all(),
    {
        if self.find.is_none() {
            return nothing();
        }
        match self.strip.active_editor() {
            Some(editor) => only(Effect::ReplaceAll { editor }),
            None => nothing(),
        }
    }

    /// Every match was replaced.
    pub fn replaced(&mut self, count: usize) -> (effects: Vec<Effect<String>>)
        ensures
            final(self)@ == old(self)@.replaced(count as nat).state,
            effects::told(effects) == old(self)@.replaced(count as nat).effects,
    {
        self.status = Some(replaced_status(count));
        self.refresh_find_status()
    }

    /// Closes the find bar, clears the highlights and gives the editor the
    /// keyboard.
    pub fn dismiss_find(&mut self) -> (effects: Vec<Effect<String>>)
        ensures
            final(self)@ == old(self)@.dismiss_find().state,
            effects::told(effects) == old(self)@.dismiss_find().effects,
    {
        self.find = None;
        match self.strip.active_editor() {
            Some(editor) => also(
                only(Effect::ClearSearch { editor }),
                Effect::Focus(Focus::Editor(editor)),
            ),
            None => only(Effect::Focus(Focus::Workspace)),
        }
    }

    // -----------------------------------------------------------------------
    // Finding in the project
    // -----------------------------------------------------------------------

    /// Builds the search panel where it never was.
    pub fn show_search_panel(&mut self)
        ensures
            final(self)@ == old(self)@.with_search_panel(),
    {
        if self.search_panel.is_some() {
            return;
        }
        self.search_panel = Some(SearchPanel::new());
    }

    /// Shows the search panel and goes into it; from inside it, goes back to
    /// the tree.
    pub fn toggle_search_panel(&mut self, facts: &Facts) -> (effects: Vec<Effect<String>>)
        ensures
            final(self)@ == old(self)@.toggle_search_panel(*facts).state,
            effects::told(effects) == old(self)@.toggle_search_panel(*facts).effects,
    {
        let inside = self.sidebar == Sidebar::Search && facts.search_focused;
        self.show_search_panel();
        if inside {
            self.sidebar = Sidebar::Explorer;
            let stopped = self.cancel_project_search();
            return also(stopped, Effect::Focus(Focus::Workspace));
        }
        self.sidebar = Sidebar::Search;
        let focused = only(Effect::Focus(Focus::Panel(Panel::Search)));
        let seed = match self.strip.active_editor() {
            Some(editor) => match facts.buffer(editor) {
                Some(buffer) => match &buffer.selected_text {
                    Some(text) => Some(text.clone()),
                    None => None,
                },
                None => None,
            },
            None => None,
        };
        match seed {
            Some(text) => also(focused, Effect::SeedSearch(text)),
            None => focused,
        }
    }

    /// The search field was seeded with the selection. A query that it changed
    /// is searched for at once, for selecting a word and asking for it is as
    /// good as pressing return; one that it did not change is not searched for
    /// again.
    pub fn search_seeded(&mut self, query: String, changed: bool) -> (effects: Vec<Effect<String>>)
        ensures
            final(self)@ == old(self)@.search_seeded(query@, changed).state,
            effects::told(effects) == old(self)@.search_seeded(query@, changed).effects,
    {
        if changed {
            self.search_query_changed(query, false)
        } else {
            nothing()
        }
    }

    /// Finds in the project.
    pub fn find_in_project(&mut self, facts: &Facts) -> (effects: Vec<Effect<String>>)
        ensures
            final(self)@ == old(self)@.find_in_project(*facts).state,
            effects::told(effects) == old(self)@.find_in_project(*facts).effects,
    {
        let quiet = self.dismiss_completion();
        both(quiet, self.toggle_search_panel(facts))
    }

    /// Leaves the search panel; it and its results stay.
    pub fn unfocus_search_panel(&self) -> (effects: Vec<Effect<String>>)
        ensures
            effects::told(effects) == seq![self@.focus_editor_or_workspace()],
    {
        only(self.focus_editor_or_workspace())
    }

    /// Starts a project search, in place of the one that is under way: after a
    /// moment where `debounce` is set, at once where the query is finished.
    pub fn schedule_project_search(&mut self, debounce: bool) -> (effects: Vec<Effect<String>>)
        ensures
            final(self)@ == old(self)@.schedule_project_search(debounce).state,
            effects::told(effects) == old(self)@.schedule_project_search(debounce).effects,
    {
        let root = match self.root() {
            Some(root) => root,
            None => {
                return nothing();
            },
        };
        if self.search_panel.is_none() {
            return nothing();
        }
        let stopped = self.cancel_project_search();
        let mut held: Option<SearchPanel> = None;
        std::mem::swap(&mut held, &mut self.search_panel);
        let mut panel = match held {
            Some(panel) => panel,
            None => {
                return stopped;
            },
        };
        let searches = panel.begin();
        self.search_panel = Some(panel);
        if !searches {
            return stopped;
        }
        self.search_cancel = Some(Handle {});
        also(stopped, Effect::Start(Job::ProjectSearch, Work::SearchProject { root, debounce }))
    }

    /// The search field holds something else.
    pub fn search_query_changed(&mut self, query: String, debounce: bool) -> (effects: Vec<
        Effect<String>,
    >)
        ensures
            final(self)@ == old(self)@.search_query_changed(query@, debounce).state,
            effects::told(effects) == old(self)@.search_query_changed(query@, debounce).effects,
    {
        let mut held: Option<SearchPanel> = None;
        std::mem::swap(&mut held, &mut self.search_panel);
        self.search_panel = match held {
            Some(panel) => Some(SearchPanel { query, state: panel.state }),
            None => None,
        };
        self.schedule_project_search(debounce)
    }

    /// A project search ended.
    pub fn project_searched(&mut self, files: Vec<FileMatches>, superseded: bool)
        ensures
            final(self)@ == old(self)@.project_searched(files.deep_view(), superseded),
    {
        if superseded {
            return;
        }
        let mut held: Option<SearchPanel> = None;
        std::mem::swap(&mut held, &mut self.search_panel);
        match held {
            Some(panel) => {
                let mut shown = panel;
                shown.finish(files);
                self.search_panel = Some(shown);
            },
            None => {},
        }
    }

    /// A row of the results was clicked.
    pub fn open_search_result(&mut self, file: usize, line: usize) -> (effects: Vec<
        Effect<String>,
    >)
        ensures
            final(self)@ == old(self)@.open_search_result(file, line).state,
            effects::told(effects) == old(self)@.open_search_result(file, line).effects,
    {
        let place = match &self.search_panel {
            Some(panel) => panel.place_at(file, line),
            None => None,
        };
        match place {
            Some((path, point)) => self.open_path_at(path, Some(point)),
            None => nothing(),
        }
    }

    // -----------------------------------------------------------------------
    // Settings, the theme and the log
    // -----------------------------------------------------------------------

    /// Opens the settings, or closes them.
    pub fn open_settings(&mut self) -> (effects: Vec<Effect<String>>)
        ensures
            final(self)@ == old(self)@.open_settings().state,
            effects::told(effects) == old(self)@.open_settings().effects,
    {
        if self.settings_panel.is_some() {
            return self.dismiss_settings();
        }
        let quiet = self.dismiss_completion();
        self.settings_panel = Some(Handle {});
        let opened = also(quiet, Effect::OpenSettings);
        also(opened, Effect::Focus(Focus::Panel(Panel::Settings)))
    }

    /// Closes the settings and gives the keyboard back.
    pub fn dismiss_settings(&mut self) -> (effects: Vec<Effect<String>>)
        ensures
            final(self)@ == old(self)@.dismiss_settings().state,
            effects::told(effects) == old(self)@.dismiss_settings().effects,
    {
        self.settings_panel = None;
        only(self.focus_editor_or_workspace())
    }

    /// Opens the settings file in a tab.
    pub fn open_settings_file(&mut self, facts: &Facts) -> (effects: Vec<Effect<String>>)
        ensures
            final(self)@ == old(self)@.open_settings_file(*facts).state,
            effects::told(effects) == old(self)@.open_settings_file(*facts).effects,
    {
        match &facts.settings_path {
            Some(path) => {
                return self.open_path(path.clone());
            },
            None => {
                self.status = Some(owned("no settings file to open — see the log"));
                return nothing();
            },
        }
    }

    /// The settings panel was left for the settings file.
    pub fn settings_to_file(&mut self, facts: &Facts) -> (effects: Vec<Effect<String>>)
        ensures
            ({
                let closed = WorkspaceModel { settings_panel: None, ..old(self)@ };
                &&& final(self)@ == closed.open_settings_file(*facts).state
                &&& effects::told(effects) == closed.open_settings_file(*facts).effects
            }),
    {
        self.settings_panel = None;
        self.open_settings_file(facts)
    }

    /// Goes on to the next theme, and says which it is. Every window is drawn
    /// again.
    pub fn toggle_theme(&mut self, app: &mut App) -> (effects: Vec<Effect<String>>)
        requires
            old(app).active is Some,
        ensures
            final(app)@ == themes::cycled(old(app)@).0,
            final(self)@ == old(self)@.says("Theme: "@ + themes::cycled(old(app)@).1),
            effects::told(effects) == seq![Effect::<Seq<char>>::RefreshWindows],
    {
        let label = cycle(app);
        self.status = Some(join2("Theme: ", label.as_str()));
        only(Effect::RefreshWindows)
    }

    /// The font's size changed; `size` is its text.
    pub fn zoomed(&mut self, size: &str) -> (effects: Vec<Effect<String>>)
        ensures
            final(self)@ == old(self)@.says("Font size: "@ + size@ + "px"@),
            effects::told(effects) == seq![Effect::<Seq<char>>::RefreshWindows],
    {
        self.status = Some(join3("Font size: ", size, "px"));
        only(Effect::RefreshWindows)
    }

    /// Reads the log again, while its panel is open.
    pub fn refresh_log_panel(&self) -> (effects: Vec<Effect<String>>)
        ensures
            effects::told(effects) == self@.refresh_log_panel(),
    {
        if self.logs.is_none() {
            return nothing();
        }
        match self.root() {
            Some(root) => only(Effect::Start(Job::LogRead, Work::ReadLog { root })),
            None => nothing(),
        }
    }

    /// Opens the log panel, or closes it.
    pub fn toggle_log_panel(&mut self) -> (effects: Vec<Effect<String>>)
        ensures
            final(self)@ == old(self)@.toggle_log_panel().state,
            effects::told(effects) == old(self)@.toggle_log_panel().effects,
    {
        if self.logs.is_some() {
            self.logs = None;
            return nothing();
        }
        self.logs = Some(Handle {});
        both(only(Effect::OpenLogs), self.refresh_log_panel())
    }

    /// A place in the log was clicked.
    pub fn log_jump(&mut self, path: String, line: u32, disk: &Disk) -> (effects: Vec<
        Effect<String>,
    >)
        ensures
            final(self)@ == old(self)@.log_jump(path@, line, *disk).state,
            effects::told(effects) == old(self)@.log_jump(path@, line, *disk).effects,
    {
        if !disk.has_file(path.as_str()) {
            return nothing();
        }
        let row: usize = if line > 0 {
            (line - 1) as usize
        } else {
            0
        };
        self.open_path_at(path, Some(Point { row, column: 0 }))
    }

    // -----------------------------------------------------------------------
    // The database and Docker
    // -----------------------------------------------------------------------

    /// Reads the schema.
    pub fn load_db_schema(&self) -> (effects: Vec<Effect<String>>)
        ensures
            effects::told(effects) == self@.load_db_schema(),
    {
        match self.root() {
            Some(root) => only(Effect::Start(Job::DbSchema, Work::ReadSchema { root })),
            None => nothing(),
        }
    }

    /// The schema was read, or there is no database to read.
    pub fn db_schema_read(&mut self, read: Option<Result<Vec<TableInfo>, String>>)
        ensures
            final(self)@ == (WorkspaceModel {
                database: old(self)@.database.with_schema(
                    match read {
                        Some(found) => Some(database::schema_view(found)),
                        None => None,
                    },
                ),
                ..old(self)@
            }),
    {
        self.database.schema_read(read);
    }

    /// Rows were read, or there is no database to read.
    pub fn db_page_read(&mut self, read: Option<Result<(String, TablePage), String>>)
        ensures
            final(self)@ == (WorkspaceModel {
                database: old(self)@.database.with_page(
                    match read {
                        Some(Ok((table, page))) => Some(Ok((table@, page@))),
                        Some(Err(message)) => Some(Err(message@)),
                        None => None,
                    },
                ),
                ..old(self)@
            }),
    {
        self.database.page_read(read);
    }

    /// Shows the columns of every table.
    pub fn expand_all_db(&mut self)
        ensures
            final(self)@ == (WorkspaceModel {
                database: old(self)@.database.all_expanded(),
                ..old(self)@
            }),
    {
        self.database.expand_all();
    }

    /// Back to the list of table names.
    pub fn collapse_all_db(&mut self)
        ensures
            final(self)@ == (WorkspaceModel {
                database: old(self)@.database.all_collapsed(),
                ..old(self)@
            }),
    {
        self.database.collapse_all();
    }

    /// Opens a table's rows.
    pub fn open_db_table(&mut self, table: String) -> (effects: Vec<Effect<String>>)
        ensures
            final(self)@ == old(self)@.open_db_table(table@).state,
            effects::told(effects) == old(self)@.open_db_table(table@).effects,
    {
        let root = match self.root() {
            Some(root) => root,
            None => {
                return nothing();
            },
        };
        self.database.open(table.as_str());
        only(Effect::Start(Job::DbSchema, Work::ReadTable { root, table }))
    }

    /// A table's name was clicked.
    pub fn toggle_db_table(&mut self, table: String) -> (effects: Vec<Effect<String>>)
        ensures
            final(self)@ == old(self)@.toggle_db_table(table@).state,
            effects::told(effects) == old(self)@.toggle_db_table(table@).effects,
    {
        self.database.toggle(table.as_str());
        self.open_db_table(table)
    }

    /// A cell was clicked.
    pub fn begin_db_edit(&mut self, row: usize, column: usize) -> (effects: Vec<Effect<String>>)
        ensures
            final(self)@ == old(self)@.begin_db_edit(row, column).state,
            effects::told(effects) == old(self)@.begin_db_edit(row, column).effects,
    {
        match self.database.begin_edit(row, column) {
            BeginEdit::NoRows => {
                return nothing();
            },
            BeginEdit::ReadOnly => {
                self.status = Some(
                    owned("This table has no rowid — its cells are read-only"),
                );
                return nothing();
            },
            BeginEdit::Editing => {
                return only(Effect::Focus(Focus::Workspace));
            },
        }
    }

    /// Writes the cell's text.
    pub fn db_edit_commit(&mut self) -> (effects: Vec<Effect<String>>)
        ensures
            final(self)@ == old(self)@.db_edit_commit().state,
            effects::told(effects) == old(self)@.db_edit_commit().effects,
    {
        let write = self.database.edit_commit();
        match (write, self.root()) {
            (Some(cell), Some(root)) => only(
                Effect::Start(
                    Job::DbSchema,
                    Work::UpdateCell {
                        root,
                        table: cell.table,
                        column: cell.column,
                        rowid: cell.rowid,
                        value: cell.value,
                    },
                ),
            ),
            _ => nothing(),
        }
    }

    /// Adds a row to the open table.
    pub fn db_insert_row(&self) -> (effects: Vec<Effect<String>>)
        ensures
            effects::told(effects) == self@.db_insert_row().effects,
            self@.db_insert_row().state == self@,
    {
        match (self.database.insert_target(), self.root()) {
            (Some(table), Some(root)) => only(
                Effect::Start(Job::DbSchema, Work::InsertRow { root, table }),
            ),
            _ => nothing(),
        }
    }

    /// A write to the database ended.
    pub fn db_written(&mut self, insert: bool, outcome: Option<Result<String, String>>) -> (effects:
        Vec<Effect<String>>)
        ensures
            final(self)@ == old(self)@.db_written(
                insert,
                match outcome {
                    Some(done) => Some(workspace_view::outcome_view(done)),
                    None => None,
                },
            ).state,
            effects::told(effects) == old(self)@.db_written(
                insert,
                match outcome {
                    Some(done) => Some(workspace_view::outcome_view(done)),
                    None => None,
                },
            ).effects,
    {
        let front = if insert {
            "insert failed: "
        } else {
            "update failed: "
        };
        match outcome {
            Some(Ok(table)) => {
                return self.open_db_table(table);
            },
            Some(Err(message)) => {
                self.status = Some(join2(front, message.as_str()));
                return nothing();
            },
            None => {
                self.status = Some(join2(front, "no sqlite database"));
                return nothing();
            },
        }
    }

    /// Types into the cell that is in its editor.
    pub fn db_edit_typed(&mut self, text: &str)
        ensures
            final(self)@ == (WorkspaceModel {
                database: old(self)@.database.typed(text@),
                ..old(self)@
            }),
    {
        self.database.edit_typed(text);
    }

    /// Takes the last character off the cell that is in its editor.
    pub fn db_edit_backspace(&mut self)
        ensures
            final(self)@ == (WorkspaceModel {
                database: old(self)@.database.erased(),
                ..old(self)@
            }),
    {
        self.database.edit_backspace();
    }

    /// Leaves a cell without writing it.
    pub fn db_edit_cancel(&mut self)
        ensures
            final(self)@ == (WorkspaceModel {
                database: old(self)@.database.released(),
                ..old(self)@
            }),
    {
        self.database.edit_cancel();
    }

    /// A key was pressed while a cell is in its editor.
    pub fn db_key(&mut self, key: &str, text: Option<&str>) -> (effects: Vec<Effect<String>>)
        ensures
            ({
                let typed = match text {
                    Some(typed) => Some(typed@),
                    None => None,
                };
                &&& final(self)@ == old(self)@.db_key(key@, typed).state
                &&& effects::told(effects) == old(self)@.db_key(key@, typed).effects
            }),
    {
        match database::key_in_cell(key, text) {
            CellKey::Commit => {
                return self.db_edit_commit();
            },
            CellKey::Cancel => {
                self.db_edit_cancel();
                return nothing();
            },
            CellKey::Backspace => {
                self.db_edit_backspace();
                return nothing();
            },
            CellKey::Type => {
                if let Some(typed) = text {
                    self.db_edit_typed(typed);
                    return nothing();
                }
                return nothing();
            },
            CellKey::Nothing => {
                return nothing();
            },
        }
    }

    /// Asks Docker for the project's services.
    pub fn load_docker_services(&self) -> (effects: Vec<Effect<String>>)
        ensures
            effects::told(effects) == self@.load_docker_services(),
    {
        match self.root() {
            Some(root) => only(Effect::Start(Job::DockerPs, Work::ReadServices { root })),
            None => nothing(),
        }
    }

    /// Docker answered, or there is none to ask.
    pub fn docker_services_read(&mut self, read: Services)
        ensures
            final(self)@ == (WorkspaceModel {
                docker_services: docker::answered(read@),
                ..old(self)@
            }),
    {
        self.docker_services.read(read);
    }

    // -----------------------------------------------------------------------
    // The activity bar and the window
    // -----------------------------------------------------------------------

    /// An entry of the activity bar was clicked.
    pub fn select_sidebar(&mut self, target: Sidebar) -> (effects: Vec<Effect<String>>)
        ensures
            final(self)@ == old(self)@.select_sidebar(target).state,
            effects::told(effects) == old(self)@.select_sidebar(target).effects,
    {
        let schema = if target == Sidebar::Database {
            self.load_db_schema()
        } else {
            nothing()
        };
        let services = if target == Sidebar::Docker {
            self.load_docker_services()
        } else {
            nothing()
        };
        let read = both(schema, services);
        if target == Sidebar::Search {
            self.show_search_panel();
            self.sidebar = target;
            let focused = only(Effect::Focus(Focus::Panel(Panel::Search)));
            return both(focused, read);
        }
        if self.sidebar == Sidebar::Search {
            let stopped = self.cancel_project_search();
            self.sidebar = target;
            return both(stopped, read);
        }
        self.sidebar = target;
        read
    }

    /// The window is looked at again.
    pub fn window_became_active(&mut self) -> (effects: Vec<Effect<String>>)
        ensures
            final(self)@ == old(self)@.window_became_active().state,
            effects::told(effects) == old(self)@.window_became_active().effects,
    {
        let read = self.refresh_git_status();
        let indexed = match self.root() {
            Some(root) => also(read, Effect::RebuildIndex(root)),
            None => read,
        };
        let schema = if self.sidebar == Sidebar::Database {
            both(indexed, self.load_db_schema())
        } else {
            indexed
        };
        let services = if self.sidebar == Sidebar::Docker {
            both(schema, self.load_docker_services())
        } else {
            schema
        };
        both(services, self.refresh_log_panel())
    }

    /// The window was activated or left. Leaving it saves.
    pub fn window_activation_changed(&mut self, active: bool, facts: &Facts) -> (effects: Vec<
        Effect<String>,
    >)
        ensures
            final(self)@ == old(self)@.window_activation_changed(active, *facts).state,
            effects::told(effects) == old(self)@.window_activation_changed(active, *facts).effects,
    {
        if active {
            return self.window_became_active();
        }
        self.autosave_dirty_tabs(facts)
    }

    /// Observes the window's activation, once.
    pub fn observe_window_focus(&mut self) -> (effects: Vec<Effect<String>>)
        ensures
            final(self)@ == (WorkspaceModel {
                window_activation: Some(Handle {}),
                ..old(self)@
            }),
            effects::told(effects) == (if old(self)@.window_activation is Some {
                Seq::<effects::EffectView>::empty()
            } else {
                seq![Effect::ObserveActivation]
            }),
    {
        let observed = self.window_activation.is_some();
        self.window_activation = Some(Handle {});
        if observed {
            nothing()
        } else {
            only(Effect::ObserveActivation)
        }
    }

    // -----------------------------------------------------------------------
    // Updates
    // -----------------------------------------------------------------------

    /// Starts checking for releases, once.
    pub fn start_update_check(&mut self) -> (effects: Vec<Effect<String>>)
        ensures
            final(self)@ == (WorkspaceModel { update_check: Some(Handle {}), ..old(self)@ }),
            effects::told(effects) == (if old(self)@.update_check is Some {
                Seq::<effects::EffectView>::empty()
            } else {
                seq![Effect::CheckForUpdates]
            }),
    {
        let checking = self.update_check.is_some();
        self.update_check = Some(Handle {});
        if checking {
            nothing()
        } else {
            only(Effect::CheckForUpdates)
        }
    }

    /// A newer release was found.
    pub fn release_found(&mut self, release: Available)
        ensures
            final(self)@ == (WorkspaceModel {
                update_state: old(self)@.update_state.offered(release),
                ..old(self)@
            }),
    {
        self.update_state.offer(release);
    }

    /// The updater's cell was clicked.
    pub fn update_clicked(&mut self, installed: bool) -> (effects: Vec<Effect<String>>)
        ensures
            final(self)@ == old(self)@.update_clicked(installed).state,
            effects::told(effects) == old(self)@.update_clicked(installed).effects,
    {
        match self.update_state.click(installed) {
            UpdateAction::Install { script } => only(
                Effect::Start(Job::UpdateInstall, Work::InstallUpdate { script }),
            ),
            UpdateAction::OpenPage { url } => only(Effect::OpenPage(url)),
            UpdateAction::Restart => only(Effect::RestartIntoUpdate),
            UpdateAction::Nothing => nothing(),
        }
    }

    /// An install ended. A failure goes back to the offer and says why.
    pub fn update_installed(&mut self, release: Available, outcome: Result<(), String>)
        ensures
            final(self)@ == (match outcome {
                Ok(_) => WorkspaceModel {
                    update_state: UpdateState::ReadyToRestart,
                    ..old(self)@
                },
                Err(error) => WorkspaceModel {
                    update_state: UpdateState::Available(release),
                    ..old(self)@.says("Update failed: "@ + error@)
                },
            }),
    {
        match self.update_state.install_ended(release, outcome) {
            Some(status) => {
                self.status = Some(status);
            },
            None => {},
        }
    }
}

// ---------------------------------------------------------------------------
// Laws
// ---------------------------------------------------------------------------

/// What a run reported is still there when the panel is opened again, and
/// closing the panel does not stop a run. Whether there is a runner is what was
/// found on opening it.
pub proof fn law_closing_the_tests_keeps_them(
    model: WorkspaceModel,
    detected: bool,
    found: bool,
    command: Seq<char>,
    named: bool,
)
    requires
        model.tests_open is Some,
        model.tests is Some,
    ensures
        ({
            let closed = model.toggle_test_panel(detected).state;
            let reopened = closed.toggle_test_panel(found).state;
            &&& closed.tests_open is None
            &&& closed.test_cancel == model.test_cancel
            &&& reopened.tests_open is Some
            &&& reopened.tests matches Some(panel) && panel.report == model.tests->0.report
                && panel.state == model.tests->0.state && panel.runner == found
            &&& found ==> closed.start_test_run(command, named, found).state.test_cancel is Some
        }),
{
}

/// The same chord that opens a panel closes it, and the rest stays.
pub proof fn law_panels_toggle(model: WorkspaceModel)
    requires
        model.completion is None,
    ensures
        model.terminal is None ==> model.toggle_terminal().state.toggle_terminal().state == model,
        model.settings_panel is None ==> model.open_settings().state.open_settings().state
            == model,
        model.logs is None ==> model.toggle_log_panel().state.toggle_log_panel().state == model,
{
}

/// Leaving the search stops it, and whatever was found stays.
pub proof fn law_leaving_the_search_stops_it(model: WorkspaceModel, target: Sidebar)
    requires
        model.sidebar is Search,
        !(target is Search),
    ensures
        model.select_sidebar(target).state.search_cancel is None,
        model.select_sidebar(target).state.search_panel == model.search_panel,
        model.select_sidebar(target).state.sidebar == target,
{
}

/// One search runs at a time: starting one stops the one before it.
pub proof fn law_one_search_at_a_time(model: WorkspaceModel, debounce: bool)
    requires
        model.search_cancel is Some,
        model.search_panel is Some,
        model.tree is Some,
    ensures
        model.schedule_project_search(debounce).effects[0] == Effect::<Seq<char>>::CancelWalk(
            Walk::ProjectSearch,
        ),
        model.search_panel->0.query.len() == 0 ==> model.schedule_project_search(
            debounce,
        ).state.search_cancel is None,
{
}

/// A command that is typed is left on the prompt: nothing is run.
pub proof fn law_typed_commands_are_not_run(model: WorkspaceModel, command: Seq<char>)
    ensures
        forall|i: int|
            0 <= i < model.type_terminal_command(command).effects.len() ==> !((
            #[trigger] model.type_terminal_command(command).effects[i]) is Start),
        model.type_terminal_command(command).effects.contains(Effect::Type(command)),
        model.type_terminal_command(command).state.terminal is Some,
{
    let step = model.type_terminal_command(command);
    let at = model.with_terminal().effects.len() as int;
    assert(step.effects[at] == Effect::<Seq<char>>::Type(command));
}

/// The state holds together through everything the panels do.
pub proof fn law_panels_keep_the_state(
    model: WorkspaceModel,
    facts: Facts,
    detected: bool,
    replacing: bool,
    target: Sidebar,
    table: Seq<char>,
)
    requires
        model.well_formed(),
    ensures
        model.toggle_terminal().state.well_formed(),
        model.toggle_test_panel(detected).state.well_formed(),
        model.open_find(replacing, facts).state.well_formed(),
        model.find_in_project(facts).state.well_formed(),
        model.open_settings().state.well_formed(),
        model.toggle_log_panel().state.well_formed(),
        model.select_sidebar(target).state.well_formed(),
        model.toggle_db_table(table).state.well_formed(),
        model.window_became_active().state.well_formed(),
{
}

/// The terminal opens in the project's root and takes the keyboard; closing it
/// ends its sessions and gives the keyboard back. A new session is opened in the
/// terminal that is there, and opens one where there is none.
pub proof fn law_terminal_opens_in_the_project(model: WorkspaceModel)
    requires
        model.completion is None,
    ensures
        model.terminal is None ==> model.toggle_terminal().effects == seq![
            Effect::<Seq<char>>::OpenTerminal(model.root()),
            Effect::<Seq<char>>::Focus(Focus::Panel(Panel::Terminal)),
        ] && model.toggle_terminal().state.terminal is Some && model.new_terminal()
            == model.toggle_terminal(),
        model.terminal is Some ==> model.toggle_terminal().effects == seq![
            Effect::<Seq<char>>::CloseTerminal,
            model.focus_editor_or_workspace(),
        ] && model.toggle_terminal().state.terminal is None && model.new_terminal().effects == seq![
            Effect::<Seq<char>>::OpenSession,
            Effect::<Seq<char>>::Focus(Focus::Panel(Panel::Terminal)),
        ] && model.new_terminal().state == model,
{
}

/// What is typed into the terminal is exactly the command, behind what opens the
/// terminal where it was closed, and the terminal gets the keyboard.
pub proof fn law_command_is_typed_as_it_is(model: WorkspaceModel, command: Seq<char>)
    requires
        model.completion is None,
    ensures
        model.terminal is Some ==> model.type_terminal_command(command).effects == seq![
            Effect::<Seq<char>>::Type(command),
            Effect::<Seq<char>>::Focus(Focus::Panel(Panel::Terminal)),
        ] && model.type_artisan_command(command).effects == seq![
            Effect::<Seq<char>>::TypeArtisan(command),
            Effect::<Seq<char>>::Focus(Focus::Panel(Panel::Terminal)),
        ],
        model.terminal is None ==> model.type_terminal_command(command).effects == seq![
            Effect::<Seq<char>>::OpenTerminal(model.root()),
            Effect::<Seq<char>>::Focus(Focus::Panel(Panel::Terminal)),
            Effect::<Seq<char>>::Type(command),
            Effect::<Seq<char>>::Focus(Focus::Panel(Panel::Terminal)),
        ] && model.type_artisan_command(command).effects == seq![
            Effect::<Seq<char>>::OpenTerminal(model.root()),
            Effect::<Seq<char>>::Focus(Focus::Panel(Panel::Terminal)),
            Effect::<Seq<char>>::TypeArtisan(command),
            Effect::<Seq<char>>::Focus(Focus::Panel(Panel::Terminal)),
        ],
        model.type_artisan_command(command).state.terminal is Some,
        model.type_terminal_command(command).state.terminal is Some,
{
}

/// The tests of a file are those of the file in front of the user, named below
/// the project's root where it is below; without a file none are run.
pub proof fn law_tests_of_the_active_file(model: WorkspaceModel)
    ensures
        model.strip.tabs.len() == 0 ==> model.run_tests_in_file().len() == 0,
        0 <= model.strip.active < model.strip.tabs.len()
            && model.strip.tabs[model.strip.active].path is None
            ==> model.run_tests_in_file().len() == 0,
        0 <= model.strip.active < model.strip.tabs.len()
            && model.strip.tabs[model.strip.active].path is Some ==> {
            let path = model.strip.tabs[model.strip.active].path->0;
            &&& model.tree is Some && paths::relative_to(path, model.tree->0.root) is Some
                ==> model.run_tests_in_file() == seq![
                Effect::<Seq<char>>::RequestTests(
                    TestRequest::InFile(paths::relative_to(path, model.tree->0.root)->0),
                ),
            ]
            &&& model.tree is None || paths::relative_to(path, model.tree->0.root) is None
                ==> model.run_tests_in_file() == seq![
                Effect::<Seq<char>>::RequestTests(TestRequest::InFile(path)),
            ]
        },
{
}

/// What failed is run again exactly where the panel is open and some test
/// failed: nothing failed is no reason to run everything.
pub proof fn law_failures_are_rerun_where_there_are_some(model: WorkspaceModel)
    ensures
        model.tests_open is None || model.tests is None ==> model.rerun_failed_tests().len() == 0,
        model.tests_open is Some && model.tests is Some && (forall|i: int|
            0 <= i < model.tests->0.report.tests.len() ==> !((
            #[trigger] model.tests->0.report.tests[i]).status is Failed))
            ==> model.rerun_failed_tests().len() == 0,
        model.tests_open is Some && model.tests is Some && (exists|i: int|
            0 <= i < model.tests->0.report.tests.len() && (
            #[trigger] model.tests->0.report.tests[i]).status is Failed)
            ==> model.rerun_failed_tests() == seq![
            Effect::<Seq<char>>::RequestTests(TestRequest::Failed),
        ],
{
    if model.tests is Some {
        let tests = model.tests->0.report.tests;
        test_view::law_every_failure_runs_again(tests);
        if exists|i: int| 0 <= i < tests.len() && (#[trigger] tests[i]).status is Failed {
            let i = choose|i: int| 0 <= i < tests.len() && (#[trigger] tests[i]).status is Failed;
            assert(test_view::failed_names(tests).contains(tests[i].name));
        } else if test_view::failed_names(tests).len() > 0 {
            assert(test_view::a_failure_has(tests, test_view::failed_names(tests)[0]));
        }
    }
}

/// A run opens the panel, stops the run before it and runs exactly its command;
/// a project without a runner says so and runs nothing.
pub proof fn law_run_runs_its_command(
    model: WorkspaceModel,
    command: Seq<char>,
    named: bool,
    detected: bool,
)
    ensures
        ({
            let step = model.start_test_run(command, named, detected);
            let runner = if model.tests is Some && model.tests_open is Some {
                model.tests->0.runner
            } else {
                detected
            };
            &&& step.state.tests is Some
            &&& step.state.tests_open is Some
            &&& model.tests_open is None ==> step.effects[0] == Effect::<Seq<char>>::OpenTests
                && step.effects[1] == Effect::<Seq<char>>::Focus(Focus::Panel(Panel::Tests))
            &&& runner ==> {
                &&& step.effects.last() == Effect::<Seq<char>>::Start(
                    Job::TestRun,
                    Work::RunTests { command },
                )
                &&& step.effects.contains(Effect::CancelJob(Job::TestRun))
                &&& model.test_cancel is Some ==> step.effects.contains(
                    Effect::CancelWalk(Walk::Tests),
                )
                &&& step.state.test_cancel is Some
                &&& step.state.tests->0.state == (test_view::RunView::Running { command })
                &&& named && model.tests is Some ==> step.state.tests->0.report
                    == model.tests->0.report
                &&& !named ==> step.state.tests->0.report.tests.len() == 0
            }
            &&& !runner ==> {
                &&& step.state.tests->0.state == (test_view::RunView::Failed {
                    message: "No Pest or PHPUnit found in vendor/bin"@,
                })
                &&& step.state.test_cancel == model.test_cancel
                &&& forall|e: int|
                    0 <= e < step.effects.len() ==> !((#[trigger] step.effects[e]) is Start)
            }
        }),
{
    let step = model.start_test_run(command, named, detected);
    let a: int = if model.tests_open is Some {
        0
    } else {
        2
    };
    let runner = if model.tests is Some && model.tests_open is Some {
        model.tests->0.runner
    } else {
        detected
    };
    if runner {
        if model.test_cancel is Some {
            assert(step.effects[a] == Effect::<Seq<char>>::CancelWalk(Walk::Tests));
            assert(step.effects[a + 1] == Effect::<Seq<char>>::CancelJob(Job::TestRun));
        } else {
            assert(step.effects[a] == Effect::<Seq<char>>::CancelJob(Job::TestRun));
        }
    }
}

/// What a run reports and how it ends are shown in the panel; its end releases
/// what would stop it.
pub proof fn law_reports_reach_the_panel(
    model: WorkspaceModel,
    report: test_view::ReportView,
    state: test_view::RunView,
)
    requires
        model.tests is Some,
    ensures
        model.test_reported(report).tests is Some,
        model.test_reported(report).tests->0.report == report,
        model.test_reported(report).tests->0.state == model.tests->0.state,
        model.test_reported(report).test_cancel == model.test_cancel,
        model.test_run_ended(state).tests is Some,
        model.test_run_ended(state).tests->0.state == state,
        model.test_run_ended(state).tests->0.report == model.tests->0.report,
        model.test_run_ended(state).test_cancel is None,
{
}

/// A click on a failure, on a match or on a log entry opens the place it stands
/// for, and does nothing where there is none.
pub proof fn law_clicked_rows_open_their_place(
    model: WorkspaceModel,
    test: test_view::CaseView,
    file: usize,
    line: usize,
    path: Seq<char>,
    row: u32,
    disk: Disk,
)
    ensures
        test_view::jump_of(test, model.root(), disk) is Some ==> model.test_jump(test, disk)
            == model.open_path_target(
            test_view::jump_of(test, model.root(), disk)->Some_0.0,
            Some(
                effects::Target::Point(test_view::jump_of(test, model.root(), disk)->Some_0.1),
            ),
        ),
        test_view::jump_of(test, model.root(), disk) is None ==> model.test_jump(test, disk)
            == model.stays(),
        model.search_panel is None ==> model.open_search_result(file, line) == model.stays(),
        model.search_panel is Some && model.search_panel->0.place(file as int, line as int) is Some
            ==> model.open_search_result(file, line) == model.open_path_target(
            model.search_panel->0.place(file as int, line as int)->Some_0.0,
            Some(
                effects::Target::Point(
                    model.search_panel->0.place(file as int, line as int)->Some_0.1,
                ),
            ),
        ),
        model.search_panel is Some && model.search_panel->0.place(file as int, line as int) is None
            ==> model.open_search_result(file, line) == model.stays(),
        disk.is_file(path) ==> model.log_jump(path, row, disk) == model.open_path_target(
            path,
            Some(
                effects::Target::Point(
                    crate::palette::Point {
                        row: (if row > 0 {
                            row - 1
                        } else {
                            0
                        }) as usize,
                        column: 0,
                    },
                ),
            ),
        ),
        !disk.is_file(path) ==> model.log_jump(path, row, disk) == model.stays(),
{
}

/// The find bar is about the editor in front of the user: it opens with what is
/// selected there, asks that document to search, and each of its keys acts on
/// that editor. Without an editor, or with the bar closed, nothing is replaced.
pub proof fn law_find_acts_on_the_active_editor(
    model: WorkspaceModel,
    replacing: bool,
    forward: bool,
    facts: Facts,
)
    requires
        0 <= model.strip.active < model.strip.tabs.len(),
        model.completion is None,
    ensures
        ({
            let editor = model.strip.tabs[model.strip.active].editor;
            let selected = match facts.buffer_of(editor) {
                Some(buffer) => buffer.selected_text.deep_view(),
                None => None,
            };
            let counted = seq![Effect::<Seq<char>>::CountMatches { editor }];
            &&& model.open_find(replacing, facts).state.find is Some
            &&& model.find is None ==> model.open_find(replacing, facts).effects == seq![
                Effect::<Seq<char>>::OpenFind { replacing, seed: selected },
                Effect::<Seq<char>>::Focus(Focus::Panel(Panel::Find)),
                Effect::<Seq<char>>::SearchDocument { editor },
            ]
            &&& model.find is Some ==> model.open_find(replacing, facts).effects == seq![
                Effect::<Seq<char>>::ReopenFind { replacing },
                Effect::<Seq<char>>::Focus(Focus::Panel(Panel::Find)),
                Effect::<Seq<char>>::SearchDocument { editor },
            ]
            &&& model.find is Some ==> {
                &&& model.apply_search() == seq![Effect::<Seq<char>>::SearchDocument { editor }]
                &&& model.refresh_find_status() == counted
                &&& model.navigate_match(forward) == seq![
                    Effect::<Seq<char>>::SelectMatch { editor, forward },
                    Effect::<Seq<char>>::CountMatches { editor },
                ]
                &&& model.replace_one() == seq![
                    Effect::<Seq<char>>::ReplaceOne { editor },
                    Effect::<Seq<char>>::CountMatches { editor },
                ]
                &&& model.replace_all() == seq![Effect::<Seq<char>>::ReplaceAll { editor }]
            }
            &&& model.find is None ==> {
                &&& model.apply_search().len() == 0
                &&& model.refresh_find_status().len() == 0
                &&& model.navigate_match(forward) == seq![
                    Effect::<Seq<char>>::SelectMatch { editor, forward },
                ]
                &&& model.replace_one().len() == 0
                &&& model.replace_all().len() == 0
            }
            &&& model.dismiss_find().state.find is None
            &&& model.dismiss_find().effects == seq![
                Effect::<Seq<char>>::ClearSearch { editor },
                Effect::<Seq<char>>::Focus(Focus::Editor(editor)),
            ]
            &&& model.selected_text(facts) == selected
        }),
{
}

/// Without an editor there is nothing to find in.
pub proof fn law_nothing_to_find_without_an_editor(
    model: WorkspaceModel,
    replacing: bool,
    forward: bool,
    facts: Facts,
)
    requires
        model.strip.tabs.len() == 0,
    ensures
        model.open_find(replacing, facts) == model.stays(),
        model.apply_search().len() == 0,
        model.navigate_match(forward).len() == 0,
        model.replace_one().len() == 0,
        model.replace_all().len() == 0,
        model.dismiss_find().effects == seq![Effect::<Seq<char>>::Focus(Focus::Workspace)],
{
}

/// How many were replaced is said, and the matches are counted again.
pub proof fn law_replacing_is_counted(model: WorkspaceModel, count: nat)
    ensures
        model.replaced(count).state.status == Some(search::replaced_text(count)),
        model.replaced(count).effects == model.refresh_find_status(),
{
}

/// Finding in the project shows the panel, gives it the keyboard and seeds it
/// with what is selected; from inside the panel it goes back to the tree. What
/// the panel holds stays.
pub proof fn law_project_search_is_shown(model: WorkspaceModel, facts: Facts)
    ensures
        ({
            let step = model.toggle_search_panel(facts);
            &&& step.state.search_panel is Some
            &&& model.search_panel is Some ==> step.state.search_panel == model.search_panel
            &&& model.sidebar is Search && facts.search_focused ==> step.state.sidebar is Explorer
                && step.effects.last() == Effect::<Seq<char>>::Focus(Focus::Workspace)
                && step.state.search_cancel is None
            &&& !(model.sidebar is Search && facts.search_focused) ==> {
                &&& step.state.sidebar is Search
                &&& step.effects[0] == Effect::<Seq<char>>::Focus(Focus::Panel(Panel::Search))
                &&& model.selected_text(facts) is Some ==> step.effects.len() == 2
                    && step.effects[1] == Effect::<Seq<char>>::SeedSearch(
                    model.selected_text(facts)->0,
                )
                &&& model.selected_text(facts) is None ==> step.effects.len() == 1
            }
            &&& model.completion is None ==> model.find_in_project(facts).state == step.state
                && model.find_in_project(facts).effects == step.effects
        }),
{
    if model.completion is None {
        assert(model.find_in_project(facts).effects =~= model.toggle_search_panel(facts).effects);
    }
}

/// A query is searched for in the open project, after a moment or at once as it
/// was asked, in place of the search before; an empty query stops the search and
/// starts none.
pub proof fn law_query_is_searched_for(model: WorkspaceModel, query: Seq<char>, debounce: bool)
    requires
        model.search_panel is Some,
        model.tree is Some,
    ensures
        ({
            let step = model.search_query_changed(query, debounce);
            &&& step.state.search_panel is Some
            &&& step.state.search_panel->0.query == query
            &&& query.len() > 0 ==> step.effects.last() == Effect::<Seq<char>>::Start(
                Job::ProjectSearch,
                Work::SearchProject { root: model.tree->0.root, debounce },
            ) && step.state.search_cancel is Some
            &&& query.len() == 0 ==> step.state.search_cancel is None && forall|e: int|
                0 <= e < step.effects.len() ==> !((#[trigger] step.effects[e]) is Start)
            &&& model.search_cancel is Some ==> step.effects[0] == Effect::<Seq<char>>::CancelWalk(
                Walk::ProjectSearch,
            )
        }),
        model.search_seeded(query, true) == model.search_query_changed(query, false),
        model.search_seeded(query, false) == model.stays(),
{
}

/// Without a panel or a project nothing is searched.
pub proof fn law_no_project_no_search(model: WorkspaceModel, debounce: bool)
    requires
        model.search_panel is None || model.tree is None,
    ensures
        model.schedule_project_search(debounce) == model.stays(),
{
}

/// What was found is shown, unless another search took its place.
pub proof fn law_found_is_shown(model: WorkspaceModel, files: Seq<search::MatchesView>)
    requires
        model.search_panel is Some,
    ensures
        model.project_searched(files, true) == model,
        model.project_searched(files, false).search_panel is Some,
        model.project_searched(files, false).search_panel->0.state.results() == files,
        model.project_searched(files, false).search_panel->0.query == model.search_panel->0.query,
{
}

/// The settings panel takes the keyboard and gives it back; the settings file is
/// opened like any other, and where there is none that is said.
pub proof fn law_settings_are_opened(model: WorkspaceModel, facts: Facts)
    requires
        model.completion is None,
    ensures
        model.settings_panel is None ==> model.open_settings().effects == seq![
            Effect::<Seq<char>>::OpenSettings,
            Effect::<Seq<char>>::Focus(Focus::Panel(Panel::Settings)),
        ] && model.open_settings().state.settings_panel is Some,
        model.settings_panel is Some ==> model.open_settings().state.settings_panel is None
            && model.open_settings().effects == seq![model.focus_editor_or_workspace()],
        model.dismiss_settings().state == (WorkspaceModel { settings_panel: None, ..model }),
        facts.settings_path is Some ==> model.open_settings_file(facts) == model.open_path_target(
            facts.settings_path->0@,
            None,
        ),
        facts.settings_path is None ==> model.open_settings_file(facts) == (workspace_view::Step {
            state: WorkspaceModel {
                status: Some("no settings file to open — see the log"@),
                ..model
            },
            effects: Seq::empty(),
        }),
{
}

/// What a panel shows of the project is read in the project's root, and only
/// where there is one.
pub proof fn law_panels_read_the_project(model: WorkspaceModel, table: Seq<char>)
    ensures
        model.tree is Some ==> {
            let root = model.tree->0.root;
            &&& model.load_db_schema() == seq![
                Effect::<Seq<char>>::Start(Job::DbSchema, Work::ReadSchema { root }),
            ]
            &&& model.load_docker_services() == seq![
                Effect::<Seq<char>>::Start(Job::DockerPs, Work::ReadServices { root }),
            ]
            &&& model.open_db_table(table).effects == seq![
                Effect::<Seq<char>>::Start(Job::DbSchema, Work::ReadTable { root, table }),
            ]
            &&& model.logs is Some ==> model.refresh_log_panel() == seq![
                Effect::<Seq<char>>::Start(Job::LogRead, Work::ReadLog { root }),
            ]
            &&& model.logs is None ==> model.toggle_log_panel().effects == seq![
                Effect::<Seq<char>>::OpenLogs,
                Effect::<Seq<char>>::Start(Job::LogRead, Work::ReadLog { root }),
            ] && model.toggle_log_panel().state.logs is Some
        },
        model.tree is None ==> {
            &&& model.load_db_schema().len() == 0
            &&& model.load_docker_services().len() == 0
            &&& model.open_db_table(table) == model.stays()
            &&& model.refresh_log_panel().len() == 0
        },
        model.logs is None ==> model.refresh_log_panel().len() == 0,
        model.logs is Some ==> model.toggle_log_panel().state.logs is None
            && model.toggle_log_panel().effects.len() == 0,
{
}

/// A click on a table's name shows or hides its columns and opens its rows.
pub proof fn law_clicked_table_is_opened(model: WorkspaceModel, table: Seq<char>)
    requires
        model.tree is Some,
    ensures
        model.toggle_db_table(table).effects == seq![
            Effect::<Seq<char>>::Start(
                Job::DbSchema,
                Work::ReadTable { root: model.tree->0.root, table },
            ),
        ],
        model.toggle_db_table(table).state.database.expanded.contains(table)
            == !model.database.expanded.contains(table),
{
}

/// Committing a cell writes it where its address is known, to its own table,
/// column and row, with what was typed, and leaves the cell in any case; a new
/// row goes into the table that is open.
pub proof fn law_cells_are_written_by_address(model: WorkspaceModel)
    ensures
        model.db_edit_commit().state.database.editing is None,
        model.tree is Some && model.database.write() is Some ==> {
            let cell = model.database.write()->0;
            model.db_edit_commit().effects == seq![
                Effect::<Seq<char>>::Start(
                    Job::DbSchema,
                    Work::UpdateCell {
                        root: model.tree->0.root,
                        table: cell.table,
                        column: cell.column,
                        rowid: cell.rowid,
                        value: cell.value,
                    },
                ),
            ]
        },
        model.tree is None || model.database.write() is None
            ==> model.db_edit_commit().effects.len() == 0,
        model.tree is Some && model.database.insert_into() is Some ==> model.db_insert_row().effects
            == seq![
            Effect::<Seq<char>>::Start(
                Job::DbSchema,
                Work::InsertRow {
                    root: model.tree->0.root,
                    table: model.database.insert_into()->0,
                },
            ),
        ],
        model.tree is None || model.database.insert_into() is None ==> model.db_insert_row()
            == model.stays(),
{
}

/// A write that worked reads its table again; one that failed says what failed
/// and why.
pub proof fn law_written_table_is_read_again(
    model: WorkspaceModel,
    table: Seq<char>,
    message: Seq<char>,
    insert: bool,
)
    ensures
        model.db_written(insert, Some(Ok(table))) == model.open_db_table(table),
        model.db_written(true, Some(Err(message))).state.status == Some(
            "insert failed: "@ + message,
        ),
        model.db_written(false, Some(Err(message))).state.status == Some(
            "update failed: "@ + message,
        ),
        model.db_written(true, None).state.status == Some(
            "insert failed: "@ + "no sqlite database"@,
        ),
        model.db_written(false, None).state.status == Some(
            "update failed: "@ + "no sqlite database"@,
        ),
        model.db_written(insert, Some(Err(message))).effects.len() == 0,
        model.db_written(insert, None).effects.len() == 0,
{
}

/// A click on a cell edits it where its row has an address, says that the table
/// is read-only where it has none, and does nothing where there are no rows.
pub proof fn law_clicked_cell_is_edited(model: WorkspaceModel, row: usize, column: usize)
    ensures
        model.database.begin(row as int) is NoRows ==> model.begin_db_edit(row, column)
            == model.stays(),
        model.database.begin(row as int) is ReadOnly ==> model.begin_db_edit(
            row,
            column,
        ).effects.len() == 0 && model.begin_db_edit(row, column).state == (WorkspaceModel {
            status: Some("This table has no rowid — its cells are read-only"@),
            ..model
        }),
        model.database.begin(row as int) is Editing ==> model.begin_db_edit(row, column).effects
            == seq![Effect::<Seq<char>>::Focus(Focus::Workspace)] && model.begin_db_edit(
            row,
            column,
        ).state.database.editing is Some,
{
}

/// An entry of the activity bar shows its panel; the database and the containers
/// are read when they are shown, and the search gets the keyboard.
pub proof fn law_sidebar_shows_what_was_chosen(model: WorkspaceModel, target: Sidebar)
    ensures
        model.select_sidebar(target).state.sidebar == target,
        target is Search ==> model.select_sidebar(target).state.search_panel is Some
            && model.select_sidebar(target).effects[0] == Effect::<Seq<char>>::Focus(
            Focus::Panel(Panel::Search),
        ),
        !(model.sidebar is Search) && target is Database ==> model.select_sidebar(target).effects
            == model.load_db_schema(),
        !(model.sidebar is Search) && target is Docker ==> model.select_sidebar(target).effects
            == model.load_docker_services(),
        !(model.sidebar is Search) && (target is Explorer || target is Git) ==> model.select_sidebar(
            target,
        ).effects.len() == 0,
        model.sidebar is Search && target is Database && model.tree is Some
            ==> model.select_sidebar(target).effects.contains(
            Effect::Start(Job::DbSchema, Work::ReadSchema { root: model.tree->0.root }),
        ),
{
    if model.sidebar is Search && target is Database && model.tree is Some {
        let at = model.cancel_project_search().effects.len() as int;
        assert(model.select_sidebar(target).effects[at] == Effect::<Seq<char>>::Start(
            Job::DbSchema,
            Work::ReadSchema { root: model.tree->0.root },
        ));
    }
}

/// A window that comes back to the front reads again what it shows of the
/// project; one that leaves it saves what changed.
pub proof fn law_window_reads_again_and_saves(model: WorkspaceModel, facts: Facts)
    ensures
        model.window_activation_changed(true, facts) == model.window_became_active(),
        model.window_activation_changed(false, facts) == model.autosave_dirty_tabs(facts),
        model.tree is Some ==> {
            let root = model.tree->0.root;
            let step = model.window_became_active();
            &&& step.effects.contains(Effect::Start(Job::GitStatus, Work::ReadGitStatus { root }))
            &&& step.effects.contains(Effect::RebuildIndex(root))
            &&& model.sidebar is Database ==> step.effects.contains(
                Effect::Start(Job::DbSchema, Work::ReadSchema { root }),
            )
            &&& model.sidebar is Docker ==> step.effects.contains(
                Effect::Start(Job::DockerPs, Work::ReadServices { root }),
            )
            &&& model.logs is Some ==> step.effects.last() == Effect::<Seq<char>>::Start(
                Job::LogRead,
                Work::ReadLog { root },
            )
        },
{
    if model.tree is Some {
        let root = model.tree->0.root;
        let step = model.window_became_active();
        let read = model.refresh_git_status();
        let a = read.effects.len() as int;
        assert(read.effects[a - 1] == Effect::<Seq<char>>::Start(
            Job::GitStatus,
            Work::ReadGitStatus { root },
        ));
        assert(step.effects[a - 1] == read.effects[a - 1]);
        assert(step.effects[a] == Effect::<Seq<char>>::RebuildIndex(root));
        if model.sidebar is Database {
            assert(step.effects[a + 1] == Effect::<Seq<char>>::Start(
                Job::DbSchema,
                Work::ReadSchema { root },
            ));
        }
        if model.sidebar is Docker {
            assert(step.effects[a + 1] == Effect::<Seq<char>>::Start(
                Job::DockerPs,
                Work::ReadServices { root },
            ));
        }
    }
}

/// A click on the update's cell installs a release into an installed
/// application, opens its page otherwise, and restarts into one that is ready.
pub proof fn law_update_click_does_the_next_step(model: WorkspaceModel, installed: bool)
    ensures
        model.update_state matches UpdateState::Available(release) ==> {
            &&& release.dmg_url is Some && installed ==> model.update_clicked(
                installed,
            ).state.update_state is Downloading && model.update_clicked(installed).effects == seq![
                Effect::<Seq<char>>::Start(
                    Job::UpdateInstall,
                    Work::InstallUpdate {
                        script: update::install_script_text(release.dmg_url->0@),
                    },
                ),
            ]
            &&& release.dmg_url is None || !installed ==> model.update_clicked(installed).state
                == model && model.update_clicked(installed).effects == seq![
                Effect::<Seq<char>>::OpenPage(release.html_url@),
            ]
        },
        model.update_state is ReadyToRestart ==> model.update_clicked(installed).effects == seq![
            Effect::<Seq<char>>::RestartIntoUpdate,
        ],
        model.update_state is Idle || model.update_state is Downloading ==> model.update_clicked(
            installed,
        ) == model.stays(),
{
}

/// A key in a cell: return writes it, escape leaves it, backspace takes the last
/// character away, and a character is added to it.
pub proof fn law_keys_edit_the_cell(model: WorkspaceModel, key: Seq<char>, text: Option<Seq<char>>)
    ensures
        database::cell_key(key, text) is Commit ==> model.db_key(key, text)
            == model.db_edit_commit(),
        database::cell_key(key, text) is Cancel ==> model.db_key(
            key,
            text,
        ).state.database.editing is None && model.db_key(key, text).effects.len() == 0,
        database::cell_key(key, text) is Backspace ==> model.db_key(key, text).state.database
            == model.database.erased(),
        database::cell_key(key, text) is Type ==> model.db_key(key, text).state.database
            == model.database.typed(text->0),
        database::cell_key(key, text) is Nothing ==> model.db_key(key, text) == model.stays(),
{
}

/// The test panel opens with what it held, or fresh, and with the runner that was
/// found; closing it gives the keyboard back.
pub proof fn law_test_panel_opens_and_closes(model: WorkspaceModel, detected: bool)
    ensures
        model.tests_open is Some ==> {
            &&& model.toggle_test_panel(detected).state == (WorkspaceModel {
                tests_open: None,
                ..model
            })
            &&& model.toggle_test_panel(detected).effects == seq![model.focus_editor_or_workspace()]
        },
        model.tests_open is None ==> {
            let step = model.toggle_test_panel(detected);
            &&& step.effects == seq![Effect::<Seq<char>>::OpenTests]
            &&& step.state.tests_open is Some
            &&& step.state.tests is Some
            &&& step.state.tests->0.runner == detected
            &&& model.tests is None ==> step.state.tests->0.state is Idle
                && step.state.tests->0.report.tests.len() == 0
            &&& model.tests is Some ==> step.state.tests->0.report == model.tests->0.report
                && step.state.tests->0.state == model.tests->0.state
        },
{
}

/// What opens a panel closes the completion popup first, and then opens the panel
/// as if the popup had not been there.
pub proof fn law_popup_gives_way_to_panels(model: WorkspaceModel, replacing: bool, facts: Facts)
    requires
        model.completion is Some,
    ensures
        ({
            let closed = model.dismiss_completion();
            let next = closed.state;
            &&& model.toggle_terminal().state == next.toggle_terminal().state
            &&& model.toggle_terminal().effects == closed.effects + next.toggle_terminal().effects
            &&& model.find_in_project(facts).state == next.find_in_project(facts).state
            &&& model.find_in_project(facts).effects == closed.effects + next.find_in_project(
                facts,
            ).effects
            &&& model.settings_panel is None ==> model.open_settings().state
                == next.open_settings().state && model.open_settings().effects == closed.effects
                + next.open_settings().effects
            &&& 0 <= model.strip.active < model.strip.tabs.len() ==> model.open_find(
                replacing,
                facts,
            ).state == next.open_find(replacing, facts).state && model.open_find(
                replacing,
                facts,
            ).effects == closed.effects + next.open_find(replacing, facts).effects
        }),
{
}

/// A command that is typed while the terminal is closed opens it first, with or
/// without a popup in the way.
pub proof fn law_typed_command_opens_the_terminal(model: WorkspaceModel, command: Seq<char>)
    requires
        model.terminal is None,
    ensures
        model.new_terminal() == model.toggle_terminal(),
        model.type_terminal_command(command).state == model.toggle_terminal().state,
        model.type_terminal_command(command).effects == model.toggle_terminal().effects + seq![
            Effect::<Seq<char>>::Type(command),
            Effect::<Seq<char>>::Focus(Focus::Panel(Panel::Terminal)),
        ],
        model.type_artisan_command(command).state == model.toggle_terminal().state,
        model.type_artisan_command(command).effects == model.toggle_terminal().effects + seq![
            Effect::<Seq<char>>::TypeArtisan(command),
            Effect::<Seq<char>>::Focus(Focus::Panel(Panel::Terminal)),
        ],
{
}

} // verus!

//! Going to places in the code: definitions, usages, symbols and fixes, and
//! the language server that knows about them.

use vstd::prelude::*;
use vstd::string::*;

use crate::completion;
use crate::completion::laravel_dialect;
use crate::disk::Disk;
use crate::edits;
use crate::edits::{
    plan_workspace_edit, rename_status, EditError, EditReport, FileChange, Planned,
};
use crate::effects;
use crate::effects::{also, both, nothing, only, Effect, Question, Work};
use crate::facts::Facts;
use crate::history;
use crate::jobs::Job;
use crate::kinds::FileKinds;
use crate::lsp;
use crate::lsp::{first_location, Client, GotoDefinitionResponse, LspState};
use crate::palette::{PaletteMode, Point};
use crate::paths;
use crate::paths::are_same_path;
use crate::tabs;
use crate::text;
use crate::text::{decimal_text, join2, join3, owned, same};
use crate::workspace_view;
use crate::workspace_view::{WorkspaceModel, WorkspaceView};

verus! {

/// A document that the server's copy has fallen behind.
pub struct Behind {
    pub path: String,
    pub text: String,
    pub version: u64,
}

/// A document that the server's copy has fallen behind, as contracts see it.
pub struct BehindView {
    pub path: Seq<char>,
    pub text: Seq<char>,
    pub version: u64,
}

impl vstd::view::DeepView for Behind {
    type V = BehindView;

    open spec fn deep_view(&self) -> BehindView {
        BehindView { path: self.path@, text: self.text@, version: self.version }
    }
}

/// What the server reports about a file.
pub struct Diagnostic {
    /// The bytes that it is about.
    pub start: usize,
    pub end: usize,
    pub severity: u32,
    pub message: String,
}

/// What the server reports about a file, as contracts see it.
pub struct DiagnosticView {
    pub start: usize,
    pub end: usize,
    pub severity: u32,
    pub message: Seq<char>,
}

impl vstd::view::DeepView for Diagnostic {
    type V = DiagnosticView;

    open spec fn deep_view(&self) -> DiagnosticView {
        DiagnosticView {
            start: self.start,
            end: self.end,
            severity: self.severity,
            message: self.message@,
        }
    }
}

/// A file and everything that the server reports about it.
pub type FileReport = (String, Vec<Diagnostic>);

/// What is reported about a file, from the report `from` on. Nothing is
/// reported about a file without a report.
pub open spec fn reported(
    reports: Seq<(Seq<char>, Seq<DiagnosticView>)>,
    path: Seq<char>,
    from: int,
) -> Seq<DiagnosticView>
    decreases reports.len() - from,
{
    if from < 0 || from >= reports.len() {
        Seq::empty()
    } else if paths::same_path(reports[from].0, path) {
        reports[from].1
    } else {
        reported(reports, path, from + 1)
    }
}

impl WorkspaceModel {
    // -----------------------------------------------------------------------
    // Asking
    // -----------------------------------------------------------------------

    /// What a question is about: the active file and the cursor's byte, where
    /// the file is one that the server was told about.
    pub open spec fn navigation_origin(self, facts: Facts) -> Option<(Seq<char>, usize)> {
        match self.strip.active_tab() {
            None => None,
            Some(tab) => match (tab.path, facts.buffer_of(tab.editor)) {
                (Some(path), Some(buffer)) => if facts.kinds.serves(path) {
                    Some((path, buffer.head))
                } else {
                    None
                },
                _ => None,
            },
        }
    }

    /// Where the cursor is, for the trail of jumps.
    pub open spec fn current_location(self, facts: Facts) -> Option<(Seq<char>, Point)> {
        match self.strip.active_tab() {
            None => None,
            Some(tab) => match (tab.path, facts.buffer_of(tab.editor)) {
                (Some(path), Some(buffer)) => Some((path, buffer.point)),
                _ => None,
            },
        }
    }

    /// The active file and its text.
    pub open spec fn active_text(self, facts: Facts) -> Option<(Seq<char>, Seq<char>)> {
        match self.strip.active_tab() {
            None => None,
            Some(tab) => match (tab.path, facts.buffer_of(tab.editor)) {
                (Some(path), Some(buffer)) => Some((path, buffer.text@)),
                _ => None,
            },
        }
    }

    /// A question, while there is a server to put it to.
    pub open spec fn ask(self, question: Question<Seq<char>>) -> Seq<effects::EffectView> {
        if self.lsp.client is Some {
            seq![Effect::Ask(question)]
        } else {
            Seq::empty()
        }
    }

    /// Makes a question the one in flight; the one before it is withdrawn.
    pub open spec fn start_query(self, id: u64) -> workspace_view::Step {
        let stopped = self.cancel_in_flight_query();
        workspace_view::Step {
            state: WorkspaceModel { in_flight_query: Some(id), ..stopped.state },
            effects: stopped.effects.push(
                Effect::Start(Job::LspQuery, Work::AwaitAnswer { id }),
            ),
        }
    }

    /// The question in flight was answered.
    pub open spec fn answered(self) -> WorkspaceModel {
        WorkspaceModel { in_flight_query: None, ..self }
    }

    /// The trail of jumps with a place on it, where there is one.
    pub open spec fn jumped_from(self, origin: Option<(Seq<char>, Point)>) -> WorkspaceModel {
        match origin {
            Some(place) => WorkspaceModel { history: self.history.pushed(place), ..self },
            None => self,
        }
    }

    // -----------------------------------------------------------------------
    // Definitions
    // -----------------------------------------------------------------------

    /// The file and the project that a Laravel name at the cursor is looked up
    /// in.
    pub open spec fn laravel_origin(self, facts: Facts) -> Option<(Seq<char>, Seq<char>)> {
        match (self.root(), self.strip.active_path()) {
            (Some(root), Some(path)) => if completion::dialect_of(facts.kinds.language_of(path)) is Some
                && facts.laravel_reference {
                Some((root, path))
            } else {
                None
            },
            _ => None,
        }
    }

    /// Goes to the definition. A Laravel name is looked up in the project, and
    /// everything else is for the server.
    pub open spec fn go_to_definition_at_cursor(self, facts: Facts) -> Seq<effects::EffectView> {
        match self.laravel_origin(facts) {
            Some((root, path)) => seq![
                Effect::Start(Job::LaravelTarget, Work::ResolveReference { root, path }),
            ],
            None => match self.navigation_origin(facts) {
                Some((path, offset)) => self.ask(Question::Definition { path, offset }),
                None => Seq::empty(),
            },
        }
    }

    /// A Laravel name was looked up.
    pub open spec fn laravel_resolved(
        self,
        origin: Option<(Seq<char>, Point)>,
        found: Option<(Seq<char>, Option<usize>)>,
    ) -> workspace_view::Step {
        match found {
            None => self.stays(),
            Some((path, line)) => self.jumped_from(origin).open_path_at(path, first_column(line)),
        }
    }

    /// The question about a definition is on its way.
    pub open spec fn definition_asked(self, id: u64) -> workspace_view::Step {
        self.says("Finding definition…"@).start_query(id)
    }

    /// The question about a definition was answered, or it failed.
    pub open spec fn definition_found(
        self,
        origin: Option<(Seq<char>, Point)>,
        found: Result<Option<GotoDefinitionResponse>, ()>,
    ) -> workspace_view::Step {
        let quiet = WorkspaceModel { status: None, ..self.answered() };
        match found {
            Err(_) => quiet.stays(),
            Ok(None) => quiet.says("No definition found"@).stays(),
            Ok(Some(response)) => match lsp::first_place(response) {
                None => quiet.says("No definition found"@).stays(),
                Some((path, line, character)) => quiet.jumped_from(origin).open_path_target(
                    path,
                    Some(effects::Target::Lsp { line, character }),
                ),
            },
        }
    }

    /// Goes back to where the last jump started.
    pub open spec fn navigate_back(self, facts: Facts) -> workspace_view::Step {
        match self.current_location(facts) {
            None => self.stays(),
            Some(here) => {
                let gone = WorkspaceModel {
                    history: self.history.gone_back(here, facts.disk),
                    ..self
                };
                match self.history.back_to(facts.disk) {
                    Some((path, point)) => gone.open_path_at(path, Some(point)),
                    None => gone.stays(),
                }
            },
        }
    }

    /// Undoes a step back.
    pub open spec fn navigate_forward(self, facts: Facts) -> workspace_view::Step {
        match self.current_location(facts) {
            None => self.stays(),
            Some(here) => {
                let gone = WorkspaceModel {
                    history: self.history.reversed().gone_back(here, facts.disk).reversed(),
                    ..self
                };
                match self.history.reversed().back_to(facts.disk) {
                    Some((path, point)) => gone.open_path_at(path, Some(point)),
                    None => gone.stays(),
                }
            },
        }
    }

    // -----------------------------------------------------------------------
    // Usages and symbols
    // -----------------------------------------------------------------------

    /// Finds usages, into the palette.
    pub open spec fn find_references(self, facts: Facts) -> workspace_view::Step {
        match self.navigation_origin(facts) {
            None => self.stays(),
            Some((path, offset)) => {
                let shown = self.toggle_palette(PaletteMode::References, facts);
                if shown.state.palette is Some {
                    shown.and(shown.state.ask(Question::References { path, offset }))
                } else {
                    shown
                }
            },
        }
    }

    /// Asks for the symbols of the active file.
    pub open spec fn load_symbol_items(self, facts: Facts) -> Seq<effects::EffectView> {
        match self.navigation_origin(facts) {
            Some((path, _)) => self.ask(Question::Symbols { path }),
            None => Seq::empty(),
        }
    }

    // -----------------------------------------------------------------------
    // Formatting, fixes and renames
    // -----------------------------------------------------------------------

    /// Tells the server about the active file's text.
    pub open spec fn resync_active(self, facts: Facts) -> Seq<effects::EffectView> {
        match self.active_text(facts) {
            Some((path, text)) => self.notify_lsp_of_change(path, text, facts.kinds),
            None => Seq::empty(),
        }
    }

    /// Formats the document. The server formats its own copy, so it is sent
    /// this one first.
    pub open spec fn format_document(self, facts: Facts) -> Seq<effects::EffectView> {
        match self.navigation_origin(facts) {
            Some((path, _)) => self.resync_active(facts) + self.ask(
                Question::Formatting { path },
            ),
            None => Seq::empty(),
        }
    }

    /// The document is being formatted.
    pub open spec fn formatting_asked(self, id: u64) -> workspace_view::Step {
        self.says("Formatting…"@).asks(
            seq![Effect::Start(Job::LspQuery, Work::AwaitAnswer { id })],
        )
    }

    /// The server formatted the text it was sent. Its edits are byte ranges in
    /// that text, so they are dropped where the buffer has moved on.
    pub open spec fn formatted(
        self,
        editor: u64,
        sent: Seq<char>,
        answered: bool,
        facts: Facts,
    ) -> workspace_view::Step {
        WorkspaceModel { status: None, ..self }.asks(
            match facts.buffer_of(editor) {
                Some(buffer) => if answered && buffer.text@ == sent {
                    seq![Effect::ApplyEdits { editor }]
                } else {
                    Seq::empty()
                },
                None => Seq::empty(),
            },
        )
    }

    /// What a fix is asked for: what is selected, or the cursor.
    pub open spec fn fix_range(self, facts: Facts, offset: usize) -> (usize, usize) {
        match self.strip.active_editor() {
            Some(editor) => match facts.buffer_of(editor) {
                Some(buffer) => match buffer.selection {
                    Some(range) => range,
                    None => (offset, offset),
                },
                None => (offset, offset),
            },
            None => (offset, offset),
        }
    }

    /// Asks for fixes at the cursor.
    pub open spec fn quick_fix(self, facts: Facts) -> Seq<effects::EffectView> {
        match self.navigation_origin(facts) {
            Some((path, offset)) => {
                let (start, end) = self.fix_range(facts, offset);
                self.resync_active(facts) + self.ask(Question::CodeActions { path, start, end })
            },
            None => Seq::empty(),
        }
    }

    /// The fixes came in: they are listed, or there are none.
    pub open spec fn code_actions_found(self, count: usize, facts: Facts) -> workspace_view::Step {
        if count == 0 {
            self.answered().says("No quick fixes here"@).stays()
        } else {
            WorkspaceModel { pending_code_actions: count, ..self.answered() }.toggle_palette(
                PaletteMode::CodeActions,
                facts,
            )
        }
    }

    /// Opens the prompt for a new name, with the old one in it. The place is
    /// kept, for the cursor may move under the prompt.
    pub open spec fn rename_symbol(self, facts: Facts) -> workspace_view::Step {
        match (self.navigation_origin(facts), self.lsp.client) {
            (Some((path, offset)), Some(client)) => if !client.rename {
                self.says("The language server does not offer rename"@).stays()
            } else {
                match self.active_word(facts) {
                    None => self.stays(),
                    Some(word) => {
                        let shown = WorkspaceModel {
                            pending_rename: Some((path, offset)),
                            ..self
                        }.toggle_palette(PaletteMode::Rename, facts);
                        if shown.state.palette is Some {
                            shown.and(seq![Effect::PresetQuery(word)])
                        } else {
                            shown
                        }
                    },
                }
            },
            _ => self.stays(),
        }
    }

    /// The word under the cursor.
    pub open spec fn active_word(self, facts: Facts) -> Option<Seq<char>> {
        match self.strip.active_editor() {
            Some(editor) => match facts.buffer_of(editor) {
                Some(buffer) => buffer.word.deep_view(),
                None => None,
            },
            None => None,
        }
    }

    /// Asks the server for a rename.
    pub open spec fn perform_rename(
        self,
        path: Seq<char>,
        offset: usize,
        name: Seq<char>,
        facts: Facts,
    ) -> Seq<effects::EffectView> {
        self.resync_active(facts) + self.ask(Question::Rename { path, offset, name })
    }

    /// The rename is on its way.
    pub open spec fn rename_asked(self, id: u64) -> workspace_view::Step {
        self.says("Renaming…"@).start_query(id)
    }

    /// What an edit over several files brings with it, once it was carried
    /// out.
    pub open spec fn edit_applied(self, report: EditReport, facts: Facts) -> workspace_view::Step {
        let read = if report.refresh_git {
            self.refresh_git_status()
        } else {
            self.stays()
        };
        if report.autosave {
            read.followed_by(read.state.autosave_dirty_tabs(facts))
        } else {
            read
        }
    }

    /// One step of an edit over several files was carried out, and its text
    /// is `text` now: the server's copy of a buffer is kept in step with it.
    pub open spec fn edit_step_done(
        self,
        step: Planned,
        text: Seq<char>,
        kinds: FileKinds,
    ) -> Seq<effects::EffectView> {
        match step {
            Planned::Buffer { path, .. } => self.notify_lsp_of_change(path@, text, kinds),
            Planned::Disk { .. } => Seq::empty(),
        }
    }

    /// The first `count` steps of a plan were carried out, and `texts` are
    /// the texts after each.
    pub open spec fn edit_steps_done(
        self,
        plan: Seq<Planned>,
        texts: Seq<Seq<char>>,
        kinds: FileKinds,
        count: int,
    ) -> Seq<effects::EffectView>
        decreases count,
    {
        if count <= 0 {
            Seq::empty()
        } else {
            self.edit_steps_done(plan, texts, kinds, count - 1) + self.edit_step_done(
                plan[count - 1],
                texts[count - 1],
                kinds,
            )
        }
    }

    // -----------------------------------------------------------------------
    // The server's life
    // -----------------------------------------------------------------------

    /// The server that was started is there, or it is not.
    pub open spec fn server_started(self, client: Option<lsp::ClientView>) -> workspace_view::Step {
        match client {
            Some(client) => WorkspaceModel {
                lsp: lsp::LspView {
                    client: Some(client),
                    state: lsp::StateView::Running,
                    ..self.lsp
                },
                ..self
            }.asks(seq![Effect::SyncOpenDocuments]),
            None => WorkspaceModel {
                lsp: lsp::LspView { state: lsp::StateView::Unavailable, ..self.lsp },
                ..self
            }.stays(),
        }
    }

    /// What the server is told of the first `count` tabs once it is there.
    pub open spec fn open_documents(self, facts: Facts, count: int) -> Seq<effects::EffectView>
        decreases count,
    {
        if count <= 0 {
            Seq::empty()
        } else {
            let before = self.open_documents(facts, count - 1);
            let tab = self.strip.tabs[count - 1];
            match (tab.path, facts.buffer_of(tab.editor)) {
                (Some(path), Some(buffer)) => if facts.kinds.serves(path) {
                    before.push(Effect::ServerOpen { path, text: buffer.text@ })
                } else {
                    before
                },
                _ => before,
            }
        }
    }

    /// Tells the server about every open file that it handles.
    pub open spec fn sync_open_documents(self, facts: Facts) -> Seq<effects::EffectView> {
        if self.lsp.client is Some {
            self.open_documents(facts, self.strip.tabs.len() as int)
        } else {
            Seq::empty()
        }
    }

    /// The documents among the first `count` tabs that the server's copy has
    /// fallen behind.
    pub open spec fn documents_behind(self, facts: Facts, count: int) -> Seq<BehindView>
        decreases count,
    {
        if count <= 0 {
            Seq::empty()
        } else {
            let before = self.documents_behind(facts, count - 1);
            let tab = self.strip.tabs[count - 1];
            match (tab.path, facts.buffer_of(tab.editor)) {
                (Some(path), Some(buffer)) => if facts.kinds.serves(path)
                    && lsp::version_sent(self.lsp.synced, path) != Some(buffer.version) {
                    before.push(
                        BehindView { path, text: buffer.text@, version: buffer.version },
                    )
                } else {
                    before
                },
                _ => before,
            }
        }
    }

    /// What an editor shows of the server's reports: those about its own file.
    pub open spec fn diagnostics_at(
        self,
        index: int,
        reports: Seq<(Seq<char>, Seq<DiagnosticView>)>,
    ) -> (u64, Seq<DiagnosticView>) {
        let tab = self.strip.tabs[index];
        (
            tab.editor,
            match tab.path {
                Some(path) => reported(reports, path, 0),
                None => Seq::empty(),
            },
        )
    }

    /// The server stopped: it is started again, which is put on record, or
    /// given up on.
    pub open spec fn handle_lsp_death(
        self,
        reason: Option<Seq<char>>,
        may_restart: bool,
        configured: bool,
    ) -> workspace_view::Step {
        let gone = WorkspaceModel {
            lsp: lsp::LspView { client: None, errors: 0, warnings: 0, ..self.lsp },
            ..self
        };
        let told = gone.asks(seq![Effect::ShutDownServer, Effect::PushDiagnostics]);
        if may_restart {
            told.followed_by(
                WorkspaceModel { lsp: gone.lsp.restarted(), ..gone }.start_lsp(configured),
            )
        } else {
            workspace_view::Step {
                state: WorkspaceModel {
                    lsp: lsp::LspView {
                        state: lsp::StateView::Failed(
                            match reason {
                                Some(reason) => reason,
                                None => "the language server exited"@,
                            },
                        ),
                        ..gone.lsp
                    },
                    ..gone
                },
                effects: told.effects,
            }
        }
    }

    /// The text that the server's reports on a file are read against: that of
    /// the first tab which shows the file, or none.
    pub open spec fn diagnostic_text(self, path: Seq<char>, facts: Facts) -> Seq<char> {
        match tabs::tab_at_path(self.strip.tabs, path, 0) {
            Some(index) => match facts.buffer_of(self.strip.tabs[index].editor) {
                Some(buffer) => buffer.text@,
                None => Seq::empty(),
            },
            None => Seq::empty(),
        }
    }

    /// The server's messages were taken in; `counts` are the errors and
    /// warnings over all files, where a message changed them.
    pub open spec fn apply_lsp_events(self, counts: Option<(usize, usize)>) -> workspace_view::Step {
        match counts {
            Some((errors, warnings)) => WorkspaceModel {
                lsp: lsp::LspView { errors, warnings, ..self.lsp },
                ..self
            }.asks(seq![Effect::PushDiagnostics]),
            None => self.stays(),
        }
    }

    /// Shows the active buffer in a language. The file keeps its name.
    pub open spec fn set_active_language(self, language: Seq<char>) -> Seq<effects::EffectView> {
        match self.strip.active_editor() {
            Some(editor) => seq![Effect::SetLanguage { editor, language }],
            None => Seq::empty(),
        }
    }
}

/// The first column of a line that is counted from one.
pub open spec fn first_column(line: Option<usize>) -> Option<Point> {
    match line {
        Some(line) => Some(
            Point {
                row: (if line > 0 {
                    line - 1
                } else {
                    0
                }) as usize,
                column: 0,
            },
        ),
        None => None,
    }
}

/// What an answer of the server's means to a fix that was applied.
pub open spec fn fix_status_text(files: Result<usize, EditError>) -> Seq<char> {
    match files {
        Ok(count) => "Fix applied in "@ + text::decimal(count as nat) + " file(s)"@,
        Err(error) => "Fix not applied: "@ + error.text(),
    }
}

/// A copy of what is reported.
fn copy_of(items: &Vec<Diagnostic>) -> (copy: Vec<Diagnostic>)
    ensures
        copy.deep_view() == items.deep_view(),
{
    let mut copy: Vec<Diagnostic> = Vec::new();
    let mut i: usize = 0;
    assert(copy.deep_view() =~= items.deep_view().take(0));
    while i < items.len()
        invariant
            i <= items.len(),
            copy.deep_view() == items.deep_view().take(i as int),
        decreases items.len() - i,
    {
        let ghost before = copy.deep_view();
        let item = Diagnostic {
            start: items[i].start,
            end: items[i].end,
            severity: items[i].severity,
            message: items[i].message.clone(),
        };
        assert(item.deep_view() == items.deep_view()[i as int]);
        copy.push(item);
        assert(copy.deep_view() =~= before.push(item.deep_view()));
        assert(copy.deep_view() =~= items.deep_view().take(i + 1));
        i += 1;
    }
    assert(items.deep_view().take(i as int) =~= items.deep_view());
    copy
}

/// What is reported about a file.
fn reports_on(reports: &Vec<FileReport>, path: &str) -> (items: Vec<Diagnostic>)
    ensures
        items.deep_view() == reported(reports.deep_view(), path@, 0),
{
    let mut i: usize = 0;
    while i < reports.len()
        invariant
            i <= reports.len(),
            reported(reports.deep_view(), path@, i as int) == reported(
                reports.deep_view(),
                path@,
                0,
            ),
        decreases reports.len() - i,
    {
        assert(reports.deep_view()[i as int] == reports[i as int].deep_view());
        if are_same_path(reports[i].0.as_str(), path) {
            return copy_of(&reports[i].1);
        }
        i += 1;
    }
    let none: Vec<Diagnostic> = Vec::new();
    assert(none.deep_view() =~= Seq::<DiagnosticView>::empty());
    none
}

/// What the cursor's diagnostic is: the one it is on, or else one on its line.
pub fn cursor_diagnostic(exact: Option<String>, on_line: Option<String>) -> (message: Option<String>)
    ensures
        message.deep_view() == (if exact is Some {
            exact.deep_view()
        } else {
            on_line.deep_view()
        }),
{
    match exact {
        Some(message) => Some(message),
        None => on_line,
    }
}

impl WorkspaceView {
    // -----------------------------------------------------------------------
    // Asking
    // -----------------------------------------------------------------------

    /// The active file, its editor's number and its path.
    fn active_file(&self) -> (file: Option<(u64, String)>)
        ensures
            match file {
                Some((editor, path)) => {
                    &&& self@.strip.active_tab() matches Some(tab)
                    &&& tab.editor == editor
                    &&& tab.path == Some(path@)
                },
                None => match self@.strip.active_tab() {
                    Some(tab) => tab.path is None,
                    None => true,
                },
            },
    {
        match self.strip.active_tab() {
            Some(tab) => match &tab.path {
                Some(path) => Some((tab.editor, path.clone())),
                None => None,
            },
            None => None,
        }
    }

    /// What a question is about.
    pub fn navigation_origin(&self, facts: &Facts) -> (origin: Option<(String, usize)>)
        ensures
            origin.deep_view() == self@.navigation_origin(*facts),
    {
        match self.active_file() {
            Some((editor, path)) => match facts.buffer(editor) {
                Some(buffer) => if facts.kinds.handles(path.as_str()) {
                    Some((path, buffer.head))
                } else {
                    None
                },
                None => None,
            },
            None => None,
        }
    }

    /// Where the cursor is, for the trail of jumps.
    pub fn current_location(&self, facts: &Facts) -> (place: Option<(String, Point)>)
        ensures
            place.deep_view() == self@.current_location(*facts),
    {
        match self.active_file() {
            Some((editor, path)) => match facts.buffer(editor) {
                Some(buffer) => Some((path, buffer.point)),
                None => None,
            },
            None => None,
        }
    }

    /// A question, while there is a server to put it to.
    fn ask(&self, question: Question<String>) -> (effects: Vec<Effect<String>>)
        ensures
            effects::told(effects) == self@.ask(question.deep_view()),
    {
        if self.lsp.client.is_some() {
            only(Effect::Ask(question))
        } else {
            nothing()
        }
    }

    /// Makes a question the one in flight; the one before it is withdrawn.
    pub fn start_query(&mut self, id: u64) -> (effects: Vec<Effect<String>>)
        ensures
            final(self)@ == old(self)@.start_query(id).state,
            effects::told(effects) == old(self)@.start_query(id).effects,
    {
        let stopped = self.cancel_in_flight_query();
        self.in_flight_query = Some(id);
        also(stopped, Effect::Start(Job::LspQuery, Work::AwaitAnswer { id }))
    }

    /// The question in flight was answered.
    pub fn answered(&mut self)
        ensures
            final(self)@ == old(self)@.answered(),
    {
        self.in_flight_query = None;
    }

    /// Puts a place on the trail of jumps, where there is one.
    pub(crate) fn jumped_from(&mut self, origin: Option<(String, Point)>)
        ensures
            final(self)@ == old(self)@.jumped_from(origin.deep_view()),
    {
        match origin {
            Some(place) => {
                self.history.push(place);
                return;
            },
            None => {
                return;
            },
        }
    }

    // -----------------------------------------------------------------------
    // Definitions
    // -----------------------------------------------------------------------

    /// Goes to the definition. A Laravel name is looked up in the project, and
    /// everything else is for the server: the two never both have an answer.
    pub fn go_to_definition_at_cursor(&self, facts: &Facts) -> (effects: Vec<Effect<String>>)
        ensures
            effects::told(effects) == self@.go_to_definition_at_cursor(*facts),
    {
        if let Some(root) = self.root() {
            if let Some(path) = self.strip.active_path() {
                if laravel_dialect(facts.kinds.language(path.as_str())).is_some() && facts.laravel_reference {
                    return only(
                        Effect::Start(
                            Job::LaravelTarget,
                            Work::ResolveReference { root, path: path.clone() },
                        ),
                    );
                }
            }
        }
        match self.navigation_origin(facts) {
            Some((path, offset)) => self.ask(Question::Definition { path, offset }),
            None => nothing(),
        }
    }

    /// A Laravel name was looked up. `origin` is where the cursor was.
    pub fn laravel_resolved(
        &mut self,
        origin: Option<(String, Point)>,
        found: Option<(String, Option<usize>)>,
    ) -> (effects: Vec<Effect<String>>)
        ensures
            ({
                let target = match found {
                    Some((path, line)) => Some((path@, line)),
                    None => None,
                };
                let step = old(self)@.laravel_resolved(origin.deep_view(), target);
                &&& final(self)@ == step.state
                &&& effects::told(effects) == step.effects
            }),
    {
        match found {
            None => {
                return nothing();
            },
            Some((path, line)) => {
                self.jumped_from(origin);
                let target = match line {
                    Some(line) => {
                        let row: usize = if line > 0 {
                            line - 1
                        } else {
                            0
                        };
                        Some(Point { row, column: 0 })
                    },
                    None => None,
                };
                return self.open_path_at(path, target);
            },
        }
    }

    /// The question about a definition is on its way.
    pub fn definition_asked(&mut self, id: u64) -> (effects: Vec<Effect<String>>)
        ensures
            final(self)@ == old(self)@.definition_asked(id).state,
            effects::told(effects) == old(self)@.definition_asked(id).effects,
    {
        self.status = Some(owned("Finding definition…"));
        self.start_query(id)
    }

    /// The question about a definition was answered, or it failed. `origin` is
    /// where the cursor was.
    pub fn definition_found(
        &mut self,
        origin: Option<(String, Point)>,
        found: Result<Option<GotoDefinitionResponse>, ()>,
    ) -> (effects: Vec<Effect<String>>)
        ensures
            final(self)@ == old(self)@.definition_found(origin.deep_view(), found).state,
            effects::told(effects) == old(self)@.definition_found(
                origin.deep_view(),
                found,
            ).effects,
    {
        self.status = None;
        self.in_flight_query = None;
        let place = match &found {
            Ok(Some(response)) => first_location(response),
            Ok(None) => None,
            Err(_) => {
                return nothing();
            },
        };
        match place {
            Some((path, line, character)) => {
                self.jumped_from(origin);
                return self.open_path_at_lsp(path, line, character);
            },
            None => {
                self.status = Some(owned("No definition found"));
                return nothing();
            },
        }
    }

    /// Goes back to where the last jump started.
    pub fn navigate_back(&mut self, facts: &Facts) -> (effects: Vec<Effect<String>>)
        ensures
            final(self)@ == old(self)@.navigate_back(*facts).state,
            effects::told(effects) == old(self)@.navigate_back(*facts).effects,
    {
        let here = match self.current_location(facts) {
            Some(here) => here,
            None => {
                return nothing();
            },
        };
        let place = self.history.back(here, &facts.disk);
        match place {
            Some((path, point)) => self.open_path_at(path, Some(point)),
            None => nothing(),
        }
    }

    /// Undoes a step back.
    pub fn navigate_forward(&mut self, facts: &Facts) -> (effects: Vec<Effect<String>>)
        ensures
            final(self)@ == old(self)@.navigate_forward(*facts).state,
            effects::told(effects) == old(self)@.navigate_forward(*facts).effects,
    {
        let here = match self.current_location(facts) {
            Some(here) => here,
            None => {
                return nothing();
            },
        };
        let place = self.history.forward(here, &facts.disk);
        match place {
            Some((path, point)) => self.open_path_at(path, Some(point)),
            None => nothing(),
        }
    }

    // -----------------------------------------------------------------------
    // Usages and symbols
    // -----------------------------------------------------------------------

    /// Finds usages, into the palette.
    pub fn find_references(&mut self, facts: &Facts) -> (effects: Vec<Effect<String>>)
        ensures
            final(self)@ == old(self)@.find_references(*facts).state,
            effects::told(effects) == old(self)@.find_references(*facts).effects,
    {
        let (path, offset) = match self.navigation_origin(facts) {
            Some(origin) => origin,
            None => {
                return nothing();
            },
        };
        let shown = self.toggle_palette(PaletteMode::References, facts);
        if self.palette.is_none() {
            return shown;
        }
        both(shown, self.ask(Question::References { path, offset }))
    }

    /// Asks for the symbols of the active file.
    pub(crate) fn load_symbol_items(&self, facts: &Facts) -> (effects: Vec<Effect<String>>)
        ensures
            effects::told(effects) == self@.load_symbol_items(*facts),
    {
        match self.navigation_origin(facts) {
            Some((path, _)) => self.ask(Question::Symbols { path }),
            None => nothing(),
        }
    }

    /// Asks for the symbols of the project that match: the server does the
    /// matching.
    pub fn load_workspace_symbol_items(&self, query: String) -> (effects: Vec<Effect<String>>)
        ensures
            effects::told(effects) == self@.ask(Question::WorkspaceSymbols { query: query@ }),
    {
        self.ask(Question::WorkspaceSymbols { query })
    }

    // -----------------------------------------------------------------------
    // Formatting, fixes and renames
    // -----------------------------------------------------------------------

    /// Tells the server about the active file's text.
    pub(crate) fn resync_active(&self, facts: &Facts) -> (effects: Vec<Effect<String>>)
        ensures
            effects::told(effects) == self@.resync_active(*facts),
    {
        match self.active_file() {
            Some((editor, path)) => match facts.buffer(editor) {
                Some(buffer) => self.notify_lsp_of_change(
                    path.as_str(),
                    buffer.text.as_str(),
                    &facts.kinds,
                ),
                None => nothing(),
            },
            None => nothing(),
        }
    }

    /// Formats the document.
    pub fn format_document(&self, facts: &Facts) -> (effects: Vec<Effect<String>>)
        ensures
            effects::told(effects) == self@.format_document(*facts),
    {
        match self.navigation_origin(facts) {
            Some((path, _)) => {
                let sent = self.resync_active(facts);
                both(sent, self.ask(Question::Formatting { path }))
            },
            None => nothing(),
        }
    }

    /// The document is being formatted.
    pub fn formatting_asked(&mut self, id: u64) -> (effects: Vec<Effect<String>>)
        ensures
            final(self)@ == old(self)@.formatting_asked(id).state,
            effects::told(effects) == old(self)@.formatting_asked(id).effects,
    {
        self.status = Some(owned("Formatting…"));
        only(Effect::Start(Job::LspQuery, Work::AwaitAnswer { id }))
    }

    /// The server formatted the text it was sent, or had no answer.
    pub fn formatted(&mut self, editor: u64, sent: &str, answered: bool, facts: &Facts) -> (effects:
        Vec<Effect<String>>)
        ensures
            final(self)@ == old(self)@.formatted(editor, sent@, answered, *facts).state,
            effects::told(effects) == old(self)@.formatted(
                editor,
                sent@,
                answered,
                *facts,
            ).effects,
    {
        self.status = None;
        match facts.buffer(editor) {
            Some(buffer) => if answered && same(buffer.text.as_str(), sent) {
                only(Effect::ApplyEdits { editor })
            } else {
                nothing()
            },
            None => nothing(),
        }
    }

    /// Asks for fixes at the cursor, or for what is selected.
    pub fn quick_fix(&self, facts: &Facts) -> (effects: Vec<Effect<String>>)
        ensures
            effects::told(effects) == self@.quick_fix(*facts),
    {
        let (path, offset) = match self.navigation_origin(facts) {
            Some(origin) => origin,
            None => {
                return nothing();
            },
        };
        let mut range = (offset, offset);
        if let Some(editor) = self.strip.active_editor() {
            if let Some(buffer) = facts.buffer(editor) {
                if let Some(selected) = buffer.selection {
                    range = selected;
                }
            }
        }
        let sent = self.resync_active(facts);
        both(sent, self.ask(Question::CodeActions { path, start: range.0, end: range.1 }))
    }

    /// The fixes came in. `count` is how many of them can be applied.
    pub fn code_actions_found(&mut self, count: usize, facts: &Facts) -> (effects: Vec<
        Effect<String>,
    >)
        ensures
            final(self)@ == old(self)@.code_actions_found(count, *facts).state,
            effects::told(effects) == old(self)@.code_actions_found(count, *facts).effects,
    {
        self.in_flight_query = None;
        if count == 0 {
            self.status = Some(owned("No quick fixes here"));
            return nothing();
        }
        self.pending_code_actions = count;
        self.toggle_palette(PaletteMode::CodeActions, facts)
    }

    /// A fix was applied, or it was not.
    pub fn fix_applied(&mut self, report: &EditReport, facts: &Facts) -> (effects: Vec<
        Effect<String>,
    >)
        ensures
            final(self)@ == old(self)@.edit_applied(*report, *facts).state.says(
                fix_status_text(report.files),
            ),
            effects::told(effects) == old(self)@.edit_applied(*report, *facts).effects,
    {
        let effects = self.edit_applied(report, facts);
        let status = match &report.files {
            Ok(count) => join3(
                "Fix applied in ",
                decimal_text(*count as u64).as_str(),
                " file(s)",
            ),
            Err(error) => join2("Fix not applied: ", error.message().as_str()),
        };
        self.status = Some(status);
        effects
    }

    /// Opens the prompt for a new name, with the old one in it.
    pub fn rename_symbol(&mut self, facts: &Facts) -> (effects: Vec<Effect<String>>)
        ensures
            final(self)@ == old(self)@.rename_symbol(*facts).state,
            effects::told(effects) == old(self)@.rename_symbol(*facts).effects,
    {
        let (path, offset) = match self.navigation_origin(facts) {
            Some(origin) => origin,
            None => {
                return nothing();
            },
        };
        let offered = match &self.lsp.client {
            Some(client) => client.rename,
            None => {
                return nothing();
            },
        };
        if !offered {
            self.status = Some(owned("The language server does not offer rename"));
            return nothing();
        }
        let word = match self.strip.active_editor() {
            Some(editor) => match facts.buffer(editor) {
                Some(buffer) => match &buffer.word {
                    Some(word) => word.clone(),
                    None => {
                        return nothing();
                    },
                },
                None => {
                    return nothing();
                },
            },
            None => {
                return nothing();
            },
        };
        self.pending_rename = Some((path, offset));
        let shown = self.toggle_palette(PaletteMode::Rename, facts);
        if self.palette.is_none() {
            return shown;
        }
        also(shown, Effect::PresetQuery(word))
    }

    /// Asks the server for a rename.
    pub fn perform_rename(&self, path: String, offset: usize, name: String, facts: &Facts) -> (effects:
        Vec<Effect<String>>)
        ensures
            effects::told(effects) == self@.perform_rename(path@, offset, name@, *facts),
    {
        let sent = self.resync_active(facts);
        both(sent, self.ask(Question::Rename { path, offset, name }))
    }

    /// The rename is on its way.
    pub fn rename_asked(&mut self, id: u64) -> (effects: Vec<Effect<String>>)
        ensures
            final(self)@ == old(self)@.rename_asked(id).state,
            effects::told(effects) == old(self)@.rename_asked(id).effects,
    {
        self.status = Some(owned("Renaming…"));
        self.start_query(id)
    }

    /// The server offered no rename.
    pub fn rename_not_offered(&mut self)
        ensures
            final(self)@ == old(self)@.answered().says(edits::rename_status_text(None)),
    {
        self.in_flight_query = None;
        self.status = Some(rename_status(&None));
    }

    /// A rename was carried out, or it was not.
    pub fn renamed(&mut self, report: EditReport, facts: &Facts) -> (effects: Vec<Effect<String>>)
        ensures
            final(self)@ == old(self)@.answered().edit_applied(report, *facts).state.says(
                edits::rename_status_text(Some(report.files)),
            ),
            effects::told(effects) == old(self)@.answered().edit_applied(report, *facts).effects,
    {
        self.in_flight_query = None;
        let effects = self.edit_applied(&report, facts);
        let EditReport { files, .. } = report;
        self.status = Some(rename_status(&Some(files)));
        effects
    }

    /// Plans an edit over several files on the tabs that are open: all of them
    /// or none.
    pub fn apply_workspace_edit(&self, changes: Option<&Vec<FileChange>>, disk: &Disk) -> (plan:
        Result<Vec<Planned>, EditError>)
        ensures
            edits::plans(changes, self.strip.tabs@, *disk, plan),
    {
        plan_workspace_edit(changes, &self.strip.tabs, disk)
    }

    /// One step of an edit over several files was carried out, and its text
    /// is `text` now. The server hears of a buffer at once, before a later
    /// write can fail.
    pub fn edit_step_done(&self, step: &Planned, text: &str, kinds: &FileKinds) -> (effects: Vec<
        Effect<String>,
    >)
        ensures
            effects::told(effects) == self@.edit_step_done(*step, text@, *kinds),
    {
        match step {
            Planned::Buffer { path, .. } => self.notify_lsp_of_change(path.as_str(), text, kinds),
            Planned::Disk { .. } => nothing(),
        }
    }

    /// What an edit over several files brings with it: git is read again where
    /// one was written, and the buffers that were edited save themselves.
    pub fn edit_applied(&mut self, report: &EditReport, facts: &Facts) -> (effects: Vec<
        Effect<String>,
    >)
        ensures
            final(self)@ == old(self)@.edit_applied(*report, *facts).state,
            effects::told(effects) == old(self)@.edit_applied(*report, *facts).effects,
    {
        if report.refresh_git {
            let read = self.refresh_git_status();
            if report.autosave {
                return both(read, self.autosave_dirty_tabs(facts));
            }
            return read;
        }
        if report.autosave {
            return both(nothing(), self.autosave_dirty_tabs(facts));
        }
        nothing()
    }

    // -----------------------------------------------------------------------
    // The server's life
    // -----------------------------------------------------------------------

    /// The server that was started is there, or it is not. Having none is the
    /// ordinary case, and nothing is said about it.
    pub fn server_started(&mut self, client: Option<Client>) -> (effects: Vec<Effect<String>>)
        ensures
            ({
                let started = match client {
                    Some(client) => Some(client@),
                    None => None,
                };
                &&& final(self)@ == old(self)@.server_started(started).state
                &&& effects::told(effects) == old(self)@.server_started(started).effects
            }),
    {
        match client {
            Some(client) => {
                self.lsp.client = Some(client);
                self.lsp.state = LspState::Running;
                return only(Effect::SyncOpenDocuments);
            },
            None => {
                self.lsp.state = LspState::Unavailable;
                return nothing();
            },
        }
    }

    /// Tells the server about every open file that it handles.
    pub fn sync_open_documents(&self, facts: &Facts) -> (effects: Vec<Effect<String>>)
        ensures
            effects::told(effects) == self@.sync_open_documents(*facts),
    {
        if self.lsp.client.is_none() {
            return nothing();
        }
        let mut effects = nothing();
        let mut i: usize = 0;
        while i < self.strip.tabs.len()
            invariant
                i <= self.strip.tabs.len(),
                effects::told(effects) == self@.open_documents(*facts, i as int),
            decreases self.strip.tabs.len() - i,
        {
            let tab = &self.strip.tabs[i];
            assert(self@.strip.tabs[i as int] == tab.deep_view());
            if let Some(path) = &tab.path {
                if let Some(buffer) = facts.buffer(tab.editor) {
                    if facts.kinds.handles(path.as_str()) {
                        effects = also(
                            effects,
                            Effect::ServerOpen { path: path.clone(), text: buffer.text.clone() },
                        );
                    }
                }
            }
            i += 1;
        }
        effects
    }

    /// The documents that the server's copy has fallen behind. One at the
    /// version that was last sent costs nothing.
    pub fn sync_changed_documents(&self, facts: &Facts) -> (behind: Vec<Behind>)
        ensures
            behind.deep_view() == (if self@.lsp.client is Some {
                self@.documents_behind(*facts, self@.strip.tabs.len() as int)
            } else {
                Seq::<BehindView>::empty()
            }),
    {
        let mut behind: Vec<Behind> = Vec::new();
        assert(behind.deep_view() =~= Seq::<BehindView>::empty());
        if self.lsp.client.is_none() {
            return behind;
        }
        let mut i: usize = 0;
        while i < self.strip.tabs.len()
            invariant
                i <= self.strip.tabs.len(),
                behind.deep_view() == self@.documents_behind(*facts, i as int),
            decreases self.strip.tabs.len() - i,
        {
            let tab = &self.strip.tabs[i];
            assert(self@.strip.tabs[i as int] == tab.deep_view());
            let ghost before = behind.deep_view();
            if let Some(path) = &tab.path {
                if let Some(buffer) = facts.buffer(tab.editor) {
                    let current = match self.lsp.synced_version(path.as_str()) {
                        Some(version) => version == buffer.version,
                        None => false,
                    };
                    if facts.kinds.handles(path.as_str()) && !current {
                        let document = Behind {
                            path: path.clone(),
                            text: buffer.text.clone(),
                            version: buffer.version,
                        };
                        behind.push(document);
                        assert(behind.deep_view() =~= before.push(document.deep_view()));
                    }
                }
            }
            i += 1;
        }
        behind
    }

    /// A document was sent to the server.
    pub fn document_synced(&mut self, path: &str, version: u64)
        ensures
            final(self)@ == (WorkspaceModel {
                lsp: lsp::LspView {
                    synced: lsp::recorded(old(self)@.lsp.synced, path@, version),
                    ..old(self)@.lsp
                },
                ..old(self)@
            }),
    {
        self.lsp.record_synced(path, version);
    }

    /// Hands each editor what is reported about its own file. An editor whose
    /// file is not reported on is handed nothing, which clears it.
    pub fn push_diagnostics_to_editors(&self, reports: &Vec<FileReport>) -> (pushed: Vec<
        (u64, Vec<Diagnostic>),
    >)
        ensures
            pushed.deep_view() == Seq::new(
                self@.strip.tabs.len(),
                |i: int| self@.diagnostics_at(i, reports.deep_view()),
            ),
    {
        let mut pushed: Vec<(u64, Vec<Diagnostic>)> = Vec::new();
        let ghost whole = Seq::new(
            self@.strip.tabs.len(),
            |i: int| self@.diagnostics_at(i, reports.deep_view()),
        );
        let mut i: usize = 0;
        assert(pushed.deep_view() =~= whole.take(0));
        while i < self.strip.tabs.len()
            invariant
                i <= self.strip.tabs.len(),
                whole == Seq::new(
                    self@.strip.tabs.len(),
                    |i: int| self@.diagnostics_at(i, reports.deep_view()),
                ),
                pushed.deep_view() == whole.take(i as int),
            decreases self.strip.tabs.len() - i,
        {
            let ghost before = pushed.deep_view();
            let tab = &self.strip.tabs[i];
            assert(self@.strip.tabs[i as int] == tab.deep_view());
            let items = match &tab.path {
                Some(path) => reports_on(reports, path.as_str()),
                None => {
                    let none: Vec<Diagnostic> = Vec::new();
                    assert(none.deep_view() =~= Seq::<DiagnosticView>::empty());
                    none
                },
            };
            let entry = (tab.editor, items);
            pushed.push(entry);
            assert(pushed.deep_view() =~= before.push(entry.deep_view()));
            assert(pushed.deep_view() =~= whole.take(i + 1));
            i += 1;
        }
        assert(whole.take(i as int) =~= whole);
        pushed
    }

    /// The text that the server's reports on a file are read against. A report
    /// on a file that is not open counts too, against no text.
    pub fn diagnostic_text(&self, path: &str, facts: &Facts) -> (text: String)
        ensures
            text@ == self@.diagnostic_text(path@, *facts),
    {
        match self.strip.position_of_path(path) {
            Some(index) => {
                assert(self@.strip.tabs[index as int]
                    == self.strip.tabs[index as int].deep_view());
                match facts.buffer(self.strip.tabs[index].editor) {
                    Some(buffer) => buffer.text.clone(),
                    None => String::new(),
                }
            },
            None => String::new(),
        }
    }

    /// The server's messages were taken in. Says whether to go on listening.
    pub fn apply_lsp_events(
        &mut self,
        counts: Option<(usize, usize)>,
        running: bool,
        reason: Option<String>,
        may_restart: bool,
        configured: bool,
    ) -> (listening: (bool, Vec<Effect<String>>))
        ensures
            listening.0 == running,
            ({
                let read = old(self)@.apply_lsp_events(counts);
                let step = if running {
                    read
                } else {
                    read.followed_by(
                        read.state.handle_lsp_death(
                            reason.deep_view(),
                            may_restart,
                            configured,
                        ),
                    )
                };
                &&& final(self)@ == step.state
                &&& effects::told(listening.1) == step.effects
            }),
    {
        let read = match counts {
            Some((errors, warnings)) => {
                self.lsp.errors = errors;
                self.lsp.warnings = warnings;
                only(Effect::PushDiagnostics)
            },
            None => nothing(),
        };
        if running {
            return (true, read);
        }
        let stopped = self.handle_lsp_death(reason, may_restart, configured);
        (false, both(read, stopped))
    }

    /// The server stopped: it is started again while that was not done too
    /// often, or given up on.
    pub fn handle_lsp_death(&mut self, reason: Option<String>, may_restart: bool, configured: bool) -> (effects:
        Vec<Effect<String>>)
        ensures
            final(self)@ == old(self)@.handle_lsp_death(
                reason.deep_view(),
                may_restart,
                configured,
            ).state,
            effects::told(effects) == old(self)@.handle_lsp_death(
                reason.deep_view(),
                may_restart,
                configured,
            ).effects,
    {
        self.lsp.client = None;
        self.lsp.errors = 0;
        self.lsp.warnings = 0;
        let told = also(only(Effect::ShutDownServer), Effect::PushDiagnostics);
        if may_restart {
            self.lsp.record_restart();
            return both(told, self.start_lsp(configured));
        }
        let why = match reason {
            Some(reason) => reason,
            None => owned("the language server exited"),
        };
        self.lsp.state = LspState::Failed(why);
        told
    }

    /// Shows the active buffer in a language.
    pub fn set_active_language(&self, language: String) -> (effects: Vec<Effect<String>>)
        ensures
            effects::told(effects) == self@.set_active_language(language@),
    {
        match self.strip.active_editor() {
            Some(editor) => only(Effect::SetLanguage { editor, language }),
            None => nothing(),
        }
    }

    /// The buffer could not be shown in a language.
    pub fn language_refused(&mut self, error: String)
        ensures
            final(self)@ == old(self)@.says(error@),
    {
        self.status = Some(error);
    }
}

// ---------------------------------------------------------------------------
// Laws
// ---------------------------------------------------------------------------

/// A new question abandons the old one: there is one in flight, and the server
/// is told to stop working on the one before it.
pub proof fn law_one_question_in_flight(model: WorkspaceModel, id: u64)
    ensures
        model.start_query(id).state.in_flight_query == Some(id),
        model.in_flight_query is Some && model.lsp.client is Some ==> model.start_query(id).effects
            == seq![
            Effect::<Seq<char>>::CancelRequest(model.in_flight_query->0),
            Effect::<Seq<char>>::Start(Job::LspQuery, Work::AwaitAnswer { id }),
        ],
{
    assert(model.start_query(id).effects =~= model.withdraw(model.in_flight_query).push(
        Effect::<Seq<char>>::Start(Job::LspQuery, Work::AwaitAnswer { id }),
    ));
}

/// Without a server nothing is asked of one.
pub proof fn law_no_server_no_question(model: WorkspaceModel, facts: Facts)
    requires
        model.lsp.client is None,
    ensures
        model.format_document(facts) == Seq::<effects::EffectView>::empty(),
        model.quick_fix(facts) == Seq::<effects::EffectView>::empty(),
        model.load_symbol_items(facts) == Seq::<effects::EffectView>::empty(),
        model.rename_symbol(facts) == model.stays(),
        model.laravel_origin(facts) is None ==> model.go_to_definition_at_cursor(facts)
            == Seq::<effects::EffectView>::empty(),
{
    assert(model.format_document(facts) =~= Seq::<effects::EffectView>::empty());
    assert(model.quick_fix(facts) =~= Seq::<effects::EffectView>::empty());
}

/// A template is looked up by Laravel alone: the server was never told about
/// it, and is never asked about it.
pub proof fn law_templates_are_not_asked_about(model: WorkspaceModel, facts: Facts)
    requires
        facts.kinds.templates_unserved(),
        model.strip.active_path() is Some,
        completion::dialect_of(facts.kinds.language_of(model.strip.active_path()->0)) == Some(true),
    ensures
        model.navigation_origin(facts) is None,
{
    completion::law_templates_are_read_by_laravel_alone(facts.kinds, model.strip.active_path()->0);
}

/// Going forward again after a step back leads to where it was taken from, as
/// long as that file is still there.
pub proof fn law_forward_after_back(model: WorkspaceModel, facts: Facts)
    requires
        model.current_location(facts) is Some,
        model.history.back_to(facts.disk) is Some,
        model.current_location(facts) matches Some((path, _)) && facts.disk.holds(path),
    ensures
        model.navigate_back(facts).state.history.reversed().back_to(facts.disk)
            == model.current_location(facts),
{
    history::law_forward_undoes_back(model.history, model.current_location(facts)->0, facts.disk);
}

/// The server's copy keeps in step with an edit over several files: of every
/// buffer that was edited and that the server reads, it hears the new text,
/// however far the edit got.
pub proof fn law_edited_buffers_reach_the_server(
    model: WorkspaceModel,
    plan: Seq<Planned>,
    texts: Seq<Seq<char>>,
    kinds: FileKinds,
    count: int,
    i: int,
)
    requires
        model.lsp.client is Some,
        0 <= i < count <= plan.len(),
        plan[i] matches Planned::Buffer { path, .. } && kinds.serves(path@),
    ensures
        plan[i] matches Planned::Buffer { path, .. } && model.edit_steps_done(
            plan,
            texts,
            kinds,
            count,
        ).contains(Effect::ServerChange { path: path@, text: texts[i] }),
    decreases count,
{
    let before = model.edit_steps_done(plan, texts, kinds, count - 1);
    let last = model.edit_step_done(plan[count - 1], texts[count - 1], kinds);
    let all = model.edit_steps_done(plan, texts, kinds, count);
    assert(all == before + last);
    let told = Effect::ServerChange { path: plan[i]->Buffer_path@, text: texts[i] };
    if i < count - 1 {
        law_edited_buffers_reach_the_server(model, plan, texts, kinds, count - 1, i);
        let at = choose|at: int| 0 <= at < before.len() && before[at] == told;
        assert(all[at] == told);
    } else {
        assert(last[0] == told);
        assert(all[before.len() as int] == told);
    }
}

/// A server that keeps stopping is not started again for ever: every restart
/// is put on record, and where none is allowed past a limit the record stays
/// within it.
pub proof fn law_restarts_stay_bounded(
    model: WorkspaceModel,
    reason: Option<Seq<char>>,
    may_restart: bool,
    configured: bool,
    limit: u64,
)
    requires
        model.lsp.restarts <= limit,
        may_restart ==> model.lsp.restarts < limit,
    ensures
        ({
            let after = model.handle_lsp_death(reason, may_restart, configured).state.lsp;
            &&& after.restarts == model.lsp.restarts + (if may_restart {
                1int
            } else {
                0
            })
            &&& after.restarts <= limit
            &&& !may_restart ==> after.state is Failed
            &&& after.client is None
        }),
{
}

/// A document that was just sent is not sent again until it changes.
pub proof fn law_unchanged_document_is_not_sent_again(
    model: WorkspaceModel,
    facts: Facts,
    path: Seq<char>,
    version: u64,
    count: int,
)
    requires
        lsp::version_sent(model.lsp.synced, path) == Some(version),
    ensures
        forall|i: int|
            0 <= i < model.documents_behind(facts, count).len() ==> {
                let document = #[trigger] model.documents_behind(facts, count)[i];
                document.path != path || document.version != version
            },
    decreases count,
{
    if count > 0 {
        law_unchanged_document_is_not_sent_again(model, facts, path, version, count - 1);
        let all = model.documents_behind(facts, count);
        let before = model.documents_behind(facts, count - 1);
        assert forall|i: int| 0 <= i < all.len() implies {
            let document = #[trigger] all[i];
            document.path != path || document.version != version
        } by {
            if i < before.len() {
                assert(all[i] == before[i]);
            }
        }
    }
}

/// The state holds together through every jump.
pub proof fn law_jumps_keep_the_state(
    model: WorkspaceModel,
    facts: Facts,
    origin: Option<(Seq<char>, Point)>,
    found: Result<Option<GotoDefinitionResponse>, ()>,
)
    requires
        model.well_formed(),
    ensures
        model.jumped_from(origin).well_formed(),
        model.definition_found(origin, found).state.history.bounded(),
        model.navigate_back(facts).state.history.bounded(),
        model.navigate_forward(facts).state.history.bounded(),
{
    if origin is Some {
        history::law_trail_stays_bounded(model.history, origin->0, facts.disk);
    }
    if model.current_location(facts) is Some {
        history::law_trail_stays_bounded(
            model.history,
            model.current_location(facts)->0,
            facts.disk,
        );
    }
}

/// A question is about the file in front of the user and the byte at its cursor,
/// exactly where the server reads that file.
pub proof fn law_questions_are_about_the_cursor(model: WorkspaceModel, facts: Facts)
    requires
        0 <= model.strip.active < model.strip.tabs.len(),
    ensures
        ({
            let tab = model.strip.tabs[model.strip.active];
            let known = tab.path is Some && facts.buffer_of(tab.editor) is Some;
            &&& known && facts.kinds.serves(tab.path->0) ==> model.navigation_origin(facts) == Some(
                (tab.path->0, facts.buffer_of(tab.editor)->0.head),
            )
            &&& !known || !facts.kinds.serves(tab.path->0) ==> model.navigation_origin(
                facts,
            ) is None
            &&& known ==> model.current_location(facts) == Some(
                (tab.path->0, facts.buffer_of(tab.editor)->0.point),
            )
            &&& !known ==> model.current_location(facts) is None
            &&& known ==> model.active_text(facts) == Some(
                (tab.path->0, facts.buffer_of(tab.editor)->0.text@),
            )
            &&& facts.buffer_of(tab.editor) is Some ==> model.active_word(facts)
                == facts.buffer_of(tab.editor)->0.word.deep_view()
        }),
{
}

/// The server is asked exactly what is to be asked, and nothing where there is
/// none.
pub proof fn law_questions_go_to_the_server(model: WorkspaceModel, question: Question<Seq<char>>)
    ensures
        model.lsp.client is Some ==> model.ask(question) == seq![
            Effect::<Seq<char>>::Ask(question),
        ],
        model.lsp.client is None ==> model.ask(question).len() == 0,
{
}

/// An opening with a place: the cursor is put there in the tab that shows the
/// file, or the file is read with that place in mind.
pub open spec fn lands_on(
    step: workspace_view::Step,
    tabs: Seq<tabs::TabView>,
    path: Seq<char>,
    target: effects::Target,
) -> bool {
    ||| exists|i: int|
        0 <= i < tabs.len() && (#[trigger] tabs[i]).path is Some && paths::components(
            tabs[i].path->0,
        ) == paths::components(path) && step.effects.contains(
            Effect::Reveal { editor: tabs[i].editor, target },
        ) && step.effects.last() == Effect::<Seq<char>>::Focus(
            effects::Focus::Editor(tabs[i].editor),
        ) && step.state.strip.active == i
    ||| (forall|i: int|
        0 <= i < tabs.len() ==> (#[trigger] tabs[i]).path is None || paths::components(
            tabs[i].path->0,
        ) != paths::components(path)) && step.effects == seq![
        Effect::<Seq<char>>::Start(Job::OpenFile, Work::ReadFile { path, target: Some(target) }),
    ]
}

/// Opening a file at a place lands on that place.
proof fn lemma_open_lands(model: WorkspaceModel, path: Seq<char>, target: effects::Target)
    ensures
        lands_on(model.open_path_target(path, Some(target)), model.strip.tabs, path, target),
{
    tabs::law_first_tab_of_a_path(model.strip.tabs, path, 0);
    let step = model.open_path_target(path, Some(target));
    match tabs::tab_at_path(model.strip.tabs, path, 0) {
        Some(found) => {
            let editor = model.strip.tabs[found].editor;
            assert(step.effects[2] == Effect::<Seq<char>>::Reveal { editor, target });
            assert(step.effects[3] == Effect::<Seq<char>>::Focus(effects::Focus::Editor(editor)));
        },
        None => {},
    }
}

/// Back returns to where the last jump started that is still there: to that
/// file and to that line and column in it. Nothing happens where the cursor is
/// nowhere or no such place is left.
pub proof fn law_back_puts_the_cursor_back(model: WorkspaceModel, facts: Facts, at: int)
    ensures
        model.current_location(facts) is None ==> model.navigate_back(facts) == model.stays(),
        model.current_location(facts) is Some && 0 <= at < model.history.back.len()
            && facts.disk.holds(model.history.back[at].0) && (forall|k: int|
            at < k < model.history.back.len() ==> !facts.disk.holds(
                (#[trigger] model.history.back[k]).0,
            )) ==> {
            let step = model.navigate_back(facts);
            let (path, point) = model.history.back[at];
            &&& lands_on(step, model.strip.tabs, path, effects::Target::Point(point))
            &&& step.state.history.back == model.history.back.take(at)
            &&& step.state.history.forward == model.history.forward.push(
                model.current_location(facts)->0,
            )
        },
        model.current_location(facts) is Some && (forall|k: int|
            0 <= k < model.history.back.len() ==> !facts.disk.holds(
                (#[trigger] model.history.back[k]).0,
            )) ==> model.navigate_back(facts).effects.len() == 0,
{
    if let Some(here) = model.current_location(facts) {
        history::law_back_leads_to_the_newest_place(model.history, here, facts.disk);
        let gone = WorkspaceModel {
            history: model.history.gone_back(here, facts.disk),
            ..model
        };
        if let Some((path, point)) = model.history.back_to(facts.disk) {
            lemma_open_lands(gone, path, effects::Target::Point(point));
        }
    }
}

/// Forward undoes a Back: it leads to the newest place that a Back was taken
/// from and that is still there, at its line and column.
pub proof fn law_forward_puts_the_cursor_back(model: WorkspaceModel, facts: Facts, at: int)
    ensures
        model.current_location(facts) is None ==> model.navigate_forward(facts) == model.stays(),
        model.current_location(facts) is Some && 0 <= at < model.history.forward.len()
            && facts.disk.holds(model.history.forward[at].0) && (forall|k: int|
            at < k < model.history.forward.len() ==> !facts.disk.holds(
                (#[trigger] model.history.forward[k]).0,
            )) ==> {
            let step = model.navigate_forward(facts);
            let (path, point) = model.history.forward[at];
            &&& lands_on(step, model.strip.tabs, path, effects::Target::Point(point))
            &&& step.state.history.forward == model.history.forward.take(at)
            &&& step.state.history.back == model.history.back.push(
                model.current_location(facts)->0,
            )
        },
        model.current_location(facts) is Some && (forall|k: int|
            0 <= k < model.history.forward.len() ==> !facts.disk.holds(
                (#[trigger] model.history.forward[k]).0,
            )) ==> model.navigate_forward(facts).effects.len() == 0,
{
    if let Some(here) = model.current_location(facts) {
        let turned = model.history.reversed();
        history::law_back_leads_to_the_newest_place(turned, here, facts.disk);
        let gone = WorkspaceModel {
            history: turned.gone_back(here, facts.disk).reversed(),
            ..model
        };
        if let Some((path, point)) = turned.back_to(facts.disk) {
            lemma_open_lands(gone, path, effects::Target::Point(point));
        }
    }
}

/// A definition that was found is jumped to, at the position the server gave,
/// and where the cursor was is remembered for Back; an empty answer says that
/// there is none, and a failed one says nothing. The question is answered in
/// each case.
pub proof fn law_definition_is_jumped_to(
    model: WorkspaceModel,
    origin: (Seq<char>, Point),
    response: GotoDefinitionResponse,
)
    ensures
        model.definition_found(Some(origin), Err(())).effects.len() == 0,
        model.definition_found(Some(origin), Err(())).state.status is None,
        model.definition_found(Some(origin), Err(())).state.history == model.history,
        model.definition_found(Some(origin), Ok(None)).effects.len() == 0,
        model.definition_found(Some(origin), Ok(None)).state.status == Some(
            "No definition found"@,
        ),
        model.definition_found(Some(origin), Ok(Some(response))).state.in_flight_query is None,
        lsp::first_place(response) is None ==> model.definition_found(
            Some(origin),
            Ok(Some(response)),
        ).state.status == Some("No definition found"@) && model.definition_found(
            Some(origin),
            Ok(Some(response)),
        ).effects.len() == 0,
        lsp::first_place(response) is Some ==> {
            let step = model.definition_found(Some(origin), Ok(Some(response)));
            let (path, line, character) = lsp::first_place(response)->0;
            &&& lands_on(step, model.strip.tabs, path, effects::Target::Lsp { line, character })
            &&& step.state.history.back.last() == origin
            &&& step.state.history.back.len() > 0
            &&& step.state.history.forward.len() == 0
            &&& step.state.status is None
        },
{
    if let Some((path, line, character)) = lsp::first_place(response) {
        let quiet = WorkspaceModel { status: None, in_flight_query: None, ..model };
        history::law_jump_is_remembered(model.history, origin);
        lemma_open_lands(
            quiet.jumped_from(Some(origin)),
            path,
            effects::Target::Lsp { line, character },
        );
    }
}

/// A Laravel name that was found is jumped to, at the first column of its line,
/// and where the cursor was is remembered; one that leads nowhere does nothing.
pub proof fn law_laravel_name_is_jumped_to(
    model: WorkspaceModel,
    origin: (Seq<char>, Point),
    path: Seq<char>,
    line: usize,
)
    ensures
        model.laravel_resolved(Some(origin), None) == model.stays(),
        ({
            let step = model.laravel_resolved(Some(origin), Some((path, Some(line))));
            let row = (if line > 0 {
                line - 1
            } else {
                0
            }) as usize;
            &&& lands_on(
                step,
                model.strip.tabs,
                path,
                effects::Target::Point(Point { row, column: 0 }),
            )
            &&& step.state.history.back.len() > 0
            &&& step.state.history.back.last() == origin
        }),
        model.laravel_resolved(None, Some((path, None))) == model.open_path_target(path, None),
{
    history::law_jump_is_remembered(model.history, origin);
    let row = (if line > 0 {
        line - 1
    } else {
        0
    }) as usize;
    lemma_open_lands(
        model.jumped_from(Some(origin)),
        path,
        effects::Target::Point(Point { row, column: 0 }),
    );
}

/// Going to a definition looks a Laravel name up in the project where the cursor
/// is on one in a file that Laravel reads, and asks the server about the cursor
/// otherwise: one of the two, never both.
pub proof fn law_definition_is_asked_once(model: WorkspaceModel, facts: Facts)
    requires
        0 <= model.strip.active < model.strip.tabs.len(),
        model.strip.tabs[model.strip.active].path is Some,
    ensures
        ({
            let path = model.strip.tabs[model.strip.active].path->0;
            let laravel = model.tree is Some && !(facts.kinds.language_of(path) is Other)
                && facts.laravel_reference;
            &&& model.go_to_definition_at_cursor(facts).len() <= 1
            &&& laravel ==> model.go_to_definition_at_cursor(facts) == seq![
                Effect::<Seq<char>>::Start(
                    Job::LaravelTarget,
                    Work::ResolveReference { root: model.tree->0.root, path },
                ),
            ]
            &&& !laravel && model.navigation_origin(facts) is Some && model.lsp.client is Some
                ==> model.go_to_definition_at_cursor(facts) == seq![
                Effect::<Seq<char>>::Ask(
                    Question::Definition { path, offset: (model.navigation_origin(facts)->0).1 },
                ),
            ]
            &&& !laravel && model.navigation_origin(facts) is None
                ==> model.go_to_definition_at_cursor(facts).len() == 0
        }),
{
}

/// What is asked about the file in front of the user is asked about that file,
/// at the cursor or over the selection, and what the server computes on its own
/// copy is asked only after it was sent this one.
pub proof fn law_server_is_asked_about_this_text(model: WorkspaceModel, facts: Facts, name: Seq<char>)
    requires
        model.lsp.client is Some,
        0 <= model.strip.active < model.strip.tabs.len(),
        model.strip.tabs[model.strip.active].path is Some,
        facts.kinds.serves(model.strip.tabs[model.strip.active].path->0),
        facts.buffer_of(model.strip.tabs[model.strip.active].editor) is Some,
    ensures
        ({
            let path = model.strip.tabs[model.strip.active].path->0;
            let buffer = facts.buffer_of(model.strip.tabs[model.strip.active].editor)->0;
            let sent = Effect::<Seq<char>>::ServerChange { path, text: buffer.text@ };
            let (start, end) = match buffer.selection {
                Some(range) => range,
                None => (buffer.head, buffer.head),
            };
            &&& model.resync_active(facts) == seq![sent]
            &&& model.format_document(facts) == seq![
                sent,
                Effect::<Seq<char>>::Ask(Question::Formatting { path }),
            ]
            &&& model.quick_fix(facts) == seq![
                sent,
                Effect::<Seq<char>>::Ask(Question::CodeActions { path, start, end }),
            ]
            &&& model.perform_rename(path, buffer.head, name, facts) == seq![
                sent,
                Effect::<Seq<char>>::Ask(Question::Rename { path, offset: buffer.head, name }),
            ]
            &&& model.load_symbol_items(facts) == seq![
                Effect::<Seq<char>>::Ask(Question::Symbols { path }),
            ]
        }),
{
}

/// A formatted document is applied to the editor it was asked for, and only
/// where its text is still the one that was sent.
pub proof fn law_stale_formatting_is_dropped(
    model: WorkspaceModel,
    editor: u64,
    sent: Seq<char>,
    facts: Facts,
)
    ensures
        model.formatted(editor, sent, false, facts).effects.len() == 0,
        facts.buffer_of(editor) is None ==> model.formatted(editor, sent, true, facts).effects.len()
            == 0,
        facts.buffer_of(editor) is Some && facts.buffer_of(editor)->0.text@ == sent
            ==> model.formatted(editor, sent, true, facts).effects == seq![
            Effect::<Seq<char>>::ApplyEdits { editor },
        ],
        facts.buffer_of(editor) is Some && facts.buffer_of(editor)->0.text@ != sent
            ==> model.formatted(editor, sent, true, facts).effects.len() == 0,
        model.formatted(editor, sent, true, facts).state == (WorkspaceModel {
            status: None,
            ..model
        }),
{
}

/// What is under way is said to be, and what is asked is waited for under its
/// own number.
pub proof fn law_waiting_is_said(model: WorkspaceModel, id: u64)
    ensures
        model.definition_asked(id).state.status == Some("Finding definition…"@),
        model.definition_asked(id).state.in_flight_query == Some(id),
        model.rename_asked(id).state.status == Some("Renaming…"@),
        model.rename_asked(id).state.in_flight_query == Some(id),
        model.formatting_asked(id).state.status == Some("Formatting…"@),
        model.formatting_asked(id).effects == seq![
            Effect::<Seq<char>>::Start(Job::LspQuery, Work::AwaitAnswer { id }),
        ],
        model.start_query(id).effects.last() == Effect::<Seq<char>>::Start(
            Job::LspQuery,
            Work::AwaitAnswer { id },
        ),
        model.answered() == (WorkspaceModel { in_flight_query: None, ..model }),
        model.in_flight_query is None ==> model.start_query(id).effects.len() == 1,
{
}

/// No fixes are said to be none; some are counted and listed. A server that does
/// not rename says so, and one that does is asked about the word at the cursor,
/// which stands in the prompt.
pub proof fn law_fixes_and_renames_are_offered(model: WorkspaceModel, facts: Facts, count: usize)
    ensures
        count == 0 ==> model.code_actions_found(count, facts).effects.len() == 0
            && model.code_actions_found(count, facts).state.status == Some("No quick fixes here"@),
        count > 0 && model.palette != Some(PaletteMode::CodeActions) ==> model.code_actions_found(
            count,
            facts,
        ).state.pending_code_actions == count && model.code_actions_found(count, facts).state.palette
            == Some(PaletteMode::CodeActions),
        model.navigation_origin(facts) is Some && model.lsp.client is Some
            && !model.lsp.client->0.rename ==> model.rename_symbol(facts).effects.len() == 0
            && model.rename_symbol(facts).state.status == Some(
            "The language server does not offer rename"@,
        ),
        model.navigation_origin(facts) is Some && model.lsp.client is Some
            && model.lsp.client->0.rename && model.active_word(facts) is Some && model.palette
            != Some(PaletteMode::Rename) ==> {
            let step = model.rename_symbol(facts);
            &&& step.state.pending_rename == model.navigation_origin(facts)
            &&& step.state.palette == Some(PaletteMode::Rename)
            &&& step.effects.last() == Effect::<Seq<char>>::PresetQuery(model.active_word(facts)->0)
        },
{
}

/// Finding usages opens their list and asks the server about the cursor.
pub proof fn law_usages_are_asked_for(model: WorkspaceModel, facts: Facts)
    requires
        model.lsp.client is Some,
        model.palette != Some(PaletteMode::References),
    ensures
        model.navigation_origin(facts) is None ==> model.find_references(facts) == model.stays(),
        model.navigation_origin(facts) is Some ==> {
            let (path, offset) = model.navigation_origin(facts)->0;
            &&& model.find_references(facts).state.palette == Some(PaletteMode::References)
            &&& model.find_references(facts).effects.last() == Effect::<Seq<char>>::Ask(
                Question::References { path, offset },
            )
        },
{
}

/// After an edit over several files git's status is read again where one was
/// written, and the edited buffers are saved where autosave is on.
pub proof fn law_edit_is_followed_up(model: WorkspaceModel, report: EditReport, facts: Facts)
    ensures
        !report.refresh_git && !report.autosave ==> model.edit_applied(report, facts)
            == model.stays(),
        report.refresh_git && model.tree is Some ==> model.edit_applied(
            report,
            facts,
        ).effects.contains(
            Effect::Start(Job::GitStatus, Work::ReadGitStatus { root: model.tree->0.root }),
        ),
        report.autosave && !report.refresh_git ==> model.edit_applied(report, facts).effects
            == model.autosave_dirty_tabs(facts).effects,
        report.autosave && report.refresh_git ==> model.edit_applied(report, facts).effects
            == model.refresh_git_status().effects + model.autosave_dirty_tabs(facts).effects,
{
    let read = model.refresh_git_status();
    if report.refresh_git && model.tree is Some {
        let at = read.effects.len() - 1;
        assert(model.edit_applied(report, facts).effects[at] == read.effects[at]);
    }
    lemma_saves_of_the_tabs(model, read.state, facts, model.strip.tabs.len() as int);
    if report.autosave && !report.refresh_git {
        assert(model.edit_applied(report, facts).effects =~= model.autosave_dirty_tabs(
            facts,
        ).effects);
    }
}

/// What autosave writes depends on the tabs alone.
proof fn lemma_saves_of_the_tabs(
    model: WorkspaceModel,
    other: WorkspaceModel,
    facts: Facts,
    count: int,
)
    requires
        model.strip == other.strip,
    ensures
        model.dirty_saves(facts, count) == other.dirty_saves(facts, count),
    decreases count,
{
    if count > 0 {
        lemma_saves_of_the_tabs(model, other, facts, count - 1);
    }
}

/// A server that came up runs and is told of every open file that it reads, each
/// with its own text and in the order of the tabs; one that did not is said not
/// to be there.
pub proof fn law_server_hears_of_every_open_file(
    model: WorkspaceModel,
    client: lsp::ClientView,
    facts: Facts,
)
    ensures
        model.server_started(Some(client)).state.lsp.client == Some(client),
        model.server_started(Some(client)).state.lsp.state is Running,
        model.server_started(Some(client)).effects == seq![
            Effect::<Seq<char>>::SyncOpenDocuments,
        ],
        model.server_started(None).state.lsp.state is Unavailable,
        model.server_started(None).effects.len() == 0,
        model.lsp.client is None ==> model.sync_open_documents(facts).len() == 0,
        model.lsp.client is Some ==> model.sync_open_documents(facts)
            == model.strip.tabs.filter_map(|tab: tabs::TabView| told_when_open(tab, facts)),
{
    lemma_open_documents_of(model, facts, model.strip.tabs.len() as int);
    assert(model.strip.tabs.take(model.strip.tabs.len() as int) =~= model.strip.tabs);
}

/// What the server is told of one tab.
pub open spec fn told_when_open(tab: tabs::TabView, facts: Facts) -> Option<effects::EffectView> {
    if tab.path is Some && facts.buffer_of(tab.editor) is Some && facts.kinds.serves(tab.path->0) {
        Some(
            Effect::ServerOpen {
                path: tab.path->0,
                text: facts.buffer_of(tab.editor)->0.text@,
            },
        )
    } else {
        None
    }
}

proof fn lemma_open_documents_of(model: WorkspaceModel, facts: Facts, count: int)
    requires
        0 <= count <= model.strip.tabs.len(),
    ensures
        model.open_documents(facts, count) == model.strip.tabs.take(count).filter_map(
            |tab: tabs::TabView| told_when_open(tab, facts),
        ),
    decreases count,
{
    let f = |tab: tabs::TabView| told_when_open(tab, facts);
    if count > 0 {
        lemma_open_documents_of(model, facts, count - 1);
        let front = model.strip.tabs.take(count);
        assert(front.drop_last() =~= model.strip.tabs.take(count - 1));
        assert(front.last() == model.strip.tabs[count - 1]);
    }
    assert(model.open_documents(facts, count) =~= model.strip.tabs.take(count).filter_map(f));
}

/// Every open file that the server reads and whose version is not the one it was
/// last sent is sent again, with its text and version as they are now, and no
/// other.
pub proof fn law_changed_documents_are_sent(model: WorkspaceModel, facts: Facts)
    ensures
        model.documents_behind(facts, model.strip.tabs.len() as int)
            == model.strip.tabs.filter_map(
            |tab: tabs::TabView| sent_when_changed(tab, model.lsp.synced, facts),
        ),
{
    lemma_documents_behind_of(model, facts, model.strip.tabs.len() as int);
    assert(model.strip.tabs.take(model.strip.tabs.len() as int) =~= model.strip.tabs);
}

/// What the server is sent of one tab.
pub open spec fn sent_when_changed(
    tab: tabs::TabView,
    synced: Seq<(Seq<char>, u64)>,
    facts: Facts,
) -> Option<BehindView> {
    if tab.path is Some && facts.buffer_of(tab.editor) is Some && facts.kinds.serves(tab.path->0)
        && lsp::version_sent(synced, tab.path->0) != Some(facts.buffer_of(tab.editor)->0.version) {
        Some(
            BehindView {
                path: tab.path->0,
                text: facts.buffer_of(tab.editor)->0.text@,
                version: facts.buffer_of(tab.editor)->0.version,
            },
        )
    } else {
        None
    }
}

proof fn lemma_documents_behind_of(model: WorkspaceModel, facts: Facts, count: int)
    requires
        0 <= count <= model.strip.tabs.len(),
    ensures
        model.documents_behind(facts, count) == model.strip.tabs.take(count).filter_map(
            |tab: tabs::TabView| sent_when_changed(tab, model.lsp.synced, facts),
        ),
    decreases count,
{
    let f = |tab: tabs::TabView| sent_when_changed(tab, model.lsp.synced, facts);
    if count > 0 {
        lemma_documents_behind_of(model, facts, count - 1);
        let front = model.strip.tabs.take(count);
        assert(front.drop_last() =~= model.strip.tabs.take(count - 1));
        assert(front.last() == model.strip.tabs[count - 1]);
    }
    assert(model.documents_behind(facts, count) =~= model.strip.tabs.take(count).filter_map(f));
}

/// An editor is handed the first report about its own file, and an empty one
/// where there is none or it has no file.
pub proof fn law_reports_go_to_their_own_editor(
    model: WorkspaceModel,
    index: int,
    reports: Seq<(Seq<char>, Seq<DiagnosticView>)>,
    at: int,
)
    requires
        0 <= index < model.strip.tabs.len(),
    ensures
        model.diagnostics_at(index, reports).0 == model.strip.tabs[index].editor,
        model.strip.tabs[index].path is None ==> model.diagnostics_at(index, reports).1.len() == 0,
        model.strip.tabs[index].path is Some && 0 <= at < reports.len() && paths::components(
            reports[at].0,
        ) == paths::components(model.strip.tabs[index].path->0) && (forall|k: int|
            0 <= k < at ==> paths::components((#[trigger] reports[k]).0) != paths::components(
                model.strip.tabs[index].path->0,
            )) ==> model.diagnostics_at(index, reports).1 == reports[at].1,
        model.strip.tabs[index].path is Some && (forall|k: int|
            0 <= k < reports.len() ==> paths::components((#[trigger] reports[k]).0)
                != paths::components(model.strip.tabs[index].path->0)) ==> model.diagnostics_at(
            index,
            reports,
        ).1.len() == 0,
{
    if model.strip.tabs[index].path is Some {
        lemma_reported(reports, model.strip.tabs[index].path->0, 0, at);
    }
}

proof fn lemma_reported(
    reports: Seq<(Seq<char>, Seq<DiagnosticView>)>,
    path: Seq<char>,
    from: int,
    at: int,
)
    requires
        0 <= from,
    ensures
        from <= at < reports.len() && paths::components(reports[at].0) == paths::components(path)
            && (forall|k: int|
            from <= k < at ==> paths::components((#[trigger] reports[k]).0) != paths::components(
                path,
            )) ==> reported(reports, path, from) == reports[at].1,
        (forall|k: int|
            from <= k < reports.len() ==> paths::components((#[trigger] reports[k]).0)
                != paths::components(path)) ==> reported(reports, path, from).len() == 0,
    decreases reports.len() - from,
{
    if from < reports.len() && !paths::same_path(reports[from].0, path) {
        lemma_reported(reports, path, from + 1, at);
    }
}

/// Reports are read against the text of the first tab that shows their file,
/// and against none where no tab does.
pub proof fn law_reports_are_read_against_the_open_text(
    model: WorkspaceModel,
    path: Seq<char>,
    facts: Facts,
    at: int,
)
    ensures
        0 <= at < model.strip.tabs.len() && model.strip.tabs[at].path is Some && paths::components(
            model.strip.tabs[at].path->0,
        ) == paths::components(path) && (forall|k: int|
            0 <= k < at ==> (#[trigger] model.strip.tabs[k]).path is None || paths::components(
                model.strip.tabs[k].path->0,
            ) != paths::components(path)) && facts.buffer_of(model.strip.tabs[at].editor) is Some
            ==> model.diagnostic_text(path, facts) == facts.buffer_of(
            model.strip.tabs[at].editor,
        )->0.text@,
        (forall|k: int|
            0 <= k < model.strip.tabs.len() ==> (#[trigger] model.strip.tabs[k]).path is None
                || paths::components(model.strip.tabs[k].path->0) != paths::components(path))
            ==> model.diagnostic_text(path, facts).len() == 0,
{
    tabs::law_first_tab_of_a_path(model.strip.tabs, path, 0);
}

/// The server's counts are shown as it gave them, and the editors are told; a
/// server that stopped says why, in its own words where it has some.
pub proof fn law_counts_and_ends_are_shown(
    model: WorkspaceModel,
    errors: usize,
    warnings: usize,
    reason: Seq<char>,
    configured: bool,
)
    ensures
        model.apply_lsp_events(Some((errors, warnings))).state.lsp.errors == errors,
        model.apply_lsp_events(Some((errors, warnings))).state.lsp.warnings == warnings,
        model.apply_lsp_events(Some((errors, warnings))).effects == seq![
            Effect::<Seq<char>>::PushDiagnostics,
        ],
        model.apply_lsp_events(None) == model.stays(),
        model.handle_lsp_death(Some(reason), false, configured).state.lsp.state
            == lsp::StateView::Failed(reason),
        model.handle_lsp_death(None, false, configured).state.lsp.state == lsp::StateView::Failed(
            "the language server exited"@,
        ),
        model.handle_lsp_death(None, false, configured).effects == seq![
            Effect::<Seq<char>>::ShutDownServer,
            Effect::<Seq<char>>::PushDiagnostics,
        ],
        model.tree is Some && configured ==> model.handle_lsp_death(
            Some(reason),
            true,
            configured,
        ).effects == seq![
            Effect::<Seq<char>>::ShutDownServer,
            Effect::<Seq<char>>::PushDiagnostics,
            Effect::<Seq<char>>::Start(
                Job::Lsp,
                Work::StartServer { root: model.tree->0.root },
            ),
        ],
{
}

/// A language that is chosen is that of the buffer in front of the user.
pub proof fn law_language_is_the_active_buffers(model: WorkspaceModel, language: Seq<char>)
    ensures
        0 <= model.strip.active < model.strip.tabs.len() ==> model.set_active_language(language)
            == seq![
            Effect::<Seq<char>>::SetLanguage {
                editor: model.strip.tabs[model.strip.active].editor,
                language,
            },
        ],
        model.strip.tabs.len() == 0 ==> model.set_active_language(language).len() == 0,
{
}

/// How a fix went is told: in how many files, or why not.
pub proof fn law_fix_is_told(count: usize, error: EditError)
    ensures
        fix_status_text(Ok(count)) == "Fix applied in "@ + text::decimal(count as nat)
            + " file(s)"@,
        fix_status_text(Err(error)) == "Fix not applied: "@ + error.text(),
{
}

/// An edit of an open file is sent to the server with the text that it left; one
/// on disk alone is not.
pub proof fn law_carried_out_step_is_sent(
    model: WorkspaceModel,
    step: Planned,
    left: Seq<char>,
    kinds: FileKinds,
)
    ensures
        step is Disk ==> model.edit_step_done(step, left, kinds).len() == 0,
        step matches Planned::Buffer { path, .. } ==> kinds.serves(path@) && model.lsp.client is Some
            ==> model.edit_step_done(step, left, kinds) == seq![
            Effect::<Seq<char>>::ServerChange { path: step->Buffer_path@, text: left },
        ],
{
}

} // verus!

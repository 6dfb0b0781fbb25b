//! What the workspace asks of the world around it.
//!
//! The workspace decides and never acts by itself: a handler changes the state
//! and hands back the effects to carry out, in order. Reading and writing
//! files, talking to the language server, git and the terminal, and moving the
//! keyboard's focus all happen elsewhere, and their answers come back as
//! further events.
//!
//! The enums are generic over their text: `String` when they are carried out,
//! a sequence of characters when contracts speak of them.

use vstd::prelude::*;
use vstd::string::*;

use crate::jobs::Job;
use crate::palette::{PaletteMode, Point};

verus! {

/// A panel that can hold the keyboard.
#[derive(Clone, Copy, PartialEq, Eq, Structural, Debug)]
pub enum Panel {
    Palette,
    Settings,
    Overlay,
    Find,
    Search,
    Terminal,
    Tests,
    Completion,
}

/// Who gets the keyboard.
#[derive(Clone, Copy, PartialEq, Eq, Structural, Debug)]
pub enum Focus {
    /// An editor, by its number.
    Editor(u64),
    /// The window's root.
    Workspace,
    Panel(Panel),
}

/// Blocking work that is stopped by raising its flag: dropping the task only
/// stops the wait.
#[derive(Clone, Copy, PartialEq, Eq, Structural, Debug)]
pub enum Walk {
    QuickOpen,
    GitStatus,
    ProjectSearch,
    Tests,
}

/// What the source control panel shows.
#[derive(Clone, Copy, PartialEq, Eq, Structural, Debug)]
pub enum GitState {
    NoFolder,
    Loading,
    Repo,
    NotARepo,
}

/// Where an open should land, in the unit that its producer has.
#[derive(Clone, Copy, PartialEq, Eq, Structural, Debug)]
pub enum Target {
    Point(Point),
    /// A position in the server's units, which only the document can convert.
    Lsp { line: u32, character: u32 },
}

impl Target {
    /// The point, once a document is there to convert the server's position.
    pub open spec fn resolved(self, converted: Point) -> Point {
        match self {
            Target::Point(point) => point,
            Target::Lsp { .. } => converted,
        }
    }

    /// The point to land on. `converted` is what the document makes of the
    /// server's position.
    pub fn resolve(self, converted: Point) -> (point: Point)
        ensures
            point == self.resolved(converted),
    {
        match self {
            Target::Point(point) => point,
            Target::Lsp { .. } => converted,
        }
    }
}

/// An operation on the file tree.
#[derive(PartialEq, Eq, Debug)]
pub enum TreeOperation<S> {
    /// Opens or closes the directory at that row.
    Toggle(usize),
    ExpandAll,
    CollapseAll,
    ShowHidden(bool),
    Refresh,
    /// Opens the way to a file and tells its row.
    Reveal(S),
}

impl vstd::view::DeepView for TreeOperation<String> {
    type V = TreeOperation<Seq<char>>;

    open spec fn deep_view(&self) -> TreeOperation<Seq<char>> {
        match *self {
            TreeOperation::Toggle(a) => TreeOperation::Toggle(a),
            TreeOperation::ExpandAll => TreeOperation::ExpandAll,
            TreeOperation::CollapseAll => TreeOperation::CollapseAll,
            TreeOperation::ShowHidden(a) => TreeOperation::ShowHidden(a),
            TreeOperation::Refresh => TreeOperation::Refresh,
            TreeOperation::Reveal(a) => TreeOperation::Reveal(a@),
        }
    }
}

/// A question for the language server.
#[derive(PartialEq, Eq, Debug)]
pub enum Question<S> {
    Definition { path: S, offset: usize },
    References { path: S, offset: usize },
    Symbols { path: S },
    WorkspaceSymbols { query: S },
    Formatting { path: S },
    CodeActions { path: S, start: usize, end: usize },
    Rename { path: S, offset: usize, name: S },
    Completion { path: S, offset: usize },
}

impl vstd::view::DeepView for Question<String> {
    type V = Question<Seq<char>>;

    open spec fn deep_view(&self) -> Question<Seq<char>> {
        match *self {
            Question::Definition { path, offset } => Question::Definition { path: path@, offset },
            Question::References { path, offset } => Question::References { path: path@, offset },
            Question::Symbols { path } => Question::Symbols { path: path@ },
            Question::WorkspaceSymbols { query } => Question::WorkspaceSymbols { query: query@ },
            Question::Formatting { path } => Question::Formatting { path: path@ },
            Question::CodeActions { path, start, end } => Question::CodeActions { path: path@, start, end },
            Question::Rename { path, offset, name } => Question::Rename { path: path@, offset, name: name@ },
            Question::Completion { path, offset } => Question::Completion { path: path@, offset },
        }
    }
}

/// A step of the tree's context menu.
#[derive(PartialEq, Eq, Debug)]
pub enum Overlay<S> {
    /// The entries for a file or for a directory.
    Menu { is_dir: bool },
    /// The entries for the project's root.
    RootMenu,
    Prompt { verb: S, subject: S, seed: S },
    Confirm { question: S, detail: S },
}

impl vstd::view::DeepView for Overlay<String> {
    type V = Overlay<Seq<char>>;

    open spec fn deep_view(&self) -> Overlay<Seq<char>> {
        match *self {
            Overlay::Menu { is_dir } => Overlay::Menu { is_dir },
            Overlay::RootMenu => Overlay::RootMenu,
            Overlay::Prompt { verb, subject, seed } => Overlay::Prompt { verb: verb@, subject: subject@, seed: seed@ },
            Overlay::Confirm { question, detail } => Overlay::Confirm { question: question@, detail: detail@ },
        }
    }
}

/// Tests to run.
#[derive(PartialEq, Eq, Debug)]
pub enum TestRequest<S> {
    All,
    InFile(S),
    /// Those that failed in the last run.
    Failed,
}

impl vstd::view::DeepView for TestRequest<String> {
    type V = TestRequest<Seq<char>>;

    open spec fn deep_view(&self) -> TestRequest<Seq<char>> {
        match *self {
            TestRequest::All => TestRequest::All,
            TestRequest::InFile(a) => TestRequest::InFile(a@),
            TestRequest::Failed => TestRequest::Failed,
        }
    }
}

/// Work for the background.
#[derive(PartialEq, Eq, Debug)]
pub enum Work<S> {
    ChooseFolder,
    ReadTree { path: S },
    ReadFile { path: S, target: Option<Target> },
    WriteFile { editor: u64, path: S, text: S, version: u64 },
    /// Asks where a buffer without a path goes. No directory is the one for temporary files.
    ChoosePath { editor: u64, directory: Option<S>, name: S },
    WaitToAutosave,
    AskToDiscard { editor: u64, message: S, detail: S },
    ReadGitStatus { root: S },
    ReadGitDiff { root: S, path: S },
    Stage { root: S, path: S, stage: bool },
    Commit { root: S, message: S },
    Fetch { root: S },
    Push { root: S },
    SwitchBranch { root: S, branch: S },
    RunTests { command: S },
    SearchProject { root: S, debounce: bool },
    ListFiles { root: S },
    ListRoutes { root: S },
    ListArtisan { root: S },
    ListBranches { root: S },
    ListScripts { root: S },
    ListCommits { root: S },
    /// Finds what a Laravel reference in that file names.
    ResolveReference { root: S, path: S },
    AwaitAnswer { id: u64 },
    AwaitCompletion { id: u64 },
    StartServer { root: S },
    ReadSchema { root: S },
    ReadTable { root: S, table: S },
    InsertRow { root: S, table: S },
    UpdateCell { root: S, table: S, column: S, rowid: i64, value: S },
    ReadServices { root: S },
    ReadLog { root: S },
    CreateFile { path: S },
    CreateDirectory { path: S },
    Rename { path: S, name: S },
    /// Comes back at once.
    DoNothing,
    Delete { path: S, root: S },
    InstallUpdate { script: S },
    ReadRouteNames { root: S },
    /// Reads the Livewire component behind a template.
    ReadComponent { root: S, path: S },
    ReadColumns { root: S, class: S },
    ReadRelations { root: S, class: S },
    ReadScopes { root: S, class: S },
    ReadModel { root: S, class: S },
}

impl vstd::view::DeepView for Work<String> {
    type V = Work<Seq<char>>;

    open spec fn deep_view(&self) -> Work<Seq<char>> {
        match *self {
            Work::ChooseFolder => Work::ChooseFolder,
            Work::ReadTree { path } => Work::ReadTree { path: path@ },
            Work::ReadFile { path, target } => Work::ReadFile { path: path@, target },
            Work::WriteFile { editor, path, text, version } => Work::WriteFile { editor, path: path@, text: text@, version },
            Work::ChoosePath { editor, directory, name } => Work::ChoosePath { editor, directory: directory.deep_view(), name: name@ },
            Work::WaitToAutosave => Work::WaitToAutosave,
            Work::AskToDiscard { editor, message, detail } => Work::AskToDiscard { editor, message: message@, detail: detail@ },
            Work::ReadGitStatus { root } => Work::ReadGitStatus { root: root@ },
            Work::ReadGitDiff { root, path } => Work::ReadGitDiff { root: root@, path: path@ },
            Work::Stage { root, path, stage } => Work::Stage { root: root@, path: path@, stage },
            Work::Commit { root, message } => Work::Commit { root: root@, message: message@ },
            Work::Fetch { root } => Work::Fetch { root: root@ },
            Work::Push { root } => Work::Push { root: root@ },
            Work::SwitchBranch { root, branch } => Work::SwitchBranch { root: root@, branch: branch@ },
            Work::RunTests { command } => Work::RunTests { command: command@ },
            Work::SearchProject { root, debounce } => Work::SearchProject { root: root@, debounce },
            Work::ListFiles { root } => Work::ListFiles { root: root@ },
            Work::ListRoutes { root } => Work::ListRoutes { root: root@ },
            Work::ListArtisan { root } => Work::ListArtisan { root: root@ },
            Work::ListBranches { root } => Work::ListBranches { root: root@ },
            Work::ListScripts { root } => Work::ListScripts { root: root@ },
            Work::ListCommits { root } => Work::ListCommits { root: root@ },
            Work::ResolveReference { root, path } => Work::ResolveReference { root: root@, path: path@ },
            Work::AwaitAnswer { id } => Work::AwaitAnswer { id },
            Work::AwaitCompletion { id } => Work::AwaitCompletion { id },
            Work::StartServer { root } => Work::StartServer { root: root@ },
            Work::ReadSchema { root } => Work::ReadSchema { root: root@ },
            Work::ReadTable { root, table } => Work::ReadTable { root: root@, table: table@ },
            Work::InsertRow { root, table } => Work::InsertRow { root: root@, table: table@ },
            Work::UpdateCell { root, table, column, rowid, value } => Work::UpdateCell { root: root@, table: table@, column: column@, rowid, value: value@ },
            Work::ReadServices { root } => Work::ReadServices { root: root@ },
            Work::ReadLog { root } => Work::ReadLog { root: root@ },
            Work::CreateFile { path } => Work::CreateFile { path: path@ },
            Work::CreateDirectory { path } => Work::CreateDirectory { path: path@ },
            Work::Rename { path, name } => Work::Rename { path: path@, name: name@ },
            Work::DoNothing => Work::DoNothing,
            Work::Delete { path, root } => Work::Delete { path: path@, root: root@ },
            Work::InstallUpdate { script } => Work::InstallUpdate { script: script@ },
            Work::ReadRouteNames { root } => Work::ReadRouteNames { root: root@ },
            Work::ReadComponent { root, path } => Work::ReadComponent { root: root@, path: path@ },
            Work::ReadColumns { root, class } => Work::ReadColumns { root: root@, class: class@ },
            Work::ReadRelations { root, class } => Work::ReadRelations { root: root@, class: class@ },
            Work::ReadScopes { root, class } => Work::ReadScopes { root: root@, class: class@ },
            Work::ReadModel { root, class } => Work::ReadModel { root: root@, class: class@ },
        }
    }
}

/// Something to carry out.
#[derive(PartialEq, Eq, Debug)]
pub enum Effect<S> {
    Focus(Focus),
    ScrollToTab(usize),
    ScrollToTreeRow(usize),
    ClearHoverCards,
    Reveal { editor: u64, target: Target },
    CancelJob(Job),
    CancelWalk(Walk),
    /// Tells the language server to stop computing an answer.
    CancelRequest(u64),
    Start(Job, Work<S>),
    RebuildIndex(S),
    WatchTree(S),
    Tree(TreeOperation<S>),
    /// Opens the panel with one session, in that directory.
    OpenTerminal(Option<S>),
    CloseTerminal,
    OpenSession,
    SetTerminalDirectory(Option<S>),
    /// Types into the terminal without running it.
    Type(S),
    /// Types the command line of an artisan command.
    TypeArtisan(S),
    ServerOpen { path: S, text: S },
    ServerClose(S),
    ClearDiagnostics(S),
    ServerChange { path: S, text: S },
    SyncOpenDocuments,
    ShowGit(GitState),
    ClearCommitMessage,
    Autosave { editor: u64, path: S, text: S, version: u64 },
    MarkSaved { editor: u64, version: u64 },
    SetDocumentPath { editor: u64, path: S },
    /// Builds an editor, on a file or on an empty buffer.
    NewEditor { file: Option<S> },
    Ask(Question<S>),
    /// Applies the edit behind a row of the fixes.
    ApplyFix(usize),
    /// Applies the edits that the server answered with.
    ApplyEdits { editor: u64 },
    OpenPalette(PaletteMode),
    PresetQuery(S),
    ShowOverlay(Overlay<S>),
    RevealInFinder(S),
    CopyText(S),
    OpenFind { replacing: bool, seed: Option<S> },
    ReopenFind { replacing: bool },
    /// Gives the document the bar's query and shows the count.
    SearchDocument { editor: u64 },
    SelectMatch { editor: u64, forward: bool },
    ReplaceOne { editor: u64 },
    ReplaceAll { editor: u64 },
    CountMatches { editor: u64 },
    ClearSearch { editor: u64 },
    SeedSearch(S),
    OpenSettings,
    OpenTests,
    RequestTests(TestRequest<S>),
    OpenLogs,
    OpenCompletion { query: S },
    SetQuery(S),
    MarkLoaded,
    OfferWords,
    Insert { editor: u64, start: usize, end: usize, text: S },
    TypeInto { editor: u64, text: S },
    EraseIn { editor: u64 },
    FoldAll { editor: u64 },
    UnfoldAll { editor: u64 },
    SetLanguage { editor: u64, language: S },
    PushDiagnostics,
    ShutDownServer,
    RefreshWindows,
    CheckForUpdates,
    ObserveActivation,
    OpenPage(S),
    RestartIntoUpdate,
    Quit,
}

impl vstd::view::DeepView for Effect<String> {
    type V = Effect<Seq<char>>;

    open spec fn deep_view(&self) -> Effect<Seq<char>> {
        match *self {
            Effect::Focus(a) => Effect::Focus(a),
            Effect::ScrollToTab(a) => Effect::ScrollToTab(a),
            Effect::ScrollToTreeRow(a) => Effect::ScrollToTreeRow(a),
            Effect::ClearHoverCards => Effect::ClearHoverCards,
            Effect::Reveal { editor, target } => Effect::Reveal { editor, target },
            Effect::CancelJob(a) => Effect::CancelJob(a),
            Effect::CancelWalk(a) => Effect::CancelWalk(a),
            Effect::CancelRequest(a) => Effect::CancelRequest(a),
            Effect::Start(a, b) => Effect::Start(a, b.deep_view()),
            Effect::RebuildIndex(a) => Effect::RebuildIndex(a@),
            Effect::WatchTree(a) => Effect::WatchTree(a@),
            Effect::Tree(a) => Effect::Tree(a.deep_view()),
            Effect::OpenTerminal(a) => Effect::OpenTerminal(a.deep_view()),
            Effect::CloseTerminal => Effect::CloseTerminal,
            Effect::OpenSession => Effect::OpenSession,
            Effect::SetTerminalDirectory(a) => Effect::SetTerminalDirectory(a.deep_view()),
            Effect::Type(a) => Effect::Type(a@),
            Effect::TypeArtisan(a) => Effect::TypeArtisan(a@),
            Effect::ServerOpen { path, text } => Effect::ServerOpen { path: path@, text: text@ },
            Effect::ServerClose(a) => Effect::ServerClose(a@),
            Effect::ClearDiagnostics(a) => Effect::ClearDiagnostics(a@),
            Effect::ServerChange { path, text } => Effect::ServerChange { path: path@, text: text@ },
            Effect::SyncOpenDocuments => Effect::SyncOpenDocuments,
            Effect::ShowGit(a) => Effect::ShowGit(a),
            Effect::ClearCommitMessage => Effect::ClearCommitMessage,
            Effect::Autosave { editor, path, text, version } => Effect::Autosave { editor, path: path@, text: text@, version },
            Effect::MarkSaved { editor, version } => Effect::MarkSaved { editor, version },
            Effect::SetDocumentPath { editor, path } => Effect::SetDocumentPath { editor, path: path@ },
            Effect::NewEditor { file } => Effect::NewEditor { file: file.deep_view() },
            Effect::Ask(a) => Effect::Ask(a.deep_view()),
            Effect::ApplyFix(a) => Effect::ApplyFix(a),
            Effect::ApplyEdits { editor } => Effect::ApplyEdits { editor },
            Effect::OpenPalette(a) => Effect::OpenPalette(a),
            Effect::PresetQuery(a) => Effect::PresetQuery(a@),
            Effect::ShowOverlay(a) => Effect::ShowOverlay(a.deep_view()),
            Effect::RevealInFinder(a) => Effect::RevealInFinder(a@),
            Effect::CopyText(a) => Effect::CopyText(a@),
            Effect::OpenFind { replacing, seed } => Effect::OpenFind { replacing, seed: seed.deep_view() },
            Effect::ReopenFind { replacing } => Effect::ReopenFind { replacing },
            Effect::SearchDocument { editor } => Effect::SearchDocument { editor },
            Effect::SelectMatch { editor, forward } => Effect::SelectMatch { editor, forward },
            Effect::ReplaceOne { editor } => Effect::ReplaceOne { editor },
            Effect::ReplaceAll { editor } => Effect::ReplaceAll { editor },
            Effect::CountMatches { editor } => Effect::CountMatches { editor },
            Effect::ClearSearch { editor } => Effect::ClearSearch { editor },
            Effect::SeedSearch(a) => Effect::SeedSearch(a@),
            Effect::OpenSettings => Effect::OpenSettings,
            Effect::OpenTests => Effect::OpenTests,
            Effect::RequestTests(a) => Effect::RequestTests(a.deep_view()),
            Effect::OpenLogs => Effect::OpenLogs,
            Effect::OpenCompletion { query } => Effect::OpenCompletion { query: query@ },
            Effect::SetQuery(a) => Effect::SetQuery(a@),
            Effect::MarkLoaded => Effect::MarkLoaded,
            Effect::OfferWords => Effect::OfferWords,
            Effect::Insert { editor, start, end, text } => Effect::Insert { editor, start, end, text: text@ },
            Effect::TypeInto { editor, text } => Effect::TypeInto { editor, text: text@ },
            Effect::EraseIn { editor } => Effect::EraseIn { editor },
            Effect::FoldAll { editor } => Effect::FoldAll { editor },
            Effect::UnfoldAll { editor } => Effect::UnfoldAll { editor },
            Effect::SetLanguage { editor, language } => Effect::SetLanguage { editor, language: language@ },
            Effect::PushDiagnostics => Effect::PushDiagnostics,
            Effect::ShutDownServer => Effect::ShutDownServer,
            Effect::RefreshWindows => Effect::RefreshWindows,
            Effect::CheckForUpdates => Effect::CheckForUpdates,
            Effect::ObserveActivation => Effect::ObserveActivation,
            Effect::OpenPage(a) => Effect::OpenPage(a@),
            Effect::RestartIntoUpdate => Effect::RestartIntoUpdate,
            Effect::Quit => Effect::Quit,
        }
    }
}

/// An effect as contracts see it.
pub type EffectView = Effect<Seq<char>>;

/// A list of effects as contracts see it: each of them, in order.
#[verifier::opaque]
pub open spec fn told(effects: Vec<Effect<String>>) -> Seq<EffectView> {
    effects.deep_view()
}

/// One effect after another.
pub fn also(effects: Vec<Effect<String>>, next: Effect<String>) -> (all: Vec<Effect<String>>)
    ensures
        told(all) == told(effects).push(next.deep_view()),
{
    reveal(told);
    let mut all = effects;
    let ghost before = all.deep_view();
    all.push(next);
    assert(all.deep_view() =~= before.push(next.deep_view()));
    all
}

/// No effect.
pub fn nothing() -> (effects: Vec<Effect<String>>)
    ensures
        told(effects) == Seq::<EffectView>::empty(),
{
    reveal(told);
    let effects: Vec<Effect<String>> = Vec::new();
    assert(effects.deep_view() =~= Seq::<EffectView>::empty());
    effects
}

/// A single effect.
pub fn only(effect: Effect<String>) -> (effects: Vec<Effect<String>>)
    ensures
        told(effects) == seq![effect.deep_view()],
{
    let effects = also(nothing(), effect);
    assert(told(effects) =~= seq![effect.deep_view()]);
    effects
}

/// The effects of one event, then those of another.
pub fn both(first: Vec<Effect<String>>, second: Vec<Effect<String>>) -> (all: Vec<Effect<String>>)
    ensures
        told(all) == told(first) + told(second),
{
    reveal(told);
    let mut all = first;
    let mut rest = second;
    let ghost a = all.deep_view();
    let ghost b = rest.deep_view();
    all.append(&mut rest);
    assert(all.deep_view() =~= a + b);
    all
}

/// An operation on the tree is seen in contracts as it is.
pub proof fn law_tree_operation_is_seen_as_it_is(operation: TreeOperation<String>)
    ensures
        operation matches TreeOperation::Toggle(a) ==> operation.deep_view() == (TreeOperation::<Seq<char>>::Toggle(a)),
        operation is ExpandAll ==> operation.deep_view() is ExpandAll,
        operation is CollapseAll ==> operation.deep_view() is CollapseAll,
        operation matches TreeOperation::ShowHidden(a) ==> operation.deep_view() == (TreeOperation::<Seq<char>>::ShowHidden(a)),
        operation is Refresh ==> operation.deep_view() is Refresh,
        operation matches TreeOperation::Reveal(a) ==> operation.deep_view() == (TreeOperation::<Seq<char>>::Reveal(a@)),
{
}

/// A question is seen in contracts as it is: its file, its place and its text.
pub proof fn law_question_is_seen_as_it_is(question: Question<String>)
    ensures
        question matches Question::Definition { path, offset } ==> question.deep_view() == (Question::<Seq<char>>::Definition { path: path@, offset }),
        question matches Question::References { path, offset } ==> question.deep_view() == (Question::<Seq<char>>::References { path: path@, offset }),
        question matches Question::Symbols { path } ==> question.deep_view() == (Question::<Seq<char>>::Symbols { path: path@ }),
        question matches Question::WorkspaceSymbols { query } ==> question.deep_view() == (Question::<Seq<char>>::WorkspaceSymbols { query: query@ }),
        question matches Question::Formatting { path } ==> question.deep_view() == (Question::<Seq<char>>::Formatting { path: path@ }),
        question matches Question::CodeActions { path, start, end } ==> question.deep_view() == (Question::<Seq<char>>::CodeActions { path: path@, start, end }),
        question matches Question::Rename { path, offset, name } ==> question.deep_view() == (Question::<Seq<char>>::Rename { path: path@, offset, name: name@ }),
        question matches Question::Completion { path, offset } ==> question.deep_view() == (Question::<Seq<char>>::Completion { path: path@, offset }),
{
}

/// A step of the menu is seen in contracts as it is.
pub proof fn law_overlay_is_seen_as_it_is(overlay: Overlay<String>)
    ensures
        overlay matches Overlay::Menu { is_dir } ==> overlay.deep_view() == (Overlay::<Seq<char>>::Menu { is_dir }),
        overlay is RootMenu ==> overlay.deep_view() is RootMenu,
        overlay matches Overlay::Prompt { verb, subject, seed } ==> overlay.deep_view() == (Overlay::<Seq<char>>::Prompt { verb: verb@, subject: subject@, seed: seed@ }),
        overlay matches Overlay::Confirm { question, detail } ==> overlay.deep_view() == (Overlay::<Seq<char>>::Confirm { question: question@, detail: detail@ }),
{
}

/// A request for tests is seen in contracts as it is.
pub proof fn law_test_request_is_seen_as_it_is(request: TestRequest<String>)
    ensures
        request is All ==> request.deep_view() is All,
        request matches TestRequest::InFile(a) ==> request.deep_view() == (TestRequest::<Seq<char>>::InFile(a@)),
        request is Failed ==> request.deep_view() is Failed,
{
}

/// Work is seen in contracts as it is: of the same kind, with the same numbers and
/// flags, and with the characters of its texts.
pub proof fn law_work_is_seen_as_it_is(work: Work<String>)
    ensures
        work is ChooseFolder ==> work.deep_view() is ChooseFolder,
        work matches Work::ReadTree { path } ==> work.deep_view() == (Work::<Seq<char>>::ReadTree { path: path@ }),
        work matches Work::ReadFile { path, target } ==> work.deep_view() == (Work::<Seq<char>>::ReadFile { path: path@, target }),
        work matches Work::WriteFile { editor, path, text, version } ==> work.deep_view() == (Work::<Seq<char>>::WriteFile { editor, path: path@, text: text@, version }),
        work matches Work::ChoosePath { editor, directory, name } ==> work.deep_view() == (Work::<Seq<char>>::ChoosePath { editor, directory: directory.deep_view(), name: name@ }),
        work is WaitToAutosave ==> work.deep_view() is WaitToAutosave,
        work matches Work::AskToDiscard { editor, message, detail } ==> work.deep_view() == (Work::<Seq<char>>::AskToDiscard { editor, message: message@, detail: detail@ }),
        work matches Work::ReadGitStatus { root } ==> work.deep_view() == (Work::<Seq<char>>::ReadGitStatus { root: root@ }),
        work matches Work::ReadGitDiff { root, path } ==> work.deep_view() == (Work::<Seq<char>>::ReadGitDiff { root: root@, path: path@ }),
        work matches Work::Stage { root, path, stage } ==> work.deep_view() == (Work::<Seq<char>>::Stage { root: root@, path: path@, stage }),
        work matches Work::Commit { root, message } ==> work.deep_view() == (Work::<Seq<char>>::Commit { root: root@, message: message@ }),
        work matches Work::Fetch { root } ==> work.deep_view() == (Work::<Seq<char>>::Fetch { root: root@ }),
        work matches Work::Push { root } ==> work.deep_view() == (Work::<Seq<char>>::Push { root: root@ }),
        work matches Work::SwitchBranch { root, branch } ==> work.deep_view() == (Work::<Seq<char>>::SwitchBranch { root: root@, branch: branch@ }),
        work matches Work::RunTests { command } ==> work.deep_view() == (Work::<Seq<char>>::RunTests { command: command@ }),
        work matches Work::SearchProject { root, debounce } ==> work.deep_view() == (Work::<Seq<char>>::SearchProject { root: root@, debounce }),
        work matches Work::ListFiles { root } ==> work.deep_view() == (Work::<Seq<char>>::ListFiles { root: root@ }),
        work matches Work::ListRoutes { root } ==> work.deep_view() == (Work::<Seq<char>>::ListRoutes { root: root@ }),
        work matches Work::ListArtisan { root } ==> work.deep_view() == (Work::<Seq<char>>::ListArtisan { root: root@ }),
        work matches Work::ListBranches { root } ==> work.deep_view() == (Work::<Seq<char>>::ListBranches { root: root@ }),
        work matches Work::ListScripts { root } ==> work.deep_view() == (Work::<Seq<char>>::ListScripts { root: root@ }),
        work matches Work::ListCommits { root } ==> work.deep_view() == (Work::<Seq<char>>::ListCommits { root: root@ }),
        work matches Work::ResolveReference { root, path } ==> work.deep_view() == (Work::<Seq<char>>::ResolveReference { root: root@, path: path@ }),
        work matches Work::AwaitAnswer { id } ==> work.deep_view() == (Work::<Seq<char>>::AwaitAnswer { id }),
        work matches Work::AwaitCompletion { id } ==> work.deep_view() == (Work::<Seq<char>>::AwaitCompletion { id }),
        work matches Work::StartServer { root } ==> work.deep_view() == (Work::<Seq<char>>::StartServer { root: root@ }),
        work matches Work::ReadSchema { root } ==> work.deep_view() == (Work::<Seq<char>>::ReadSchema { root: root@ }),
        work matches Work::ReadTable { root, table } ==> work.deep_view() == (Work::<Seq<char>>::ReadTable { root: root@, table: table@ }),
        work matches Work::InsertRow { root, table } ==> work.deep_view() == (Work::<Seq<char>>::InsertRow { root: root@, table: table@ }),
        work matches Work::UpdateCell { root, table, column, rowid, value } ==> work.deep_view() == (Work::<Seq<char>>::UpdateCell { root: root@, table: table@, column: column@, rowid, value: value@ }),
        work matches Work::ReadServices { root } ==> work.deep_view() == (Work::<Seq<char>>::ReadServices { root: root@ }),
        work matches Work::ReadLog { root } ==> work.deep_view() == (Work::<Seq<char>>::ReadLog { root: root@ }),
        work matches Work::CreateFile { path } ==> work.deep_view() == (Work::<Seq<char>>::CreateFile { path: path@ }),
        work matches Work::CreateDirectory { path } ==> work.deep_view() == (Work::<Seq<char>>::CreateDirectory { path: path@ }),
        work matches Work::Rename { path, name } ==> work.deep_view() == (Work::<Seq<char>>::Rename { path: path@, name: name@ }),
        work is DoNothing ==> work.deep_view() is DoNothing,
        work matches Work::Delete { path, root } ==> work.deep_view() == (Work::<Seq<char>>::Delete { path: path@, root: root@ }),
        work matches Work::InstallUpdate { script } ==> work.deep_view() == (Work::<Seq<char>>::InstallUpdate { script: script@ }),
        work matches Work::ReadRouteNames { root } ==> work.deep_view() == (Work::<Seq<char>>::ReadRouteNames { root: root@ }),
        work matches Work::ReadComponent { root, path } ==> work.deep_view() == (Work::<Seq<char>>::ReadComponent { root: root@, path: path@ }),
        work matches Work::ReadColumns { root, class } ==> work.deep_view() == (Work::<Seq<char>>::ReadColumns { root: root@, class: class@ }),
        work matches Work::ReadRelations { root, class } ==> work.deep_view() == (Work::<Seq<char>>::ReadRelations { root: root@, class: class@ }),
        work matches Work::ReadScopes { root, class } ==> work.deep_view() == (Work::<Seq<char>>::ReadScopes { root: root@, class: class@ }),
        work matches Work::ReadModel { root, class } ==> work.deep_view() == (Work::<Seq<char>>::ReadModel { root: root@, class: class@ }),
{
}

/// An effect is seen in contracts as it is: of the same kind, with the same numbers
/// and flags, and with the characters of its texts.
pub proof fn law_effect_is_seen_as_it_is(effect: Effect<String>)
    ensures
        effect matches Effect::Focus(a) ==> effect.deep_view() == (Effect::<Seq<char>>::Focus(a)),
        effect matches Effect::ScrollToTab(a) ==> effect.deep_view() == (Effect::<Seq<char>>::ScrollToTab(a)),
        effect matches Effect::ScrollToTreeRow(a) ==> effect.deep_view() == (Effect::<Seq<char>>::ScrollToTreeRow(a)),
        effect is ClearHoverCards ==> effect.deep_view() is ClearHoverCards,
        effect matches Effect::Reveal { editor, target } ==> effect.deep_view() == (Effect::<Seq<char>>::Reveal { editor, target }),
        effect matches Effect::CancelJob(a) ==> effect.deep_view() == (Effect::<Seq<char>>::CancelJob(a)),
        effect matches Effect::CancelWalk(a) ==> effect.deep_view() == (Effect::<Seq<char>>::CancelWalk(a)),
        effect matches Effect::CancelRequest(a) ==> effect.deep_view() == (Effect::<Seq<char>>::CancelRequest(a)),
        effect matches Effect::Start(a, b) ==> effect.deep_view() == (Effect::<Seq<char>>::Start(a, b.deep_view())),
        effect matches Effect::RebuildIndex(a) ==> effect.deep_view() == (Effect::<Seq<char>>::RebuildIndex(a@)),
        effect matches Effect::WatchTree(a) ==> effect.deep_view() == (Effect::<Seq<char>>::WatchTree(a@)),
        effect matches Effect::Tree(a) ==> effect.deep_view() == (Effect::<Seq<char>>::Tree(a.deep_view())),
        effect matches Effect::OpenTerminal(a) ==> effect.deep_view() == (Effect::<Seq<char>>::OpenTerminal(a.deep_view())),
        effect is CloseTerminal ==> effect.deep_view() is CloseTerminal,
        effect is OpenSession ==> effect.deep_view() is OpenSession,
        effect matches Effect::SetTerminalDirectory(a) ==> effect.deep_view() == (Effect::<Seq<char>>::SetTerminalDirectory(a.deep_view())),
        effect matches Effect::Type(a) ==> effect.deep_view() == (Effect::<Seq<char>>::Type(a@)),
        effect matches Effect::TypeArtisan(a) ==> effect.deep_view() == (Effect::<Seq<char>>::TypeArtisan(a@)),
        effect matches Effect::ServerOpen { path, text } ==> effect.deep_view() == (Effect::<Seq<char>>::ServerOpen { path: path@, text: text@ }),
        effect matches Effect::ServerClose(a) ==> effect.deep_view() == (Effect::<Seq<char>>::ServerClose(a@)),
        effect matches Effect::ClearDiagnostics(a) ==> effect.deep_view() == (Effect::<Seq<char>>::ClearDiagnostics(a@)),
        effect matches Effect::ServerChange { path, text } ==> effect.deep_view() == (Effect::<Seq<char>>::ServerChange { path: path@, text: text@ }),
        effect is SyncOpenDocuments ==> effect.deep_view() is SyncOpenDocuments,
        effect matches Effect::ShowGit(a) ==> effect.deep_view() == (Effect::<Seq<char>>::ShowGit(a)),
        effect is ClearCommitMessage ==> effect.deep_view() is ClearCommitMessage,
        effect matches Effect::Autosave { editor, path, text, version } ==> effect.deep_view() == (Effect::<Seq<char>>::Autosave { editor, path: path@, text: text@, version }),
        effect matches Effect::MarkSaved { editor, version } ==> effect.deep_view() == (Effect::<Seq<char>>::MarkSaved { editor, version }),
        effect matches Effect::SetDocumentPath { editor, path } ==> effect.deep_view() == (Effect::<Seq<char>>::SetDocumentPath { editor, path: path@ }),
        effect matches Effect::NewEditor { file } ==> effect.deep_view() == (Effect::<Seq<char>>::NewEditor { file: file.deep_view() }),
        effect matches Effect::Ask(a) ==> effect.deep_view() == (Effect::<Seq<char>>::Ask(a.deep_view())),
        effect matches Effect::ApplyFix(a) ==> effect.deep_view() == (Effect::<Seq<char>>::ApplyFix(a)),
        effect matches Effect::ApplyEdits { editor } ==> effect.deep_view() == (Effect::<Seq<char>>::ApplyEdits { editor }),
        effect matches Effect::OpenPalette(a) ==> effect.deep_view() == (Effect::<Seq<char>>::OpenPalette(a)),
        effect matches Effect::PresetQuery(a) ==> effect.deep_view() == (Effect::<Seq<char>>::PresetQuery(a@)),
        effect matches Effect::ShowOverlay(a) ==> effect.deep_view() == (Effect::<Seq<char>>::ShowOverlay(a.deep_view())),
        effect matches Effect::RevealInFinder(a) ==> effect.deep_view() == (Effect::<Seq<char>>::RevealInFinder(a@)),
        effect matches Effect::CopyText(a) ==> effect.deep_view() == (Effect::<Seq<char>>::CopyText(a@)),
        effect matches Effect::OpenFind { replacing, seed } ==> effect.deep_view() == (Effect::<Seq<char>>::OpenFind { replacing, seed: seed.deep_view() }),
        effect matches Effect::ReopenFind { replacing } ==> effect.deep_view() == (Effect::<Seq<char>>::ReopenFind { replacing }),
        effect matches Effect::SearchDocument { editor } ==> effect.deep_view() == (Effect::<Seq<char>>::SearchDocument { editor }),
        effect matches Effect::SelectMatch { editor, forward } ==> effect.deep_view() == (Effect::<Seq<char>>::SelectMatch { editor, forward }),
        effect matches Effect::ReplaceOne { editor } ==> effect.deep_view() == (Effect::<Seq<char>>::ReplaceOne { editor }),
        effect matches Effect::ReplaceAll { editor } ==> effect.deep_view() == (Effect::<Seq<char>>::ReplaceAll { editor }),
        effect matches Effect::CountMatches { editor } ==> effect.deep_view() == (Effect::<Seq<char>>::CountMatches { editor }),
        effect matches Effect::ClearSearch { editor } ==> effect.deep_view() == (Effect::<Seq<char>>::ClearSearch { editor }),
        effect matches Effect::SeedSearch(a) ==> effect.deep_view() == (Effect::<Seq<char>>::SeedSearch(a@)),
        effect is OpenSettings ==> effect.deep_view() is OpenSettings,
        effect is OpenTests ==> effect.deep_view() is OpenTests,
        effect matches Effect::RequestTests(a) ==> effect.deep_view() == (Effect::<Seq<char>>::RequestTests(a.deep_view())),
        effect is OpenLogs ==> effect.deep_view() is OpenLogs,
        effect matches Effect::OpenCompletion { query } ==> effect.deep_view() == (Effect::<Seq<char>>::OpenCompletion { query: query@ }),
        effect matches Effect::SetQuery(a) ==> effect.deep_view() == (Effect::<Seq<char>>::SetQuery(a@)),
        effect is MarkLoaded ==> effect.deep_view() is MarkLoaded,
        effect is OfferWords ==> effect.deep_view() is OfferWords,
        effect matches Effect::Insert { editor, start, end, text } ==> effect.deep_view() == (Effect::<Seq<char>>::Insert { editor, start, end, text: text@ }),
        effect matches Effect::TypeInto { editor, text } ==> effect.deep_view() == (Effect::<Seq<char>>::TypeInto { editor, text: text@ }),
        effect matches Effect::EraseIn { editor } ==> effect.deep_view() == (Effect::<Seq<char>>::EraseIn { editor }),
        effect matches Effect::FoldAll { editor } ==> effect.deep_view() == (Effect::<Seq<char>>::FoldAll { editor }),
        effect matches Effect::UnfoldAll { editor } ==> effect.deep_view() == (Effect::<Seq<char>>::UnfoldAll { editor }),
        effect matches Effect::SetLanguage { editor, language } ==> effect.deep_view() == (Effect::<Seq<char>>::SetLanguage { editor, language: language@ }),
        effect is PushDiagnostics ==> effect.deep_view() is PushDiagnostics,
        effect is ShutDownServer ==> effect.deep_view() is ShutDownServer,
        effect is RefreshWindows ==> effect.deep_view() is RefreshWindows,
        effect is CheckForUpdates ==> effect.deep_view() is CheckForUpdates,
        effect is ObserveActivation ==> effect.deep_view() is ObserveActivation,
        effect matches Effect::OpenPage(a) ==> effect.deep_view() == (Effect::<Seq<char>>::OpenPage(a@)),
        effect is RestartIntoUpdate ==> effect.deep_view() is RestartIntoUpdate,
        effect is Quit ==> effect.deep_view() is Quit,
{
}

/// A list of effects is seen in contracts whole and in order.
pub proof fn law_effects_are_seen_in_order(effects: Vec<Effect<String>>, i: int)
    ensures
        told(effects).len() == effects.len(),
        0 <= i < effects.len() ==> told(effects)[i] == effects[i].deep_view(),
{
    reveal(told);
}

/// A point that is known stays, and a server's place is what the document makes of
/// it.
pub proof fn law_known_points_stay(target: Target, converted: Point)
    ensures
        target matches Target::Point(point) ==> target.resolved(converted) == point,
        target is Lsp ==> target.resolved(converted) == converted,
{
}

} // verus!

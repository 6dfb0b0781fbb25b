//! The language server: what is known of it, what the status bar says about
//! it, and which of its copies of a document have fallen behind.

use vstd::prelude::*;
use vstd::string::*;

use crate::paths;
use crate::paths::are_same_path;
use crate::text;
use crate::text::{decimal_text, join2, owned};

verus! {

broadcast use vstd::seq::group_seq_axioms;

/// How long a question to the server waits for its answer, in milliseconds.
pub const NAVIGATION_TIMEOUT: u64 = 30000;

/// How often a question is checked for its answer, in milliseconds.
pub const NAVIGATION_POLL_INTERVAL: u64 = 16;

/// What is known of the server.
pub enum LspState {
    /// None was ever started.
    Idle,
    Starting,
    Running,
    /// There is none to start.
    Unavailable,
    /// It kept dying; the reason is the last one given.
    Failed(String),
}

/// What is known of the server, as contracts see it.
pub enum StateView {
    Idle,
    Starting,
    Running,
    Unavailable,
    Failed(Seq<char>),
}

impl View for LspState {
    type V = StateView;

    open spec fn view(&self) -> StateView {
        match *self {
            LspState::Idle => StateView::Idle,
            LspState::Starting => StateView::Starting,
            LspState::Running => StateView::Running,
            LspState::Unavailable => StateView::Unavailable,
            LspState::Failed(reason) => StateView::Failed(reason@),
        }
    }
}

/// What a server that runs can do.
pub struct Client {
    /// The texts that it declared to open the completion popup.
    pub triggers: Vec<String>,
    pub rename: bool,
}

/// What a server can do, as contracts see it.
pub struct ClientView {
    pub triggers: Seq<Seq<char>>,
    pub rename: bool,
}

impl View for Client {
    type V = ClientView;

    open spec fn view(&self) -> ClientView {
        ClientView { triggers: self.triggers.deep_view(), rename: self.rename }
    }
}

/// The server of the open project.
pub struct Lsp {
    pub state: LspState,
    /// Present while there is a server to talk to.
    pub client: Option<Client>,
    pub root: Option<String>,
    /// How many errors and warnings it reported over all files.
    pub errors: usize,
    pub warnings: usize,
    /// The version of each document that it was last sent.
    pub synced: Vec<(String, u64)>,
    /// How often it was started again because it had stopped.
    pub restarts: u64,
}

/// The server of the open project, as contracts see it.
#[verifier::ext_equal]
pub struct LspView {
    pub state: StateView,
    pub client: Option<ClientView>,
    pub root: Option<Seq<char>>,
    pub errors: usize,
    pub warnings: usize,
    pub synced: Seq<(Seq<char>, u64)>,
    pub restarts: u64,
}

impl View for Lsp {
    type V = LspView;

    open spec fn view(&self) -> LspView {
        LspView {
            state: self.state@,
            client: match self.client {
                Some(client) => Some(client@),
                None => None,
            },
            root: self.root.deep_view(),
            errors: self.errors,
            warnings: self.warnings,
            synced: self.synced.deep_view(),
            restarts: self.restarts,
        }
    }
}

// ---------------------------------------------------------------------------
// The status bar
// ---------------------------------------------------------------------------

/// What the status bar says of the server. One that is missing is not worth a
/// word, unless the file in front of the user is one it would handle.
pub open spec fn label(state: StateView, errors: nat, warnings: nat, php_open: bool) -> Seq<char> {
    match state {
        StateView::Unavailable => if php_open {
            "No language server"@
        } else {
            Seq::empty()
        },
        StateView::Idle => Seq::empty(),
        StateView::Starting => "Starting…"@,
        StateView::Failed(_) => "LSP unavailable"@,
        StateView::Running => if errors == 0 && warnings == 0 {
            Seq::empty()
        } else if warnings == 0 {
            text::decimal(errors) + " ✕"@
        } else if errors == 0 {
            text::decimal(warnings) + " ⚠"@
        } else {
            text::decimal(errors) + " ✕  "@ + text::decimal(warnings) + " ⚠"@
        },
    }
}

/// What the status bar says of the server, which is usually nothing.
pub fn lsp_label(lsp: &Lsp, php_open: bool) -> (line: String)
    ensures
        line@ == label(lsp@.state, lsp@.errors as nat, lsp@.warnings as nat, php_open),
{
    match &lsp.state {
        LspState::Unavailable => if php_open {
            owned("No language server")
        } else {
            String::new()
        },
        LspState::Idle => String::new(),
        LspState::Starting => owned("Starting…"),
        LspState::Failed(_) => owned("LSP unavailable"),
        LspState::Running => {
            if lsp.errors == 0 && lsp.warnings == 0 {
                return String::new();
            }
            let errors = decimal_text(lsp.errors as u64);
            let warnings = decimal_text(lsp.warnings as u64);
            if lsp.warnings == 0 {
                join2(errors.as_str(), " ✕")
            } else if lsp.errors == 0 {
                join2(warnings.as_str(), " ⚠")
            } else {
                let front = join2(errors.as_str(), " ✕  ");
                let both = join2(front.as_str(), warnings.as_str());
                join2(both.as_str(), " ⚠")
            }
        },
    }
}

/// Without a server, and with nothing to report, the status bar is as empty as
/// if there had never been one.
pub proof fn law_silence(state: StateView)
    requires
        state is Idle || state is Unavailable || state is Running,
    ensures
        label(state, 0, 0, false) == Seq::<char>::empty(),
        !(state is Unavailable) ==> label(state, 0, 0, true) == Seq::<char>::empty(),
{
}

// ---------------------------------------------------------------------------
// Definitions
// ---------------------------------------------------------------------------

/// A place that the server names: the file behind its address, where it is
/// one, and the line and character in the server's units.
pub struct Place {
    pub path: Option<String>,
    pub line: u32,
    pub character: u32,
}

/// A link to a definition: the whole of it, and the name in it.
pub struct Link {
    pub path: Option<String>,
    /// Where the declaration begins, its comment included.
    pub range: (u32, u32),
    /// Where its name begins.
    pub selection: (u32, u32),
}

/// The three shapes of an answer.
pub enum GotoDefinitionResponse {
    Scalar(Place),
    Array(Vec<Place>),
    Link(Vec<Link>),
}

/// A place to jump to: the file, and the line and character.
pub type JumpView = (Seq<char>, u32, u32);

/// The place, where its address is that of a file.
pub open spec fn place_of(path: Option<String>, line: u32, character: u32) -> Option<JumpView> {
    match path {
        Some(file) => Some((file@, line, character)),
        None => None,
    }
}

/// The first place that an answer points at. A link lands on the name, not on
/// the declaration around it.
pub open spec fn first_place(response: GotoDefinitionResponse) -> Option<JumpView> {
    match response {
        GotoDefinitionResponse::Scalar(place) => place_of(
            place.path,
            place.line,
            place.character,
        ),
        GotoDefinitionResponse::Array(places) => if places.len() > 0 {
            place_of(places[0].path, places[0].line, places[0].character)
        } else {
            None
        },
        GotoDefinitionResponse::Link(links) => if links.len() > 0 {
            place_of(links[0].path, links[0].selection.0, links[0].selection.1)
        } else {
            None
        },
    }
}

/// A place to jump to.
fn jump_to(path: &Option<String>, line: u32, character: u32) -> (jump: Option<(String, u32, u32)>)
    ensures
        jump.deep_view() == place_of(*path, line, character),
{
    match path {
        Some(file) => Some((file.clone(), line, character)),
        None => None,
    }
}

/// The first place that an answer points at.
pub fn first_location(response: &GotoDefinitionResponse) -> (jump: Option<(String, u32, u32)>)
    ensures
        jump.deep_view() == first_place(*response),
{
    match response {
        GotoDefinitionResponse::Scalar(place) => jump_to(
            &place.path,
            place.line,
            place.character,
        ),
        GotoDefinitionResponse::Array(places) => {
            if places.len() == 0 {
                return None;
            }
            jump_to(&places[0].path, places[0].line, places[0].character)
        },
        GotoDefinitionResponse::Link(links) => {
            if links.len() == 0 {
                return None;
            }
            jump_to(&links[0].path, links[0].selection.0, links[0].selection.1)
        },
    }
}

// ---------------------------------------------------------------------------
// Waiting for an answer
// ---------------------------------------------------------------------------

/// What a look at a pending question comes to.
#[derive(Clone, Copy, PartialEq, Eq, Structural, Debug)]
pub enum PollStep {
    /// The answer is there, or the server said it has none.
    Answered,
    /// Look again in a moment.
    Wait,
    /// Too late: the question is withdrawn.
    TimedOut,
    /// There is no server left to ask.
    ServerGone,
}

/// What a look at a pending question comes to, that long after it was asked.
pub fn poll_query(client: bool, answered: bool, waited: u64) -> (step: PollStep)
    ensures
        step == (if !client {
            PollStep::ServerGone
        } else if answered {
            PollStep::Answered
        } else if waited >= NAVIGATION_TIMEOUT {
            PollStep::TimedOut
        } else {
            PollStep::Wait
        }),
{
    if !client {
        PollStep::ServerGone
    } else if answered {
        PollStep::Answered
    } else if waited >= NAVIGATION_TIMEOUT {
        PollStep::TimedOut
    } else {
        PollStep::Wait
    }
}

// ---------------------------------------------------------------------------
// The ledger of versions
// ---------------------------------------------------------------------------

/// The version of a document that the server was last sent.
pub open spec fn version_sent(synced: Seq<(Seq<char>, u64)>, path: Seq<char>) -> Option<u64>
    decreases synced.len(),
{
    if synced.len() == 0 {
        None
    } else if paths::same_path(synced.last().0, path) {
        Some(synced.last().1)
    } else {
        version_sent(synced.drop_last(), path)
    }
}

/// The ledger without a document.
pub open spec fn forgotten(synced: Seq<(Seq<char>, u64)>, path: Seq<char>) -> Seq<
    (Seq<char>, u64),
>
    decreases synced.len(),
{
    if synced.len() == 0 {
        synced
    } else {
        let before = forgotten(synced.drop_last(), path);
        if paths::same_path(synced.last().0, path) {
            before
        } else {
            before.push(synced.last())
        }
    }
}

/// The ledger with a document at a version.
pub open spec fn recorded(synced: Seq<(Seq<char>, u64)>, path: Seq<char>, version: u64) -> Seq<
    (Seq<char>, u64),
> {
    forgotten(synced, path).push((path, version))
}

impl Lsp {
    /// The version of a document that the server was last sent.
    pub fn synced_version(&self, path: &str) -> (version: Option<u64>)
        ensures
            version == version_sent(self@.synced, path@),
    {
        let mut i: usize = self.synced.len();
        assert(self@.synced.take(i as int) =~= self@.synced);
        while i > 0
            invariant
                i <= self.synced.len(),
                version_sent(self@.synced.take(i as int), path@) == version_sent(
                    self@.synced,
                    path@,
                ),
            decreases i,
        {
            let ghost front = self@.synced.take(i as int);
            assert(front.drop_last() =~= self@.synced.take(i - 1));
            assert(front.last() == self.synced[i - 1].deep_view());
            i -= 1;
            if are_same_path(self.synced[i].0.as_str(), path) {
                return Some(self.synced[i].1);
            }
        }
        None
    }

    /// Forgets what was sent of a document.
    pub fn forget_synced(&mut self, path: &str)
        ensures
            final(self)@ == (LspView {
                synced: forgotten(old(self)@.synced, path@),
                ..old(self)@
            }),
    {
        let mut kept: Vec<(String, u64)> = Vec::new();
        let mut i: usize = 0;
        assert(self@.synced.take(0) =~= Seq::<(Seq<char>, u64)>::empty());
        assert(kept.deep_view() =~= Seq::<(Seq<char>, u64)>::empty());
        while i < self.synced.len()
            invariant
                i <= self.synced.len(),
                *self == *old(self),
                kept.deep_view() == forgotten(self@.synced.take(i as int), path@),
            decreases self.synced.len() - i,
        {
            let ghost gathered = kept.deep_view();
            let ghost front = self@.synced.take(i + 1);
            assert(front.drop_last() =~= self@.synced.take(i as int));
            assert(front.last() == self.synced[i as int].deep_view());
            if !are_same_path(self.synced[i].0.as_str(), path) {
                let entry = (self.synced[i].0.clone(), self.synced[i].1);
                kept.push(entry);
                assert(kept.deep_view() =~= gathered.push(front.last()));
            }
            i += 1;
        }
        assert(self@.synced.take(i as int) =~= self@.synced);
        self.synced = kept;
    }

    /// Records what was sent of a document.
    pub fn record_synced(&mut self, path: &str, version: u64)
        ensures
            final(self)@ == (LspView {
                synced: recorded(old(self)@.synced, path@, version),
                ..old(self)@
            }),
    {
        self.forget_synced(path);
        let ghost before = self@.synced;
        self.synced.push((owned(path), version));
        assert(self.synced.deep_view() =~= before.push((path@, version)));
    }

    /// Records another restart.
    pub fn record_restart(&mut self)
        ensures
            final(self)@ == old(self)@.restarted(),
    {
        if self.restarts < u64::MAX {
            self.restarts = self.restarts + 1;
        }
    }

    /// A server that was never started.
    pub fn new() -> (lsp: Self)
        ensures
            lsp@ == LspView::fresh(),
    {
        let lsp = Lsp {
            state: LspState::Idle,
            client: None,
            root: None,
            errors: 0,
            warnings: 0,
            synced: Vec::new(),
            restarts: 0,
        };
        assert(lsp@.synced =~= Seq::<(Seq<char>, u64)>::empty());
        lsp
    }
}

impl LspView {
    /// A server that was never started.
    pub open spec fn fresh() -> LspView {
        LspView {
            state: StateView::Idle,
            client: None,
            root: None,
            errors: 0,
            warnings: 0,
            synced: Seq::empty(),
            restarts: 0,
        }
    }

    /// With another restart on record.
    pub open spec fn restarted(self) -> LspView {
        LspView {
            restarts: if self.restarts < u64::MAX {
                (self.restarts + 1) as u64
            } else {
                self.restarts
            },
            ..self
        }
    }
}

/// What was recorded of a document is what is found of it, and what is known
/// of the others stays.
pub proof fn law_recorded_version_is_found(
    synced: Seq<(Seq<char>, u64)>,
    path: Seq<char>,
    version: u64,
    other: Seq<char>,
)
    ensures
        version_sent(recorded(synced, path, version), path) == Some(version),
        !paths::same_path(path, other) ==> version_sent(recorded(synced, path, version), other)
            == version_sent(synced, other),
{
    let all = recorded(synced, path, version);
    assert(all.drop_last() =~= forgotten(synced, path));
    if !paths::same_path(path, other) {
        lemma_forgotten(synced, path, other);
    }
}

/// A document that was forgotten counts as never sent, so it is sent again.
pub proof fn law_forgotten_document_is_sent_again(
    synced: Seq<(Seq<char>, u64)>,
    path: Seq<char>,
)
    ensures
        version_sent(forgotten(synced, path), path) is None,
    decreases synced.len(),
{
    if synced.len() > 0 {
        law_forgotten_document_is_sent_again(synced.drop_last(), path);
        let before = forgotten(synced.drop_last(), path);
        assert(before.push(synced.last()).drop_last() =~= before);
    }
}

/// Forgetting a document keeps what is known of the others.
proof fn lemma_forgotten(synced: Seq<(Seq<char>, u64)>, path: Seq<char>, other: Seq<char>)
    requires
        !paths::same_path(path, other),
    ensures
        version_sent(forgotten(synced, path), other) == version_sent(synced, other),
    decreases synced.len(),
{
    if synced.len() > 0 {
        lemma_forgotten(synced.drop_last(), path, other);
        let before = forgotten(synced.drop_last(), path);
        assert(before.push(synced.last()).drop_last() =~= before);
    }
}

/// The status bar counts errors and warnings while the server runs, each only
/// where there are some, and says why there are none to count.
pub proof fn law_label_counts_problems(errors: nat, warnings: nat, reason: Seq<char>, php: bool)
    ensures
        errors > 0 && warnings > 0 ==> label(StateView::Running, errors, warnings, php)
            == text::decimal(errors) + " ✕  "@ + text::decimal(warnings) + " ⚠"@,
        errors > 0 && warnings == 0 ==> label(StateView::Running, errors, warnings, php)
            == text::decimal(errors) + " ✕"@,
        errors == 0 && warnings > 0 ==> label(StateView::Running, errors, warnings, php)
            == text::decimal(warnings) + " ⚠"@,
        label(StateView::Starting, errors, warnings, php) == "Starting…"@,
        label(StateView::Failed(reason), errors, warnings, php) == "LSP unavailable"@,
        label(StateView::Unavailable, errors, warnings, true) == "No language server"@,
        label(StateView::Unavailable, errors, warnings, false).len() == 0,
        label(StateView::Idle, errors, warnings, php).len() == 0,
{
}

/// A definition is the first place that the server named, at its own line and
/// character, a link's where it selects; a place outside any file is none.
pub proof fn law_definition_is_the_first_place(response: GotoDefinitionResponse)
    ensures
        response matches GotoDefinitionResponse::Scalar(place) ==> {
            &&& place.path matches Some(path) ==> first_place(response) == Some(
                (path@, place.line, place.character),
            )
            &&& place.path is None ==> first_place(response) is None
        },
        response matches GotoDefinitionResponse::Array(places) ==> {
            &&& places.len() == 0 ==> first_place(response) is None
            &&& places.len() > 0 && places[0].path is Some ==> first_place(response) == Some(
                (places[0].path->0@, places[0].line, places[0].character),
            )
            &&& places.len() > 0 && places[0].path is None ==> first_place(response) is None
        },
        response matches GotoDefinitionResponse::Link(links) ==> {
            &&& links.len() == 0 ==> first_place(response) is None
            &&& links.len() > 0 && links[0].path is Some ==> first_place(response) == Some(
                (links[0].path->0@, links[0].selection.0, links[0].selection.1),
            )
            &&& links.len() > 0 && links[0].path is None ==> first_place(response) is None
        },
{
}

/// The version a server has of a document is the last one recorded of it, and
/// there is one exactly where some was.
pub proof fn law_last_version_counts(synced: Seq<(Seq<char>, u64)>, path: Seq<char>)
    ensures
        version_sent(synced, path) matches Some(version) ==> exists|i: int|
            0 <= i < synced.len() && paths::same_path((#[trigger] synced[i]).0, path) && synced[i].1
                == version && forall|j: int|
                i < j < synced.len() ==> !paths::same_path((#[trigger] synced[j]).0, path),
        version_sent(synced, path) is None ==> forall|i: int|
            0 <= i < synced.len() ==> !paths::same_path((#[trigger] synced[i]).0, path),
    decreases synced.len(),
{
    if synced.len() > 0 {
        if paths::same_path(synced.last().0, path) {
            assert(synced[synced.len() - 1] == synced.last());
        } else {
            let before = synced.drop_last();
            law_last_version_counts(before, path);
            if let Some(version) = version_sent(before, path) {
                let i = choose|i: int|
                    0 <= i < before.len() && paths::same_path((#[trigger] before[i]).0, path)
                        && before[i].1 == version && forall|j: int|
                        i < j < before.len() ==> !paths::same_path((#[trigger] before[j]).0, path);
                assert(synced[i] == before[i]);
                assert forall|j: int| i < j < synced.len() implies !paths::same_path(
                    (#[trigger] synced[j]).0,
                    path,
                ) by {
                    if j < synced.len() - 1 {
                        assert(before[j] == synced[j]);
                    }
                }
            } else {
                assert forall|i: int| 0 <= i < synced.len() implies !paths::same_path(
                    (#[trigger] synced[i]).0,
                    path,
                ) by {
                    if i < synced.len() - 1 {
                        assert(before[i] == synced[i]);
                    }
                }
            }
        }
    }
}

/// Forgetting a document takes out what was recorded of it and keeps the rest in
/// order; recording one then adds it at the end.
pub proof fn law_forgetting_keeps_the_others(
    synced: Seq<(Seq<char>, u64)>,
    path: Seq<char>,
    version: u64,
)
    ensures
        forgotten(synced, path) == synced.filter(
            |sent: (Seq<char>, u64)| !paths::same_path(sent.0, path),
        ),
        recorded(synced, path, version).last() == (path, version),
        recorded(synced, path, version).drop_last() == forgotten(synced, path),
    decreases synced.len(),
{
    reveal(Seq::filter);
    if synced.len() > 0 {
        law_forgetting_keeps_the_others(synced.drop_last(), path, version);
    }
    assert(recorded(synced, path, version).drop_last() =~= forgotten(synced, path));
}

/// A server that was not started has heard of nothing, and a restart counts as
/// one more and changes nothing else.
pub proof fn law_restarts_are_counted(lsp: LspView)
    ensures
        LspView::fresh().state is Idle,
        LspView::fresh().client is None,
        LspView::fresh().root is None,
        LspView::fresh().synced.len() == 0,
        LspView::fresh().errors == 0,
        LspView::fresh().warnings == 0,
        LspView::fresh().restarts == 0,
        lsp.restarts < u64::MAX ==> lsp.restarted().restarts == lsp.restarts + 1,
        lsp.restarted().synced == lsp.synced,
        lsp.restarted().state == lsp.state,
        lsp.restarted().client == lsp.client,
        lsp.restarted().root == lsp.root,
{
}

} // verus!

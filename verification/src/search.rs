//! Finding text: the bar's count, and the project-wide search.

use vstd::prelude::*;
use vstd::string::*;

use crate::palette::Point;
use crate::text;
use crate::text::{decimal_text, join3, owned};

verus! {

broadcast use vstd::seq::group_seq_axioms;

/// How long a keystroke in the search field waits before searching, in
/// milliseconds.
pub const SEARCH_DEBOUNCE: u64 = 250;

/// How long the editor waits after the last keystroke before it saves, in
/// milliseconds.
pub const AUTOSAVE_DEBOUNCE: u64 = 150;

// ---------------------------------------------------------------------------
// The find bar
// ---------------------------------------------------------------------------

/// What the find bar's count area says.
#[derive(Clone, Copy, PartialEq, Eq, Structural, Debug)]
pub enum Status {
    /// The document is too large to search.
    TooLarge,
    InvalidRegex,
    /// Nothing is searched for.
    Empty,
    /// The match that is selected, and how many there are.
    Counted { current: usize, total: usize },
}

/// What the find bar's count area says: no query, no results and a bad pattern
/// are three different things.
pub fn search_status(too_large: bool, invalid: bool, position: Option<(usize, usize)>) -> (status:
    Status)
    ensures
        status == (if too_large {
            Status::TooLarge
        } else if invalid {
            Status::InvalidRegex
        } else {
            match position {
                None => Status::Empty,
                Some((current, total)) => Status::Counted { current, total },
            }
        }),
{
    if too_large {
        return Status::TooLarge;
    }
    if invalid {
        return Status::InvalidRegex;
    }
    match position {
        None => Status::Empty,
        Some((current, total)) => Status::Counted { current, total },
    }
}

/// What the status bar says after every match was replaced.
pub open spec fn replaced_text(count: nat) -> Seq<char> {
    if count == 0 {
        "Nothing to replace"@
    } else if count == 1 {
        "Replaced 1 occurrence"@
    } else {
        "Replaced "@ + text::decimal(count) + " occurrences"@
    }
}

/// What the status bar says after every match was replaced.
pub fn replaced_status(count: usize) -> (line: String)
    ensures
        line@ == replaced_text(count as nat),
{
    if count == 0 {
        owned("Nothing to replace")
    } else if count == 1 {
        owned("Replaced 1 occurrence")
    } else {
        join3("Replaced ", decimal_text(count as u64).as_str(), " occurrences")
    }
}

// ---------------------------------------------------------------------------
// The project search
// ---------------------------------------------------------------------------

/// A line with a match.
#[derive(Clone, Copy, PartialEq, Eq, Structural, Debug)]
pub struct Hit {
    pub row: u32,
    pub column: u32,
}

/// The matches of one file.
pub struct FileMatches {
    pub path: String,
    pub lines: Vec<Hit>,
}

/// The matches of one file, as contracts see it.
pub struct MatchesView {
    pub path: Seq<char>,
    pub lines: Seq<Hit>,
}

impl vstd::view::DeepView for FileMatches {
    type V = MatchesView;

    open spec fn deep_view(&self) -> MatchesView {
        MatchesView { path: self.path@, lines: self.lines@ }
    }
}

/// How far a search is. One that runs still shows what the last one found.
pub enum SearchState {
    Idle,
    Searching(Vec<FileMatches>),
    Done(Vec<FileMatches>),
}

/// How far a search is, as contracts see it.
pub enum SearchStateView {
    Idle,
    Searching(Seq<MatchesView>),
    Done(Seq<MatchesView>),
}

impl View for SearchState {
    type V = SearchStateView;

    open spec fn view(&self) -> SearchStateView {
        match *self {
            SearchState::Idle => SearchStateView::Idle,
            SearchState::Searching(files) => SearchStateView::Searching(files.deep_view()),
            SearchState::Done(files) => SearchStateView::Done(files.deep_view()),
        }
    }
}

impl SearchStateView {
    /// What is on screen.
    pub open spec fn results(self) -> Seq<MatchesView> {
        match self {
            SearchStateView::Idle => Seq::empty(),
            SearchStateView::Searching(files) => files,
            SearchStateView::Done(files) => files,
        }
    }
}

/// The search panel.
pub struct SearchPanel {
    pub query: String,
    pub state: SearchState,
}

/// The search panel as contracts see it.
pub struct SearchView {
    pub query: Seq<char>,
    pub state: SearchStateView,
}

impl View for SearchPanel {
    type V = SearchView;

    open spec fn view(&self) -> SearchView {
        SearchView { query: self.query@, state: self.state@ }
    }
}

impl SearchView {
    /// A panel with nothing in its field.
    pub open spec fn fresh() -> SearchView {
        SearchView { query: Seq::empty(), state: SearchStateView::Idle }
    }

    /// With a search begun: an empty field goes back to nothing, any other
    /// keeps what is on screen until there is something new.
    pub open spec fn begun(self) -> SearchView {
        SearchView {
            state: if self.query.len() == 0 {
                SearchStateView::Idle
            } else {
                SearchStateView::Searching(self.state.results())
            },
            ..self
        }
    }

    /// With what a search found.
    pub open spec fn found(self, files: Seq<MatchesView>) -> SearchView {
        SearchView { state: SearchStateView::Done(files), ..self }
    }

    /// The place behind a row of the results.
    pub open spec fn place(self, file: int, line: int) -> Option<(Seq<char>, Point)> {
        let files = self.state.results();
        if 0 <= file < files.len() && 0 <= line < files[file].lines.len() {
            let hit = files[file].lines[line];
            Some(
                (
                    files[file].path,
                    Point { row: hit.row as usize, column: hit.column as usize },
                ),
            )
        } else {
            None
        }
    }
}

impl SearchPanel {
    /// A panel with nothing in its field.
    pub fn new() -> (panel: Self)
        ensures
            panel@ == SearchView::fresh(),
    {
        SearchPanel { query: String::new(), state: SearchState::Idle }
    }

    /// Begins a search, if there is anything to search for.
    pub fn begin(&mut self) -> (searches: bool)
        ensures
            final(self)@ == old(self)@.begun(),
            searches == (old(self)@.query.len() > 0),
    {
        if self.query.as_str().is_empty() {
            self.state = SearchState::Idle;
            return false;
        }
        let mut shown = SearchState::Idle;
        std::mem::swap(&mut shown, &mut self.state);
        let files = match shown {
            SearchState::Idle => {
                let none: Vec<FileMatches> = Vec::new();
                assert(none.deep_view() =~= Seq::<MatchesView>::empty());
                none
            },
            SearchState::Searching(files) => files,
            SearchState::Done(files) => files,
        };
        self.state = SearchState::Searching(files);
        true
    }

    /// A search ended.
    pub fn finish(&mut self, files: Vec<FileMatches>)
        ensures
            final(self)@ == old(self)@.found(files.deep_view()),
    {
        self.state = SearchState::Done(files);
    }

    /// The place behind a row of the results.
    pub fn place_at(&self, file: usize, line: usize) -> (place: Option<(String, Point)>)
        ensures
            place.deep_view() == self@.place(file as int, line as int),
    {
        let files = match &self.state {
            SearchState::Idle => {
                return None;
            },
            SearchState::Searching(files) => files,
            SearchState::Done(files) => files,
        };
        if file >= files.len() {
            return None;
        }
        let found = &files[file];
        assert(files.deep_view()[file as int] == found.deep_view());
        if line >= found.lines.len() {
            return None;
        }
        let hit = found.lines[line];
        Some((found.path.clone(), Point { row: hit.row as usize, column: hit.column as usize }))
    }
}

/// A search that supersedes another leaves on screen what was there.
pub proof fn law_results_stay_while_searching(panel: SearchView)
    requires
        panel.query.len() > 0,
    ensures
        panel.begun().state.results() == panel.state.results(),
{
}

/// A search is under way while there is a query, and over without one; what was
/// found is what the search handed back, whatever was there before.
pub proof fn law_search_follows_its_query(panel: SearchView, files: Seq<MatchesView>)
    ensures
        panel.query.len() == 0 ==> panel.begun().state is Idle && panel.begun().state.results().len()
            == 0,
        panel.query.len() > 0 ==> panel.begun().state is Searching,
        panel.begun().query == panel.query,
        panel.found(files).state is Done,
        panel.found(files).state.results() == files,
        panel.found(files).query == panel.query,
        SearchView::fresh().query.len() == 0,
        SearchView::fresh().state is Idle,
        SearchStateView::Idle.results().len() == 0,
{
}

/// A row leads to its own file and to the line and column of its own match; a
/// row that is not there leads nowhere.
pub proof fn law_result_leads_to_its_match(panel: SearchView, file: int, line: int)
    ensures
        0 <= file < panel.state.results().len() && 0 <= line
            < panel.state.results()[file].lines.len() ==> {
            let hit = panel.state.results()[file].lines[line];
            &&& panel.place(file, line) matches Some((path, point))
            &&& path == panel.state.results()[file].path
            &&& point.row == hit.row as usize
            &&& point.column == hit.column as usize
        },
        file < 0 || file >= panel.state.results().len() ==> panel.place(file, line) is None,
        0 <= file < panel.state.results().len() && (line < 0 || line
            >= panel.state.results()[file].lines.len()) ==> panel.place(file, line) is None,
{
}

/// How many were replaced is said in so many words.
pub proof fn law_replacing_says_how_many(count: nat)
    ensures
        count == 0 ==> replaced_text(count) == "Nothing to replace"@,
        count == 1 ==> replaced_text(count) == "Replaced 1 occurrence"@,
        count > 1 ==> replaced_text(count) == "Replaced "@ + text::decimal(count)
            + " occurrences"@,
{
}

} // verus!

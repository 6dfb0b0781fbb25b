//! The test panel: what a run is doing, and where its failures are.
//!
//! It never shows a verdict it does not have: output that could not be read is
//! shown as itself, under a heading that says so. Pass and fail are never told
//! by colour alone.

use vstd::prelude::*;
use vstd::string::*;

use crate::disk::Disk;
use crate::palette::Point;
use crate::paths;
use crate::paths::join_path;
use crate::text;
use crate::text::{decimal_text, join2, join3, lines_of, owned, trimmed};
use crate::theme::Theme;

verus! {

broadcast use vstd::seq::group_seq_axioms;

/// What the panel is doing.
#[derive(PartialEq, Eq, Debug)]
pub enum RunState {
    /// No run has happened yet.
    Idle,
    /// A run is in flight.
    Running { command: String },
    /// A run finished on its own.
    Finished { command: String, code: Option<i32> },
    /// A run was cancelled by the user.
    Cancelled { command: String },
    /// The run could not be started at all, which is not a suite that failed.
    Failed { message: String },
}

/// A run's state as contracts see it.
pub enum RunView {
    Idle,
    Running { command: Seq<char> },
    Finished { command: Seq<char>, code: Option<i32> },
    Cancelled { command: Seq<char> },
    Failed { message: Seq<char> },
}

impl View for RunState {
    type V = RunView;

    open spec fn view(&self) -> RunView {
        match *self {
            RunState::Idle => RunView::Idle,
            RunState::Running { command } => RunView::Running { command: command@ },
            RunState::Finished { command, code } => RunView::Finished { command: command@, code },
            RunState::Cancelled { command } => RunView::Cancelled { command: command@ },
            RunState::Failed { message } => RunView::Failed { message: message@ },
        }
    }
}

/// How a run's process came to its end.
pub enum Outcome {
    Exited { code: Option<i32> },
    Cancelled,
    /// It could not be started, or was lost.
    Broken { message: String },
}

/// The state that the end of a run leads to.
pub open spec fn ended(command: Seq<char>, outcome: Outcome) -> RunView {
    match outcome {
        Outcome::Exited { code } => RunView::Finished { command, code },
        Outcome::Cancelled => RunView::Cancelled { command },
        Outcome::Broken { message } => RunView::Failed { message: message@ },
    }
}

/// The state that the end of a run leads to.
pub fn run_ended(command: String, outcome: Outcome) -> (state: RunState)
    ensures
        state@ == ended(command@, outcome),
{
    match outcome {
        Outcome::Exited { code } => RunState::Finished { command, code },
        Outcome::Cancelled => RunState::Cancelled { command },
        Outcome::Broken { message } => RunState::Failed { message },
    }
}

impl RunView {
    /// The command of the run, where there was one.
    pub open spec fn command_text(self) -> Option<Seq<char>> {
        match self {
            RunView::Running { command } => Some(command),
            RunView::Finished { command, .. } => Some(command),
            RunView::Cancelled { command } => Some(command),
            _ => None,
        }
    }
}

impl RunState {
    /// The command of the run, where there was one.
    pub fn command(&self) -> (command: Option<&str>)
        ensures
            command is Some == self@.command_text() is Some,
            command matches Some(found) ==> self@.command_text() == Some(found@),
    {
        match self {
            RunState::Running { command } => Some(command.as_str()),
            RunState::Finished { command, .. } => Some(command.as_str()),
            RunState::Cancelled { command } => Some(command.as_str()),
            _ => None,
        }
    }
}

/// How a test came out.
#[derive(Clone, Copy, PartialEq, Eq, Structural, Debug)]
pub enum Status {
    Running,
    Passed,
    Failed,
    Skipped,
}

/// A place that a runner printed, the line counted from one.
pub struct Location {
    pub path: String,
    pub line: u32,
}

/// One test of a run.
pub struct TestCase {
    pub name: String,
    pub status: Status,
    /// The mark in front of its name.
    pub glyph: String,
    pub message: Option<String>,
    pub location: Option<Location>,
}

/// A test as contracts see it.
pub struct CaseView {
    pub name: Seq<char>,
    pub status: Status,
    pub glyph: Seq<char>,
    pub message: Option<Seq<char>>,
    /// The path and the line, counted from one.
    pub location: Option<(Seq<char>, u32)>,
}

impl vstd::view::DeepView for TestCase {
    type V = CaseView;

    open spec fn deep_view(&self) -> CaseView {
        CaseView {
            name: self.name@,
            status: self.status,
            glyph: self.glyph@,
            message: self.message.deep_view(),
            location: match self.location {
                Some(location) => Some((location.path@, location.line)),
                None => None,
            },
        }
    }
}

/// What a run reported so far.
pub struct Report {
    pub tests: Vec<TestCase>,
    /// Lines that could not be read as results.
    pub output: Vec<String>,
    pub passed: usize,
    pub failed: usize,
    pub skipped: usize,
    /// The counts in words and marks; empty before the first result.
    pub summary: String,
}

/// A report as contracts see it.
#[verifier::ext_equal]
pub struct ReportView {
    pub tests: Seq<CaseView>,
    pub output: Seq<Seq<char>>,
    pub passed: usize,
    pub failed: usize,
    pub skipped: usize,
    pub summary: Seq<char>,
}

impl View for Report {
    type V = ReportView;

    open spec fn view(&self) -> ReportView {
        ReportView {
            tests: self.tests.deep_view(),
            output: self.output.deep_view(),
            passed: self.passed,
            failed: self.failed,
            skipped: self.skipped,
            summary: self.summary@,
        }
    }
}

/// A report of nothing.
pub open spec fn blank() -> ReportView {
    ReportView {
        tests: Seq::empty(),
        output: Seq::empty(),
        passed: 0,
        failed: 0,
        skipped: 0,
        summary: Seq::empty(),
    }
}

impl Report {
    /// A report of nothing.
    pub fn new() -> (report: Self)
        ensures
            report@ == blank(),
    {
        Report {
            tests: Vec::new(),
            output: Vec::new(),
            passed: 0,
            failed: 0,
            skipped: 0,
            summary: String::new(),
        }
    }
}

/// Which tests to run.
pub enum Scope {
    All,
    File(String),
    Names(Vec<String>),
    Name(String),
}

/// How many unread lines are shown.
pub const MAX_RAW_LINES: usize = 50;

/// The bottom test panel.
pub struct TestView {
    /// Whether the open project has a test framework.
    pub runner: bool,
    pub state: RunState,
    pub report: Report,
}

/// The panel as contracts see it.
#[verifier::ext_equal]
pub struct PanelView {
    pub runner: bool,
    pub state: RunView,
    pub report: ReportView,
}

impl View for TestView {
    type V = PanelView;

    open spec fn view(&self) -> PanelView {
        PanelView { runner: self.runner, state: self.state@, report: self.report@ }
    }
}

impl PanelView {
    /// A panel that has run nothing, in a project with or without a runner.
    pub open spec fn fresh(runner: bool) -> PanelView {
        PanelView { runner, state: RunView::Idle, report: blank() }
    }

    /// After a run has begun. A rerun of named tests keeps the rows of the
    /// others; every other scope starts from nothing.
    pub open spec fn begun(self, command: Seq<char>, named: bool) -> PanelView {
        PanelView {
            state: RunView::Running { command },
            report: if named {
                self.report
            } else {
                blank()
            },
            ..self
        }
    }
}

/// The status bar's words for a run.
pub open spec fn summary_text(state: RunView, progress: Seq<char>) -> Seq<char> {
    match state {
        RunView::Running { .. } => if progress.len() == 0 {
            "Tests: running…"@
        } else {
            "Tests: "@ + progress + " running…"@
        },
        RunView::Finished { .. } | RunView::Cancelled { .. } => if progress.len() == 0 {
            Seq::empty()
        } else {
            "Tests: "@ + progress
        },
        RunView::Idle | RunView::Failed { .. } => Seq::empty(),
    }
}

/// The status bar's words for a run. A project without one says nothing.
pub fn summarise(state: &RunState, report: &Report) -> (line: String)
    ensures
        line@ == summary_text(state@, report.summary@),
{
    let progress = report.summary.as_str();
    match state {
        RunState::Running { .. } => if progress.is_empty() {
            owned("Tests: running…")
        } else {
            join3("Tests: ", progress, " running…")
        },
        RunState::Finished { .. } | RunState::Cancelled { .. } => if progress.is_empty() {
            String::new()
        } else {
            join2("Tests: ", progress)
        },
        RunState::Idle | RunState::Failed { .. } => String::new(),
    }
}

/// The first line of a failure message, trimmed.
pub open spec fn first_line_of(message: Seq<char>) -> Seq<char> {
    if text::lines(message).len() == 0 {
        Seq::empty()
    } else {
        text::trim(text::lines(message)[0])
    }
}

/// The first line of a failure message: what a row has room for.
pub fn first_line(message: &str) -> (line: String)
    ensures
        line@ == first_line_of(message@),
{
    let lines = lines_of(message);
    if lines.len() == 0 {
        String::new()
    } else {
        assert(lines.deep_view()[0] == lines[0]@);
        trimmed(lines[0].as_str())
    }
}

/// The panel's header.
pub struct TestHeader {
    pub status: String,
    pub color: u32,
    /// The command exactly as it was run.
    pub command: Option<String>,
}

/// A row of the panel.
pub struct TestRow {
    pub glyph: String,
    pub name: String,
    pub color: u32,
    /// Whether a click jumps somewhere.
    pub clickable: bool,
    pub message: Option<String>,
}

/// Output that could not be read as results.
pub struct RawOutput {
    pub heading: String,
    pub lines: Vec<String>,
    /// How much was left out, where anything was.
    pub more: Option<String>,
}

/// The panel below its header.
pub struct TestBody {
    pub rows: Vec<TestRow>,
    pub output: Option<RawOutput>,
}

/// A test's row.
pub open spec fn shows_test(row: TestRow, test: CaseView, theme: Theme) -> bool {
    &&& row.glyph@ == test.glyph
    &&& row.name@ == test.name
    &&& row.color == (match test.status {
        Status::Failed => theme.error,
        Status::Skipped | Status::Running => theme.text_muted,
        Status::Passed => theme.text,
    })
    &&& row.clickable == test.location is Some
    &&& row.message.deep_view() == (match test.message {
        Some(message) => if test.status is Failed {
            Some(first_line_of(message))
        } else {
            None
        },
        None => None,
    })
}

/// The lines that are shown of those that could not be read.
pub open spec fn shown_lines(all: Seq<Seq<char>>) -> Seq<Seq<char>> {
    if all.len() > MAX_RAW_LINES {
        all.take(MAX_RAW_LINES as int)
    } else {
        all
    }
}

/// The part of the panel for lines that could not be read.
pub open spec fn shows_output(raw: RawOutput, all: Seq<Seq<char>>) -> bool {
    &&& raw.heading@ == "Output that could not be read as test results:"@
    &&& raw.lines.deep_view() == shown_lines(all)
    &&& raw.more.deep_view() == (if all.len() > MAX_RAW_LINES {
        Some("… and "@ + text::decimal((all.len() - MAX_RAW_LINES) as nat) + " more lines"@)
    } else {
        None
    })
}

/// The header's words.
pub open spec fn header_text(state: RunView, report: ReportView) -> Seq<char> {
    let summary = report.summary;
    let none = report.passed == 0 && report.failed == 0 && report.skipped == 0;
    match state {
        RunView::Idle => "No tests run yet"@,
        RunView::Running { .. } => if summary.len() == 0 {
            "Running…"@
        } else {
            "Running…  "@ + summary
        },
        RunView::Cancelled { .. } => "Cancelled  "@ + summary,
        RunView::Finished { code, .. } => if code == Some(0i32) {
            if none {
                "No tests matched"@
            } else {
                "Passed  "@ + summary
            }
        } else if summary.len() == 0 {
            "The runner exited without reporting tests"@
        } else {
            "Failed  "@ + summary
        },
        RunView::Failed { message } => message,
    }
}

impl TestView {
    /// A panel that has run nothing.
    pub fn new() -> (view: Self)
        ensures
            view@ == PanelView::fresh(false),
    {
        TestView { runner: false, state: RunState::Idle, report: Report::new() }
    }

    /// Starts a run. A rerun of named tests keeps the rows of the others;
    /// every other scope starts from nothing, for old verdicts could not be
    /// told from new ones.
    pub fn begin(&mut self, command: String, scope: &Scope)
        ensures
            final(self)@ == old(self)@.begun(command@, scope is Names || scope is Name),
    {
        match scope {
            Scope::Names(_) | Scope::Name(_) => {},
            _ => {
                self.report = Report::new();
            },
        }
        self.state = RunState::Running { command };
    }

    /// A result came in.
    pub fn push(&mut self, report: Report)
        ensures
            final(self)@ == (PanelView { report: report@, ..old(self)@ }),
    {
        self.report = report;
    }

    /// The run ended.
    pub fn finish(&mut self, state: RunState)
        ensures
            final(self)@ == (PanelView { state: state@, ..old(self)@ }),
    {
        self.state = state;
    }

    /// A line for the status bar.
    pub fn summary(&self) -> (line: String)
        ensures
            line@ == summary_text(self@.state, self@.report.summary),
    {
        summarise(&self.state, &self.report)
    }

    /// The header: how the run stands, and the command behind it. An exit code
    /// of zero with no tests is not a pass.
    pub fn render_header(&self, theme: &Theme) -> (header: TestHeader)
        ensures
            header.status@ == header_text(self@.state, self@.report),
            header.color == (if self.state is Failed || (self.state is Finished
                && self.report.failed > 0) {
                theme.error
            } else {
                theme.text
            }),
            header.command.deep_view() == self@.state.command_text(),
    {
        let report = &self.report;
        let summary = report.summary.as_str();
        let status = match &self.state {
            RunState::Idle => owned("No tests run yet"),
            RunState::Running { .. } => if summary.is_empty() {
                owned("Running…")
            } else {
                join2("Running…  ", summary)
            },
            RunState::Cancelled { .. } => join2("Cancelled  ", summary),
            RunState::Finished { code, .. } => {
                let clean = match code {
                    Some(number) => *number == 0,
                    None => false,
                };
                if clean {
                    if report.passed == 0 && report.failed == 0 && report.skipped == 0 {
                        owned("No tests matched")
                    } else {
                        join2("Passed  ", summary)
                    }
                } else if summary.is_empty() {
                    owned("The runner exited without reporting tests")
                } else {
                    join2("Failed  ", summary)
                }
            },
            RunState::Failed { message } => message.clone(),
        };
        let color = match &self.state {
            RunState::Failed { .. } => theme.error,
            RunState::Finished { .. } => if report.failed > 0 {
                theme.error
            } else {
                theme.text
            },
            _ => theme.text,
        };
        let command = match self.state.command() {
            Some(command) => Some(owned(command)),
            None => None,
        };
        TestHeader { status, color, command }
    }

    /// The rows, and under them the output that could not be read.
    pub fn render_body(&self, theme: &Theme) -> (body: TestBody)
        ensures
            body.rows.len() == self.report.tests.len(),
            forall|i: int|
                0 <= i < body.rows.len() ==> shows_test(
                    #[trigger] body.rows[i],
                    self@.report.tests[i],
                    *theme,
                ),
            body.output is Some == (self@.report.output.len() > 0),
            body.output matches Some(raw) ==> shows_output(raw, self@.report.output),
    {
        let mut rows: Vec<TestRow> = Vec::new();
        let mut i: usize = 0;
        while i < self.report.tests.len()
            invariant
                i <= self.report.tests.len(),
                rows.len() == i,
                forall|k: int|
                    0 <= k < i ==> shows_test(#[trigger] rows[k], self@.report.tests[k], *theme),
            decreases self.report.tests.len() - i,
        {
            assert(self@.report.tests[i as int] == self.report.tests[i as int].deep_view());
            rows.push(test_row(&self.report.tests[i], theme));
            i += 1;
        }
        let output = if self.report.output.len() > 0 {
            Some(raw_output(&self.report.output))
        } else {
            None
        };
        TestBody { rows, output }
    }

    /// The names of the tests that failed in the last run, and so the scope of
    /// a rerun. `None` where nothing failed: that reruns nothing, not all.
    pub fn failed_scope(&self) -> (scope: Option<Scope>)
        ensures
            scope is Some == (failed_names(self@.report.tests).len() > 0),
            scope matches Some(chosen) ==> chosen matches Scope::Names(names) && names.deep_view()
                == failed_names(self@.report.tests),
    {
        let mut names: Vec<String> = Vec::new();
        let mut i: usize = 0;
        let ghost tests = self@.report.tests;
        assert(tests.take(0) =~= Seq::<CaseView>::empty());
        assert(names.deep_view() =~= Seq::<Seq<char>>::empty());
        while i < self.report.tests.len()
            invariant
                i <= self.report.tests.len(),
                tests == self@.report.tests,
                names.deep_view() == failed_names(tests.take(i as int)),
            decreases self.report.tests.len() - i,
        {
            let ghost before = names.deep_view();
            assert(tests.take(i + 1).drop_last() =~= tests.take(i as int));
            assert(tests.take(i + 1).last() == tests[i as int]);
            let test = &self.report.tests[i];
            assert(tests[i as int] == test.deep_view());
            if test.status == Status::Failed {
                names.push(test.name.clone());
                assert(names.deep_view() =~= before.push(tests[i as int].name));
            }
            i += 1;
        }
        assert(tests.take(i as int) =~= tests);
        assert(names.deep_view().len() == names.len());
        if names.len() == 0 {
            None
        } else {
            Some(Scope::Names(names))
        }
    }
}

/// The names of the tests that failed, in order.
pub open spec fn failed_names(tests: Seq<CaseView>) -> Seq<Seq<char>>
    decreases tests.len(),
{
    if tests.len() == 0 {
        Seq::empty()
    } else {
        let before = failed_names(tests.drop_last());
        if tests.last().status is Failed {
            before.push(tests.last().name)
        } else {
            before
        }
    }
}

/// A test's row.
fn test_row(test: &TestCase, theme: &Theme) -> (row: TestRow)
    ensures
        shows_test(row, test.deep_view(), *theme),
{
    let color = match test.status {
        Status::Failed => theme.error,
        Status::Skipped => theme.text_muted,
        Status::Running => theme.text_muted,
        Status::Passed => theme.text,
    };
    let message = match &test.message {
        Some(message) => if test.status == Status::Failed {
            Some(first_line(message.as_str()))
        } else {
            None
        },
        None => None,
    };
    TestRow {
        glyph: test.glyph.clone(),
        name: test.name.clone(),
        color,
        clickable: test.location.is_some(),
        message,
    }
}

/// The part of the panel for lines that could not be read.
fn raw_output(all: &Vec<String>) -> (raw: RawOutput)
    ensures
        shows_output(raw, all.deep_view()),
{
    let shown: usize = if all.len() > MAX_RAW_LINES {
        MAX_RAW_LINES
    } else {
        all.len()
    };
    let mut lines: Vec<String> = Vec::new();
    let mut i: usize = 0;
    while i < shown
        invariant
            i <= shown <= all.len(),
            lines.deep_view() == all.deep_view().take(i as int),
        decreases shown - i,
    {
        let ghost before = lines.deep_view();
        lines.push(all[i].clone());
        assert(lines.deep_view() =~= before.push(all[i as int]@));
        assert(all.deep_view().take(i + 1) =~= all.deep_view().take(i as int).push(
            all[i as int]@,
        ));
        i += 1;
    }
    assert(all.deep_view().take(all.len() as int) =~= all.deep_view());
    let more = if all.len() > MAX_RAW_LINES {
        let left = decimal_text((all.len() - MAX_RAW_LINES) as u64);
        Some(join3("… and ", left.as_str(), " more lines"))
    } else {
        None
    };
    RawOutput { heading: owned("Output that could not be read as test results:"), lines, more }
}

/// Where a click on a test's row leads: into the file that its runner named,
/// where that is a file. A relative path is one below the project's root, and
/// runners count lines from one.
pub open spec fn jump_of(test: CaseView, root: Option<Seq<char>>, disk: Disk) -> Option<
    (Seq<char>, Point),
> {
    match (test.location, root) {
        (Some((below, line)), Some(root)) => {
            let path = paths::join(root, below);
            if disk.is_file(path) {
                Some(
                    (
                        path,
                        Point {
                            row: (if line > 0 {
                                line - 1
                            } else {
                                0
                            }) as usize,
                            column: 0,
                        },
                    ),
                )
            } else {
                None
            }
        },
        _ => None,
    }
}

/// Where a click on a test's row leads.
pub fn jump_target(test: &TestCase, root: Option<&str>, disk: &Disk) -> (target: Option<
    (String, Point),
>)
    ensures
        target.deep_view() == jump_of(
            test.deep_view(),
            match root {
                Some(root) => Some(root@),
                None => None,
            },
            *disk,
        ),
{
    match (&test.location, root) {
        (Some(location), Some(root)) => {
            let path = join_path(root, location.path.as_str());
            if disk.has_file(path.as_str()) {
                let line = location.line;
                let row: usize = if line > 0 {
                    (line - 1) as usize
                } else {
                    0
                };
                Some((path, Point { row, column: 0 }))
            } else {
                None
            }
        },
        _ => None,
    }
}

/// Output that could not be read is never dropped: while there is any, the
/// panel shows its beginning.
pub proof fn law_unread_output_is_shown(all: Seq<Seq<char>>)
    requires
        all.len() > 0,
    ensures
        shown_lines(all).len() > 0,
        shown_lines(all).is_prefix_of(all),
{
}

/// A run is called passed only where its runner exited cleanly and at least
/// one test was counted.
pub proof fn law_passed_means_tests_ran(command: Seq<char>, code: Option<i32>, report: ReportView)
    ensures
        header_text(RunView::Finished { command, code }, report) == "Passed  "@ + report.summary
            ==> code == Some(0i32) && report.passed + report.failed + report.skipped > 0,
{
    reveal_strlit("Passed  ");
    reveal_strlit("Failed  ");
    reveal_strlit("No tests matched");
    reveal_strlit("The runner exited without reporting tests");
    assert(("Passed  "@ + report.summary)[0] == 'P');
    assert(("Failed  "@ + report.summary)[0] == 'F');
    assert("No tests matched"@[0] == 'N');
    assert("The runner exited without reporting tests"@[0] == 'T');
}

/// Whether a test of that name failed.
pub open spec fn a_failure_has(tests: Seq<CaseView>, name: Seq<char>) -> bool {
    exists|i: int|
        0 <= i < tests.len() && (#[trigger] tests[i]).status is Failed && tests[i].name == name
}

/// Running the failures again runs every test that failed, each once and in
/// order, and no test that did not fail.
pub proof fn law_every_failure_runs_again(tests: Seq<CaseView>)
    ensures
        failed_names(tests) == tests.filter(|test: CaseView| test.status is Failed).map_values(
            |test: CaseView| test.name,
        ),
        forall|i: int|
            0 <= i < tests.len() && (#[trigger] tests[i]).status is Failed ==> failed_names(
                tests,
            ).contains(tests[i].name),
        forall|k: int|
            0 <= k < failed_names(tests).len() ==> a_failure_has(
                tests,
                #[trigger] failed_names(tests)[k],
            ),
        failed_names(tests).len() == tests.filter(|test: CaseView| test.status is Failed).len(),
    decreases tests.len(),
{
    reveal(Seq::filter);
    let failed = |test: CaseView| test.status is Failed;
    let name = |test: CaseView| test.name;
    if tests.len() > 0 {
        let fewer = tests.drop_last();
        law_every_failure_runs_again(fewer);
        let before = failed_names(fewer);
        let all = failed_names(tests);
        assert forall|i: int| 0 <= i < tests.len() && (#[trigger] tests[i]).status is Failed implies
            all.contains(tests[i].name) by {
            if i < fewer.len() {
                assert(fewer[i] == tests[i]);
                let k = choose|k: int| 0 <= k < before.len() && before[k] == tests[i].name;
                assert(all[k] == tests[i].name);
            } else {
                assert(all[before.len() as int] == tests[i].name);
            }
        }
        assert forall|k: int| 0 <= k < all.len() implies a_failure_has(tests, #[trigger] all[k]) by {
            if k < before.len() {
                assert(before[k] == all[k]);
                let i = choose|i: int|
                    0 <= i < fewer.len() && (#[trigger] fewer[i]).status is Failed && fewer[i].name
                        == before[k];
                assert(tests[i] == fewer[i]);
            } else {
                assert(tests[tests.len() - 1].name == all[k]);
            }
        }
        if tests.last().status is Failed {
            assert(fewer.filter(failed).push(tests.last()).map_values(name) =~= fewer.filter(
                failed,
            ).map_values(name).push(tests.last().name));
        }
    }
    assert(failed_names(tests) =~= tests.filter(failed).map_values(name));
}

/// A run keeps the command it was started with to its end, and ends as its
/// runner did: with the code it exited with, by being cancelled, or broken with
/// a message of its own.
pub proof fn law_a_run_keeps_its_command(
    panel: PanelView,
    command: Seq<char>,
    named: bool,
    code: Option<i32>,
    message: String,
)
    ensures
        panel.begun(command, named).state.command_text() == Some(command),
        panel.begun(command, named).state is Running,
        ended(command, Outcome::Exited { code }).command_text() == Some(command),
        ended(command, Outcome::Exited { code }) == (RunView::Finished { command, code }),
        ended(command, Outcome::Cancelled).command_text() == Some(command),
        ended(command, Outcome::Cancelled) is Cancelled,
        ended(command, Outcome::Broken { message }) == (RunView::Failed { message: message@ }),
        ended(command, Outcome::Broken { message }).command_text() is None,
        RunView::Idle.command_text() is None,
{
}

/// Running named tests again keeps the rows of the others; any other run starts
/// with an empty report. The runner stays the same.
pub proof fn law_a_run_clears_what_it_reruns(panel: PanelView, command: Seq<char>)
    ensures
        panel.begun(command, true).report == panel.report,
        panel.begun(command, false).report.tests.len() == 0,
        panel.begun(command, false).report.output.len() == 0,
        panel.begun(command, false).report.passed == 0,
        panel.begun(command, false).report.failed == 0,
        panel.begun(command, false).report.skipped == 0,
        panel.begun(command, false).report.summary.len() == 0,
        panel.begun(command, true).runner == panel.runner,
        panel.begun(command, false).runner == panel.runner,
{
}

/// What the header says of each state: it never calls a run passed that did not
/// exit cleanly, and names what went wrong.
pub proof fn law_header_tells_how_it_went(command: Seq<char>, code: Option<i32>, message: Seq<char>, report: ReportView)
    ensures
        header_text(RunView::Idle, report) == "No tests run yet"@,
        header_text(RunView::Failed { message }, report) == message,
        header_text(RunView::Cancelled { command }, report) == "Cancelled  "@ + report.summary,
        report.summary.len() == 0 ==> header_text(RunView::Running { command }, report)
            == "Running…"@,
        report.summary.len() > 0 ==> header_text(RunView::Running { command }, report)
            == "Running…  "@ + report.summary,
        code == Some(0i32) && report.passed + report.failed + report.skipped > 0 ==> header_text(
            RunView::Finished { command, code },
            report,
        ) == "Passed  "@ + report.summary,
        code == Some(0i32) && report.passed + report.failed + report.skipped == 0 ==> header_text(
            RunView::Finished { command, code },
            report,
        ) == "No tests matched"@,
        code != Some(0i32) && report.summary.len() > 0 ==> header_text(
            RunView::Finished { command, code },
            report,
        ) == "Failed  "@ + report.summary,
        code != Some(0i32) && report.summary.len() == 0 ==> header_text(
            RunView::Finished { command, code },
            report,
        ) == "The runner exited without reporting tests"@,
{
}

/// The status bar shows the counts while a run is under way and after it, and
/// nothing where no run reported any.
pub proof fn law_status_bar_shows_the_counts(command: Seq<char>, code: Option<i32>, message: Seq<char>, progress: Seq<char>)
    ensures
        summary_text(RunView::Idle, progress).len() == 0,
        summary_text(RunView::Failed { message }, progress).len() == 0,
        progress.len() == 0 ==> summary_text(RunView::Finished { command, code }, progress).len()
            == 0 && summary_text(RunView::Cancelled { command }, progress).len() == 0
            && summary_text(RunView::Running { command }, progress) == "Tests: running…"@,
        progress.len() > 0 ==> summary_text(RunView::Finished { command, code }, progress)
            == "Tests: "@ + progress && summary_text(RunView::Cancelled { command }, progress)
            == "Tests: "@ + progress && summary_text(RunView::Running { command }, progress)
            == "Tests: "@ + progress + " running…"@,
{
}

/// A row shows its own test: its glyph and its name, in a colour that sets a
/// failure apart, with the first line of the message of a failure and of no
/// other, and it can be clicked exactly where there is a place to go to.
pub proof fn law_row_shows_its_test(row: TestRow, test: CaseView, theme: Theme)
    requires
        shows_test(row, test, theme),
    ensures
        row.glyph@ == test.glyph,
        row.name@ == test.name,
        row.clickable <==> test.location is Some,
        test.status is Failed ==> row.color == theme.error,
        test.status is Passed ==> row.color == theme.text,
        test.status is Skipped || test.status is Running ==> row.color == theme.text_muted,
        test.status is Failed && test.message is Some ==> row.message is Some && row.message->0@
            == first_line_of(test.message->0),
        !(test.status is Failed) || test.message is None ==> row.message is None,
{
}

/// Output that could not be read is shown line by line from its start, and what
/// is left out is counted.
pub proof fn law_unread_lines_are_counted(raw: RawOutput, all: Seq<Seq<char>>)
    requires
        shows_output(raw, all),
    ensures
        raw.lines.len() <= MAX_RAW_LINES,
        all.len() <= MAX_RAW_LINES ==> raw.lines.deep_view() == all && raw.more is None,
        all.len() > MAX_RAW_LINES ==> raw.lines.len() == MAX_RAW_LINES && raw.more is Some
            && raw.more->0@ == "… and "@ + text::decimal((all.len() - MAX_RAW_LINES) as nat)
            + " more lines"@,
        forall|k: int| 0 <= k < raw.lines.len() ==> (#[trigger] raw.lines[k])@ == all[k],
{
    assert(raw.lines.deep_view().len() == raw.lines.len());
    assert forall|k: int| 0 <= k < raw.lines.len() implies (#[trigger] raw.lines[k])@ == all[k] by {
        assert(raw.lines.deep_view()[k] == raw.lines[k]@);
    }
}

/// A failure leads to its line: in the file below the project's root that the
/// runner named, where that file is there, on the line counted from zero, and
/// nowhere else.
pub proof fn law_failure_leads_to_its_line(
    test: CaseView,
    root: Seq<char>,
    below: Seq<char>,
    line: u32,
    disk: Disk,
)
    requires
        test.location == Some((below, line)),
    ensures
        disk.is_file(paths::join(root, below)) ==> {
            &&& jump_of(test, Some(root), disk) matches Some((path, point))
            &&& path == paths::join(root, below)
            &&& point.column == 0
            &&& line > 0 ==> point.row + 1 == line
            &&& line == 0 ==> point.row == 0
        },
        !disk.is_file(paths::join(root, below)) ==> jump_of(test, Some(root), disk) is None,
        jump_of(test, None, disk) is None,
{
}

/// What a run reported is seen in contracts as it is: every test, with its name,
/// how it went and where, in order.
pub proof fn law_report_is_seen_as_it_is(report: Report, i: int)
    ensures
        report@.tests.len() == report.tests.len(),
        report@.passed == report.passed,
        report@.failed == report.failed,
        report@.skipped == report.skipped,
        report@.summary == report.summary@,
        report@.output.len() == report.output.len(),
        0 <= i < report.output.len() ==> report@.output[i] == report.output[i]@,
        0 <= i < report.tests.len() ==> {
            let test = report.tests[i];
            let seen = report@.tests[i];
            &&& seen.name == test.name@
            &&& seen.status == test.status
            &&& seen.glyph == test.glyph@
            &&& test.message is None ==> seen.message is None
            &&& test.message matches Some(message) ==> seen.message == Some(message@)
            &&& test.location is None ==> seen.location is None
            &&& test.location matches Some(place) ==> seen.location == Some(
                (place.path@, place.line),
            )
        },
{
}

} // verus!

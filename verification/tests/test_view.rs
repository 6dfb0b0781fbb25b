use ellefuanti::disk::Disk;
use ellefuanti::palette::Point;
use ellefuanti::test_view::{
    first_line, jump_target, run_ended, summarise, Location, Outcome, Report, RunState, Scope,
    Status, TestCase, TestView,
};
use ellefuanti::theme::Theme;

fn case(name: &str, status: Status, message: Option<&str>, location: Option<Location>) -> TestCase {
    TestCase {
        name: name.to_string(),
        status,
        glyph: "·".to_string(),
        message: message.map(|text| text.to_string()),
        location,
    }
}

fn finished() -> Report {
    Report {
        tests: vec![
            case("a", Status::Passed, None, None),
            case("b", Status::Failed, Some("x"), None),
        ],
        output: vec![],
        passed: 1,
        failed: 1,
        skipped: 0,
        summary: "1 ✓  1 ✕".to_string(),
    }
}

fn file_at(path: &str) -> Disk {
    Disk { existing: vec![path.to_string()], files: vec![path.to_string()], resolved: vec![] }
}

#[test]
fn unreadable_output_is_kept_for_display_rather_than_dropped() {
    let mut view = TestView::new();
    let mut report = Report::new();
    report.output.push("PHP Fatal error: syntax error".to_string());
    report.output.push("  in /app/tests/Unit/Foo.php on line 3".to_string());
    view.push(report);

    assert!(view.report.tests.is_empty());
    assert_eq!(view.report.output.len(), 2);
    assert_eq!(view.report.summary, "");
    let body = view.render_body(&Theme::dark());
    let raw = body.output.expect("the lines are shown");
    assert_eq!(raw.lines.len(), 2);
    assert_eq!(raw.lines[0], "PHP Fatal error: syntax error");
    assert_eq!(raw.more, None);
}

#[test]
fn a_failure_message_is_shortened_to_its_first_line_for_the_row() {
    assert_eq!(
        first_line("Failed asserting that two arrays are identical.\nArray &0 [\n  'a' => 1,"),
        "Failed asserting that two arrays are identical."
    );
    assert_eq!(first_line(""), "");
}

#[test]
fn a_project_with_no_run_says_nothing_in_the_status_bar() {
    assert_eq!(summarise(&RunState::Idle, &Report::new()), "");
    assert_eq!(
        summarise(
            &RunState::Failed { message: "Pest is not installed".to_string() },
            &Report::new()
        ),
        ""
    );
}

#[test]
fn the_status_bar_distinguishes_a_run_in_progress_from_a_finished_one() {
    let finished = finished();
    assert_eq!(
        summarise(&RunState::Running { command: "./vendor/bin/pest".to_string() }, &finished),
        "Tests: 1 ✓  1 ✕ running…"
    );
    assert_eq!(
        summarise(
            &RunState::Finished { command: "./vendor/bin/pest".to_string(), code: Some(1) },
            &finished
        ),
        "Tests: 1 ✓  1 ✕"
    );
}

#[test]
fn only_failures_with_a_readable_location_are_clickable() {
    let mut view = TestView::new();
    let mut report = Report::new();
    report.tests.push(case(
        "located",
        Status::Failed,
        Some("boom"),
        Some(Location { path: "tests/Foo.php".to_string(), line: 4 }),
    ));
    report.tests.push(case("unlocated", Status::Failed, Some("boom"), None));
    view.push(report);

    let body = view.render_body(&Theme::dark());
    assert!(body.rows[0].clickable);
    assert!(!body.rows[1].clickable);
    assert_eq!(view.report.tests[1].status, Status::Failed, "still shown as a failure");
    assert_eq!(body.rows[1].color, Theme::dark().error);
    assert_eq!(body.rows[1].message.as_deref(), Some("boom"));
}

#[test]
fn a_header_never_shows_a_verdict_it_does_not_have() {
    let theme = Theme::dark();
    let mut view = TestView::new();
    assert_eq!(view.render_header(&theme).status, "No tests run yet");
    view.begin("./vendor/bin/pest".to_string(), &Scope::All);
    assert_eq!(view.render_header(&theme).status, "Running…");
    assert_eq!(view.render_header(&theme).command.as_deref(), Some("./vendor/bin/pest"));

    view.finish(RunState::Finished { command: "pest".to_string(), code: Some(0) });
    assert_eq!(view.render_header(&theme).status, "No tests matched");
    view.finish(RunState::Finished { command: "pest".to_string(), code: None });
    assert_eq!(
        view.render_header(&theme).status,
        "The runner exited without reporting tests"
    );

    view.push(finished());
    let header = view.render_header(&theme);
    assert_eq!(header.status, "Failed  1 ✓  1 ✕");
    assert_eq!(header.color, theme.error);
    view.finish(RunState::Finished { command: "pest".to_string(), code: Some(0) });
    assert_eq!(view.render_header(&theme).status, "Passed  1 ✓  1 ✕");
    view.finish(RunState::Cancelled { command: "pest".to_string() });
    assert_eq!(view.render_header(&theme).status, "Cancelled  1 ✓  1 ✕");
    assert_eq!(view.render_header(&theme).color, theme.text);
    view.finish(RunState::Failed { message: "no php".to_string() });
    assert_eq!(view.render_header(&theme).status, "no php");
    assert_eq!(view.render_header(&theme).command, None);
}

#[test]
fn a_rerun_by_name_keeps_the_other_rows() {
    let mut view = TestView::new();
    view.push(finished());
    view.begin("pest --filter b".to_string(), &Scope::Names(vec!["b".to_string()]));
    assert_eq!(view.report.tests.len(), 2);
    view.begin("pest".to_string(), &Scope::All);
    assert!(view.report.tests.is_empty());
}

#[test]
fn only_what_failed_is_run_again() {
    let mut view = TestView::new();
    assert!(view.failed_scope().is_none());
    view.push(finished());
    match view.failed_scope() {
        Some(Scope::Names(names)) => assert_eq!(names, vec!["b".to_string()]),
        _ => panic!("one test failed"),
    }
}

#[test]
fn long_output_says_how_much_is_left_out() {
    let mut view = TestView::new();
    let mut report = Report::new();
    for i in 0..53 {
        report.output.push(format!("line {i}"));
    }
    view.push(report);
    let raw = view.render_body(&Theme::dark()).output.unwrap();
    assert_eq!(raw.heading, "Output that could not be read as test results:");
    assert_eq!(raw.lines.len(), 50);
    assert_eq!(raw.more.as_deref(), Some("… and 3 more lines"));
}

#[test]
fn a_click_leads_into_the_file_the_runner_named() {
    let located = case(
        "a",
        Status::Failed,
        None,
        Some(Location { path: "tests/Foo.php".to_string(), line: 4 }),
    );
    let disk = file_at("/srv/app/tests/Foo.php");
    assert_eq!(
        jump_target(&located, Some("/srv/app"), &disk),
        Some(("/srv/app/tests/Foo.php".to_string(), Point { row: 3, column: 0 }))
    );
    assert_eq!(jump_target(&located, None, &disk), None);
    assert_eq!(jump_target(&located, Some("/srv/other"), &disk), None, "no such file");
    let first =
        case("a", Status::Failed, None, Some(Location { path: "tests/Foo.php".to_string(), line: 0 }));
    assert_eq!(jump_target(&first, Some("/srv/app"), &disk).unwrap().1.row, 0);
}

#[test]
fn a_run_ends_in_one_of_three_ways() {
    let command = || "vendor/bin/pest".to_string();
    assert_eq!(
        run_ended(command(), Outcome::Exited { code: Some(1) }),
        RunState::Finished { command: command(), code: Some(1) }
    );
    assert_eq!(
        run_ended(command(), Outcome::Cancelled),
        RunState::Cancelled { command: command() }
    );
    assert_eq!(
        run_ended(command(), Outcome::Broken { message: "no php".to_string() }),
        RunState::Failed { message: "no php".to_string() }
    );
}

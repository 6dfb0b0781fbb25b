use ellefuanti::lsp::{
    first_location, lsp_label, poll_query, Client, GotoDefinitionResponse, Link, Lsp, LspState,
    Place, PollStep, NAVIGATION_TIMEOUT,
};

fn location(path: &str, line: u32) -> Place {
    Place { path: Some(path.to_string()), line, character: 4 }
}

#[test]
fn every_definition_response_shape_yields_a_place_to_jump() {
    let scalar = GotoDefinitionResponse::Scalar(location("/srv/app/User.php", 12));
    assert_eq!(first_location(&scalar), Some(("/srv/app/User.php".to_string(), 12, 4)));

    let array = GotoDefinitionResponse::Array(vec![
        location("/srv/app/User.php", 12),
        location("/srv/app/Other.php", 99),
    ]);
    assert_eq!(first_location(&array), Some(("/srv/app/User.php".to_string(), 12, 4)));
}

#[test]
fn a_link_response_lands_on_the_identifier_not_the_declaration() {
    let link = GotoDefinitionResponse::Link(vec![Link {
        path: Some("/srv/app/User.php".to_string()),
        range: (8, 0),
        selection: (12, 4),
    }]);
    assert_eq!(
        first_location(&link),
        Some(("/srv/app/User.php".to_string(), 12, 4)),
        "must use the selection range, not the enclosing one"
    );
}

#[test]
fn an_empty_definition_response_is_not_a_jump() {
    assert_eq!(first_location(&GotoDefinitionResponse::Array(vec![])), None);
    assert_eq!(first_location(&GotoDefinitionResponse::Link(vec![])), None);
}

#[test]
fn an_address_that_is_no_file_is_not_a_jump() {
    let elsewhere = Place { path: None, line: 1, character: 1 };
    assert_eq!(first_location(&GotoDefinitionResponse::Scalar(elsewhere)), None);
}

#[test]
fn a_missing_language_server_says_nothing_at_all() {
    let mut lsp = Lsp::new();
    assert_eq!(lsp_label(&lsp, false), "");
    lsp.state = LspState::Unavailable;
    assert_eq!(lsp_label(&lsp, false), "", "a missing server is not the user's problem");
}

#[test]
fn a_missing_server_is_named_while_a_php_file_is_open() {
    let mut lsp = Lsp::new();
    lsp.state = LspState::Unavailable;
    assert_eq!(lsp_label(&lsp, true), "No language server");
}

#[test]
fn the_exception_does_not_leak_into_the_states_that_are_fine() {
    let mut lsp = Lsp::new();
    assert_eq!(lsp_label(&lsp, true), "", "no attempt yet is not a failure");
    lsp.state = LspState::Running;
    assert_eq!(lsp_label(&lsp, true), "", "a clean file says nothing");
}

#[test]
fn a_running_server_with_nothing_to_report_also_says_nothing() {
    let mut lsp = Lsp::new();
    lsp.state = LspState::Running;
    assert_eq!(lsp_label(&lsp, false), "");
}

#[test]
fn a_slow_start_is_visible_because_otherwise_nothing_is_happening() {
    let mut lsp = Lsp::new();
    lsp.state = LspState::Starting;
    assert_eq!(lsp_label(&lsp, false), "Starting…");
}

#[test]
fn a_server_that_kept_dying_is_reported_once_the_budget_is_spent() {
    let mut lsp = Lsp::new();
    lsp.state = LspState::Failed("it exited".to_string());
    assert_eq!(lsp_label(&lsp, false), "LSP unavailable");
}

#[test]
fn problem_counts_read_as_counts() {
    let mut lsp = Lsp::new();
    lsp.state = LspState::Running;

    lsp.errors = 1;
    assert_eq!(lsp_label(&lsp, false), "1 ✕");

    lsp.warnings = 1;
    assert_eq!(lsp_label(&lsp, false), "1 ✕  1 ⚠");

    lsp.errors = 0;
    assert_eq!(lsp_label(&lsp, false), "1 ⚠");

    lsp.warnings = 0;
    assert_eq!(lsp_label(&lsp, false), "");
}

#[test]
fn a_pending_question_ends_one_way_or_another() {
    assert_eq!(poll_query(true, true, 0), PollStep::Answered);
    assert_eq!(poll_query(true, false, 0), PollStep::Wait);
    assert_eq!(poll_query(true, false, NAVIGATION_TIMEOUT - 1), PollStep::Wait);
    assert_eq!(poll_query(true, false, NAVIGATION_TIMEOUT), PollStep::TimedOut);
    assert_eq!(poll_query(true, true, NAVIGATION_TIMEOUT), PollStep::Answered);
    assert_eq!(poll_query(false, true, 0), PollStep::ServerGone);
}

#[test]
fn the_ledger_knows_the_version_that_was_sent_last() {
    let mut lsp = Lsp::new();
    lsp.client = Some(Client { triggers: vec![], rename: true });
    assert_eq!(lsp.synced_version("/srv/a.php"), None);
    lsp.record_synced("/srv/a.php", 3);
    lsp.record_synced("/srv/b.php", 1);
    lsp.record_synced("/srv/a.php", 4);
    assert_eq!(lsp.synced_version("/srv/a.php"), Some(4));
    assert_eq!(lsp.synced_version("/srv/b.php"), Some(1));
    assert_eq!(lsp.synced.len(), 2, "a document is listed once");
    lsp.forget_synced("/srv/a.php");
    assert_eq!(lsp.synced_version("/srv/a.php"), None);
    assert_eq!(lsp.synced_version("/srv/b.php"), Some(1));
}

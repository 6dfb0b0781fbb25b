use ellefuanti::palette::Point;
use ellefuanti::search::{
    replaced_status, search_status, FileMatches, Hit, SearchPanel, SearchState, Status,
};

fn found() -> Vec<FileMatches> {
    vec![FileMatches {
        path: "/srv/app/User.php".to_string(),
        lines: vec![Hit { row: 4, column: 2 }, Hit { row: 9, column: 0 }],
    }]
}

#[test]
fn replacing_is_told_in_words() {
    assert_eq!(replaced_status(0), "Nothing to replace");
    assert_eq!(replaced_status(1), "Replaced 1 occurrence");
    assert_eq!(replaced_status(12), "Replaced 12 occurrences");
}

#[test]
fn an_empty_field_searches_nothing() {
    let mut panel = SearchPanel::new();
    assert!(!panel.begin());
    assert!(matches!(panel.state, SearchState::Idle));
}

#[test]
fn what_was_found_stays_on_screen_while_searching_again() {
    let mut panel = SearchPanel::new();
    panel.query = "User".to_string();
    assert!(panel.begin());
    panel.finish(found());
    assert_eq!(
        panel.place_at(0, 1),
        Some(("/srv/app/User.php".to_string(), Point { row: 9, column: 0 }))
    );
    panel.query = "Users".to_string();
    assert!(panel.begin());
    assert!(matches!(&panel.state, SearchState::Searching(files) if files.len() == 1));
    assert_eq!(
        panel.place_at(0, 0),
        Some(("/srv/app/User.php".to_string(), Point { row: 4, column: 2 }))
    );
    assert_eq!(panel.place_at(0, 2), None);
    assert_eq!(panel.place_at(1, 0), None);
}

#[test]
fn no_query_no_results_and_a_bad_pattern_are_told_apart() {
    assert_eq!(search_status(true, true, None), Status::TooLarge);
    assert_eq!(search_status(false, true, None), Status::InvalidRegex);
    assert_eq!(search_status(false, false, None), Status::Empty);
    assert_eq!(
        search_status(false, false, Some((0, 0))),
        Status::Counted { current: 0, total: 0 }
    );
    assert_eq!(
        search_status(false, false, Some((2, 7))),
        Status::Counted { current: 2, total: 7 }
    );
}

use ellefuanti::tooltip::{activity_label, Tooltip};

#[test]
fn a_disabled_panel_says_coming_soon() {
    assert_eq!(activity_label("Explorer", true), "Explorer");
    assert_eq!(activity_label("Xdebug", false), "Xdebug (coming soon)");
}

#[test]
fn a_tooltip_holds_its_text() {
    assert_eq!(Tooltip::new("Expand All").text, "Expand All");
}

use ellefuanti::disk::Disk;
use ellefuanti::tabs::{active_after_close, active_after_reorder, Tab, TabStrip};

fn tab(path: &str, editor: u64) -> Tab {
    Tab { path: Some(path.to_string()), editor }
}

fn no_disk() -> Disk {
    Disk { existing: vec![], files: vec![], resolved: vec![] }
}

fn strip() -> TabStrip {
    let mut strip = TabStrip::default();
    strip.push(tab("/srv/app/User.php", 1));
    strip.push(tab("/srv/artisan", 2));
    strip.push(tab("/srv/app/Http/Kernel.php", 3));
    strip
}

#[test]
fn closing_a_tab_left_of_the_active_one_keeps_the_same_file_active() {
    assert_eq!(active_after_close(2, 0, 2), 1);
    assert_eq!(active_after_close(3, 1, 4), 2);
}

#[test]
fn closing_a_tab_right_of_the_active_one_leaves_it_alone() {
    assert_eq!(active_after_close(0, 1, 2), 0);
    assert_eq!(active_after_close(1, 3, 3), 1);
}

#[test]
fn closing_the_active_tab_selects_the_one_that_took_its_place() {
    assert_eq!(active_after_close(1, 1, 3), 1);
    assert_eq!(active_after_close(2, 2, 2), 1);
    assert_eq!(active_after_close(0, 0, 0), 0);
}

#[test]
fn reordering_tabs_keeps_the_same_file_active() {
    assert_eq!(active_after_reorder(1, 1, 3), 3);
    assert_eq!(active_after_reorder(3, 3, 0), 0);
    assert_eq!(active_after_reorder(2, 0, 3), 1, "left-of-active dragged past it");
    assert_eq!(active_after_reorder(1, 3, 0), 2, "right-of-active dragged before it");
    assert_eq!(active_after_reorder(0, 1, 2), 0);
    assert_eq!(active_after_reorder(3, 1, 2), 3);
}

#[test]
fn a_pushed_tab_is_the_active_one() {
    let strip = strip();
    assert_eq!(strip.active, 2);
    assert_eq!(strip.active_editor(), Some(3));
    assert_eq!(strip.position_of_path("/srv/artisan"), Some(1));
    assert_eq!(strip.position_of_editor(1), Some(0));
    assert_eq!(strip.position_of_path("/srv/other"), None);
}

#[test]
fn a_dragged_tab_lands_where_it_was_dropped() {
    let mut strip = strip();
    strip.reorder_tab(2, 0);
    assert_eq!(strip.tabs[0].editor, 3);
    assert_eq!(strip.active_editor(), Some(3));
    strip.reorder_tab(0, 9);
    assert_eq!(strip.tabs[0].editor, 3, "a slot that does not exist moves nothing");
}

#[test]
fn a_removed_tab_gives_way_to_its_neighbour() {
    let mut strip = strip();
    let closed = strip.remove(2).expect("a tab");
    assert_eq!(closed.editor, 3);
    assert_eq!(strip.active_editor(), Some(2));
    assert!(strip.remove(9).is_none(), "there is no such tab");
    assert_eq!(strip.tabs.len(), 2);
}

#[test]
fn a_renamed_directory_takes_its_tabs_along() {
    let mut strip = strip();
    let moves = strip.retarget_tabs("/srv/app", "/srv/src", &no_disk());
    assert_eq!(moves.len(), 2);
    assert_eq!(moves[0].index, 0);
    assert_eq!(moves[0].from, "/srv/app/User.php");
    assert_eq!(moves[0].to, "/srv/src/User.php");
    assert_eq!(strip.tabs[2].path.as_deref(), Some("/srv/src/Http/Kernel.php"));
    assert_eq!(strip.tabs[1].path.as_deref(), Some("/srv/artisan"));
}

use ellefuanti::disk::Disk;
use ellefuanti::history::{JumpHistory, MAX_HISTORY};
use ellefuanti::palette::Point;

fn disk(paths: &[&str]) -> Disk {
    let existing: Vec<String> = paths.iter().map(|path| path.to_string()).collect();
    Disk { existing, files: vec![], resolved: vec![] }
}

fn at(path: &str, row: usize) -> (String, Point) {
    (path.to_string(), Point { row, column: 0 })
}

#[test]
fn back_returns_to_where_the_jump_started() {
    let disk = disk(&["/d/a.php", "/d/b.php"]);
    let mut history = JumpHistory::default();
    history.push(at("/d/a.php", 10));

    assert_eq!(history.back(at("/d/b.php", 50), &disk), Some(at("/d/a.php", 10)));
    assert_eq!(history.back(at("/d/a.php", 10), &disk), None);
}

#[test]
fn forward_undoes_a_back() {
    let disk = disk(&["/d/a.php", "/d/b.php"]);
    let mut history = JumpHistory::default();
    history.push(at("/d/a.php", 10));

    let back = history.back(at("/d/b.php", 50), &disk).unwrap();
    assert_eq!(back, at("/d/a.php", 10));
    assert_eq!(history.forward(back, &disk), Some(at("/d/b.php", 50)));
}

#[test]
fn a_new_jump_abandons_the_forward_trail() {
    let disk = disk(&["/d/a.php", "/d/b.php", "/d/c.php"]);
    let mut history = JumpHistory::default();
    history.push(at("/d/a.php", 10));
    history.back(at("/d/b.php", 50), &disk);
    assert!(!history.forward.is_empty());

    history.push(at("/d/c.php", 1));
    assert!(history.forward.is_empty(), "a new jump must clear the forward stack");
}

#[test]
fn forward_with_nothing_to_undo_does_nothing() {
    let disk = disk(&["/d/a.php"]);
    let mut history = JumpHistory::default();
    assert_eq!(history.forward(at("/d/a.php", 1), &disk), None);
}

#[test]
fn a_deleted_file_is_skipped_rather_than_desynchronising_the_trail() {
    let disk = disk(&["/d/real.php"]);
    let mut history = JumpHistory::default();
    history.push(at("/d/real.php", 3));
    history.push(at("/d/deleted.php", 7));

    assert_eq!(
        history.back(at("/srv/current.php", 1), &disk),
        Some(at("/d/real.php", 3)),
        "the missing entry must be skipped, not returned"
    );
}

#[test]
fn a_history_of_nothing_but_deleted_files_is_a_no_op() {
    let mut history = JumpHistory::default();
    history.push(at("/srv/definitely/not/here.php", 1));
    history.push(at("/srv/also/gone.php", 2));

    assert_eq!(history.back(at("/srv/current.php", 0), &disk(&[])), None);
}

#[test]
fn the_history_is_bounded() {
    let mut history = JumpHistory::default();
    for row in 0..MAX_HISTORY + 10 {
        history.push(at("/srv/a.php", row));
    }

    assert_eq!(history.back.len(), MAX_HISTORY);
    assert_eq!(history.back.last().unwrap().1.row, MAX_HISTORY + 9);
}

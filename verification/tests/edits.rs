use ellefuanti::disk::Disk;
use ellefuanti::edits::{
    any_overlap, finish_workspace_edit, next_step, plan_workspace_edit, rename_status, sort_edits,
    ByteEdit, DiskText, EditError, FileChange, NextStep, Planned,
};
use ellefuanti::tabs::Tab;

fn edit(start: usize, end: usize) -> ByteEdit {
    ByteEdit { start, end, new_text: "x".to_string() }
}

fn no_disk() -> Disk {
    Disk { existing: vec![], files: vec![], resolved: vec![] }
}

fn change(path: &str, byte_edits: Vec<ByteEdit>, on_disk: DiskText) -> FileChange {
    FileChange { path: path.to_string(), byte_edits, on_disk }
}

#[test]
fn edits_are_put_in_the_order_of_their_ranges() {
    let ordered = sort_edits(&vec![edit(5, 6), edit(1, 3), edit(1, 2)]);
    let ranges: Vec<(usize, usize)> = ordered.iter().map(|edit| (edit.start, edit.end)).collect();
    assert_eq!(ranges, vec![(1, 2), (1, 3), (5, 6)]);
    assert!(any_overlap(&ordered), "1..2 and 1..3 share a byte");
    assert!(!any_overlap(&sort_edits(&vec![edit(2, 3), edit(1, 2)])));
}

#[test]
fn an_edit_of_open_and_closed_files_is_planned_as_a_whole() {
    let tabs = vec![Tab { path: Some("/a.php".to_string()), editor: 7 }];
    let changes = vec![
        change("/a.php", vec![edit(3, 4), edit(0, 1)], DiskText::Unreadable),
        change("/b.php", vec![], DiskText::Rewritten("new".to_string())),
    ];
    let disk = Disk {
        existing: vec![],
        files: vec![],
        resolved: vec![
            ("/a.php".to_string(), "/a.php".to_string()),
            ("/b.php".to_string(), "/b.php".to_string()),
        ],
    };
    let plan = plan_workspace_edit(Some(&changes), &tabs, &disk).ok().unwrap();
    assert_eq!(plan.len(), 2);
    match &plan[0] {
        Planned::Buffer { tab, edits, path } => {
            assert_eq!(*tab, 0);
            assert_eq!(edits[0].start, 0);
            assert_eq!(path, "/a.php");
        }
        _ => panic!("an open file is edited in its buffer"),
    }
    let report = finish_workspace_edit(&plan, None);
    assert!(report.refresh_git && report.autosave);
    assert_eq!(report.files.ok(), Some(2));
    let failed = finish_workspace_edit(&plan, Some(1));
    assert!(!failed.refresh_git);
    assert_eq!(failed.files.err().unwrap().message(), "could not write /b.php");
}

#[test]
fn one_bad_file_refuses_the_whole_edit() {
    let refused = |changes: Vec<FileChange>| {
        plan_workspace_edit(Some(&changes), &vec![], &no_disk()).err().unwrap().message()
    };
    let good = || change("/b.php", vec![], DiskText::Rewritten("new".to_string()));
    assert_eq!(
        refused(vec![good(), change("/c.php", vec![], DiskText::Unreadable)]),
        "could not read /c.php"
    );
    assert_eq!(
        refused(vec![change("/c.php", vec![], DiskText::Overlapping), good()]),
        "overlapping edits in /c.php"
    );
    let operations = plan_workspace_edit(None, &vec![], &no_disk()).err().unwrap();
    assert_eq!(
        operations.message(),
        "the edit includes file operations this editor does not apply"
    );
}

#[test]
fn a_rename_says_what_came_of_it() {
    assert_eq!(rename_status(&None), "The server offered no rename here");
    assert_eq!(rename_status(&Some(Ok(3))), "Renamed in 3 file(s)");
    assert_eq!(
        rename_status(&Some(Err(EditError::Overlapping("/a.php".to_string())))),
        "Rename not applied: overlapping edits in /a.php"
    );
}

#[test]
fn a_file_that_is_gone_is_not_taken_for_another_that_is_gone() {
    let tabs = vec![Tab { path: Some("/deleted.php".to_string()), editor: 7 }];
    let changes = vec![change("/closed.php", vec![edit(0, 1)], DiskText::Unreadable)];
    let refused = plan_workspace_edit(Some(&changes), &tabs, &no_disk()).err().unwrap();
    assert_eq!(refused.message(), "could not read /closed.php");

    let own = vec![change("/deleted.php", vec![edit(0, 1)], DiskText::Unreadable)];
    assert_eq!(plan_workspace_edit(Some(&own), &tabs, &no_disk()).ok().unwrap().len(), 1);
}

#[test]
fn a_plan_runs_in_order_and_stops_at_a_failed_write() {
    let plan = vec![
        Planned::Buffer { tab: 0, edits: vec![], path: "/a.php".to_string() },
        Planned::Disk { path: "/b.php".to_string(), text: "B".to_string() },
        Planned::Disk { path: "/c.php".to_string(), text: "C".to_string() },
    ];
    assert_eq!(next_step(&plan, 0, false), NextStep::CarryOut(0));
    assert_eq!(next_step(&plan, 1, false), NextStep::CarryOut(1));
    assert_eq!(next_step(&plan, 1, true), NextStep::Stop(Some(1)));
    assert_eq!(next_step(&plan, 3, false), NextStep::Stop(None));
    let report = finish_workspace_edit(&plan, Some(1));
    assert_eq!(report.files.err().unwrap().message(), "could not write /b.php");
}

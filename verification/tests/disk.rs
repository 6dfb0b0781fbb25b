use ellefuanti::disk::{canonical_prefix, file_name_of, is_under, project_root_for, Disk};

fn disk(existing: &[&str], resolved: &[(&str, &str)]) -> Disk {
    Disk {
        existing: existing.iter().map(|path| path.to_string()).collect(),
        files: vec![],
        resolved: resolved.iter().map(|(from, to)| (from.to_string(), to.to_string())).collect(),
    }
}

#[test]
fn a_file_in_a_project_roots_the_server_at_the_project() {
    let disk = disk(&["/tmp/project/composer.json"], &[]);
    assert_eq!(
        project_root_for("/tmp/project/app/Models/User.php", &disk).as_deref(),
        Some("/tmp/project")
    );
}

#[test]
fn the_nearest_marker_wins_over_the_outer_one() {
    let disk = disk(&["/tmp/outer/.git", "/tmp/outer/packages/thing/composer.json"], &[]);
    assert_eq!(
        project_root_for("/tmp/outer/packages/thing/src/Thing.php", &disk).as_deref(),
        Some("/tmp/outer/packages/thing")
    );
}

#[test]
fn a_repository_with_no_manifest_still_roots_at_the_repository() {
    let disk = disk(&["/tmp/repo/.git"], &[]);
    assert_eq!(
        project_root_for("/tmp/repo/scripts/import.php", &disk).as_deref(),
        Some("/tmp/repo")
    );
}

#[test]
fn a_loose_file_falls_back_to_its_own_directory() {
    assert_eq!(
        project_root_for("/tmp/dir/scratch.php", &disk(&[], &[])).as_deref(),
        Some("/tmp/dir")
    );
}

#[test]
fn a_path_with_no_parent_gets_no_root() {
    assert_eq!(project_root_for("/", &disk(&[], &[])), None);
}

#[test]
fn a_file_inside_a_deleted_directory_is_under_it() {
    let disk = disk(&["/tmp/dir/app"], &[("/tmp/dir/app", "/tmp/dir/app"), ("/tmp/dir", "/tmp/dir")]);
    assert!(is_under("/tmp/dir/app/User.php", "/tmp/dir/app", &disk));
    assert!(is_under("/tmp/dir/app", "/tmp/dir/app", &disk), "the deleted path itself counts");
    assert!(!is_under("/tmp/dir/artisan", "/tmp/dir/app", &disk), "a sibling must survive");
}

#[test]
fn two_spellings_of_the_same_path_still_match() {
    let disk = disk(
        &[],
        &[
            ("/var/dir/User.php", "/private/var/dir/User.php"),
            ("/private/var/dir", "/private/var/dir"),
            ("/private/var", "/private/var"),
        ],
    );
    assert!(
        is_under("/var/dir/User.php", "/private/var/dir", &disk),
        "a tab opened by one spelling must be closed by a delete named in the other"
    );
}

#[test]
fn a_deleted_directory_still_matches_its_open_files() {
    let disk = disk(
        &[],
        &[("/var/dir", "/private/var/dir"), ("/private/var/dir", "/private/var/dir")],
    );
    assert!(
        is_under("/var/dir/app/User.php", "/private/var/dir/app", &disk),
        "a tab must still be recognised as inside a directory that is already gone"
    );
}

#[test]
fn what_is_gone_keeps_its_own_spelling() {
    let disk = disk(&[], &[("/var", "/private/var")]);
    assert_eq!(canonical_prefix("/var/a/b", &disk), "/private/var/a/b");
    assert_eq!(canonical_prefix("/etc", &disk), "/etc");
    assert_eq!(file_name_of("/srv/app/User.php"), "User.php");
    assert_eq!(file_name_of("/"), "/");
}

#[test]
fn a_name_that_only_begins_alike_is_not_inside() {
    assert!(!is_under("/srv/application/x", "/srv/app", &disk(&[], &[])));
}

use ellefuanti::logs::{files_with_extension, newest_log, read_file_tail, route_files, tail_start};

fn tail_of(body: &str, window: u64) -> String {
    let start = tail_start(body.len() as u64, window) as usize;
    let bytes = body.as_bytes()[start..].to_vec();
    let before = if start > 0 { Some(body.as_bytes()[start - 1]) } else { None };
    read_file_tail(&bytes, before).unwrap()
}

fn names(list: &[&str]) -> Vec<String> {
    list.iter().map(|name| name.to_string()).collect()
}

#[test]
fn read_file_tail_returns_the_end_at_a_line_boundary() {
    let body: String = (0..10).map(|i| format!("line {i}\n")).collect();

    assert_eq!(tail_of(&body, 10_000), body);

    let tail = tail_of(&body, 25);
    assert!(tail.ends_with("line 9\n"));
    assert!(!tail.contains("line 0"), "the old lines are outside the window");
    for line in tail.lines() {
        assert!(line.starts_with("line "), "no half-line at the seam: {line:?}");
    }
}

#[test]
fn a_cut_inside_a_character_is_read_as_far_as_it_goes() {
    let bytes = vec![0xA9, b'\n', b'o', b'k'];
    assert_eq!(read_file_tail(&bytes, Some(0xC3)).as_deref(), Some("ok"));
    assert_eq!(read_file_tail(&vec![b'a', 0xFF], Some(b'\n')).as_deref(), Some("a\u{FFFD}"));
    assert_eq!(read_file_tail(&vec![b'a', 0xFF], None), None, "a whole file has to be UTF-8");
    assert_eq!(read_file_tail(&vec![0xC3, 0xA9], None).as_deref(), Some("é"));
}

#[test]
fn a_window_inside_one_line_shows_nothing() {
    assert_eq!(tail_of("abcdefghij", 4), "");
    assert_eq!(tail_of("one\ntwo three", 5), "");
}

#[test]
fn a_cut_between_two_lines_loses_neither() {
    assert_eq!(tail_of("one\ntwo\nthree\n", 10), "two\nthree\n");
    assert_eq!(tail_of("one\ntwo\nthree\n", 9), "three\n");
    assert_eq!(tail_of("one\ntwo\nthree", 5), "three");
}

#[test]
fn the_newest_log_is_the_last_by_name() {
    let found = names(&[
        "/srv/storage/logs/laravel-2024-01-02.log",
        "/srv/storage/logs/laravel-2024-01-10.log",
        "/srv/storage/logs/.gitignore",
    ]);
    assert_eq!(
        newest_log(&found).as_deref(),
        Some("/srv/storage/logs/laravel-2024-01-10.log")
    );
    assert_eq!(newest_log(&names(&["/srv/storage/logs/.gitignore"])), None);
}

#[test]
fn route_files_are_the_php_files_in_order() {
    let found = names(&["/srv/routes/web.php", "/srv/routes/README.md", "/srv/routes/api.php"]);
    assert_eq!(route_files(&found), names(&["/srv/routes/api.php", "/srv/routes/web.php"]));
    assert_eq!(files_with_extension(&found, "md"), names(&["/srv/routes/README.md"]));
}

#[test]
fn the_window_starts_where_the_file_is_longer() {
    assert_eq!(tail_start(10, 25), 0);
    assert_eq!(tail_start(25, 25), 0);
    assert_eq!(tail_start(30, 25), 5);
}

#[test]
fn a_name_that_is_all_extension_has_none() {
    let found = names(&["/srv/logs/.log", "/srv/logs/a.log", ".log", "b.log/", "/srv/logs/c.log/.."]);
    assert_eq!(files_with_extension(&found, "log"), names(&["/srv/logs/a.log", "b.log/"]));
    assert_eq!(newest_log(&names(&["/srv/storage/logs/.log"])), None);
    assert!(route_files(&names(&["/srv/routes/.php"])).is_empty());
}

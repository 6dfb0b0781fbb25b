use std::path::Path;

use ellefuanti::paths::{are_same_path, is_below, join_path, name_of, parent_of, path_below};

const SPELLINGS: [&str; 26] = [
    "",
    "/",
    "//",
    ".",
    "./",
    "..",
    "a",
    "a/",
    "a//b",
    "a/./b",
    "./a",
    "./a/b",
    "../a",
    "/a",
    "//a",
    "/./a",
    "/a/b/",
    "/a/b/.",
    "/a//b/c",
    "/a/b//c/",
    "/a/./b/././c//d/.",
    "/srv//app/./Models//User.php",
    "/srv/app",
    "/srv//app/",
    ".a/b",
    "a/..",
];

fn text(path: &Path) -> String {
    path.display().to_string()
}

#[test]
fn a_parent_keeps_the_spelling_of_what_is_above() {
    for spelling in SPELLINGS {
        assert_eq!(
            parent_of(spelling),
            Path::new(spelling).parent().map(text),
            "the parent of {spelling:?}"
        );
        assert_eq!(
            name_of(spelling),
            Path::new(spelling).file_name().map(|name| name.to_string_lossy().into_owned()),
            "the name of {spelling:?}"
        );
    }
    assert_eq!(parent_of("/a//b/c").as_deref(), Some("/a//b"));
}

#[test]
fn what_is_below_keeps_its_spelling() {
    for path in SPELLINGS {
        for base in SPELLINGS {
            assert_eq!(
                path_below(path, base),
                Path::new(path).strip_prefix(base).ok().map(text),
                "{path:?} below {base:?}"
            );
            assert_eq!(is_below(path, base), Path::new(path).starts_with(base));
            assert_eq!(are_same_path(path, base), Path::new(path) == Path::new(base));
            assert_eq!(join_path(path, base), text(&Path::new(path).join(base)));
        }
    }
    assert_eq!(
        path_below("/srv//app/./Models//User.php", "/srv").as_deref(),
        Some("app/./Models//User.php")
    );
}

use ellefuanti::theme::ThemeVariant;
use ellefuanti::tree::{Chevron, Entry, Icon, Tree};

fn tree() -> Tree {
    Tree {
        root: "/srv".to_string(),
        name: "srv".to_string(),
        show_hidden: false,
        entries: vec![
            Entry {
                path: "/srv/app".to_string(),
                name: "app".to_string(),
                depth: 0,
                is_dir: true,
                expanded: true,
            },
            Entry {
                path: "/srv/app/User.php".to_string(),
                name: "User.php".to_string(),
                depth: 1,
                is_dir: false,
                expanded: false,
            },
            Entry {
                path: "/srv/vendor".to_string(),
                name: "vendor".to_string(),
                depth: 0,
                is_dir: true,
                expanded: false,
            },
        ],
    }
}

#[test]
fn rows_are_drawn_by_what_they_are() {
    let theme = ThemeVariant::Dark.build();
    let rows = tree().render_tree_rows(0, 3, &vec![], None, &theme);
    assert_eq!(rows.len(), 3);
    assert_eq!(rows[0].icon, Icon::FolderOpened);
    assert_eq!(rows[0].chevron, Some(Chevron::Down));
    assert_eq!(rows[0].indent, 8);
    assert!(rows[0].accepts_drop);
    assert_eq!(rows[1].icon, Icon::OfFile);
    assert_eq!(rows[1].chevron, None);
    assert_eq!(rows[1].indent, 20);
    assert_eq!(rows[1].color, theme.text_muted);
    assert_eq!(rows[1].mark, None);
    assert_eq!(rows[2].icon, Icon::Folder);
    assert_eq!(rows[2].chevron, Some(Chevron::Right));
}

#[test]
fn a_changed_file_shows_it_by_colour_and_by_a_mark() {
    let theme = ThemeVariant::Dark.build();
    let modified = vec!["/srv/app/User.php".to_string()];
    let rows = tree().render_tree_rows(1, 2, &modified, Some("/srv/app/User.php"), &theme);
    assert_eq!(rows.len(), 1);
    assert_eq!(rows[0].color, theme.modified);
    assert_eq!(rows[0].mark, Some(theme.modified));
    assert_eq!(rows[0].background, Some(theme.selection), "the open file stands out");
}

#[test]
fn a_stretch_past_the_end_is_cut() {
    let theme = ThemeVariant::Dark.build();
    assert_eq!(tree().render_tree_rows(2, 9, &vec![], None, &theme).len(), 1);
    assert_eq!(tree().render_tree_rows(5, 9, &vec![], None, &theme).len(), 0);
    assert!(tree().entry(3).is_none());
    assert_eq!(tree().entry(2).map(|entry| entry.name.as_str()), Some("vendor"));
}

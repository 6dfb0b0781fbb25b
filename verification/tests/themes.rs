use ellefuanti::theme::{set_theme, App, Theme, ThemeChoice, ThemeFile, ThemeVariant, Themed};
use ellefuanti::themes::{
    apply_named, cycle, load, merge_directories, selectable_names, theme_directories, DiskThemes,
};

fn document(name: &str, background: u32) -> ThemeFile {
    ThemeFile {
        name: name.to_string(),
        colors: vec![
            ("background".to_string(), background),
            ("text".to_string(), 0xeeeeee),
            ("panel".to_string(), 0x808080),
        ],
        ansi: Some([0x404040; 16]),
    }
}

fn app(themes: Option<Vec<ThemeFile>>) -> App {
    App { active: None, disk_themes: themes.map(|themes| DiskThemes { themes }), to_save: vec![] }
}

#[test]
fn a_theme_on_disk_can_be_selected_and_actually_changes_the_colours() {
    let mut app = app(Some(vec![document("midnight", 0x010203)]));
    set_theme(ThemeVariant::default(), &mut app);
    assert_eq!(apply_named("midnight", &mut app), None);

    assert_eq!(app.theme().background, 0x010203);
    assert_eq!(app.theme_choice(), ThemeChoice::Disk("midnight".to_string()));
}

#[test]
fn a_directory_full_of_broken_themes_still_launches_on_dark() {
    let mut app = app(None);
    load(vec![vec![]], &mut app);
    apply_named("dark", &mut app);
    assert_eq!(app.theme().background, Theme::dark().background);
}

#[test]
fn a_theme_name_that_matches_nothing_falls_back_without_a_panic() {
    let mut app = app(Some(vec![]));
    let unknown = apply_named("a-theme-nobody-has", &mut app);
    assert_eq!(unknown.as_deref(), Some("a-theme-nobody-has"));
    assert!(app.to_save.is_empty(), "the typo stays in the file to be corrected");

    assert_eq!(app.theme_variant(), ThemeVariant::default());
    assert_eq!(app.theme().background, Theme::dark().background);
}

#[test]
fn theme_switching_works_with_no_registry_at_all() {
    let mut app = app(None);
    set_theme(ThemeVariant::default(), &mut app);
    for _ in 0..5 {
        cycle(&mut app);
    }
    assert_eq!(app.theme_variant(), ThemeVariant::default(), "back where it started");
}

#[test]
fn the_cycle_reaches_disk_themes_and_returns() {
    let mut app = app(Some(vec![document("aurora", 0x010203)]));
    set_theme(ThemeVariant::default(), &mut app);

    let mut seen = Vec::new();
    for _ in 0..6 {
        seen.push(cycle(&mut app));
    }

    assert!(seen.contains(&"aurora".to_string()), "the disk theme is reachable: {seen:?}");
    assert_eq!(app.theme_choice(), ThemeChoice::BuiltIn(ThemeVariant::Dark), "{seen:?}");
}

#[test]
fn a_disk_theme_cannot_shadow_a_built_in_name() {
    let mut app = app(Some(vec![document("dark", 0xff00ff)]));
    apply_named("dark", &mut app);

    assert_eq!(app.theme().background, Theme::dark().background);
    assert_eq!(app.theme_choice(), ThemeChoice::BuiltIn(ThemeVariant::Dark));
}

#[test]
fn a_later_directory_wins_and_the_names_come_in_order() {
    let merged = merge_directories(vec![
        vec![document("zebra", 0x000001), document("aurora", 0x000002)],
        vec![document("zebra", 0x000003)],
    ]);
    assert_eq!(merged.names(), vec!["aurora".to_string(), "zebra".to_string()]);
    assert_eq!(merged.get("zebra").unwrap().color("background"), Some(0x000003));
    assert!(merged.get("absent").is_none());
}

#[test]
fn built_in_names_are_offered_before_those_on_disk() {
    let mut app = app(None);
    load(vec![vec![document("aurora", 0x010203)]], &mut app);
    let names = selectable_names(&app);
    assert_eq!(names.len(), 6);
    assert_eq!(names[0], "dark");
    assert_eq!(names[5], "aurora");
}

#[test]
fn the_users_own_directory_is_read_last() {
    assert_eq!(
        theme_directories(Some("/Applications/e.app/Contents/MacOS/e"), "/src/app", Some("/home/u/t")),
        vec![
            "/Applications/e.app/Contents/MacOS/../Resources/themes".to_string(),
            "/src/app/../../assets/themes".to_string(),
            "/home/u/t".to_string(),
        ]
    );
    assert_eq!(
        theme_directories(None, "/src/app", None),
        vec!["/src/app/../../assets/themes".to_string()]
    );
}

#[test]
fn a_toggle_goes_on_from_the_theme_before_the_file() {
    let mut app = app(Some(vec![document("midnight", 0x010203)]));
    set_theme(ThemeVariant::Light, &mut app);
    apply_named("midnight", &mut app);
    assert_eq!(app.theme_variant(), ThemeVariant::Light);
}

#[test]
fn a_file_under_a_built_in_name_is_stepped_over() {
    let mut app = app(Some(vec![document("dark", 0xff00ff), document("midnight", 0x010203)]));
    set_theme(ThemeVariant::GitHubLight, &mut app);

    assert_eq!(cycle(&mut app), "midnight");
    assert_eq!(app.theme_choice(), ThemeChoice::Disk("midnight".to_string()));
    assert_eq!(app.theme().background, 0x010203);
    assert_eq!(cycle(&mut app), ThemeVariant::Dark.label());
    for _ in 0..6 {
        cycle(&mut app);
    }
    assert_eq!(app.theme_choice(), ThemeChoice::BuiltIn(ThemeVariant::Dark), "six themes in all");
}

#[test]
fn a_directory_of_shadowed_names_leaves_the_built_in_cycle() {
    let mut app = app(Some(vec![document("dark", 0xff00ff), document("light", 0x00ff00)]));
    set_theme(ThemeVariant::GitHubLight, &mut app);

    assert_eq!(cycle(&mut app), ThemeVariant::Dark.label());
    assert_eq!(app.theme().background, Theme::dark().background);
    assert_eq!(cycle(&mut app), ThemeVariant::OneDarkPro.label());
}

#[test]
fn the_cycle_visits_every_file_from_any_start() {
    let files = || vec![document("aurora", 1), document("light", 2), document("midnight", 3)];
    for start in [ThemeVariant::Dark, ThemeVariant::OneDarkPro, ThemeVariant::GitHubLight] {
        let mut app = app(Some(files()));
        set_theme(start, &mut app);
        let seen: Vec<String> = (0..7).map(|_| cycle(&mut app)).collect();
        assert!(seen.contains(&"aurora".to_string()), "{seen:?}");
        assert!(seen.contains(&"midnight".to_string()), "{seen:?}");
        assert_eq!(app.theme_choice(), ThemeChoice::BuiltIn(start), "{seen:?}");
    }
    let mut app = app(Some(files()));
    set_theme(ThemeVariant::Dark, &mut app);
    apply_named("aurora", &mut app);
    assert_eq!(cycle(&mut app), "midnight");
}

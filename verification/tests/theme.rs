use ellefuanti::theme::{
    set_disk_theme, set_theme, App, CellColor, HighlightStyle, Severity, Theme, ThemeChoice,
    ThemeFile, ThemeVariant, Themed, Wash,
};

const ALL_STYLES: [HighlightStyle; 9] = [
    HighlightStyle::Keyword,
    HighlightStyle::Type,
    HighlightStyle::Function,
    HighlightStyle::Variable,
    HighlightStyle::String,
    HighlightStyle::Number,
    HighlightStyle::Comment,
    HighlightStyle::Tag,
    HighlightStyle::BladeDirective,
];

const ALL_VARIANTS: [ThemeVariant; 5] = ThemeVariant::ALL;

const PUBLISHED_VARIANTS: [ThemeVariant; 3] =
    [ThemeVariant::OneDarkPro, ThemeVariant::GitHubDark, ThemeVariant::GitHubLight];

fn style_name(style: HighlightStyle) -> &'static str {
    match style {
        HighlightStyle::Keyword => "keyword",
        HighlightStyle::Type => "type",
        HighlightStyle::Function => "function",
        HighlightStyle::Variable => "variable",
        HighlightStyle::String => "string",
        HighlightStyle::Number => "number",
        HighlightStyle::Comment => "comment",
        HighlightStyle::Tag => "tag",
        HighlightStyle::BladeDirective => "blade directive",
        HighlightStyle::Property => "property",
        HighlightStyle::Operator => "operator",
        HighlightStyle::Attribute => "attribute",
    }
}

fn app() -> App {
    App { active: None, disk_themes: None, to_save: vec![] }
}

#[test]
fn the_lists_cover_every_style_and_every_variant() {
    assert_eq!(ALL_STYLES.len(), 9, "a new HighlightStyle needs a colour in every theme");
    assert_eq!(ALL_VARIANTS.len(), 5, "a new theme needs listing, or it goes untested");

    for published in PUBLISHED_VARIANTS {
        assert!(ALL_VARIANTS.contains(&published), "{} is not listed", published.label());
    }
    for (i, a) in ALL_STYLES.iter().enumerate() {
        assert!(!ALL_STYLES[i + 1..].contains(a), "{} is listed twice", style_name(*a));
    }
    for (i, a) in ALL_VARIANTS.iter().enumerate() {
        assert!(!ALL_VARIANTS[i + 1..].contains(a), "{} is listed twice", a.label());
    }
}

#[test]
fn every_theme_gives_every_syntax_style_a_distinct_colour() {
    for variant in ALL_VARIANTS {
        if PUBLISHED_VARIANTS.contains(&variant) {
            continue;
        }
        let theme = variant.build();
        for (i, a) in ALL_STYLES.iter().enumerate() {
            for b in &ALL_STYLES[i + 1..] {
                assert_ne!(
                    theme.syntax(*a),
                    theme.syntax(*b),
                    "{}: {} and {} are the same colour",
                    variant.label(),
                    style_name(*a),
                    style_name(*b)
                );
            }
        }
    }
}

#[test]
fn every_theme_makes_a_press_visible_against_what_it_sits_on() {
    for variant in ALL_VARIANTS {
        let theme = variant.build();
        assert_ne!(theme.pressed, theme.hover, "{}", variant.label());
        assert_ne!(theme.pressed, theme.panel, "{}", variant.label());
    }
}

#[test]
fn ported_themes_reproduce_the_colours_that_make_them_that_theme() {
    let one_dark = Theme::one_dark_pro();
    assert_eq!(one_dark.background, 0x282c34);
    assert_eq!(one_dark.keyword, 0xc678dd);
    assert_eq!(one_dark.string, 0x98c379);
    assert_eq!(one_dark.comment, 0x7f848e);
    assert_eq!(one_dark.function, 0x61afef);
    assert_eq!(one_dark.types, 0xe5c07b);
    assert_eq!(one_dark.number, 0xd19a66);
    assert_eq!(one_dark.variable, one_dark.property);
    assert_eq!(one_dark.variable, 0xe06c75);
    assert_eq!(one_dark.operator, one_dark.text, "One Dark Pro's operator is its foreground");
    assert_eq!(one_dark.ansi[1], 0xe05561, "ansiRed, not the #e06c75 keyword");
    assert_eq!(one_dark.ansi[2], 0x8cc265, "ansiGreen, not the string green");
    assert_eq!(one_dark.ansi[10], 0xa5e075, "the old #4cd137 was not in the file");

    let gh_dark = Theme::github_dark();
    assert_eq!(gh_dark.background, 0x0d1117);
    assert_eq!(gh_dark.text, 0xe6edf3);
    assert_eq!(gh_dark.keyword, 0xff7b72);
    assert_eq!(gh_dark.string, 0xa5d6ff);
    assert_eq!(gh_dark.comment, 0x8b949e);
    assert_eq!(gh_dark.function, 0xd2a8ff);
    assert_eq!(gh_dark.variable, 0xffa657);
    assert_eq!(gh_dark.tag, 0x7ee787);
    assert_eq!(gh_dark.attribute, 0x79c0ff);
    assert_eq!(gh_dark.operator, 0xff7b72);
    assert_ne!(gh_dark.attribute, gh_dark.tag, "attributes and tags are different scopes");

    let gh_light = Theme::github_light();
    assert_eq!(gh_light.background, 0xffffff);
    assert_eq!(gh_light.text, 0x1f2328);
    assert_eq!(gh_light.keyword, 0xcf222e);
    assert_eq!(gh_light.string, 0x0a3069);
    assert_eq!(gh_light.comment, 0x6e7781);
    assert_eq!(gh_light.function, 0x8250df);
    assert_eq!(gh_light.variable, 0x953800);
    assert_eq!(gh_light.tag, 0x116329);
    assert_eq!(gh_light.attribute, 0x0550ae);
    assert_eq!(gh_light.operator, 0xcf222e);
}

#[test]
fn no_theme_paints_text_the_same_colour_as_its_background() {
    for variant in ALL_VARIANTS {
        let theme = variant.build();
        assert_ne!(theme.text, theme.background, "{}: invisible body text", variant.label());
        assert_ne!(theme.text, theme.panel, "{}: invisible text on panels", variant.label());
        assert_ne!(theme.cursor, theme.background, "{}: invisible cursor", variant.label());
        for (slot, colour) in theme.ansi.iter().enumerate() {
            assert_ne!(*colour, theme.background, "{}: slot {slot}", variant.label());
        }
    }
}

#[test]
fn the_light_theme_is_not_the_dark_one_with_a_new_name() {
    let dark = Theme::dark();
    let light = Theme::light();

    assert_ne!(dark.background, light.background);
    assert_ne!(dark.panel, light.panel);
    assert_ne!(dark.border, light.border);
    assert_ne!(dark.text, light.text);
    assert_ne!(dark.status_bar, light.status_bar);

    for style in ALL_STYLES {
        assert_ne!(dark.syntax(style), light.syntax(style), "{}", style_name(style));
    }
    for slot in 0..16u8 {
        assert_ne!(
            dark.terminal(CellColor::Ansi(slot)),
            light.terminal(CellColor::Ansi(slot)),
            "ANSI slot {slot} is unchanged"
        );
    }
}

#[test]
fn cycling_variants_returns_to_where_it_started() {
    let mut variant = ThemeVariant::default();
    for _ in 0..ALL_VARIANTS.len() {
        variant = variant.next();
    }
    assert_eq!(variant, ThemeVariant::default());
}

#[test]
fn an_out_of_range_ansi_slot_falls_back_in_every_theme() {
    for variant in ALL_VARIANTS {
        let theme = variant.build();
        assert_eq!(theme.terminal(CellColor::Ansi(200)), theme.text);
    }
}

#[test]
fn every_theme_can_show_a_search_match() {
    for variant in ALL_VARIANTS {
        let theme = variant.build();
        assert_ne!(theme.search_match(), theme.background, "{}", variant.label());
        assert_ne!(theme.current_search_match(), theme.background, "{}", variant.label());
        assert_ne!(theme.search_match(), theme.current_search_match(), "{}", variant.label());
        assert_ne!(theme.bracket_match(), theme.current_search_match(), "{}", variant.label());
    }
}

#[test]
fn every_built_in_variant_is_in_all() {
    match ThemeVariant::default() {
        ThemeVariant::Dark
        | ThemeVariant::Light
        | ThemeVariant::OneDarkPro
        | ThemeVariant::GitHubDark
        | ThemeVariant::GitHubLight => {}
    }
    assert_eq!(ThemeVariant::ALL.len(), 5);
    for variant in ThemeVariant::ALL {
        assert!(!variant.name().is_empty());
    }
}

#[test]
fn a_variant_is_found_by_its_own_name() {
    for variant in ALL_VARIANTS {
        assert_eq!(ThemeVariant::from_name(variant.name()), Some(variant));
        assert_eq!(ThemeChoice::from_name(variant.name()), ThemeChoice::BuiltIn(variant));
    }
    assert_eq!(ThemeVariant::from_name("Dark"), None);
    let midnight = ThemeChoice::from_name("midnight");
    assert_eq!(midnight, ThemeChoice::Disk("midnight".to_string()));
    assert_eq!(midnight.name(), "midnight");
}

#[test]
fn a_cell_reads_its_colour_from_the_theme() {
    let theme = Theme::dark();
    assert_eq!(theme.terminal(CellColor::Foreground), theme.text);
    assert_eq!(theme.terminal(CellColor::Background), theme.background);
    assert_eq!(theme.terminal(CellColor::Rgb(0x12, 0x34, 0x56)), 0x123456);
    assert_eq!(theme.terminal(CellColor::Ansi(15)), theme.ansi[15]);
    assert_eq!(theme.terminal(CellColor::Ansi(16)), theme.text);
}

#[test]
fn a_diagnostic_has_the_colour_of_its_severity() {
    let theme = Theme::light();
    assert_eq!(theme.diagnostic(Severity::Error), theme.error);
    assert_eq!(theme.diagnostic(Severity::Warning), theme.warning);
    assert_eq!(theme.diagnostic(Severity::Information), theme.information);
    assert_eq!(theme.diagnostic(Severity::Hint), theme.hint);
    assert_eq!(theme.diff_added_background(), Wash { color: theme.diff_added(), percent: 15 });
    assert_eq!(theme.diff_removed_background(), Wash { color: theme.diff_removed(), percent: 15 });
}

#[test]
fn a_file_without_a_colour_borrows_a_near_one() {
    let file = ThemeFile {
        name: "sparse".to_string(),
        colors: vec![
            ("background".to_string(), 0x010203),
            ("text".to_string(), 0xeeeeee),
            ("background".to_string(), 0x999999),
        ],
        ansi: None,
    };
    let theme = Theme::from_file(&file);
    assert_eq!(theme.background, 0x010203, "the first listed wins");
    assert_eq!(theme.text, 0xeeeeee);
    assert_eq!(theme.keyword, 0xeeeeee);
    assert_eq!(file.color("absent"), None);
}

#[test]
fn setting_the_active_theme_again_saves_nothing_more() {
    let mut app = app();
    set_theme(ThemeVariant::Light, &mut app);
    set_theme(ThemeVariant::Light, &mut app);
    assert_eq!(app.to_save, vec!["light".to_string()]);
    assert_eq!(*app.theme(), Theme::light());
    assert_eq!(app.theme_choice(), ThemeChoice::BuiltIn(ThemeVariant::Light));

    let file = ThemeFile {
        name: "midnight".to_string(),
        colors: vec![("background".to_string(), 0x010203)],
        ansi: None,
    };
    set_disk_theme(&file, ThemeVariant::Light, &mut app);
    assert_eq!(app.to_save, vec!["light".to_string(), "midnight".to_string()]);
    assert_eq!(app.theme().background, 0x010203);
    assert_eq!(app.theme_variant(), ThemeVariant::Light);
}

#[test]
fn a_preview_shows_four_colours_of_the_theme() {
    let theme = Theme::dark();
    let swatches = ThemeVariant::Dark.preview();
    assert_eq!(swatches[0], theme.background);
}

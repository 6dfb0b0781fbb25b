use ellefuanti::completion::{
    char_boundary_at_or_below, closes_when_empty, column_item, completion_items,
    is_completion_trigger, laravel_dialect, model_items, name_items, relation_item,
    should_open_on_trigger, widen, wire_items, word_char_reaches_prefix_floor, CompletionItem,
    CompletionResponse, CompletionSource, CompletionTrigger, LivewireFacts, LspItem, ModelColumn,
    ModelRelation, WireTarget,
};
use ellefuanti::kinds::{FileKind, FileKinds, Language};

fn items(labels: &[&str]) -> Vec<LspItem> {
    labels
        .iter()
        .map(|label| LspItem { label: (*label).to_string(), ..Default::default() })
        .collect()
}

#[test]
fn autocomplete_opens_on_a_word_char_only_past_the_prefix_floor() {
    assert!(!word_char_reaches_prefix_floor("e", "us"), "'us' + 'e' -> prefix 'us', too short");
    assert!(word_char_reaches_prefix_floor("e", "use"), "'use' + 'e' -> prefix 'use', opens");
    assert!(!word_char_reaches_prefix_floor("(", "getName"), "a symbol is the trigger path");
    assert!(!word_char_reaches_prefix_floor("ab", "getName"), "one keystroke, not a paste");
    assert!(!word_char_reaches_prefix_floor(" ", "getName"), "whitespace does not open it");
    assert!(word_char_reaches_prefix_floor("_", "obj_"), "underscore is a word char");
}

#[test]
fn a_letter_outside_ascii_is_a_word_character() {
    assert!(word_char_reaches_prefix_floor("ã", "açã"));
    assert!(!word_char_reaches_prefix_floor("·", "açã"));
    assert!(!word_char_reaches_prefix_floor("", "açã"));
}

#[test]
fn the_servers_incompleteness_survives_the_trip_off_the_wire() {
    let list = CompletionResponse::List {
        items: items(&["strlen", "strpos"]),
        is_incomplete: true,
    };
    let (rows, incomplete) = completion_items(&list);
    assert_eq!(rows.len(), 2);
    assert!(incomplete, "a truncated list must be reported as truncated");
    assert!(rows.iter().all(|item| item.source == CompletionSource::Lsp));

    let whole = CompletionResponse::List { items: items(&["strlen"]), is_incomplete: false };
    let (_, complete) = completion_items(&whole);
    assert!(!complete, "and a complete one must not be");
}

#[test]
fn a_bare_array_response_is_complete_by_definition() {
    let (rows, incomplete) = completion_items(&CompletionResponse::Array(items(&["strlen"])));
    assert_eq!(rows.len(), 1);
    assert!(!incomplete);
}

#[test]
fn the_text_to_insert_is_preferred_over_the_label() {
    let response = CompletionResponse::Array(vec![LspItem {
        label: "getName".to_string(),
        insert_text: Some("getName()".to_string()),
        detail: Some("string".to_string()),
    }]);
    let (rows, _) = completion_items(&response);
    assert_eq!(rows[0].insert, "getName()");
    assert_eq!(rows[0].detail.as_deref(), Some("string"));
    assert_eq!(CompletionItem::new("a", CompletionSource::Buffer).insert, "a");
}

fn kind(path: &str, language: Language, served: bool) -> FileKind {
    FileKind { path: path.to_string(), language, served }
}

fn kinds() -> FileKinds {
    let known = vec![
        kind("routes/web.php", Language::Php, true),
        kind("resources/views/x.blade.php", Language::Blade, false),
        kind("app.js", Language::Other, false),
        kind("composer.json", Language::Other, false),
        kind("README.md", Language::Other, false),
    ];
    FileKinds { known }
}

#[test]
fn only_php_and_blade_are_read_for_laravel_references() {
    let kinds = kinds();
    assert_eq!(laravel_dialect(kinds.language("routes/web.php")), Some(false));
    assert_eq!(
        laravel_dialect(kinds.language("resources/views/x.blade.php")),
        Some(true),
        ".blade.php must be read as Blade, not PHP — the two use different readers"
    );
    for path in ["app.js", "composer.json", "README.md", "style.css", "Makefile"] {
        assert_eq!(laravel_dialect(kinds.language(path)), None, "{path}");
    }
}

#[test]
fn the_server_is_told_about_php_and_not_about_templates() {
    let kinds = kinds();
    assert!(kinds.handles("routes/web.php"));
    assert!(!kinds.handles("resources/views/x.blade.php"));
    assert!(!kinds.handles("app.js"));
    assert!(!kinds.handles("nothing/was/told.php"));
}

#[test]
fn an_offset_inside_a_character_moves_to_its_start() {
    let text = "aé";
    assert_eq!(char_boundary_at_or_below(text, 0), 0);
    assert_eq!(char_boundary_at_or_below(text, 2), 1);
    assert_eq!(char_boundary_at_or_below(text, 3), 3);
    assert_eq!(char_boundary_at_or_below(text, 99), 3);
}

#[test]
fn accepting_a_dotted_name_writes_over_the_whole_literal() {
    let source = "<?php\nroute('users.sh');\n";
    let cursor = source.find("');").unwrap();
    let start = source.find("users").unwrap();
    let widened = widen(source, cursor, start, cursor).expect("the literal is before the cursor");
    assert_eq!(widened.query, "users.sh");
    let mut buffer = source.to_string();
    buffer.replace_range(widened.start..cursor, "users.show");
    assert!(buffer.contains("route('users.show')"), "got {buffer:?}");
    assert!(!buffer.contains("users.users.show"), "the prefix must not be doubled");
    assert!(widen(source, start, start, cursor).is_none(), "a literal that ends past the cursor");
}

#[test]
fn a_trigger_opens_one_popup_and_closes_it_when_nothing_came() {
    assert!(should_open_on_trigger(false, true));
    assert!(!should_open_on_trigger(true, true));
    assert!(!should_open_on_trigger(false, false));
    assert!(closes_when_empty(CompletionTrigger::Character, true, true));
    assert!(!closes_when_empty(CompletionTrigger::Invoked, true, true));
    assert!(!closes_when_empty(CompletionTrigger::Character, false, true));
    assert!(!closes_when_empty(CompletionTrigger::Character, true, false));
}

#[test]
fn only_what_the_server_declared_is_a_trigger() {
    let declared = vec![">".to_string(), "::".to_string()];
    assert!(is_completion_trigger(Some(&declared), ">"));
    assert!(!is_completion_trigger(Some(&declared), ":"));
    assert!(!is_completion_trigger(None, ">"));
}

#[test]
fn an_indexed_fact_carries_where_it_is_known_from() {
    let column = |kind: &str| ModelColumn {
        name: "email".to_string(),
        column_type: kind.to_string(),
        source: "migration".to_string(),
    };
    assert_eq!(column_item(&column("string")).detail.as_deref(), Some("string · migration"));
    assert_eq!(column_item(&column("")).detail.as_deref(), Some("migration"));
    let relation = ModelRelation {
        name: "posts".to_string(),
        kind: "hasMany".to_string(),
        target: "Post".to_string(),
    };
    assert_eq!(relation_item(&relation).detail.as_deref(), Some("hasMany · Post"));
    let both = model_items(&vec![column("string")], &vec![relation]);
    assert_eq!(both.len(), 2);
    assert_eq!(both[0].source, CompletionSource::LaravelColumn);
    assert_eq!(both[1].source, CompletionSource::LaravelRelation);
}

#[test]
fn a_wire_attribute_lists_only_what_it_wants() {
    let facts = LivewireFacts {
        class: "UserTable".to_string(),
        actions: vec!["save".to_string()],
        properties: vec!["name".to_string(), "page".to_string()],
    };
    let actions = wire_items(&facts, WireTarget::Action);
    assert_eq!(actions.len(), 1);
    assert_eq!(actions[0].detail.as_deref(), Some("action · UserTable"));
    let properties = wire_items(&facts, WireTarget::Property);
    assert_eq!(properties.len(), 2);
    assert_eq!(properties[1].detail.as_deref(), Some("property · UserTable"));
    let names = name_items(&vec!["users.show".to_string()], CompletionSource::LaravelRoute);
    assert_eq!(names[0].label, "users.show");
}

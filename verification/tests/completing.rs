use ellefuanti::completing::{
    model_context, Argument, ColumnContext, ColumnTarget, Contexts, ModelContext, Span,
};
use ellefuanti::completion::CompletionTrigger;
use ellefuanti::disk::Disk;
use ellefuanti::effects::{Effect, Focus, Panel, Question, Work};
use ellefuanti::facts::{Buffer, Facts};
use ellefuanti::jobs::Job;
use ellefuanti::kinds::{FileKind, FileKinds, Language};
use ellefuanti::lsp::{Client, LspState};
use ellefuanti::palette::Point;
use ellefuanti::tabs::Tab;
use ellefuanti::tree::Tree;
use ellefuanti::workspace_view::WorkspaceView;

fn disk() -> Disk {
    Disk { existing: vec![], files: vec![], resolved: vec![] }
}

fn buffer(editor: u64, title: &str, text: &str) -> Buffer {
    Buffer {
        editor,
        title: title.to_string(),
        dirty: false,
        text: text.to_string(),
        version: 1,
        head: 0,
        point: Point { row: 0, column: 0 },
        selection: None,
        selected_text: None,
        word: None,
        prefix: String::new(),
        language: "PHP".to_string(),
    }
}

fn kind(path: &str, language: Language, served: bool) -> FileKind {
    FileKind { path: path.to_string(), language, served }
}

fn kinds() -> FileKinds {
    let known = vec![
        kind("/srv/a.php", Language::Php, true),
        kind("/srv/livewire/list.blade.php", Language::Blade, false),
    ];
    FileKinds { known }
}

fn facts(buffers: Vec<Buffer>) -> Facts {
    Facts {
        disk: disk(),
        kinds: kinds(),
        buffers,
        autosave: false,
        server_configured: true,
        search_focused: false,
        settings_path: None,
        laravel_reference: false,
        tests_detected: false,
        languages: vec!["PHP".to_string(), "Blade".to_string()],
    }
}

fn tree(root: &str) -> Tree {
    Tree {
        root: root.to_string(),
        name: "srv".to_string(),
        entries: vec![],
        show_hidden: false,
    }
}

fn workspace(paths: &[&str]) -> WorkspaceView {
    let mut workspace = WorkspaceView::new();
    workspace.tree = Some(tree("/srv"));
    let mut editor = 0;
    for path in paths {
        editor += 1;
        workspace.strip.push(Tab { path: Some(path.to_string()), editor });
    }
    workspace
}

const SOURCE: &str = "<?php\nroute('users.sh');\n";

fn served() -> WorkspaceView {
    let mut workspace = workspace(&["/srv/a.php"]);
    workspace.lsp.client = Some(Client { triggers: vec![">".to_string()], rename: true });
    workspace.lsp.state = LspState::Running;
    workspace
}

fn known() -> Facts {
    let mut known = facts(vec![buffer(1, "a.php", SOURCE)]);
    known.buffers[0].head = SOURCE.find("');").unwrap();
    known.buffers[0].prefix = "sh".to_string();
    known
}

fn nowhere() -> Contexts {
    Contexts { route: None, model: ModelContext::Nothing, wire: None }
}

fn in_route() -> Contexts {
    let start = SOURCE.find("users").unwrap();
    let end = SOURCE.find("');").unwrap();
    Contexts { route: Some(Span { start, end }), model: ModelContext::Nothing, wire: None }
}

#[test]
fn the_popup_opens_before_the_answers_come() {
    let mut workspace = served();
    let known = known();
    let head = known.buffers[0].head;
    let effects = workspace.complete(&known, true, &nowhere());
    assert_eq!(workspace.completion, Some(CompletionTrigger::Invoked));
    assert_eq!(workspace.completion_word_start, Some((1, head - 2)));
    assert_eq!(
        effects,
        vec![
            Effect::OpenCompletion { query: "sh".to_string() },
            Effect::Focus(Focus::Panel(Panel::Completion)),
            Effect::ServerChange { path: "/srv/a.php".to_string(), text: SOURCE.to_string() },
            Effect::Ask(Question::Completion { path: "/srv/a.php".to_string(), offset: head }),
        ]
    );
    assert!(served().complete(&known, false, &nowhere()).is_empty(), "the cursor is off screen");
    assert!(WorkspaceView::new().complete(&known, true, &nowhere()).is_empty());
}

#[test]
fn a_dotted_route_name_needs_the_whole_literal_not_the_word_before_the_cursor() {
    let mut workspace = served();
    let known = known();
    let start = SOURCE.find("users").unwrap();
    let effects = workspace.complete(&known, true, &in_route());
    assert_eq!(workspace.completion_word_start, Some((1, start)));
    assert!(
        effects.contains(&Effect::SetQuery("users.sh".to_string())),
        "the query must cover the whole literal typed so far"
    );
    assert!(effects.contains(&Effect::Start(
        Job::CompletionRoutes,
        Work::ReadRouteNames { root: "/srv".to_string() }
    )));

    let written = workspace.accept_completion("users.show".to_string(), &known);
    let (from, to, text) = match written.last() {
        Some(Effect::Insert { start, end, text, .. }) => (*start, *end, text.clone()),
        other => panic!("nothing was written: {other:?}"),
    };
    let mut buffer = SOURCE.to_string();
    buffer.replace_range(from..to, &text);
    assert!(buffer.contains("route('users.show')"), "got {buffer:?}");
    assert!(!buffer.contains("users.users.show"), "the prefix must not be doubled");
}

#[test]
fn a_cursor_in_the_middle_of_a_literal_widens_nothing() {
    let mut workspace = served();
    let known = known();
    let mut contexts = in_route();
    contexts.route = Some(Span { start: SOURCE.find("users").unwrap(), end: SOURCE.len() });
    let effects = workspace.complete(&known, true, &contexts);
    assert!(!effects.iter().any(|effect| matches!(effect, Effect::SetQuery(_))));
    assert_eq!(workspace.completion_word_start, Some((1, known.buffers[0].head - 2)));
}

#[test]
fn a_model_is_asked_for_what_the_call_wants() {
    let span = Span { start: 0, end: 0 };
    let cases = vec![
        (
            ModelContext::Column { class: "User".to_string(), span },
            Work::ReadColumns { root: "/srv".to_string(), class: "User".to_string() },
        ),
        (
            ModelContext::Relation { class: "User".to_string(), span },
            Work::ReadRelations { root: "/srv".to_string(), class: "User".to_string() },
        ),
        (
            ModelContext::Scope { class: "User".to_string() },
            Work::ReadScopes { root: "/srv".to_string(), class: "User".to_string() },
        ),
        (
            ModelContext::Model { class: "User".to_string() },
            Work::ReadModel { root: "/srv".to_string(), class: "User".to_string() },
        ),
    ];
    for (model, work) in cases {
        let contexts = Contexts { route: None, model, wire: None };
        let effects = served().complete(&known(), true, &contexts);
        assert!(effects.contains(&Effect::Start(Job::CompletionColumns, work)));
    }
}

#[test]
fn a_component_is_read_in_a_template_alone() {
    let wire = Contexts {
        route: None,
        model: ModelContext::Nothing,
        wire: Some(Span { start: 0, end: 0 }),
    };
    let read = Effect::Start(
        Job::CompletionColumns,
        Work::ReadComponent {
            root: "/srv".to_string(),
            path: "/srv/livewire/list.blade.php".to_string(),
        },
    );
    let mut template = workspace(&["/srv/livewire/list.blade.php"]);
    assert!(template.complete(&known(), true, &wire).contains(&read));
    assert!(!served().complete(&known(), true, &wire).contains(&read));
}

#[test]
fn without_a_server_there_are_the_buffers_words() {
    let mut workspace = workspace(&["/srv/a.php"]);
    let effects = workspace.complete(&known(), true, &nowhere());
    assert_eq!(effects[2..], [Effect::OfferWords, Effect::MarkLoaded]);
    let mut blank = known();
    blank.buffers[0].prefix = String::new();
    assert_eq!(workspace.request_lsp_completions(&blank), vec![Effect::MarkLoaded]);
}

#[test]
fn a_trigger_opens_the_popup_and_only_while_it_is_closed() {
    let mut workspace = served();
    assert!(workspace.is_completion_trigger(">"));
    assert!(!workspace.is_completion_trigger("->"));
    assert!(workspace.editor_typed("x", &known(), true, &nowhere()).is_empty());
    assert!(!workspace.editor_typed(">", &known(), true, &nowhere()).is_empty());
    assert_eq!(workspace.completion, Some(CompletionTrigger::Character));
    assert!(workspace.editor_typed(">", &known(), true, &nowhere()).is_empty());
}

#[test]
fn a_word_opens_the_popup_once_it_is_long_enough() {
    let workspace = served();
    let mut typed = known();
    typed.buffers[0].prefix = "us".to_string();
    assert!(!workspace.should_open_on_word_char("s", &typed));
    typed.buffers[0].prefix = "use".to_string();
    assert!(workspace.should_open_on_word_char("e", &typed));
    assert!(!workspace.should_open_on_word_char(" ", &typed));
    assert!(!WorkspaceView::new().should_open_on_word_char("e", &typed));
}

#[test]
fn typing_on_narrows_and_asks_again_where_the_answer_was_cut() {
    let mut workspace = served();
    workspace.complete(&known(), true, &nowhere());
    workspace.completion_asked(5);
    assert_eq!(
        workspace.completion_typed("o".to_string()),
        vec![Effect::TypeInto { editor: 1, text: "o".to_string() }]
    );
    assert_eq!(
        workspace.completion_text_landed(true, true, false, &known()),
        vec![Effect::CancelRequest(5), Effect::CancelJob(Job::Completion)]
    );
    assert_eq!(workspace.completion_query, None);
    let effects = workspace.completion_text_landed(true, true, true, &known());
    assert!(matches!(effects.last(), Some(Effect::Ask(Question::Completion { .. }))));
    workspace.completion_text_landed(true, false, false, &known());
    assert_eq!(workspace.completion, None, "nothing matches any more");
}

#[test]
fn backspacing_out_of_the_word_closes_the_popup() {
    let mut workspace = served();
    workspace.complete(&known(), true, &nowhere());
    assert_eq!(workspace.completion_backspace(), vec![Effect::EraseIn { editor: 1 }]);
    assert!(workspace.completion_erased(true, false, &known()).is_empty());
    assert!(workspace.completion.is_some());
    workspace.completion_erased(false, false, &known());
    assert!(workspace.completion.is_none());
    assert!(workspace.completion_erased(true, true, &known()).is_empty());
}

#[test]
fn only_a_popup_nobody_asked_for_closes_when_it_is_empty() {
    let mut workspace = served();
    workspace.complete(&known(), true, &nowhere());
    workspace.completion_asked(5);
    workspace.completion_answered(5, true);
    assert!(workspace.completion.is_some(), "an answer to a question says that it is empty");
    workspace.open_completion(CompletionTrigger::Character, &known(), true, &nowhere());
    workspace.completion_asked(6);
    assert!(workspace.close_if_empty_trigger(false, true).is_empty());
    workspace.completion_answered(5, false);
    assert_eq!(workspace.completion_query, Some(6), "an old answer leaves the new question be");
    workspace.completion_answered(6, true);
    assert!(workspace.completion.is_none());
}

#[test]
fn nothing_is_written_into_an_editor_that_was_closed() {
    let mut workspace = served();
    workspace.complete(&known(), true, &nowhere());
    workspace.strip.remove(0);
    let effects = workspace.accept_completion("show".to_string(), &known());
    assert!(!effects.iter().any(|effect| matches!(effect, Effect::Insert { .. })));
    assert_eq!(workspace.completion_word_start, None);
}

#[test]
fn nothing_is_written_behind_the_end_of_the_buffer() {
    let mut workspace = served();
    workspace.complete(&known(), true, &nowhere());
    let mut shorter = known();
    shorter.buffers[0].text = "<?php".to_string();
    let effects = workspace.accept_completion("show".to_string(), &shorter);
    assert!(!effects.iter().any(|effect| matches!(effect, Effect::Insert { .. })));
}

#[test]
fn the_most_precise_claim_about_a_model_wins() {
    let span = Span { start: 3, end: 5 };
    let literal = |target: ColumnTarget, expects: Argument| {
        Some(ColumnContext { target, expects, span })
    };
    let user = || Some("User".to_string());
    let post = || Some("Post".to_string());
    let class = || ColumnTarget::Class("Team".to_string());
    assert!(matches!(
        model_context(literal(class(), Argument::Column), user(), post()),
        ModelContext::Column { class, span: Span { start: 3, end: 5 } } if class == "Team"
    ));
    assert!(matches!(
        model_context(literal(ColumnTarget::This, Argument::Relation), user(), post()),
        ModelContext::Relation { class, .. } if class == "Post"
    ));
    assert!(matches!(
        model_context(literal(ColumnTarget::This, Argument::Column), user(), None),
        ModelContext::Nothing
    ));
    assert!(matches!(
        model_context(None, user(), post()),
        ModelContext::Scope { class } if class == "User"
    ));
    assert!(matches!(
        model_context(None, None, post()),
        ModelContext::Model { class } if class == "Post"
    ));
    assert!(matches!(model_context(None, None, None), ModelContext::Nothing));
}

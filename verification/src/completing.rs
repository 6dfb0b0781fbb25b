//! The life of the completion popup: what opens it, what it asks, how typing
//! goes on while it is open, and what accepting a row writes.

use vstd::prelude::*;
use vstd::string::*;
use vstd::utf8::*;

use crate::completion;
use crate::completion::{
    char_boundary_at_or_below, closes_when_empty, is_completion_trigger, laravel_dialect,
    should_open_on_trigger, widen, word_char_reaches_prefix_floor, CompletionTrigger,
};
use crate::effects;
use crate::effects::{also, both, nothing, only, Effect, Focus, Panel, Question, Work};
use crate::facts::{Buffer, Facts};
use crate::jobs::Job;
use crate::tabs;
use crate::workspace_view;
use crate::workspace_view::{WorkspaceModel, WorkspaceView};

verus! {

/// Bytes of a buffer.
#[derive(Clone, Copy, PartialEq, Eq, Structural, Debug)]
pub struct Span {
    pub start: usize,
    pub end: usize,
}

/// What an Eloquent call around the cursor wants.
pub enum ModelContext<S> {
    Nothing,
    /// A column of that model, in the literal at that span.
    Column { class: S, span: Span },
    Relation { class: S, span: Span },
    /// A scope of that model.
    Scope { class: S },
    /// The file is that model's own.
    Model { class: S },
}

/// Whose columns a literal around the cursor is about.
pub enum ColumnTarget {
    Class(String),
    /// The model that the file itself declares.
    This,
}

/// What a literal around the cursor names.
#[derive(Clone, Copy, PartialEq, Eq, Structural, Debug)]
pub enum Argument {
    Column,
    Relation,
}

/// A literal around the cursor that names something of a model.
pub struct ColumnContext {
    pub target: ColumnTarget,
    pub expects: Argument,
    pub span: Span,
}

/// The literal is about one class: what it names of it.
pub open spec fn literal_context(expects: Argument, class: Seq<char>, span: Span) -> ModelContext<
    Seq<char>,
> {
    match expects {
        Argument::Column => ModelContext::Column { class, span },
        Argument::Relation => ModelContext::Relation { class, span },
    }
}

/// Which of the claims around the cursor counts: a literal before a scope, and
/// a scope before the file's own model. A literal about `$this` outside a model
/// gives nothing.
pub open spec fn winning_context(
    column: Option<ColumnContext>,
    scope: Option<Seq<char>>,
    own: Option<Seq<char>>,
) -> ModelContext<Seq<char>> {
    match (column, scope, own) {
        (Some(context), _, _) => match (context.target, own) {
            (ColumnTarget::Class(class), _) => literal_context(
                context.expects,
                class@,
                context.span,
            ),
            (ColumnTarget::This, Some(class)) => literal_context(
                context.expects,
                class,
                context.span,
            ),
            (ColumnTarget::This, None) => ModelContext::Nothing,
        },
        (None, Some(class), _) => ModelContext::Scope { class },
        (None, None, Some(class)) => ModelContext::Model { class },
        (None, None, None) => ModelContext::Nothing,
    }
}

/// What the claims around the cursor come to. `scope` is the class that a call
/// is being typed on, and `own` the model that the file declares.
pub fn model_context(column: Option<ColumnContext>, scope: Option<String>, own: Option<String>) -> (context:
    ModelContext<String>)
    ensures
        context.deep_view() == winning_context(column, scope.deep_view(), own.deep_view()),
{
    match column {
        Some(found) => {
            let class = match found.target {
                ColumnTarget::Class(class) => class,
                ColumnTarget::This => match own {
                    Some(class) => class,
                    None => {
                        return ModelContext::Nothing;
                    },
                },
            };
            match found.expects {
                Argument::Column => ModelContext::Column { class, span: found.span },
                Argument::Relation => ModelContext::Relation { class, span: found.span },
            }
        },
        None => match scope {
            Some(class) => ModelContext::Scope { class },
            None => match own {
                Some(class) => ModelContext::Model { class },
                None => ModelContext::Nothing,
            },
        },
    }
}

impl vstd::view::DeepView for ModelContext<String> {
    type V = ModelContext<Seq<char>>;

    open spec fn deep_view(&self) -> ModelContext<Seq<char>> {
        match *self {
            ModelContext::Nothing => ModelContext::Nothing,
            ModelContext::Column { class, span } => ModelContext::Column { class: class@, span },
            ModelContext::Relation { class, span } => ModelContext::Relation {
                class: class@,
                span,
            },
            ModelContext::Scope { class } => ModelContext::Scope { class: class@ },
            ModelContext::Model { class } => ModelContext::Model { class: class@ },
        }
    }
}

/// What Laravel reads around the cursor.
pub struct Contexts {
    /// The literal of a route's name.
    pub route: Option<Span>,
    pub model: ModelContext<String>,
    /// The value of a `wire:` attribute.
    pub wire: Option<Span>,
}

/// The bytes of a buffer.
pub open spec fn bytes_of(buffer: Buffer) -> Seq<u8> {
    encode_utf8(buffer.text@)
}

/// Where the word before the cursor starts.
pub open spec fn word_start(buffer: Buffer) -> usize {
    let length = encode_utf8(buffer.prefix@).len();
    if length <= buffer.head {
        (buffer.head - length) as usize
    } else {
        0
    }
}

impl WorkspaceModel {
    /// The active editor and what is in it.
    pub open spec fn active_buffer(self, facts: Facts) -> Option<Buffer> {
        match self.strip.active_editor() {
            Some(editor) => facts.buffer_of(editor),
            None => None,
        }
    }

    // -----------------------------------------------------------------------
    // Opening
    // -----------------------------------------------------------------------

    /// Whether a keystroke opens the popup while a word is typed: only with a
    /// server, and only once enough of the word is there.
    pub open spec fn should_open_on_word_char(self, text: Seq<char>, facts: Facts) -> bool {
        self.lsp.client is Some && match self.active_buffer(facts) {
            Some(buffer) => completion::is_word_keystroke(text) && buffer.prefix@.len()
                >= completion::MIN_AUTOCOMPLETE_PREFIX,
            None => false,
        }
    }

    /// Whether the server declared a text to open the popup.
    pub open spec fn is_completion_trigger(self, text: Seq<char>) -> bool {
        match self.lsp.client {
            Some(client) => client.triggers.contains(text),
            None => false,
        }
    }

    /// A character was typed into the editor.
    pub open spec fn editor_typed(
        self,
        text: Seq<char>,
        facts: Facts,
        placed: bool,
        contexts: Contexts,
    ) -> workspace_view::Step {
        let armed = self.asks(self.schedule_autosave(facts));
        if self.completion is None && (self.is_completion_trigger(text)
            || self.should_open_on_word_char(text, facts)) {
            armed.followed_by(
                self.open_completion(CompletionTrigger::Character, facts, placed, contexts),
            )
        } else {
            armed
        }
    }

    /// Opens the popup at the cursor and asks every source. It is there before
    /// the answers are, which come in later. `placed` says whether the cursor
    /// is on screen.
    pub open spec fn open_completion(
        self,
        trigger: CompletionTrigger,
        facts: Facts,
        placed: bool,
        contexts: Contexts,
    ) -> workspace_view::Step {
        match self.active_buffer(facts) {
            Some(buffer) if placed => {
                let shown = self.popup_shown(trigger, buffer);
                shown.followed_by(shown.state.ask_sources(facts, contexts))
            },
            _ => self.dismiss_completion(),
        }
    }

    /// The popup, in place of one that was open, over the word before the
    /// cursor.
    pub open spec fn popup_shown(self, trigger: CompletionTrigger, buffer: Buffer) -> workspace_view::Step {
        let quiet = self.dismiss_completion();
        workspace_view::Step {
            state: WorkspaceModel {
                completion: Some(trigger),
                completion_word_start: Some((buffer.editor, word_start(buffer))),
                ..quiet.state
            },
            effects: quiet.effects + seq![
                Effect::OpenCompletion { query: buffer.prefix@ },
                Effect::Focus(Focus::Panel(Panel::Completion)),
            ],
        }
    }

    /// Asks every source, the server last.
    pub open spec fn ask_sources(self, facts: Facts, contexts: Contexts) -> workspace_view::Step {
        let routes = self.request_route_completions(facts, contexts.route);
        let columns = routes.followed_by(
            routes.state.request_column_completions(facts, contexts.model.deep_view()),
        );
        let wire = columns.followed_by(
            columns.state.request_wire_completions(facts, contexts.wire),
        );
        wire.followed_by(wire.state.request_lsp_completions(facts))
    }

    // -----------------------------------------------------------------------
    // The sources
    // -----------------------------------------------------------------------

    /// The popup overwrites a literal whole, and filters by what of it stands
    /// before the cursor: both or neither. A cursor in the middle of the
    /// literal changes nothing.
    pub open spec fn over_literal(self, buffer: Buffer, offset: int, span: Span) -> workspace_view::Step {
        if span.start <= offset && span.end <= offset && is_char_boundary(
            bytes_of(buffer),
            span.start as int,
        ) {
            WorkspaceModel {
                completion_word_start: Some((buffer.editor, span.start)),
                ..self
            }.asks(
                seq![
                    Effect::SetQuery(
                        completion::typed_since(bytes_of(buffer), span.start as int, offset),
                    ),
                ],
            )
        } else {
            self.stays()
        }
    }

    /// Asks for route names, inside the name of one and nowhere else.
    #[verifier::opaque]
    pub open spec fn request_route_completions(self, facts: Facts, route: Option<Span>) -> workspace_view::Step {
        match (self.root(), self.strip.active_path(), self.active_buffer(facts), route) {
            (Some(root), Some(path), Some(buffer), Some(span)) => if completion::dialect_of(
                facts.kinds.language_of(path),
            ) is Some {
                self.over_literal(buffer, buffer.head as int, span).and(
                    seq![Effect::Start(Job::CompletionRoutes, Work::ReadRouteNames { root })],
                )
            } else {
                self.stays()
            },
            _ => self.stays(),
        }
    }

    /// Asks for what a model has, where the cursor is in a place for it.
    #[verifier::opaque]
    pub open spec fn request_column_completions(
        self,
        facts: Facts,
        context: ModelContext<Seq<char>>,
    ) -> workspace_view::Step {
        match (self.root(), self.active_buffer(facts)) {
            (Some(root), Some(buffer)) => match context {
                ModelContext::Nothing => self.stays(),
                ModelContext::Column { class, span } => self.over_literal(
                    buffer,
                    buffer.head as int,
                    span,
                ).and(
                    seq![
                        Effect::Start(Job::CompletionColumns, Work::ReadColumns { root, class }),
                    ],
                ),
                ModelContext::Relation { class, span } => self.over_literal(
                    buffer,
                    buffer.head as int,
                    span,
                ).and(
                    seq![
                        Effect::Start(
                            Job::CompletionColumns,
                            Work::ReadRelations { root, class },
                        ),
                    ],
                ),
                ModelContext::Scope { class } => self.asks(
                    seq![
                        Effect::Start(Job::CompletionColumns, Work::ReadScopes { root, class }),
                    ],
                ),
                ModelContext::Model { class } => self.asks(
                    seq![
                        Effect::Start(Job::CompletionColumns, Work::ReadModel { root, class }),
                    ],
                ),
            },
            _ => self.stays(),
        }
    }

    /// Asks for a component's actions or properties, in a template alone.
    #[verifier::opaque]
    pub open spec fn request_wire_completions(self, facts: Facts, wire: Option<Span>) -> workspace_view::Step {
        match (self.root(), self.strip.active_path(), self.active_buffer(facts), wire) {
            (Some(root), Some(path), Some(buffer), Some(span)) => if completion::dialect_of(
                facts.kinds.language_of(path),
            ) == Some(true) {
                self.over_literal(
                    buffer,
                    completion::boundary_below(bytes_of(buffer), buffer.head as int),
                    span,
                ).and(
                    seq![
                        Effect::Start(
                            Job::CompletionColumns,
                            Work::ReadComponent { root, path },
                        ),
                    ],
                )
            } else {
                self.stays()
            },
            _ => self.stays(),
        }
    }

    /// The buffer's own words: what there is without a server.
    pub open spec fn offer_buffer_words(self, facts: Facts) -> Seq<effects::EffectView> {
        match self.active_buffer(facts) {
            Some(buffer) => if buffer.prefix@.len() > 0 {
                seq![Effect::OfferWords]
            } else {
                Seq::empty()
            },
            None => Seq::empty(),
        }
    }

    /// Asks the server, in place of the question before. Without one there are
    /// the buffer's words, and nothing more is waited for.
    #[verifier::opaque]
    pub open spec fn request_lsp_completions(self, facts: Facts) -> workspace_view::Step {
        match self.navigation_origin(facts) {
            None => self.asks(self.offer_buffer_words(facts).push(Effect::MarkLoaded)),
            Some((path, offset)) => {
                let stopped = self.cancel_completion_query();
                if self.lsp.client is None {
                    stopped.and(self.offer_buffer_words(facts).push(Effect::MarkLoaded))
                } else {
                    stopped.and(
                        self.resync_active(facts).push(
                            Effect::Ask(Question::Completion { path, offset }),
                        ),
                    )
                }
            },
        }
    }

    /// The question is on its way.
    pub open spec fn completion_asked(self, id: u64) -> workspace_view::Step {
        WorkspaceModel { completion_query: Some(id), ..self }.asks(
            seq![Effect::Start(Job::Completion, Work::AwaitCompletion { id })],
        )
    }

    /// Closes a popup that a character opened and that nothing was found for.
    pub open spec fn close_if_empty_trigger(self, loaded: bool, empty: bool) -> workspace_view::Step {
        if self.completion == Some(CompletionTrigger::Character) && loaded && empty {
            self.dismiss_completion()
        } else {
            self.stays()
        }
    }

    /// The server answered, or failed to. Every source has answered by then.
    pub open spec fn completion_answered(self, id: u64, empty: bool) -> workspace_view::Step {
        WorkspaceModel {
            completion_query: if self.completion_query == Some(id) {
                None
            } else {
                self.completion_query
            },
            ..self
        }.close_if_empty_trigger(true, empty)
    }

    // -----------------------------------------------------------------------
    // Typing on
    // -----------------------------------------------------------------------

    /// Drops a question whose answer is not wanted any more, with the popup
    /// left open.
    pub open spec fn supersede_completion_query(self) -> workspace_view::Step {
        if self.completion_query is Some {
            self.cancel_completion_query().and(seq![Effect::CancelJob(Job::Completion)])
        } else {
            self.stays()
        }
    }

    /// Asks again where the last answer was cut short: narrowing a list that
    /// is not the whole one would hide rows.
    pub open spec fn rerequest_if_incomplete(self, incomplete: bool, facts: Facts) -> workspace_view::Step {
        if incomplete && self.strip.active_editor() is Some {
            self.request_lsp_completions(facts)
        } else {
            self.stays()
        }
    }

    /// The list was narrowed or widened, and the popup stays open with it.
    pub open spec fn query_moved(self, incomplete: bool, facts: Facts) -> workspace_view::Step {
        let stopped = self.supersede_completion_query();
        stopped.followed_by(stopped.state.rerequest_if_incomplete(incomplete, facts))
    }

    /// A character was typed with the popup open: it goes into the buffer.
    pub open spec fn completion_typed(self, text: Seq<char>) -> Seq<effects::EffectView> {
        match self.strip.active_editor() {
            Some(editor) => seq![Effect::TypeInto { editor, text }],
            None => Seq::empty(),
        }
    }

    /// The character is in the buffer. The popup stays as long as it landed as
    /// it was typed and a row still matches.
    pub open spec fn completion_text_landed(
        self,
        as_typed: bool,
        matching: bool,
        incomplete: bool,
        facts: Facts,
    ) -> workspace_view::Step {
        let armed = self.asks(self.schedule_autosave(facts));
        if self.completion is None {
            armed
        } else if !as_typed || !matching {
            armed.followed_by(self.dismiss_completion())
        } else {
            armed.followed_by(self.query_moved(incomplete, facts))
        }
    }

    /// Backspace with the popup open: it goes to the buffer.
    pub open spec fn completion_backspace(self) -> Seq<effects::EffectView> {
        match self.strip.active_editor() {
            Some(editor) => seq![Effect::EraseIn { editor }],
            None => Seq::empty(),
        }
    }

    /// The character is gone. The popup stays while the cursor is still in the
    /// word that it was opened on.
    pub open spec fn completion_erased(self, in_word: bool, incomplete: bool, facts: Facts) -> workspace_view::Step {
        if self.completion is None {
            self.stays()
        } else if !in_word {
            self.dismiss_completion()
        } else {
            self.query_moved(incomplete, facts)
        }
    }

    // -----------------------------------------------------------------------
    // Accepting
    // -----------------------------------------------------------------------

    /// What accepting a row writes: over everything from the start of the word
    /// to the cursor, in the editor that the popup was opened in, while that
    /// is still there.
    pub open spec fn acceptance(self, insert: Seq<char>, facts: Facts) -> Seq<effects::EffectView> {
        match self.completion_word_start {
            Some((editor, start)) => match (
                tabs::tab_of_editor(self.strip.tabs, editor, 0),
                facts.buffer_of(editor),
            ) {
                (Some(_), Some(buffer)) => if start <= buffer.head && buffer.head <= bytes_of(
                    buffer,
                ).len() {
                    seq![Effect::Insert { editor, start, end: buffer.head, text: insert }]
                } else {
                    Seq::empty()
                },
                _ => Seq::empty(),
            },
            None => Seq::empty(),
        }
    }

    /// A row was accepted.
    pub open spec fn accept_completion(self, insert: Seq<char>, facts: Facts) -> workspace_view::Step {
        self.dismiss_completion().and(self.acceptance(insert, facts))
    }
}

impl WorkspaceView {
    /// What is in the active editor.
    fn active_buffer<'a>(&self, facts: &'a Facts) -> (found: Option<&'a Buffer>)
        ensures
            match found {
                Some(buffer) => self@.active_buffer(*facts) == Some(*buffer),
                None => self@.active_buffer(*facts) is None,
            },
    {
        match self.strip.active_editor() {
            Some(editor) => facts.buffer(editor),
            None => None,
        }
    }

    // -----------------------------------------------------------------------
    // Opening
    // -----------------------------------------------------------------------

    /// Whether a keystroke opens the popup while a word is typed.
    pub fn should_open_on_word_char(&self, text: &str, facts: &Facts) -> (opens: bool)
        ensures
            opens == self@.should_open_on_word_char(text@, *facts),
    {
        if self.lsp.client.is_none() {
            return false;
        }
        match self.active_buffer(facts) {
            Some(buffer) => word_char_reaches_prefix_floor(text, buffer.prefix.as_str()),
            None => false,
        }
    }

    /// Whether the server declared a text to open the popup.
    pub fn is_completion_trigger(&self, text: &str) -> (declared: bool)
        ensures
            declared == self@.is_completion_trigger(text@),
    {
        match &self.lsp.client {
            Some(client) => is_completion_trigger(Some(&client.triggers), text),
            None => false,
        }
    }

    /// A character was typed into the editor: it opens the popup where the
    /// server asked for that, or where a word is long enough.
    pub fn editor_typed(&mut self, text: &str, facts: &Facts, placed: bool, contexts: &Contexts) -> (effects:
        Vec<Effect<String>>)
        ensures
            final(self)@ == old(self)@.editor_typed(text@, *facts, placed, *contexts).state,
            effects::told(effects) == old(self)@.editor_typed(
                text@,
                *facts,
                placed,
                *contexts,
            ).effects,
    {
        let declared = self.is_completion_trigger(text) || self.should_open_on_word_char(
            text,
            facts,
        );
        let armed = self.schedule_autosave(facts);
        if !should_open_on_trigger(self.completion.is_some(), declared) {
            return armed;
        }
        let opened = self.open_completion(CompletionTrigger::Character, facts, placed, contexts);
        both(armed, opened)
    }

    /// Opens the popup because it was asked for.
    pub fn complete(&mut self, facts: &Facts, placed: bool, contexts: &Contexts) -> (effects: Vec<
        Effect<String>,
    >)
        ensures
            final(self)@ == old(self)@.open_completion(
                CompletionTrigger::Invoked,
                *facts,
                placed,
                *contexts,
            ).state,
            effects::told(effects) == old(self)@.open_completion(
                CompletionTrigger::Invoked,
                *facts,
                placed,
                *contexts,
            ).effects,
    {
        self.open_completion(CompletionTrigger::Invoked, facts, placed, contexts)
    }

    /// Opens the popup at the cursor and asks every source.
    pub fn open_completion(
        &mut self,
        trigger: CompletionTrigger,
        facts: &Facts,
        placed: bool,
        contexts: &Contexts,
    ) -> (effects: Vec<Effect<String>>)
        ensures
            final(self)@ == old(self)@.open_completion(trigger, *facts, placed, *contexts).state,
            effects::told(effects) == old(self)@.open_completion(
                trigger,
                *facts,
                placed,
                *contexts,
            ).effects,
    {
        if placed {
            if let Some(buffer) = self.active_buffer(facts) {
                let shown = self.popup_shown(trigger, buffer);
                return both(shown, self.ask_sources(facts, contexts));
            }
        }
        self.dismiss_completion()
    }

    /// Shows the popup, in place of one that was open, over the word before
    /// the cursor.
    fn popup_shown(&mut self, trigger: CompletionTrigger, buffer: &Buffer) -> (effects: Vec<
        Effect<String>,
    >)
        ensures
            final(self)@ == old(self)@.popup_shown(trigger, *buffer).state,
            effects::told(effects) == old(self)@.popup_shown(trigger, *buffer).effects,
    {
        let quiet = self.dismiss_completion();
        let length = buffer.prefix.as_str().as_bytes().len();
        let start: usize = if length <= buffer.head {
            buffer.head - length
        } else {
            0
        };
        self.completion = Some(trigger);
        self.completion_word_start = Some((buffer.editor, start));
        let shown = also(quiet, Effect::OpenCompletion { query: buffer.prefix.clone() });
        also(shown, Effect::Focus(Focus::Panel(Panel::Completion)))
    }

    /// Asks every source, the server last.
    fn ask_sources(&mut self, facts: &Facts, contexts: &Contexts) -> (effects: Vec<Effect<String>>)
        ensures
            final(self)@ == old(self)@.ask_sources(*facts, *contexts).state,
            effects::told(effects) == old(self)@.ask_sources(*facts, *contexts).effects,
    {
        let routes = self.request_route_completions(facts, contexts.route);
        let columns = self.request_column_completions(facts, &contexts.model);
        let wire = self.request_wire_completions(facts, contexts.wire);
        let server = self.request_lsp_completions(facts);
        both(both(both(routes, columns), wire), server)
    }

    // -----------------------------------------------------------------------
    // The sources
    // -----------------------------------------------------------------------

    /// Lets the popup overwrite a literal whole, and filter by what of it
    /// stands before the cursor.
    fn over_literal(&mut self, buffer: &Buffer, offset: usize, span: Span) -> (effects: Vec<
        Effect<String>,
    >)
        ensures
            final(self)@ == old(self)@.over_literal(*buffer, offset as int, span).state,
            effects::told(effects) == old(self)@.over_literal(
                *buffer,
                offset as int,
                span,
            ).effects,
    {
        let text = buffer.text.as_str();
        proof {
            encode_utf8_valid_utf8(text@);
        }
        if !text.is_char_boundary(span.start) {
            return nothing();
        }
        match widen(text, offset, span.start, span.end) {
            Some(widened) => {
                self.completion_word_start = Some((buffer.editor, span.start));
                return only(Effect::SetQuery(widened.query));
            },
            None => {
                return nothing();
            },
        }
    }

    /// Asks for route names, inside the name of one and nowhere else.
    fn request_route_completions(&mut self, facts: &Facts, route: Option<Span>) -> (effects: Vec<
        Effect<String>,
    >)
        ensures
            final(self)@ == old(self)@.request_route_completions(*facts, route).state,
            effects::told(effects) == old(self)@.request_route_completions(*facts, route).effects,
    {
        reveal(WorkspaceModel::request_route_completions);
        let root = match self.root() {
            Some(root) => root,
            None => {
                return nothing();
            },
        };
        let readable = match self.strip.active_path() {
            Some(path) => laravel_dialect(facts.kinds.language(path.as_str())).is_some(),
            None => false,
        };
        if !readable {
            return nothing();
        }
        match (self.active_buffer(facts), route) {
            (Some(buffer), Some(span)) => {
                let widened = self.over_literal(buffer, buffer.head, span);
                return also(
                    widened,
                    Effect::Start(Job::CompletionRoutes, Work::ReadRouteNames { root }),
                );
            },
            _ => {
                return nothing();
            },
        }
    }

    /// Asks for what a model has, where the cursor is in a place for it.
    fn request_column_completions(&mut self, facts: &Facts, context: &ModelContext<String>) -> (effects:
        Vec<Effect<String>>)
        ensures
            final(self)@ == old(self)@.request_column_completions(
                *facts,
                context.deep_view(),
            ).state,
            effects::told(effects) == old(self)@.request_column_completions(
                *facts,
                context.deep_view(),
            ).effects,
    {
        reveal(WorkspaceModel::request_column_completions);
        let root = match self.root() {
            Some(root) => root,
            None => {
                return nothing();
            },
        };
        let buffer = match self.active_buffer(facts) {
            Some(buffer) => buffer,
            None => {
                return nothing();
            },
        };
        match context {
            ModelContext::Nothing => {
                return nothing();
            },
            ModelContext::Column { class, span } => {
                let widened = self.over_literal(buffer, buffer.head, *span);
                let class = class.clone();
                return also(
                    widened,
                    Effect::Start(Job::CompletionColumns, Work::ReadColumns { root, class }),
                );
            },
            ModelContext::Relation { class, span } => {
                let widened = self.over_literal(buffer, buffer.head, *span);
                let class = class.clone();
                return also(
                    widened,
                    Effect::Start(Job::CompletionColumns, Work::ReadRelations { root, class }),
                );
            },
            ModelContext::Scope { class } => {
                let class = class.clone();
                return only(
                    Effect::Start(Job::CompletionColumns, Work::ReadScopes { root, class }),
                );
            },
            ModelContext::Model { class } => {
                let class = class.clone();
                return only(
                    Effect::Start(Job::CompletionColumns, Work::ReadModel { root, class }),
                );
            },
        }
    }

    /// Asks for a component's actions or properties, in a template alone.
    fn request_wire_completions(&mut self, facts: &Facts, wire: Option<Span>) -> (effects: Vec<
        Effect<String>,
    >)
        ensures
            final(self)@ == old(self)@.request_wire_completions(*facts, wire).state,
            effects::told(effects) == old(self)@.request_wire_completions(*facts, wire).effects,
    {
        reveal(WorkspaceModel::request_wire_completions);
        let root = match self.root() {
            Some(root) => root,
            None => {
                return nothing();
            },
        };
        let path = match self.strip.active_path() {
            Some(path) => path.clone(),
            None => {
                return nothing();
            },
        };
        let template = match laravel_dialect(facts.kinds.language(path.as_str())) {
            Some(blade) => blade,
            None => false,
        };
        if !template {
            return nothing();
        }
        match (self.active_buffer(facts), wire) {
            (Some(buffer), Some(span)) => {
                let offset = char_boundary_at_or_below(buffer.text.as_str(), buffer.head);
                let widened = self.over_literal(buffer, offset, span);
                return also(
                    widened,
                    Effect::Start(Job::CompletionColumns, Work::ReadComponent { root, path }),
                );
            },
            _ => {
                return nothing();
            },
        }
    }

    /// The buffer's own words.
    fn offer_buffer_words(&self, facts: &Facts) -> (effects: Vec<Effect<String>>)
        ensures
            effects::told(effects) == self@.offer_buffer_words(*facts),
    {
        match self.active_buffer(facts) {
            Some(buffer) => if buffer.prefix.as_str().unicode_len() > 0 {
                only(Effect::OfferWords)
            } else {
                nothing()
            },
            None => nothing(),
        }
    }

    /// Asks the server, in place of the question before.
    pub fn request_lsp_completions(&mut self, facts: &Facts) -> (effects: Vec<Effect<String>>)
        ensures
            final(self)@ == old(self)@.request_lsp_completions(*facts).state,
            effects::told(effects) == old(self)@.request_lsp_completions(*facts).effects,
    {
        reveal(WorkspaceModel::request_lsp_completions);
        let (path, offset) = match self.navigation_origin(facts) {
            Some(origin) => origin,
            None => {
                return also(self.offer_buffer_words(facts), Effect::MarkLoaded);
            },
        };
        let stopped = self.cancel_completion_query();
        if self.lsp.client.is_none() {
            let words = also(self.offer_buffer_words(facts), Effect::MarkLoaded);
            return both(stopped, words);
        }
        let sent = self.resync_active(facts);
        let asked = also(sent, Effect::Ask(Question::Completion { path, offset }));
        both(stopped, asked)
    }

    /// The question is on its way.
    pub fn completion_asked(&mut self, id: u64) -> (effects: Vec<Effect<String>>)
        ensures
            final(self)@ == old(self)@.completion_asked(id).state,
            effects::told(effects) == old(self)@.completion_asked(id).effects,
    {
        self.completion_query = Some(id);
        only(Effect::Start(Job::Completion, Work::AwaitCompletion { id }))
    }

    /// Closes a popup that a character opened and that nothing was found for.
    pub fn close_if_empty_trigger(&mut self, loaded: bool, empty: bool) -> (effects: Vec<
        Effect<String>,
    >)
        ensures
            final(self)@ == old(self)@.close_if_empty_trigger(loaded, empty).state,
            effects::told(effects) == old(self)@.close_if_empty_trigger(loaded, empty).effects,
    {
        if let Some(trigger) = self.completion {
            if closes_when_empty(trigger, loaded, empty) {
                return self.dismiss_completion();
            }
        }
        nothing()
    }

    /// The server answered, or failed to. `empty` says whether the popup has a
    /// row now.
    pub fn completion_answered(&mut self, id: u64, empty: bool) -> (effects: Vec<Effect<String>>)
        ensures
            final(self)@ == old(self)@.completion_answered(id, empty).state,
            effects::told(effects) == old(self)@.completion_answered(id, empty).effects,
    {
        let waited = match self.completion_query {
            Some(query) => query == id,
            None => false,
        };
        self.completion_query = if waited {
            None
        } else {
            self.completion_query
        };
        self.close_if_empty_trigger(true, empty)
    }

    // -----------------------------------------------------------------------
    // Typing on
    // -----------------------------------------------------------------------

    /// Drops a question whose answer is not wanted any more.
    pub fn supersede_completion_query(&mut self) -> (effects: Vec<Effect<String>>)
        ensures
            final(self)@ == old(self)@.supersede_completion_query().state,
            effects::told(effects) == old(self)@.supersede_completion_query().effects,
    {
        if self.completion_query.is_none() {
            return nothing();
        }
        let stopped = self.cancel_completion_query();
        also(stopped, Effect::CancelJob(Job::Completion))
    }

    /// Asks again where the last answer was cut short.
    pub fn rerequest_if_incomplete(&mut self, incomplete: bool, facts: &Facts) -> (effects: Vec<
        Effect<String>,
    >)
        ensures
            final(self)@ == old(self)@.rerequest_if_incomplete(incomplete, *facts).state,
            effects::told(effects) == old(self)@.rerequest_if_incomplete(
                incomplete,
                *facts,
            ).effects,
    {
        if !incomplete || self.strip.active_editor().is_none() {
            return nothing();
        }
        self.request_lsp_completions(facts)
    }

    /// The list was narrowed or widened, and the popup stays open with it.
    fn query_moved(&mut self, incomplete: bool, facts: &Facts) -> (effects: Vec<Effect<String>>)
        ensures
            final(self)@ == old(self)@.query_moved(incomplete, *facts).state,
            effects::told(effects) == old(self)@.query_moved(incomplete, *facts).effects,
    {
        let stopped = self.supersede_completion_query();
        both(stopped, self.rerequest_if_incomplete(incomplete, facts))
    }

    /// A character was typed with the popup open. The popup must not swallow
    /// it.
    pub fn completion_typed(&self, text: String) -> (effects: Vec<Effect<String>>)
        ensures
            effects::told(effects) == self@.completion_typed(text@),
    {
        match self.strip.active_editor() {
            Some(editor) => only(Effect::TypeInto { editor, text }),
            None => nothing(),
        }
    }

    /// The character is in the buffer.
    pub fn completion_text_landed(
        &mut self,
        as_typed: bool,
        matching: bool,
        incomplete: bool,
        facts: &Facts,
    ) -> (effects: Vec<Effect<String>>)
        ensures
            final(self)@ == old(self)@.completion_text_landed(
                as_typed,
                matching,
                incomplete,
                *facts,
            ).state,
            effects::told(effects) == old(self)@.completion_text_landed(
                as_typed,
                matching,
                incomplete,
                *facts,
            ).effects,
    {
        let armed = self.schedule_autosave(facts);
        if self.completion.is_none() {
            return armed;
        }
        if !as_typed || !matching {
            return both(armed, self.dismiss_completion());
        }
        both(armed, self.query_moved(incomplete, facts))
    }

    /// Backspace with the popup open.
    pub fn completion_backspace(&self) -> (effects: Vec<Effect<String>>)
        ensures
            effects::told(effects) == self@.completion_backspace(),
    {
        match self.strip.active_editor() {
            Some(editor) => only(Effect::EraseIn { editor }),
            None => nothing(),
        }
    }

    /// The character is gone.
    pub fn completion_erased(&mut self, in_word: bool, incomplete: bool, facts: &Facts) -> (effects:
        Vec<Effect<String>>)
        ensures
            final(self)@ == old(self)@.completion_erased(in_word, incomplete, *facts).state,
            effects::told(effects) == old(self)@.completion_erased(
                in_word,
                incomplete,
                *facts,
            ).effects,
    {
        if self.completion.is_none() {
            return nothing();
        }
        if !in_word {
            return self.dismiss_completion();
        }
        self.query_moved(incomplete, facts)
    }

    // -----------------------------------------------------------------------
    // Accepting
    // -----------------------------------------------------------------------

    /// A row was accepted: it is written over the word that the popup was
    /// opened on, together with what was typed of it since.
    pub fn accept_completion(&mut self, insert: String, facts: &Facts) -> (effects: Vec<
        Effect<String>,
    >)
        ensures
            final(self)@ == old(self)@.accept_completion(insert@, *facts).state,
            effects::told(effects) == old(self)@.accept_completion(insert@, *facts).effects,
    {
        let target = self.completion_word_start;
        let quiet = self.dismiss_completion();
        let (editor, start) = match target {
            Some(target) => target,
            None => {
                return both(quiet, nothing());
            },
        };
        if self.strip.position_of_editor(editor).is_none() {
            return both(quiet, nothing());
        }
        match facts.buffer(editor) {
            Some(buffer) => {
                let end = buffer.head;
                if start > end || end > buffer.text.as_str().as_bytes().len() {
                    return both(quiet, nothing());
                }
                return both(quiet, only(Effect::Insert { editor, start, end, text: insert }));
            },
            None => {
                return both(quiet, nothing());
            },
        }
    }
}

// ---------------------------------------------------------------------------
// Laws
// ---------------------------------------------------------------------------

/// Nothing is written into an editor that was closed while the popup was open.
pub proof fn law_nothing_is_written_into_a_closed_editor(
    model: WorkspaceModel,
    insert: Seq<char>,
    facts: Facts,
)
    requires
        model.completion_word_start matches Some((editor, _)) && tabs::tab_of_editor(
            model.strip.tabs,
            editor,
            0,
        ) is None,
    ensures
        model.acceptance(insert, facts) == Seq::<effects::EffectView>::empty(),
        model.accept_completion(insert, facts).effects == model.dismiss_completion().effects,
{
    assert(model.accept_completion(insert, facts).effects
        =~= model.dismiss_completion().effects);
}

/// Whatever accepting a row writes lies within the buffer, and ends at the
/// cursor.
pub proof fn law_acceptance_stays_in_the_buffer(
    model: WorkspaceModel,
    insert: Seq<char>,
    facts: Facts,
)
    ensures
        forall|i: int|
            0 <= i < model.acceptance(insert, facts).len() ==> (
            #[trigger] model.acceptance(insert, facts)[i] matches Effect::Insert {
                editor,
                start,
                end,
                text,
            } && start <= end && facts.buffer_of(editor) is Some && end == facts.buffer_of(
                editor,
            )->0.head && end <= bytes_of(facts.buffer_of(editor)->0).len() && text == insert),
{
}

/// The popup's state holds together through everything it does.
pub proof fn law_completion_keeps_the_state(
    model: WorkspaceModel,
    trigger: CompletionTrigger,
    facts: Facts,
    placed: bool,
    contexts: Contexts,
    insert: Seq<char>,
)
    requires
        model.well_formed(),
    ensures
        model.open_completion(trigger, facts, placed, contexts).state.well_formed(),
        model.accept_completion(insert, facts).state.well_formed(),
        model.accept_completion(insert, facts).state.completion is None,
{
    reveal(WorkspaceModel::request_route_completions);
    reveal(WorkspaceModel::request_column_completions);
    reveal(WorkspaceModel::request_wire_completions);
    reveal(WorkspaceModel::request_lsp_completions);
}

/// A popup that was asked for says that it is empty; one that a character
/// opened closes.
pub proof fn law_only_an_unasked_popup_closes_by_itself(model: WorkspaceModel, id: u64)
    ensures
        model.completion == Some(CompletionTrigger::Invoked) ==> model.completion_answered(
            id,
            true,
        ).state.completion is Some,
        model.completion == Some(CompletionTrigger::Character) ==> model.completion_answered(
            id,
            true,
        ).state.completion is None,
        model.completion is Some ==> model.completion_answered(id, false).state.completion is Some,
{
}

/// The call around the cursor decides what is offered: its own class, or the
/// file's for a call on this; without a call a scope's class, and without that
/// the file's own model.
pub proof fn law_call_around_the_cursor_decides(
    context: ColumnContext,
    scope: Option<Seq<char>>,
    own: Option<Seq<char>>,
)
    ensures
        context.target matches ColumnTarget::Class(class) ==> {
            &&& context.expects is Column ==> winning_context(Some(context), scope, own)
                == (ModelContext::Column { class: class@, span: context.span })
            &&& context.expects is Relation ==> winning_context(Some(context), scope, own)
                == (ModelContext::Relation { class: class@, span: context.span })
        },
        context.target is This && own is Some ==> {
            &&& context.expects is Column ==> winning_context(Some(context), scope, own)
                == (ModelContext::Column { class: own->0, span: context.span })
            &&& context.expects is Relation ==> winning_context(Some(context), scope, own)
                == (ModelContext::Relation { class: own->0, span: context.span })
        },
        context.target is This && own is None ==> winning_context(
            Some(context),
            scope,
            own,
        ) is Nothing,
        scope is Some ==> winning_context(None, scope, own) == (ModelContext::Scope {
            class: scope->0,
        }),
        scope is None && own is Some ==> winning_context(None, scope, own) == (
        ModelContext::Model { class: own->0 }),
        winning_context(None, None, None) is Nothing,
{
}

/// The word under the cursor begins as many bytes in front of it as were typed
/// of it.
pub proof fn law_word_begins_before_the_cursor(buffer: Buffer)
    ensures
        encode_utf8(buffer.prefix@).len() <= buffer.head ==> word_start(buffer) + encode_utf8(
            buffer.prefix@,
        ).len() == buffer.head,
        encode_utf8(buffer.prefix@).len() > buffer.head ==> word_start(buffer) == 0,
{
}

/// A character opens the popup where the server named it, or where it goes on
/// with a word that is long enough, and never without a server.
pub proof fn law_characters_open_the_popup(
    model: WorkspaceModel,
    typed: Seq<char>,
    facts: Facts,
)
    requires
        0 <= model.strip.active < model.strip.tabs.len(),
    ensures
        model.lsp.client is None ==> !model.is_completion_trigger(typed)
            && !model.should_open_on_word_char(typed, facts),
        model.lsp.client matches Some(client) ==> {
            &&& client.triggers.contains(typed) ==> model.is_completion_trigger(typed)
            &&& !client.triggers.contains(typed) ==> !model.is_completion_trigger(typed)
            &&& facts.buffer_of(model.strip.tabs[model.strip.active].editor) matches Some(buffer)
                ==> model.should_open_on_word_char(typed, facts) == (completion::is_word_keystroke(
                typed,
            ) && buffer.prefix@.len() >= completion::MIN_AUTOCOMPLETE_PREFIX)
            &&& facts.buffer_of(model.strip.tabs[model.strip.active].editor) is None
                ==> !model.should_open_on_word_char(typed, facts)
        },
{
}

/// A keystroke arms the autosave, and opens the popup for a character that does,
/// where none is open.
pub proof fn law_keystroke_arms_and_opens(
    model: WorkspaceModel,
    typed: Seq<char>,
    facts: Facts,
    placed: bool,
    contexts: Contexts,
)
    ensures
        ({
            let step = model.editor_typed(typed, facts, placed, contexts);
            let opens = model.completion is None && (model.is_completion_trigger(typed)
                || model.should_open_on_word_char(typed, facts));
            let opened = model.open_completion(
                CompletionTrigger::Character,
                facts,
                placed,
                contexts,
            );
            &&& facts.autosave ==> step.effects[0] == Effect::<Seq<char>>::Start(
                Job::AutosaveDebounce,
                Work::WaitToAutosave,
            )
            &&& opens ==> step.state == opened.state && step.effects == model.schedule_autosave(
                facts,
            ) + opened.effects
            &&& !opens ==> step.state == model && step.effects == model.schedule_autosave(facts)
        }),
{
}

/// The popup opens over the word in front of the cursor of the editor in front
/// of the user and takes the keyboard; where it cannot be placed, or without an
/// editor, it closes.
pub proof fn law_popup_opens_over_the_word(
    model: WorkspaceModel,
    trigger: CompletionTrigger,
    facts: Facts,
    contexts: Contexts,
)
    requires
        0 <= model.strip.active < model.strip.tabs.len(),
        model.completion is None,
    ensures
        model.open_completion(trigger, facts, false, contexts) == model.stays(),
        facts.buffer_of(model.strip.tabs[model.strip.active].editor) is None
            ==> model.open_completion(trigger, facts, true, contexts) == model.stays(),
        facts.buffer_of(model.strip.tabs[model.strip.active].editor) matches Some(buffer) ==> {
            let shown = WorkspaceModel {
                completion: Some(trigger),
                completion_word_start: Some((buffer.editor, word_start(buffer))),
                ..model
            };
            let step = model.open_completion(trigger, facts, true, contexts);
            &&& step.state == shown.ask_sources(facts, contexts).state
            &&& step.effects == seq![
                Effect::<Seq<char>>::OpenCompletion { query: buffer.prefix@ },
                Effect::<Seq<char>>::Focus(Focus::Panel(Panel::Completion)),
            ] + shown.ask_sources(facts, contexts).effects
        },
{
    if let Some(buffer) = facts.buffer_of(model.strip.tabs[model.strip.active].editor) {
        let opened = seq![
            Effect::<Seq<char>>::OpenCompletion { query: buffer.prefix@ },
            Effect::<Seq<char>>::Focus(Focus::Panel(Panel::Completion)),
        ];
        assert(Seq::<effects::EffectView>::empty() + opened =~= opened);
    }
}

/// All four sources are asked, each in the window as the one before left it.
pub proof fn law_every_source_is_asked(model: WorkspaceModel, facts: Facts, contexts: Contexts)
    ensures
        ({
            let routes = model.request_route_completions(facts, contexts.route);
            let columns = routes.state.request_column_completions(
                facts,
                contexts.model.deep_view(),
            );
            let wire = columns.state.request_wire_completions(facts, contexts.wire);
            let server = wire.state.request_lsp_completions(facts);
            let step = model.ask_sources(facts, contexts);
            &&& step.state == server.state
            &&& step.effects == routes.effects + columns.effects + wire.effects + server.effects
        }),
{
}

/// Inside a literal the popup covers what was typed of the literal; a literal
/// that does not reach to the cursor leaves it as it is.
pub proof fn law_popup_covers_the_literal(
    model: WorkspaceModel,
    buffer: Buffer,
    offset: int,
    span: Span,
)
    ensures
        span.start <= offset && span.end <= offset && is_char_boundary(
            encode_utf8(buffer.text@),
            span.start as int,
        ) ==> {
            &&& model.over_literal(buffer, offset, span).state == (WorkspaceModel {
                completion_word_start: Some((buffer.editor, span.start)),
                ..model
            })
            &&& model.over_literal(buffer, offset, span).effects == seq![
                Effect::<Seq<char>>::SetQuery(
                    completion::typed_since(
                        encode_utf8(buffer.text@),
                        span.start as int,
                        offset,
                    ),
                ),
            ]
        },
        span.start > offset || span.end > offset || !is_char_boundary(
            encode_utf8(buffer.text@),
            span.start as int,
        ) ==> model.over_literal(buffer, offset, span) == model.stays(),
{
}

/// In a route's name, in a file that Laravel reads, the project's routes are
/// read; elsewhere they are not.
pub proof fn law_route_names_are_read(model: WorkspaceModel, facts: Facts, route: Option<Span>)
    requires
        0 <= model.strip.active < model.strip.tabs.len(),
    ensures
        ({
            let tab = model.strip.tabs[model.strip.active];
            let reads = model.tree is Some && tab.path is Some && facts.buffer_of(
                tab.editor,
            ) is Some && route is Some && completion::dialect_of(
                facts.kinds.language_of(tab.path->0),
            ) is Some;
            &&& reads ==> model.request_route_completions(facts, route).effects.last()
                == Effect::<Seq<char>>::Start(
                Job::CompletionRoutes,
                Work::ReadRouteNames { root: model.tree->0.root },
            )
            &&& !reads ==> model.request_route_completions(facts, route) == model.stays()
        }),
{
    reveal(WorkspaceModel::request_route_completions);
}

/// What the call around the cursor wants is read of its own class in the
/// project: its columns, its relations, its scopes or the model itself.
pub proof fn law_model_is_read_for_its_call(
    model: WorkspaceModel,
    facts: Facts,
    class: Seq<char>,
    span: Span,
)
    requires
        0 <= model.strip.active < model.strip.tabs.len(),
        facts.buffer_of(model.strip.tabs[model.strip.active].editor) is Some,
        model.tree is Some,
    ensures
        ({
            let root = model.tree->0.root;
            &&& model.request_column_completions(
                facts,
                ModelContext::Column { class, span },
            ).effects.last() == Effect::<Seq<char>>::Start(
                Job::CompletionColumns,
                Work::ReadColumns { root, class },
            )
            &&& model.request_column_completions(
                facts,
                ModelContext::Relation { class, span },
            ).effects.last() == Effect::<Seq<char>>::Start(
                Job::CompletionColumns,
                Work::ReadRelations { root, class },
            )
            &&& model.request_column_completions(
                facts,
                ModelContext::Scope { class },
            ).effects == seq![
                Effect::<Seq<char>>::Start(
                    Job::CompletionColumns,
                    Work::ReadScopes { root, class },
                ),
            ]
            &&& model.request_column_completions(
                facts,
                ModelContext::Model { class },
            ).effects == seq![
                Effect::<Seq<char>>::Start(
                    Job::CompletionColumns,
                    Work::ReadModel { root, class },
                ),
            ]
            &&& model.request_column_completions(facts, ModelContext::Nothing) == model.stays()
        }),
{
    reveal(WorkspaceModel::request_column_completions);
}

/// In a template's wire attribute the template's own component is read;
/// elsewhere none is.
pub proof fn law_component_is_read_for_its_template(
    model: WorkspaceModel,
    facts: Facts,
    wire: Option<Span>,
)
    requires
        0 <= model.strip.active < model.strip.tabs.len(),
    ensures
        ({
            let tab = model.strip.tabs[model.strip.active];
            let reads = model.tree is Some && tab.path is Some && facts.buffer_of(
                tab.editor,
            ) is Some && wire is Some && completion::dialect_of(
                facts.kinds.language_of(tab.path->0),
            ) == Some(true);
            &&& reads ==> model.request_wire_completions(facts, wire).effects.last()
                == Effect::<Seq<char>>::Start(
                Job::CompletionColumns,
                Work::ReadComponent { root: model.tree->0.root, path: tab.path->0 },
            )
            &&& !reads ==> model.request_wire_completions(facts, wire) == model.stays()
        }),
{
    reveal(WorkspaceModel::request_wire_completions);
}

/// The server is asked at the cursor, after it was sent the text as it is; where
/// there is no server the buffer's words are offered and the list is complete.
pub proof fn law_server_is_asked_for_rows(model: WorkspaceModel, facts: Facts)
    ensures
        model.navigation_origin(facts) is None ==> model.request_lsp_completions(facts).effects
            == model.offer_buffer_words(facts) + seq![Effect::<Seq<char>>::MarkLoaded],
        model.navigation_origin(facts) is Some && model.lsp.client is None
            ==> model.request_lsp_completions(facts).effects == model.withdraw(
            model.completion_query,
        ) + model.offer_buffer_words(facts) + seq![Effect::<Seq<char>>::MarkLoaded],
        model.navigation_origin(facts) matches Some((path, offset)) ==> model.lsp.client is Some
            ==> model.request_lsp_completions(facts).effects == model.withdraw(
            model.completion_query,
        ) + model.resync_active(facts) + seq![
            Effect::<Seq<char>>::Ask(Question::Completion { path, offset }),
        ] && model.request_lsp_completions(facts).state.completion_query is None,
{
    reveal(WorkspaceModel::request_lsp_completions);
}

/// The buffer's words are offered once a word was begun.
pub proof fn law_words_are_offered_for_a_word(model: WorkspaceModel, facts: Facts)
    requires
        0 <= model.strip.active < model.strip.tabs.len(),
    ensures
        facts.buffer_of(model.strip.tabs[model.strip.active].editor) matches Some(buffer) ==> {
            &&& buffer.prefix@.len() > 0 ==> model.offer_buffer_words(facts) == seq![
                Effect::<Seq<char>>::OfferWords,
            ]
            &&& buffer.prefix@.len() == 0 ==> model.offer_buffer_words(facts).len() == 0
        },
        facts.buffer_of(model.strip.tabs[model.strip.active].editor) is None
            ==> model.offer_buffer_words(facts).len() == 0,
{
}

/// A question that was asked is waited for under its own number, and its answer
/// ends the waiting for that number alone.
pub proof fn law_answer_ends_its_own_question(model: WorkspaceModel, id: u64, other: u64)
    requires
        other != id,
    ensures
        model.completion_asked(id).state == (WorkspaceModel {
            completion_query: Some(id),
            ..model
        }),
        model.completion_asked(id).effects == seq![
            Effect::<Seq<char>>::Start(Job::Completion, Work::AwaitCompletion { id }),
        ],
        model.completion_asked(id).state.completion_answered(id, false).state.completion_query
            is None,
        model.completion_asked(other).state.completion_answered(id, false).state.completion_query
            == Some(other),
{
}

/// A popup that a character opened closes where all was read and nothing was
/// found, and only there.
pub proof fn law_empty_popup_closes(model: WorkspaceModel, loaded: bool, empty: bool)
    ensures
        model.completion == Some(CompletionTrigger::Character) && loaded && empty
            ==> model.close_if_empty_trigger(loaded, empty) == model.dismiss_completion(),
        model.completion != Some(CompletionTrigger::Character) || !loaded || !empty
            ==> model.close_if_empty_trigger(loaded, empty) == model.stays(),
{
}

/// A question that typing overtook is withdrawn, and asked again where the list
/// was not complete.
pub proof fn law_overtaken_question_is_withdrawn(
    model: WorkspaceModel,
    incomplete: bool,
    facts: Facts,
)
    ensures
        model.completion_query is None ==> model.supersede_completion_query() == model.stays(),
        model.completion_query matches Some(id) ==> {
            &&& model.supersede_completion_query().state.completion_query is None
            &&& model.lsp.client is Some ==> model.supersede_completion_query().effects == seq![
                Effect::<Seq<char>>::CancelRequest(id),
                Effect::<Seq<char>>::CancelJob(Job::Completion),
            ]
            &&& model.lsp.client is None ==> model.supersede_completion_query().effects == seq![
                Effect::<Seq<char>>::CancelJob(Job::Completion),
            ]
        },
        incomplete && 0 <= model.strip.active < model.strip.tabs.len()
            ==> model.rerequest_if_incomplete(incomplete, facts) == model.request_lsp_completions(
            facts,
        ),
        !incomplete || model.strip.tabs.len() == 0 ==> model.rerequest_if_incomplete(
            incomplete,
            facts,
        ) == model.stays(),
        model.completion_query is None ==> model.query_moved(incomplete, facts).state
            == model.rerequest_if_incomplete(incomplete, facts).state && model.query_moved(
            incomplete,
            facts,
        ).effects == model.rerequest_if_incomplete(incomplete, facts).effects,
{
    if model.completion_query is None {
        assert(model.query_moved(incomplete, facts).effects =~= model.rerequest_if_incomplete(
            incomplete,
            facts,
        ).effects);
    }
}

/// What is typed and erased while the popup is open goes into the editor in
/// front of the user.
pub proof fn law_typing_goes_into_the_editor(model: WorkspaceModel, typed: Seq<char>)
    ensures
        model.strip.tabs.len() == 0 ==> model.completion_typed(typed).len() == 0
            && model.completion_backspace().len() == 0,
        0 <= model.strip.active < model.strip.tabs.len() ==> {
            let editor = model.strip.tabs[model.strip.active].editor;
            &&& model.completion_typed(typed) == seq![
                Effect::<Seq<char>>::TypeInto { editor, text: typed },
            ]
            &&& model.completion_backspace() == seq![Effect::<Seq<char>>::EraseIn { editor }]
        },
{
}

/// The popup goes on while what was typed still matches and stays in the word,
/// and closes otherwise; every change arms the autosave.
pub proof fn law_popup_follows_the_word(
    model: WorkspaceModel,
    as_typed: bool,
    matching: bool,
    incomplete: bool,
    in_word: bool,
    facts: Facts,
)
    ensures
        model.completion is None ==> {
            &&& model.completion_text_landed(as_typed, matching, incomplete, facts).state == model
            &&& model.completion_text_landed(as_typed, matching, incomplete, facts).effects
                == model.schedule_autosave(facts)
            &&& model.completion_erased(in_word, incomplete, facts) == model.stays()
        },
        model.completion is Some && !(as_typed && matching) ==> {
            &&& model.completion_text_landed(as_typed, matching, incomplete, facts).state
                == model.dismiss_completion().state
            &&& model.completion_text_landed(as_typed, matching, incomplete, facts).effects
                == model.schedule_autosave(facts) + model.dismiss_completion().effects
        },
        model.completion is Some && as_typed && matching ==> {
            &&& model.completion_text_landed(as_typed, matching, incomplete, facts).state
                == model.query_moved(incomplete, facts).state
            &&& model.completion_text_landed(as_typed, matching, incomplete, facts).effects
                == model.schedule_autosave(facts) + model.query_moved(incomplete, facts).effects
        },
        model.completion is Some && !in_word ==> model.completion_erased(
            in_word,
            incomplete,
            facts,
        ) == model.dismiss_completion(),
        model.completion is Some && in_word ==> model.completion_erased(in_word, incomplete, facts)
            == model.query_moved(incomplete, facts),
{
}

/// Accepting a row closes the popup and replaces what was typed of the word, in
/// the editor that the popup was opened in, by what the row writes.
pub proof fn law_accepted_row_replaces_the_word(
    model: WorkspaceModel,
    editor: u64,
    start: usize,
    insert: Seq<char>,
    facts: Facts,
)
    requires
        model.completion_word_start == Some((editor, start)),
        exists|i: int|
            0 <= i < model.strip.tabs.len() && (#[trigger] model.strip.tabs[i]).editor == editor,
        facts.buffer_of(editor) is Some,
        start <= facts.buffer_of(editor)->0.head <= encode_utf8(
            facts.buffer_of(editor)->0.text@,
        ).len(),
    ensures
        model.acceptance(insert, facts) == seq![
            Effect::<Seq<char>>::Insert {
                editor,
                start,
                end: facts.buffer_of(editor)->0.head,
                text: insert,
            },
        ],
        model.accept_completion(insert, facts).effects.last() == (Effect::<Seq<char>>::Insert {
            editor,
            start,
            end: facts.buffer_of(editor)->0.head,
            text: insert,
        }),
        model.completion is Some ==> model.accept_completion(insert, facts).state.completion
            is None,
{
    tabs::law_first_tab_of_an_editor(model.strip.tabs, editor, 0);
    let i = choose|i: int|
        0 <= i < model.strip.tabs.len() && (#[trigger] model.strip.tabs[i]).editor == editor;
    assert(model.strip.tabs[i].editor == editor);
    assert(tabs::tab_of_editor(model.strip.tabs, editor, 0) is Some);
}

/// A popup that is open closes before another opens.
pub proof fn law_one_popup_at_a_time(
    model: WorkspaceModel,
    trigger: CompletionTrigger,
    facts: Facts,
    placed: bool,
    contexts: Contexts,
)
    requires
        model.completion is Some,
    ensures
        ({
            let closed = model.dismiss_completion();
            let next = closed.state.open_completion(trigger, facts, placed, contexts);
            let step = model.open_completion(trigger, facts, placed, contexts);
            &&& step.state == next.state
            &&& step.effects == closed.effects + next.effects
        }),
{
    let closed = model.dismiss_completion();
    assert(closed.state.active_buffer(facts) == model.active_buffer(facts));
    assert(closed.state.dismiss_completion() == closed.state.stays());
}

} // verus!

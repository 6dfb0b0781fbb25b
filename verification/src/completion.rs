//! The completion popup: when it opens, what it lists, and which bytes an
//! accepted item overwrites.

use vstd::prelude::*;
use vstd::string::*;
use vstd::utf8::*;

use crate::kinds;
use crate::kinds::{FileKinds, Language};
use crate::text;
use crate::text::{alphanumeric, chars_of, join3, owned, same};

verus! {

broadcast use vstd::seq::group_seq_axioms;

/// How many characters of a word have to be typed before the popup opens by
/// itself.
pub const MIN_AUTOCOMPLETE_PREFIX: usize = 3;

// ---------------------------------------------------------------------------
// Bytes and characters
// ---------------------------------------------------------------------------

/// The largest character boundary that is not above `offset`.
pub open spec fn boundary_below(bytes: Seq<u8>, offset: int) -> int
    decreases offset,
{
    if offset <= 0 {
        0
    } else if is_char_boundary(bytes, offset) {
        offset
    } else {
        boundary_below(bytes, offset - 1)
    }
}

/// Nothing above the end of a text is a boundary of it.
proof fn lemma_boundary_above_end(bytes: Seq<u8>, offset: int)
    requires
        valid_utf8(bytes),
        offset >= bytes.len(),
    ensures
        boundary_below(bytes, offset) == bytes.len(),
    decreases offset,
{
    is_char_boundary_start_end_of_seq(bytes);
    if offset > bytes.len() {
        lemma_boundary_above_end(bytes, offset - 1);
    }
}

/// What `boundary_below` finds: a boundary, and none above it up to `offset`.
pub proof fn lemma_boundary_below(bytes: Seq<u8>, offset: int)
    requires
        valid_utf8(bytes),
        0 <= offset,
    ensures
        0 <= boundary_below(bytes, offset) <= offset,
        boundary_below(bytes, offset) <= bytes.len(),
        is_char_boundary(bytes, boundary_below(bytes, offset)),
        forall|k: int|
            boundary_below(bytes, offset) < k <= offset ==> !is_char_boundary(bytes, k),
    decreases offset,
{
    is_char_boundary_start_end_of_seq(bytes);
    if offset > 0 && !is_char_boundary(bytes, offset) {
        lemma_boundary_below(bytes, offset - 1);
    }
}

/// The largest character boundary of `text` that is not above `offset`.
///
/// An offset that fell inside a character would make a slice fail, so every
/// slice at a cursor offset goes through here.
pub fn char_boundary_at_or_below(text: &str, offset: usize) -> (boundary: usize)
    ensures
        boundary == boundary_below(text.spec_bytes(), offset as int),
{
    let len = text.as_bytes().len();
    let ghost bytes = text.spec_bytes();
    proof {
        encode_utf8_valid_utf8(text@);
        if offset >= len {
            lemma_boundary_above_end(bytes, offset as int);
            lemma_boundary_above_end(bytes, len as int);
        }
    }
    let mut boundary: usize = if offset < len {
        offset
    } else {
        len
    };
    while boundary > 0 && !text.is_char_boundary(boundary)
        invariant
            bytes == text.spec_bytes(),
            boundary_below(bytes, boundary as int) == boundary_below(bytes, offset as int),
        decreases boundary,
    {
        boundary -= 1;
    }
    boundary
}

/// A boundary lies within the text.
proof fn lemma_boundary_in_range(bytes: Seq<u8>, index: int)
    requires
        valid_utf8(bytes),
        is_char_boundary(bytes, index),
    ensures
        0 <= index <= bytes.len(),
{
}

/// A boundary of a text is a boundary of every beginning of it that holds it.
proof fn lemma_boundary_in_prefix(bytes: Seq<u8>, start: int, end: int)
    requires
        valid_utf8(bytes),
        is_char_boundary(bytes, start),
        is_char_boundary(bytes, end),
        0 <= start <= end <= bytes.len(),
    ensures
        valid_utf8(bytes.subrange(0, end)),
        is_char_boundary(bytes.subrange(0, end), start),
{
    valid_utf8_split(bytes, end);
    let front = bytes.subrange(0, end);
    is_char_boundary_start_end_of_seq(front);
    if start < end {
        is_char_boundary_iff_not_is_continuation_byte(bytes, start);
        is_char_boundary_iff_not_is_continuation_byte(front, start);
        assert(front[start] == bytes[start]);
    }
}

/// The span that the popup overwrites once a literal around the cursor is
/// known, and the query that goes with it.
pub struct Widened {
    /// Where the overwritten span starts.
    pub start: usize,
    /// What the popup filters by.
    pub query: String,
}

/// What was typed between `start` and the cursor at `offset`.
pub open spec fn typed_since(bytes: Seq<u8>, start: int, offset: int) -> Seq<char> {
    decode_utf8(bytes.subrange(start, boundary_below(bytes, offset)))
}

/// Widens the popup's span and its query to the literal at `start..end`, both
/// or neither: the query is exactly the text between the span's start and the
/// cursor. A cursor in the middle of the literal widens nothing, for what
/// follows it would not be overwritten.
pub fn widen(text: &str, offset: usize, start: usize, end: usize) -> (widened: Option<Widened>)
    requires
        is_char_boundary(text.spec_bytes(), start as int),
    ensures
        widened is Some == (start <= offset && end <= offset),
        widened matches Some(span) ==> {
            &&& span.start == start
            &&& span.query@ == typed_since(text.spec_bytes(), start as int, offset as int)
            &&& encode_utf8(span.query@) == text.spec_bytes().subrange(
                start as int,
                boundary_below(text.spec_bytes(), offset as int),
            )
        },
{
    if start > offset || end > offset {
        return None;
    }
    let cursor = char_boundary_at_or_below(text, offset);
    let ghost bytes = text.spec_bytes();
    proof {
        encode_utf8_valid_utf8(text@);
        lemma_boundary_in_range(bytes, start as int);
        lemma_boundary_below(bytes, offset as int);
        lemma_boundary_in_prefix(bytes, start as int, cursor as int);
    }
    let (front, _) = text.split_at(cursor);
    let (_, typed) = front.split_at(start);
    let query = owned(typed);
    assert(typed.spec_bytes() =~= bytes.subrange(start as int, cursor as int));
    proof {
        encode_utf8_decode_utf8(typed@);
    }
    Some(Widened { start, query })
}

/// What a text becomes when an item is accepted: the bytes between the span's
/// start and the cursor give way to it.
pub open spec fn accepted(bytes: Seq<u8>, start: int, end: int, insert: Seq<u8>) -> Seq<u8> {
    bytes.subrange(0, start) + insert + bytes.subrange(end, bytes.len() as int)
}

/// Accepting an item replaces what was typed of it rather than adding to it:
/// what stands before the span stays, the item follows, and then what stood
/// behind the cursor.
pub proof fn law_accept_replaces_typed_prefix(
    before: Seq<u8>,
    typed: Seq<u8>,
    after: Seq<u8>,
    insert: Seq<u8>,
)
    ensures
        accepted(
            before + typed + after,
            before.len() as int,
            (before.len() + typed.len()) as int,
            insert,
        ) == before + insert + after,
{
    let whole = before + typed + after;
    assert(whole.subrange(0, before.len() as int) =~= before);
    assert(whole.subrange((before.len() + typed.len()) as int, whole.len() as int) =~= after);
}

// ---------------------------------------------------------------------------
// When the popup opens and closes
// ---------------------------------------------------------------------------

/// What made the popup open.
#[derive(Clone, Copy, PartialEq, Eq, Structural, Debug)]
pub enum CompletionTrigger {
    /// The user asked for it.
    Invoked,
    /// A character that was typed.
    Character,
}

impl CompletionTrigger {
    /// Whether a popup without rows says so. Only one that was asked for does:
    /// the answer to a question nobody asked is not worth a box.
    pub fn reports_emptiness(self) -> (reports: bool)
        ensures
            reports == (self is Invoked),
    {
        match self {
            CompletionTrigger::Invoked => true,
            CompletionTrigger::Character => false,
        }
    }
}

/// Whether one keystroke is a character of a word.
pub open spec fn is_word_keystroke(text: Seq<char>) -> bool {
    text.len() == 1 && (text::is_alphanumeric(text[0]) || text[0] == '_')
}

/// Whether a keystroke opens the popup, given whether it is a character of a
/// word: enough of the word has to be there already.
pub fn reaches_prefix_floor(word_character: bool, prefix: &str) -> (reached: bool)
    ensures
        reached == (word_character && prefix@.len() >= MIN_AUTOCOMPLETE_PREFIX),
{
    word_character && prefix.unicode_len() >= MIN_AUTOCOMPLETE_PREFIX
}

/// Whether one keystroke is a character of a word and the word already typed
/// is long enough for the popup to open by itself.
pub fn word_char_reaches_prefix_floor(text: &str, prefix: &str) -> (reached: bool)
    ensures
        reached == (is_word_keystroke(text@) && prefix@.len() >= MIN_AUTOCOMPLETE_PREFIX),
{
    let chars = chars_of(text);
    let word_character = chars.len() == 1 && (alphanumeric(chars[0]) || chars[0] == '_');
    reaches_prefix_floor(word_character, prefix)
}

/// Whether a character typed into the editor opens the popup.
pub fn should_open_on_trigger(popup_is_open: bool, declared: bool) -> (opens: bool)
    ensures
        opens == (declared && !popup_is_open),
{
    declared && !popup_is_open
}

/// Whether the server declared `text` a trigger. A keystroke is compared whole
/// with each declared trigger; with no server nothing is one.
pub fn is_completion_trigger(declared: Option<&Vec<String>>, text: &str) -> (held: bool)
    ensures
        held == match declared {
            Some(triggers) => triggers.deep_view().contains(text@),
            None => false,
        },
{
    let triggers = match declared {
        Some(triggers) => triggers,
        None => {
            return false;
        },
    };
    let ghost texts = triggers.deep_view();
    let mut i: usize = 0;
    while i < triggers.len()
        invariant
            i <= triggers.len(),
            declared == Some(triggers),
            texts == triggers.deep_view(),
            forall|k: int| 0 <= k < i ==> #[trigger] texts[k] != text@,
        decreases triggers.len() - i,
    {
        assert(texts[i as int] == triggers[i as int]@);
        if same(triggers[i].as_str(), text) {
            return true;
        }
        i += 1;
    }
    false
}

/// Whether the popup closes now that its sources answered: it was opened by a
/// character, everything answered, and there is nothing to show.
pub fn closes_when_empty(trigger: CompletionTrigger, loaded: bool, empty: bool) -> (closes: bool)
    ensures
        closes == (trigger is Character && loaded && empty),
{
    !trigger.reports_emptiness() && loaded && empty
}

// ---------------------------------------------------------------------------
// Items
// ---------------------------------------------------------------------------

/// Where an item came from. It is recorded where the item is made, the one
/// place where it is known.
#[derive(Clone, Copy, PartialEq, Eq, Structural, Debug)]
pub enum CompletionSource {
    Lsp,
    LaravelRoute,
    LaravelColumn,
    LaravelRelation,
    LaravelScope,
    Livewire,
    Buffer,
}

/// A row of the popup.
#[derive(Debug)]
pub struct CompletionItem {
    pub label: String,
    /// What accepting it writes.
    pub insert: String,
    pub detail: Option<String>,
    pub source: CompletionSource,
}

/// A row as contracts see it.
pub struct ItemView {
    pub label: Seq<char>,
    pub insert: Seq<char>,
    pub detail: Option<Seq<char>>,
    pub source: CompletionSource,
}

impl View for CompletionItem {
    type V = ItemView;

    open spec fn view(&self) -> ItemView {
        ItemView {
            label: self.label@,
            insert: self.insert@,
            detail: self.detail.deep_view(),
            source: self.source,
        }
    }
}

impl vstd::view::DeepView for CompletionItem {
    type V = ItemView;

    open spec fn deep_view(&self) -> ItemView {
        self@
    }
}

impl CompletionItem {
    /// A row that writes its own label.
    pub fn new(label: &str, source: CompletionSource) -> (item: Self)
        ensures
            item@ == (ItemView { label: label@, insert: label@, detail: None, source }),
    {
        CompletionItem { label: owned(label), insert: owned(label), detail: None, source }
    }

    /// The row with a detail.
    fn with_detail(self, detail: Option<String>) -> (item: Self)
        ensures
            item@ == (ItemView { detail: detail.deep_view(), ..self@ }),
    {
        CompletionItem { detail, ..self }
    }
}

/// An item as the language server sent it.
#[derive(Debug)]
pub struct LspItem {
    pub label: String,
    pub insert_text: Option<String>,
    pub detail: Option<String>,
}

impl Default for LspItem {
    fn default() -> (item: Self)
        ensures
            item.label@ == Seq::<char>::empty(),
            item.insert_text is None,
            item.detail is None,
    {
        LspItem { label: String::new(), insert_text: None, detail: None }
    }
}

/// The server's answer.
pub enum CompletionResponse {
    /// A plain list, which is the whole answer.
    Array(Vec<LspItem>),
    /// A list that says whether it was cut off.
    List { items: Vec<LspItem>, is_incomplete: bool },
}

/// The row for an item of the server. The text to insert is preferred over the
/// label, which may be a signature to read.
pub open spec fn lsp_row(item: LspItem) -> ItemView {
    ItemView {
        label: item.label@,
        insert: match item.insert_text {
            Some(insert) => insert@,
            None => item.label@,
        },
        detail: item.detail.deep_view(),
        source: CompletionSource::Lsp,
    }
}

impl CompletionResponse {
    /// The items of the answer.
    pub open spec fn items(&self) -> Seq<LspItem> {
        match self {
            CompletionResponse::Array(items) => items@,
            CompletionResponse::List { items, .. } => items@,
        }
    }

    /// Whether the server called its own list cut off.
    pub open spec fn incomplete(&self) -> bool {
        match self {
            CompletionResponse::Array(_) => false,
            CompletionResponse::List { is_incomplete, .. } => *is_incomplete,
        }
    }
}

fn copied(text: &Option<String>) -> (copy: Option<String>)
    ensures
        copy == *text,
{
    match text {
        Some(text) => Some(text.clone()),
        None => None,
    }
}

/// Turns a server's answer into rows that know where they came from, and says
/// whether the server called its list cut off.
pub fn completion_items(response: &CompletionResponse) -> (rows: (Vec<CompletionItem>, bool))
    ensures
        rows.0.deep_view() == Seq::new(response.items().len(), |i: int| lsp_row(response.items()[i])),
        rows.1 == response.incomplete(),
{
    let (found, incomplete) = match response {
        CompletionResponse::Array(items) => (items, false),
        CompletionResponse::List { items, is_incomplete } => (items, *is_incomplete),
    };
    let mut rows: Vec<CompletionItem> = Vec::new();
    let mut i: usize = 0;
    while i < found.len()
        invariant
            i <= found.len(),
            found@ == response.items(),
            rows.deep_view() == Seq::new(i as nat, |k: int| lsp_row(found@[k])),
        decreases found.len() - i,
    {
        let ghost before = rows.deep_view();
        let item = &found[i];
        let insert = match &item.insert_text {
            Some(insert) => insert.clone(),
            None => item.label.clone(),
        };
        rows.push(
            CompletionItem {
                label: item.label.clone(),
                insert,
                detail: copied(&item.detail),
                source: CompletionSource::Lsp,
            },
        );
        assert(rows.deep_view() =~= before.push(lsp_row(found@[i as int])));
        i += 1;
    }
    (rows, incomplete)
}

/// A column that the index knows of a model.
pub struct ModelColumn {
    pub name: String,
    pub column_type: String,
    /// What the index has it from, such as `migration` or `cast`.
    pub source: String,
}

/// A column's row: its type and where that is known from. A cast with no
/// migration behind it has no type to show.
pub open spec fn column_row(column: ModelColumn) -> ItemView {
    ItemView {
        label: column.name@,
        insert: column.name@,
        detail: Some(
            if column.column_type@.len() == 0 {
                column.source@
            } else {
                column.column_type@ + " · "@ + column.source@
            },
        ),
        source: CompletionSource::LaravelColumn,
    }
}

/// One indexed column as a row.
pub fn column_item(column: &ModelColumn) -> (item: CompletionItem)
    ensures
        item@ == column_row(*column),
{
    let detail = if column.column_type.as_str().is_empty() {
        column.source.clone()
    } else {
        join3(column.column_type.as_str(), " · ", column.source.as_str())
    };
    CompletionItem::new(column.name.as_str(), CompletionSource::LaravelColumn).with_detail(
        Some(detail),
    )
}

/// A relationship that the index knows of a model.
pub struct ModelRelation {
    pub name: String,
    /// Such as `hasMany`.
    pub kind: String,
    pub target: String,
}

/// A relationship's row: what its method's body says.
pub open spec fn relation_row(relation: ModelRelation) -> ItemView {
    ItemView {
        label: relation.name@,
        insert: relation.name@,
        detail: Some(relation.kind@ + " · "@ + relation.target@),
        source: CompletionSource::LaravelRelation,
    }
}

/// One indexed relationship as a row.
pub fn relation_item(relation: &ModelRelation) -> (item: CompletionItem)
    ensures
        item@ == relation_row(*relation),
{
    let detail = join3(relation.kind.as_str(), " · ", relation.target.as_str());
    CompletionItem::new(relation.name.as_str(), CompletionSource::LaravelRelation).with_detail(
        Some(detail),
    )
}

/// The rows a model's own file offers: its columns, then its relationships.
pub fn model_items(columns: &Vec<ModelColumn>, relations: &Vec<ModelRelation>) -> (items: Vec<
    CompletionItem,
>)
    ensures
        items.deep_view() == Seq::new(columns@.len(), |i: int| column_row(columns@[i])) + Seq::new(
            relations@.len(),
            |i: int| relation_row(relations@[i]),
        ),
{
    let mut items: Vec<CompletionItem> = Vec::new();
    let mut i: usize = 0;
    while i < columns.len()
        invariant
            i <= columns.len(),
            items.deep_view() == Seq::new(i as nat, |k: int| column_row(columns@[k])),
        decreases columns.len() - i,
    {
        let ghost before = items.deep_view();
        items.push(column_item(&columns[i]));
        assert(items.deep_view() =~= before.push(column_row(columns@[i as int])));
        i += 1;
    }
    let ghost front = items.deep_view();
    let mut k: usize = 0;
    assert(items.deep_view() =~= front + Seq::new(0, |j: int| relation_row(relations@[j])));
    while k < relations.len()
        invariant
            k <= relations.len(),
            items.deep_view() == front + Seq::new(k as nat, |j: int| relation_row(relations@[j])),
        decreases relations.len() - k,
    {
        let ghost before = items.deep_view();
        items.push(relation_item(&relations[k]));
        assert(items.deep_view() =~= before.push(relation_row(relations@[k as int])));
        assert(items.deep_view() =~= front + Seq::new(
            (k + 1) as nat,
            |j: int| relation_row(relations@[j]),
        ));
        k += 1;
    }
    items
}

/// Which list a `wire:` attribute wants.
#[derive(Clone, Copy, PartialEq, Eq, Structural, Debug)]
pub enum WireTarget {
    Action,
    Property,
}

/// What a Livewire component offers.
pub struct LivewireFacts {
    pub class: String,
    pub actions: Vec<String>,
    pub properties: Vec<String>,
}

impl LivewireFacts {
    /// The names that an attribute wants.
    pub open spec fn wanted(&self, target: WireTarget) -> Seq<String> {
        match target {
            WireTarget::Action => self.actions@,
            WireTarget::Property => self.properties@,
        }
    }
}

/// A Livewire name's row.
pub open spec fn wire_row(name: Seq<char>, target: WireTarget, class: Seq<char>) -> ItemView {
    ItemView {
        label: name,
        insert: name,
        detail: Some(
            (match target {
                WireTarget::Action => "action"@,
                WireTarget::Property => "property"@,
            }) + " · "@ + class,
        ),
        source: CompletionSource::Livewire,
    }
}

/// The rows for a `wire:` attribute: the component's actions or its
/// properties, whichever the attribute wants.
pub fn wire_items(facts: &LivewireFacts, target: WireTarget) -> (items: Vec<CompletionItem>)
    ensures
        items.deep_view() == Seq::new(
            facts.wanted(target).len(),
            |i: int| wire_row(facts.wanted(target)[i]@, target, facts.class@),
        ),
{
    let (names, kind) = match target {
        WireTarget::Action => (&facts.actions, "action"),
        WireTarget::Property => (&facts.properties, "property"),
    };
    let mut items: Vec<CompletionItem> = Vec::new();
    let mut i: usize = 0;
    while i < names.len()
        invariant
            i <= names.len(),
            names@ == facts.wanted(target),
            kind@ == (match target {
                WireTarget::Action => "action"@,
                WireTarget::Property => "property"@,
            }),
            items.deep_view() == Seq::new(
                i as nat,
                |k: int| wire_row(names@[k]@, target, facts.class@),
            ),
        decreases names.len() - i,
    {
        let ghost before = items.deep_view();
        let detail = join3(kind, " · ", facts.class.as_str());
        items.push(
            CompletionItem::new(names[i].as_str(), CompletionSource::Livewire).with_detail(
                Some(detail),
            ),
        );
        assert(items.deep_view() =~= before.push(
            wire_row(names@[i as int]@, target, facts.class@),
        ));
        i += 1;
    }
    items
}

/// One row for each name, all from one source: route names, scopes, the
/// buffer's own words.
pub fn name_items(names: &Vec<String>, source: CompletionSource) -> (items: Vec<CompletionItem>)
    ensures
        items.deep_view() == Seq::new(
            names@.len(),
            |i: int|
                ItemView { label: names@[i]@, insert: names@[i]@, detail: None, source },
        ),
{
    let mut items: Vec<CompletionItem> = Vec::new();
    let mut i: usize = 0;
    while i < names.len()
        invariant
            i <= names.len(),
            items.deep_view() == Seq::new(
                i as nat,
                |k: int|
                    ItemView { label: names@[k]@, insert: names@[k]@, detail: None, source },
            ),
        decreases names.len() - i,
    {
        let ghost before = items.deep_view();
        items.push(CompletionItem::new(names[i].as_str(), source));
        assert(items.deep_view() =~= before.push(
            (ItemView {
                label: names@[i as int]@,
                insert: names@[i as int]@,
                detail: None,
                source,
            }),
        ));
        i += 1;
    }
    items
}

/// Whether a file of a language can hold Laravel references, and if so whether
/// to read it as Blade.
pub open spec fn dialect_of(language: Language) -> Option<bool> {
    match language {
        Language::Blade => Some(true),
        Language::Php => Some(false),
        Language::Other => None,
    }
}

/// Whether a file of a language can hold Laravel references, and if so whether
/// to read it as Blade. `None` is a file that no Laravel feature looks at.
pub fn laravel_dialect(language: Language) -> (blade: Option<bool>)
    ensures
        blade == dialect_of(language),
{
    match language {
        Language::Blade => Some(true),
        Language::Php => Some(false),
        Language::Other => None,
    }
}

/// A template can hold Laravel references although the language server never
/// sees it: what is read as Blade is never one for the server.
pub proof fn law_templates_are_read_by_laravel_alone(kinds: FileKinds, path: Seq<char>)
    requires
        kinds.templates_unserved(),
    ensures
        dialect_of(kinds.language_of(path)) == Some(true) ==> !kinds.serves(path),
{
    if kinds.language_of(path) is Blade {
        kinds::lemma_template_is_unserved(kinds, path, 0);
    }
}

/// The boundary below an offset is the nearest one: a boundary no further on,
/// with none between it and the offset.
pub proof fn law_nearest_boundary_is_found(bytes: Seq<u8>, offset: int, k: int)
    requires
        0 <= offset,
    ensures
        0 <= boundary_below(bytes, offset) <= offset,
        boundary_below(bytes, offset) == 0 || is_char_boundary(bytes, boundary_below(bytes, offset)),
        boundary_below(bytes, offset) < k <= offset ==> !is_char_boundary(bytes, k),
        offset > 0 && is_char_boundary(bytes, offset) ==> boundary_below(bytes, offset) == offset,
    decreases offset,
{
    if offset > 0 && !is_char_boundary(bytes, offset) {
        law_nearest_boundary_is_found(bytes, offset - 1, k);
    }
}

/// One letter, digit or underscore goes on with a word, and nothing else does.
pub proof fn law_what_goes_on_with_a_word(c: char, more: Seq<char>)
    ensures
        text::is_alphanumeric(c) ==> is_word_keystroke(seq![c]),
        is_word_keystroke(seq!['_']),
        !text::is_alphanumeric(c) && c != '_' ==> !is_word_keystroke(seq![c]),
        more.len() != 1 ==> !is_word_keystroke(more),
{
}

/// A row of the server's shows its label and writes what the server says, the
/// label where it says nothing.
pub proof fn law_server_rows_write_their_text(item: LspItem)
    ensures
        lsp_row(item).label == item.label@,
        item.insert_text is Some ==> lsp_row(item).insert == item.insert_text->0@,
        item.insert_text is None ==> lsp_row(item).insert == item.label@,
        item.detail is Some ==> lsp_row(item).detail == Some(item.detail->0@),
        item.detail is None ==> lsp_row(item).detail is None,
        lsp_row(item).source is Lsp,
{
}

/// A bare list is complete, and a list that says it is not is not.
pub proof fn law_list_says_whether_it_is_complete(response: CompletionResponse)
    ensures
        response matches CompletionResponse::Array(items) ==> response.items() == items@
            && !response.incomplete(),
        response matches CompletionResponse::List { is_incomplete, items } ==> response.items()
            == items@ && response.incomplete() == is_incomplete,
{
}

/// A column, a relation and a component's member are each written by name, and
/// say what they are and where they are from.
pub proof fn law_project_rows_say_what_they_are(
    column: ModelColumn,
    relation: ModelRelation,
    name: Seq<char>,
    class: Seq<char>,
)
    ensures
        column_row(column).label == column.name@,
        column_row(column).insert == column.name@,
        column_row(column).source is LaravelColumn,
        column.column_type@.len() == 0 ==> column_row(column).detail == Some(column.source@),
        column.column_type@.len() > 0 ==> column_row(column).detail == Some(
            column.column_type@ + " · "@ + column.source@,
        ),
        relation_row(relation).label == relation.name@,
        relation_row(relation).insert == relation.name@,
        relation_row(relation).source is LaravelRelation,
        relation_row(relation).detail == Some(relation.kind@ + " · "@ + relation.target@),
        wire_row(name, WireTarget::Action, class).insert == name,
        wire_row(name, WireTarget::Action, class).label == name,
        wire_row(name, WireTarget::Action, class).source is Livewire,
        wire_row(name, WireTarget::Action, class).detail == Some("action"@ + " · "@ + class),
        wire_row(name, WireTarget::Property, class).insert == name,
        wire_row(name, WireTarget::Property, class).detail == Some("property"@ + " · "@ + class),
{
}

/// An action's place is offered the component's actions and a property's its
/// properties; a template is read as one and a script as the other.
pub proof fn law_places_are_offered_their_kind(facts: LivewireFacts)
    ensures
        facts.wanted(WireTarget::Action) == facts.actions@,
        facts.wanted(WireTarget::Property) == facts.properties@,
        dialect_of(Language::Blade) == Some(true),
        dialect_of(Language::Php) == Some(false),
        dialect_of(Language::Other) is None,
{
}

} // verus!

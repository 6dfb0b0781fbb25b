//! The palette: the rows it lists, and what confirming one of them means.

use vstd::prelude::*;
use vstd::string::*;

use crate::paths;
use crate::paths::path_below;
use crate::routes;
use crate::routes::{route_label, Route};
use crate::text;
use crate::text::{chars_of, decimal_text, join2, join3, number_of, owned, text_of};

verus! {

broadcast use vstd::seq::group_seq_axioms;

/// What the palette lists.
#[derive(Clone, Copy, PartialEq, Eq, Structural, Debug)]
pub enum PaletteMode {
    Commands,
    Files,
    Routes,
    Symbols,
    References,
    Artisan,
    WorkspaceSymbols,
    Rename,
    CodeActions,
    Branches,
    ComposerScripts,
    GitLog,
    Languages,
}

/// A place in a buffer, counted from zero; the column is in bytes.
#[derive(Clone, Copy, PartialEq, Eq, Structural, Debug)]
pub struct Point {
    pub row: usize,
    pub column: usize,
}

// ---------------------------------------------------------------------------
// Ids that carry a place
// ---------------------------------------------------------------------------

/// An id that carries a place in a file: `path:row`.
pub open spec fn id_of_target(path: Seq<char>, row: nat) -> Seq<char> {
    path + ":"@ + text::decimal(row)
}

/// Where the last colon of `id` stands, or -1.
pub open spec fn last_colon(id: Seq<char>) -> int
    decreases id.len(),
{
    if id.len() == 0 {
        -1
    } else if id.last() == ':' {
        id.len() - 1
    } else {
        last_colon(id.drop_last())
    }
}

/// The path and the row that an id carries. What follows the last colon is a
/// row only where it is all digits and counts no further than a row can;
/// otherwise the whole id is a path.
pub open spec fn target_of_id(id: Seq<char>) -> (Seq<char>, Option<nat>) {
    let at = last_colon(id);
    if at < 0 {
        (id, None)
    } else {
        match text::number_in(id.skip(at + 1), usize::MAX as nat) {
            Some(row) => (id.take(at), Some(row)),
            None => (id, None),
        }
    }
}

proof fn lemma_last_colon(id: Seq<char>, at: int)
    requires
        -1 <= at < id.len(),
        at >= 0 ==> id[at] == ':',
        forall|k: int| at < k < id.len() ==> id[k] != ':',
    ensures
        last_colon(id) == at,
    decreases id.len(),
{
    if id.len() > 0 && at < id.len() - 1 {
        assert(id[id.len() - 1] != ':');
        lemma_last_colon(id.drop_last(), at);
    }
}

/// A palette id that carries a place in a file.
///
/// The row is appended, so that the path stays a prefix that typing matches.
pub fn target_id(path: &str, row: usize) -> (id: String)
    ensures
        id@ == id_of_target(path@, row as nat),
{
    join3(path, ":", decimal_text(row as u64).as_str())
}

/// Splits a [`target_id`] back into a path and a place. A plain path carries
/// no place, and neither does a name that merely has a colon in it.
pub fn split_target_id(id: &str) -> (target: (String, Option<Point>))
    ensures
        target.0@ == target_of_id(id@).0,
        target.1 is Some == target_of_id(id@).1 is Some,
        target.1 matches Some(point) ==> point.row == target_of_id(id@).1->0 && point.column == 0,
{
    let chars = chars_of(id);
    let mut at: usize = chars.len();
    while at > 0 && chars[at - 1] != ':'
        invariant
            at <= chars.len(),
            chars@ == id@,
            forall|k: int| at <= k < chars.len() ==> chars@[k] != ':',
        decreases at,
    {
        at -= 1;
    }
    proof {
        lemma_last_colon(id@, at - 1);
    }
    if at == 0 {
        return (owned(id), None);
    }
    assert(id@.skip(at as int) == chars@.subrange(at as int, chars.len() as int));
    match number_of(&chars, at, chars.len(), usize::MAX as u64) {
        Some(row) => {
            let path = text_of(&chars, 0, at - 1);
            assert(path@ == id@.take(at - 1));
            (path, Some(Point { row: row as usize, column: 0 }))
        },
        None => (owned(id), None),
    }
}

/// A place survives the trip through an id, whatever the path looks like.
pub proof fn law_target_id_round_trip(path: Seq<char>, row: nat)
    requires
        row <= usize::MAX,
    ensures
        target_of_id(id_of_target(path, row)) == (path, Some(row)),
{
    let id = id_of_target(path, row);
    let digits = text::decimal(row);
    text::lemma_decimal(row);
    reveal_strlit(":");
    assert(":"@ =~= seq![':']);
    let at = path.len() as int;
    assert forall|k: int| at < k < id.len() implies id[k] != ':' by {
        assert(id[k] == digits[k - at - 1]);
        assert(text::is_digit(digits[k - at - 1]));
    }
    lemma_last_colon(id, at);
    assert(id.skip(at + 1) == digits);
    assert(id.take(at) == path);
}

/// A path that holds no colon carries no place.
pub proof fn law_bare_path_has_no_target(path: Seq<char>)
    requires
        forall|k: int| 0 <= k < path.len() ==> path[k] != ':',
    ensures
        target_of_id(path) == (path, None::<nat>),
{
    lemma_last_colon(path, -1);
}


// ---------------------------------------------------------------------------
// Rows
// ---------------------------------------------------------------------------

/// A row as contracts see it: what it shows, and the id that confirming it
/// hands back.
pub type RowView = (Seq<char>, Seq<char>);

/// Adds a row at the end.
fn push_row(items: &mut Vec<(String, String)>, label: String, id: String)
    ensures
        final(items).deep_view() == old(items).deep_view().push((label@, id@)),
{
    let ghost before = items.deep_view();
    items.push((label, id));
    assert(items.deep_view() =~= before.push((label@, id@)));
}

/// A command of the registry.
pub struct Command {
    pub id: String,
    pub title: String,
}

/// A command's row.
pub open spec fn command_row(command: Command) -> RowView {
    (command.title@, command.id@)
}

/// One row for each command, in the registry's order.
pub fn command_items(registry: &Vec<Command>) -> (items: Vec<(String, String)>)
    ensures
        items.deep_view() == Seq::new(registry@.len(), |i: int| command_row(registry@[i])),
{
    let mut items: Vec<(String, String)> = Vec::new();
    let mut i: usize = 0;
    while i < registry.len()
        invariant
            i <= registry.len(),
            items.deep_view() == Seq::new(i as nat, |k: int| command_row(registry@[k])),
        decreases registry.len() - i,
    {
        push_row(&mut items, registry[i].title.clone(), registry[i].id.clone());
        i += 1;
    }
    items
}

/// The id itself when the registry has a command of that id, else nothing.
pub fn leak_id(registry: &Vec<Command>, id: &str) -> (known: String)
    ensures
        known@ == (if exists|i: int| 0 <= i < registry.len() && (#[trigger] registry[i]).id@ == id@ {
            id@
        } else {
            Seq::empty()
        }),
{
    let mut i: usize = 0;
    while i < registry.len()
        invariant
            i <= registry.len(),
            forall|k: int| 0 <= k < i ==> (#[trigger] registry[k]).id@ != id@,
        decreases registry.len() - i,
    {
        if text::same(registry[i].id.as_str(), id) {
            return registry[i].id.clone();
        }
        i += 1;
    }
    String::new()
}

/// A name, ticked when it is the one in use.
pub open spec fn ticked(name: Seq<char>, current: bool) -> Seq<char> {
    if current {
        name + "  ✓"@
    } else {
        name
    }
}

/// A name, ticked when it is the one in use.
fn tick(name: &str, current: bool) -> (label: String)
    ensures
        label@ == ticked(name@, current),
{
    if current {
        join2(name, "  ✓")
    } else {
        owned(name)
    }
}

/// One row for each language; the one in use is ticked rather than left out.
pub fn language_items(names: &Vec<String>, current: Option<usize>) -> (items: Vec<
    (String, String),
>)
    ensures
        items.deep_view() == Seq::new(
            names@.len(),
            |i: int| (ticked(names@[i]@, current is Some && current->0 == i), names@[i]@),
        ),
{
    let mut items: Vec<(String, String)> = Vec::new();
    let mut i: usize = 0;
    while i < names.len()
        invariant
            i <= names.len(),
            items.deep_view() == Seq::new(
                i as nat,
                |k: int| (ticked(names@[k]@, current is Some && current->0 == k), names@[k]@),
            ),
        decreases names.len() - i,
    {
        let in_use = match current {
            Some(index) => index == i,
            None => false,
        };
        push_row(&mut items, tick(names[i].as_str(), in_use), names[i].clone());
        i += 1;
    }
    items
}

/// One row for each branch; the one checked out is ticked.
pub fn branch_items(branches: &Vec<(String, bool)>) -> (items: Vec<(String, String)>)
    ensures
        items.deep_view() == Seq::new(
            branches@.len(),
            |i: int| (ticked(branches@[i].0@, branches@[i].1), branches@[i].0@),
        ),
{
    let mut items: Vec<(String, String)> = Vec::new();
    let mut i: usize = 0;
    while i < branches.len()
        invariant
            i <= branches.len(),
            items.deep_view() == Seq::new(
                i as nat,
                |k: int| (ticked(branches@[k].0@, branches@[k].1), branches@[k].0@),
            ),
        decreases branches.len() - i,
    {
        push_row(&mut items, tick(branches[i].0.as_str(), branches[i].1), branches[i].0.clone());
        i += 1;
    }
    items
}

/// The row of an artisan command: its name, and what it does where it says so.
pub open spec fn artisan_row(name: Seq<char>, description: Seq<char>) -> RowView {
    (
        if description.len() == 0 {
            name
        } else {
            name + " — "@ + description
        },
        name,
    )
}

/// One row for each artisan command.
pub fn artisan_items(commands: &Vec<(String, String)>) -> (items: Vec<(String, String)>)
    ensures
        items.deep_view() == Seq::new(
            commands@.len(),
            |i: int| artisan_row(commands@[i].0@, commands@[i].1@),
        ),
{
    let mut items: Vec<(String, String)> = Vec::new();
    let mut i: usize = 0;
    while i < commands.len()
        invariant
            i <= commands.len(),
            items.deep_view() == Seq::new(
                i as nat,
                |k: int| artisan_row(commands@[k].0@, commands@[k].1@),
            ),
        decreases commands.len() - i,
    {
        let name = &commands[i].0;
        let description = &commands[i].1;
        let label = if description.as_str().is_empty() {
            name.clone()
        } else {
            join3(name.as_str(), " — ", description.as_str())
        };
        push_row(&mut items, label, name.clone());
        i += 1;
    }
    items
}

/// A line of the commit graph. One that only connects others has no hash.
pub struct LogEntry {
    pub graph: String,
    pub hash: String,
    pub subject: String,
}

/// The row of a line of the commit graph.
pub open spec fn log_row(entry: LogEntry) -> RowView {
    (
        if entry.hash@.len() == 0 {
            entry.graph@
        } else {
            entry.graph@ + entry.hash@ + "  "@ + entry.subject@
        },
        entry.hash@,
    )
}

/// One row for each line of the commit graph.
pub fn git_log_items(entries: &Vec<LogEntry>) -> (items: Vec<(String, String)>)
    ensures
        items.deep_view() == Seq::new(entries@.len(), |i: int| log_row(entries@[i])),
{
    let mut items: Vec<(String, String)> = Vec::new();
    let mut i: usize = 0;
    while i < entries.len()
        invariant
            i <= entries.len(),
            items.deep_view() == Seq::new(i as nat, |k: int| log_row(entries@[k])),
        decreases entries.len() - i,
    {
        let entry = &entries[i];
        let label = if entry.hash.as_str().is_empty() {
            entry.graph.clone()
        } else {
            let mut label = join3(entry.graph.as_str(), entry.hash.as_str(), "  ");
            label.append(entry.subject.as_str());
            label
        };
        push_row(&mut items, label, entry.hash.clone());
        i += 1;
    }
    items
}

/// One row for each script; its name is its id.
pub fn composer_script_items(scripts: &Vec<String>) -> (items: Vec<(String, String)>)
    ensures
        items.deep_view() == Seq::new(scripts@.len(), |i: int| (scripts@[i]@, scripts@[i]@)),
{
    let mut items: Vec<(String, String)> = Vec::new();
    let mut i: usize = 0;
    while i < scripts.len()
        invariant
            i <= scripts.len(),
            items.deep_view() == Seq::new(i as nat, |k: int| (scripts@[k]@, scripts@[k]@)),
        decreases scripts.len() - i,
    {
        push_row(&mut items, scripts[i].clone(), scripts[i].clone());
        i += 1;
    }
    items
}

/// One row for each file of the project: its path below the root, which is
/// what typing matches, and the whole of it as the id.
pub fn file_items(files: &Vec<(String, String)>) -> (items: Vec<(String, String)>)
    ensures
        items.deep_view() == files.deep_view(),
{
    let mut items: Vec<(String, String)> = Vec::new();
    let mut i: usize = 0;
    while i < files.len()
        invariant
            i <= files.len(),
            items.deep_view() == Seq::new(i as nat, |k: int| (files@[k].0@, files@[k].1@)),
        decreases files.len() - i,
    {
        push_row(&mut items, files[i].0.clone(), files[i].1.clone());
        i += 1;
    }
    assert(items.deep_view() =~= files.deep_view());
    items
}

/// A symbol of the active file.
pub struct Symbol {
    /// How deep it is nested.
    pub depth: usize,
    pub label: String,
    pub line: u32,
}

/// A symbol's row: two spaces for each level, so that nesting shows.
pub open spec fn symbol_row(path: Seq<char>, symbol: Symbol) -> RowView {
    (
        text::repeated("  "@, symbol.depth as nat) + symbol.label@,
        id_of_target(path, symbol.line as nat),
    )
}

/// One row for each symbol of the file at `path`.
pub fn symbol_items(path: &str, symbols: &Vec<Symbol>) -> (items: Vec<(String, String)>)
    ensures
        items.deep_view() == Seq::new(symbols@.len(), |i: int| symbol_row(path@, symbols@[i])),
{
    let mut items: Vec<(String, String)> = Vec::new();
    let mut i: usize = 0;
    while i < symbols.len()
        invariant
            i <= symbols.len(),
            items.deep_view() == Seq::new(i as nat, |k: int| symbol_row(path@, symbols@[k])),
        decreases symbols.len() - i,
    {
        let mut label = text::repeat("  ", symbols[i].depth);
        label.append(symbols[i].label.as_str());
        push_row(&mut items, label, target_id(path, symbols[i].line as usize));
        i += 1;
    }
    items
}

/// A symbol of the project.
pub struct WorkspaceSymbol {
    pub label: String,
    pub path: String,
    pub line: u32,
}

/// One row for each symbol of the project.
pub fn workspace_symbol_items(symbols: &Vec<WorkspaceSymbol>) -> (items: Vec<(String, String)>)
    ensures
        items.deep_view() == Seq::new(
            symbols@.len(),
            |i: int|
                (symbols@[i].label@, id_of_target(symbols@[i].path@, symbols@[i].line as nat)),
        ),
{
    let mut items: Vec<(String, String)> = Vec::new();
    let mut i: usize = 0;
    while i < symbols.len()
        invariant
            i <= symbols.len(),
            items.deep_view() == Seq::new(
                i as nat,
                |k: int|
                    (symbols@[k].label@, id_of_target(symbols@[k].path@, symbols@[k].line as nat)),
            ),
        decreases symbols.len() - i,
    {
        let id = target_id(symbols[i].path.as_str(), symbols[i].line as usize);
        push_row(&mut items, symbols[i].label.clone(), id);
        i += 1;
    }
    items
}

/// A usage that the language server found, with the file that its address
/// stands for, where it stands for one.
pub struct Usage {
    pub path: Option<String>,
    pub line: u32,
}

/// A usage's row: the path below the project's root, and the line counted from
/// one.
pub open spec fn usage_row(root: Option<Seq<char>>, path: Seq<char>, line: nat) -> RowView {
    let shown = match root {
        Some(root) => match paths::relative_to(path, root) {
            Some(rest) => rest,
            None => path,
        },
        None => path,
    };
    (shown + ":"@ + text::decimal(line + 1), id_of_target(path, line))
}

/// The rows of those usages that are in a file.
pub open spec fn usage_rows(root: Option<Seq<char>>, usages: Seq<Usage>) -> Seq<RowView>
    decreases usages.len(),
{
    if usages.len() == 0 {
        Seq::empty()
    } else {
        let before = usage_rows(root, usages.drop_last());
        match usages.last().path {
            Some(path) => before.push(usage_row(root, path@, usages.last().line as nat)),
            None => before,
        }
    }
}

/// One row for each usage that is in a file.
pub fn reference_items(root: Option<&str>, usages: &Vec<Usage>) -> (items: Vec<(String, String)>)
    ensures
        items.deep_view() == usage_rows(
            match root {
                Some(root) => Some(root@),
                None => None,
            },
            usages@,
        ),
{
    let ghost base = match root {
        Some(root) => Some(root@),
        None => None,
    };
    let mut items: Vec<(String, String)> = Vec::new();
    let mut i: usize = 0;
    assert(usages@.take(0) =~= Seq::<Usage>::empty());
    assert(items.deep_view() =~= Seq::<RowView>::empty());
    while i < usages.len()
        invariant
            i <= usages.len(),
            base == (match root {
                Some(root) => Some(root@),
                None => None,
            }),
            items.deep_view() == usage_rows(base, usages@.take(i as int)),
        decreases usages.len() - i,
    {
        let ghost before = items.deep_view();
        let ghost next = usages@.take(i + 1);
        assert(next.drop_last() =~= usages@.take(i as int));
        assert(next.last() == usages@[i as int]);
        if let Some(path) = &usages[i].path {
            let shown = match root {
                Some(root) => match path_below(path.as_str(), root) {
                    Some(rest) => rest,
                    None => path.clone(),
                },
                None => path.clone(),
            };
            let line = usages[i].line;
            let number = decimal_text(line as u64 + 1);
            let label = join3(shown.as_str(), ":", number.as_str());
            let id = target_id(path.as_str(), line as usize);
            push_row(&mut items, label, id);
            assert(items.deep_view() =~= before.push(usage_row(base, path@, line as nat)));
        }
        i += 1;
    }
    assert(usages@.take(i as int) =~= usages@);
    items
}

/// A route's row: its label, and an id that lands on its line. Routes count
/// lines from one, ids from zero.
pub open spec fn route_entry(path: Seq<char>, route: Route) -> RowView {
    (
        routes::route_row(route.method.column(), route.uri.shown(), route.shown_name()),
        id_of_target(
            path,
            if route.line > 0 {
                (route.line - 1) as nat
            } else {
                0
            },
        ),
    )
}

/// One row for each route found in the file at `path`, added to `items`.
pub fn push_route_items(path: &str, found: &Vec<Route>, items: &mut Vec<(String, String)>)
    ensures
        final(items).deep_view() == old(items).deep_view() + Seq::new(
            found@.len(),
            |i: int| route_entry(path@, found@[i]),
        ),
{
    let ghost before = items.deep_view();
    let mut i: usize = 0;
    while i < found.len()
        invariant
            i <= found.len(),
            items.deep_view() == before + Seq::new(
                i as nat,
                |k: int| route_entry(path@, found@[k]),
            ),
        decreases found.len() - i,
    {
        let line = found[i].line;
        let row: usize = if line > 0 {
            line - 1
        } else {
            0
        };
        push_row(items, route_label(&found[i]), target_id(path, row));
        assert(items.deep_view() =~= before + Seq::new(
            (i + 1) as nat,
            |k: int| route_entry(path@, found@[k]),
        ));
        i += 1;
    }
    assert(items.deep_view() =~= before + Seq::new(
        found@.len(),
        |k: int| route_entry(path@, found@[k]),
    ));
}

/// An offered fix. One that is only a command carries no edit and is not
/// listed.
pub struct CodeAction {
    pub title: String,
    pub has_edit: bool,
}

/// The rows of the fixes that carry an edit; a row's id is its edit's number.
pub open spec fn fix_rows(actions: Seq<CodeAction>) -> Seq<RowView>
    decreases actions.len(),
{
    if actions.len() == 0 {
        Seq::empty()
    } else {
        let before = fix_rows(actions.drop_last());
        if actions.last().has_edit {
            before.push((actions.last().title@, text::decimal(before.len())))
        } else {
            before
        }
    }
}

/// One row for each fix that carries an edit.
pub fn code_action_items(actions: &Vec<CodeAction>) -> (items: Vec<(String, String)>)
    ensures
        items.deep_view() == fix_rows(actions@),
{
    let mut items: Vec<(String, String)> = Vec::new();
    let mut i: usize = 0;
    assert(actions@.take(0) =~= Seq::<CodeAction>::empty());
    assert(items.deep_view() =~= Seq::<RowView>::empty());
    while i < actions.len()
        invariant
            i <= actions.len(),
            items.deep_view() == fix_rows(actions@.take(i as int)),
        decreases actions.len() - i,
    {
        let ghost before = items.deep_view();
        let ghost next = actions@.take(i + 1);
        assert(next.drop_last() =~= actions@.take(i as int));
        assert(next.last() == actions@[i as int]);
        if actions[i].has_edit {
            let id = decimal_text(items.len() as u64);
            push_row(&mut items, actions[i].title.clone(), id);
            assert(items.deep_view() =~= before.push(
                (actions@[i as int].title@, text::decimal(before.len())),
            ));
        }
        i += 1;
    }
    assert(actions@.take(i as int) =~= actions@);
    items
}

/// A place found is told apart from a bare path by the number behind the last
/// colon: without a colon, or with no number behind it, all of it is the path.
pub proof fn law_number_behind_the_last_colon(id: Seq<char>, at: int)
    requires
        0 <= at < id.len(),
        id[at] == ':',
        forall|k: int| at < k < id.len() ==> id[k] != ':',
    ensures
        last_colon(id) == at,
        text::number_in(id.skip(at + 1), usize::MAX as nat) is None ==> target_of_id(id) == (
            id,
            None::<nat>,
        ),
        text::number_in(id.skip(at + 1), usize::MAX as nat) matches Some(row) ==> target_of_id(id)
            == (id.take(at), Some(row)),
    decreases id.len(),
{
    if at < id.len() - 1 {
        assert(id.last() != ':');
        let before = id.drop_last();
        assert forall|k: int| at < k < before.len() implies before[k] != ':' by {
            assert(before[k] == id[k]);
        }
        law_number_behind_the_last_colon(before, at);
    }
}

/// What the palette offers is chosen by its own id: a command by its id under
/// its title, an artisan command by its name, a commit by its hash, a symbol by
/// its place, and a tick marks the current one.
pub proof fn law_rows_are_chosen_by_their_id(
    command: Command,
    name: Seq<char>,
    description: Seq<char>,
    entry: LogEntry,
    path: Seq<char>,
    symbol: Symbol,
)
    ensures
        command_row(command).0 == command.title@,
        command_row(command).1 == command.id@,
        ticked(name, false) == name,
        ticked(name, true) == name + "  ✓"@,
        artisan_row(name, description).1 == name,
        description.len() == 0 ==> artisan_row(name, description).0 == name,
        description.len() > 0 ==> artisan_row(name, description).0 == name + " — "@ + description,
        log_row(entry).1 == entry.hash@,
        entry.hash@.len() == 0 ==> log_row(entry).0 == entry.graph@,
        entry.hash@.len() > 0 ==> log_row(entry).0 == entry.graph@ + entry.hash@ + "  "@
            + entry.subject@,
        target_of_id(symbol_row(path, symbol).1) == (path, Some(symbol.line as nat)),
        symbol.depth == 0 ==> symbol_row(path, symbol).0 == text::repeated("  "@, 0)
            + symbol.label@,
        symbol_row(path, symbol).0.len() >= symbol.label@.len(),
        symbol_row(path, symbol).0.skip(symbol_row(path, symbol).0.len() - symbol.label@.len())
            == symbol.label@,
{
    law_target_id_round_trip(path, symbol.line as nat);
    let row = symbol_row(path, symbol).0;
    assert(row.skip(row.len() - symbol.label@.len()) =~= symbol.label@);
}

/// A usage leads to its own line in its own file, and is shown by its path below
/// the project's root, with its line counted from one.
pub proof fn law_usage_leads_to_its_line(root: Option<Seq<char>>, path: Seq<char>, line: nat)
    requires
        line <= usize::MAX,
    ensures
        target_of_id(usage_row(root, path, line).1) == (path, Some(line)),
        root is Some && paths::relative_to(path, root->0) is Some ==> usage_row(root, path, line).0
            == paths::relative_to(path, root->0)->0 + ":"@ + text::decimal(line + 1),
        root is None || paths::relative_to(path, root->0) is None ==> usage_row(root, path, line).0
            == path + ":"@ + text::decimal(line + 1),
{
    law_target_id_round_trip(path, line);
}

/// Every usage in a file is listed, in order, and no other.
pub proof fn law_every_usage_in_a_file_is_listed(root: Option<Seq<char>>, usages: Seq<Usage>)
    ensures
        usage_rows(root, usages) == usages.filter_map(
            |usage: Usage|
                match usage.path {
                    Some(path) => Some(usage_row(root, path@, usage.line as nat)),
                    None => None,
                },
        ),
    decreases usages.len(),
{
    if usages.len() > 0 {
        law_every_usage_in_a_file_is_listed(root, usages.drop_last());
    }
}

/// A route leads to the line it is declared on.
pub proof fn law_route_leads_to_its_line(path: Seq<char>, route: Route)
    ensures
        route.line > 0 ==> target_of_id(route_entry(path, route).1) == (
            path,
            Some((route.line - 1) as nat),
        ),
        route.line == 0 ==> target_of_id(route_entry(path, route).1) == (path, Some(0nat)),
        route_entry(path, route).0 == routes::route_row(
            route.method.column(),
            route.uri.shown(),
            route.shown_name(),
        ),
{
    law_target_id_round_trip(
        path,
        if route.line > 0 {
            (route.line - 1) as nat
        } else {
            0
        },
    );
}

/// The fixes offered are those that can be applied, in order, each under its
/// title and chosen by its place among them.
pub proof fn law_fixes_offered_can_be_applied(actions: Seq<CodeAction>, i: int)
    ensures
        ({
            let able = actions.filter(|action: CodeAction| action.has_edit);
            &&& fix_rows(actions).len() == able.len()
            &&& 0 <= i < able.len() ==> fix_rows(actions)[i] == (
                able[i].title@,
                text::decimal(i as nat),
            )
        }),
    decreases actions.len(),
{
    reveal(Seq::filter);
    if actions.len() > 0 {
        law_fixes_offered_can_be_applied(actions.drop_last(), i);
    }
}

} // verus!

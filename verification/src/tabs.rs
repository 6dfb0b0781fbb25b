//! The tab strip: which files are open, and which of them the user is in.

use vstd::prelude::*;
use vstd::string::*;

use crate::disk::{canonical_prefix, is_under, Disk};
use crate::paths;
use crate::paths::{are_same_path, join_path, path_below};

verus! {

broadcast use vstd::seq::group_seq_axioms;

/// An open tab.
pub struct Tab {
    /// The file behind it, once it has one.
    pub path: Option<String>,
    /// Which editor it shows. Never shared by two tabs.
    pub editor: u64,
}

/// A tab as contracts see it.
pub struct TabView {
    pub path: Option<Seq<char>>,
    pub editor: u64,
}

impl vstd::view::DeepView for Tab {
    type V = TabView;

    open spec fn deep_view(&self) -> TabView {
        TabView { path: self.path.deep_view(), editor: self.editor }
    }
}

// ---------------------------------------------------------------------------
// Which tab is active
// ---------------------------------------------------------------------------

/// Which tab is active once the one at `closed` is gone and `remaining` are
/// left.
pub open spec fn after_close(active: int, closed: int, remaining: int) -> int {
    let followed = if closed < active {
        active - 1
    } else {
        active
    };
    let last = if remaining > 0 {
        remaining - 1
    } else {
        0
    };
    if followed < last {
        followed
    } else {
        last
    }
}

/// Which tab is active once the one at `from` was dragged to `to`.
pub open spec fn after_reorder(active: int, from: int, to: int) -> int {
    if active == from {
        to
    } else if from < active && to >= active {
        active - 1
    } else if from > active && to <= active {
        active + 1
    } else {
        active
    }
}

/// Which tab is active after the one at `closed` is removed.
///
/// Closing a tab before the active one moves every later tab down, so the
/// index follows. Closing the active one lands on the tab that took its place,
/// or on the new last one.
pub fn active_after_close(active: usize, closed: usize, remaining: usize) -> (index: usize)
    ensures
        index == after_close(active as int, closed as int, remaining as int),
{
    let followed: usize = if closed < active {
        active - 1
    } else {
        active
    };
    let last: usize = if remaining > 0 {
        remaining - 1
    } else {
        0
    };
    if followed < last {
        followed
    } else {
        last
    }
}

/// Which tab is active after the one at `from` was dragged to `to`: the file
/// the user was in, wherever its tab landed.
pub fn active_after_reorder(active: usize, from: usize, to: usize) -> (index: usize)
    ensures
        index == after_reorder(active as int, from as int, to as int),
{
    if active == from {
        to
    } else if from < active && to >= active {
        active - 1
    } else if from > active && to <= active {
        active + 1
    } else {
        active
    }
}

/// Closing another tab leaves the user in the same file.
pub proof fn law_close_keeps_active_file<T>(tabs: Seq<T>, active: int, closed: int)
    requires
        0 <= active < tabs.len(),
        0 <= closed < tabs.len(),
        active != closed,
    ensures
        0 <= after_close(active, closed, tabs.len() - 1) < tabs.len() - 1,
        tabs.remove(closed)[after_close(active, closed, tabs.len() - 1)] == tabs[active],
{
}

/// Closing the active tab leaves the user in the one that took its place, or
/// in the last one left.
pub proof fn law_close_active_selects_neighbour<T>(tabs: Seq<T>, active: int)
    requires
        0 <= active < tabs.len(),
        tabs.len() > 1,
    ensures
        active + 1 < tabs.len() ==> tabs.remove(active)[after_close(
            active,
            active,
            tabs.len() - 1,
        )] == tabs[active + 1],
        active + 1 == tabs.len() ==> tabs.remove(active)[after_close(
            active,
            active,
            tabs.len() - 1,
        )] == tabs[active - 1],
{
}

/// Dragging a tab leaves the user in the same file.
pub proof fn law_reorder_keeps_active_file<T>(tabs: Seq<T>, active: int, from: int, to: int)
    requires
        0 <= active < tabs.len(),
        0 <= from < tabs.len(),
        0 <= to < tabs.len(),
    ensures
        0 <= after_reorder(active, from, to) < tabs.len(),
        tabs.remove(from).insert(to, tabs[from])[after_reorder(active, from, to)] == tabs[active],
{
}

// ---------------------------------------------------------------------------
// The strip
// ---------------------------------------------------------------------------

/// The open tabs, and which of them is active.
pub struct TabStrip {
    pub tabs: Vec<Tab>,
    pub active: usize,
}

/// A strip as contracts see it.
#[verifier::ext_equal]
pub struct StripView {
    pub tabs: Seq<TabView>,
    pub active: int,
}

/// The first tab, from `from` on, at that path.
pub open spec fn tab_at_path(tabs: Seq<TabView>, path: Seq<char>, from: int) -> Option<int>
    decreases tabs.len() - from,
{
    if from < 0 || from >= tabs.len() {
        None
    } else if tabs[from].path matches Some(open) && paths::same_path(open, path) {
        Some(from)
    } else {
        tab_at_path(tabs, path, from + 1)
    }
}

/// The first tab, from `from` on, with that editor.
pub open spec fn tab_of_editor(tabs: Seq<TabView>, editor: u64, from: int) -> Option<int>
    decreases tabs.len() - from,
{
    if from < 0 || from >= tabs.len() {
        None
    } else if tabs[from].editor == editor {
        Some(from)
    } else {
        tab_of_editor(tabs, editor, from + 1)
    }
}

/// Whether a tab's file is `path` or inside it.
pub open spec fn tab_under(tab: TabView, path: Seq<char>, disk: Disk) -> bool {
    tab.path matches Some(open) && disk.under(open, path)
}

/// The tabs whose file is not `path` and not inside it.
pub open spec fn outside(tabs: Seq<TabView>, path: Seq<char>, disk: Disk) -> Seq<TabView>
    decreases tabs.len(),
{
    if tabs.len() == 0 {
        tabs
    } else {
        let before = outside(tabs.drop_last(), path, disk);
        if tab_under(tabs.last(), path, disk) {
            before
        } else {
            before.push(tabs.last())
        }
    }
}

/// Where a file at `open` is after `from` was renamed to `to`; `None` for a
/// file that the rename does not touch.
pub open spec fn renamed(open: Seq<char>, from: Seq<char>, to: Seq<char>, disk: Disk) -> Option<
    Seq<char>,
> {
    if !disk.under(open, from) {
        None
    } else if paths::same_path(disk.real_prefix(open), disk.real_prefix(from)) {
        Some(to)
    } else {
        match paths::relative_to(disk.real_prefix(open), disk.real_prefix(from)) {
            Some(rest) => Some(paths::join(to, rest)),
            None => None,
        }
    }
}

/// Where a tab's file is after a rename, where the rename moves it.
pub open spec fn tab_renamed(tab: TabView, from: Seq<char>, to: Seq<char>, disk: Disk) -> Option<
    Seq<char>,
> {
    match tab.path {
        Some(open) => renamed(open, from, to, disk),
        None => None,
    }
}

/// A tab after a rename.
pub open spec fn retargeted(tab: TabView, from: Seq<char>, to: Seq<char>, disk: Disk) -> TabView {
    match tab_renamed(tab, from, to, disk) {
        Some(path) => TabView { path: Some(path), editor: tab.editor },
        None => tab,
    }
}

/// A tab that follows its file, as contracts see it: where it came from and
/// where it went.
pub struct MoveView {
    pub index: int,
    pub from: Seq<char>,
    pub to: Seq<char>,
}

/// The tabs that a rename moves, in order.
pub open spec fn moved(tabs: Seq<TabView>, from: Seq<char>, to: Seq<char>, disk: Disk) -> Seq<
    MoveView,
>
    decreases tabs.len(),
{
    if tabs.len() == 0 {
        Seq::empty()
    } else {
        let before = moved(tabs.drop_last(), from, to, disk);
        match (tabs.last().path, tab_renamed(tabs.last(), from, to, disk)) {
            (Some(was), Some(path)) => before.push(
                MoveView { index: tabs.len() - 1, from: was, to: path },
            ),
            _ => before,
        }
    }
}

impl StripView {
    /// Whether the active index is that of a tab, while there is one.
    pub open spec fn well_formed(self) -> bool {
        &&& self.tabs.len() > 0 ==> 0 <= self.active < self.tabs.len()
        &&& self.tabs.len() == 0 ==> self.active == 0
    }

    /// The active tab.
    pub open spec fn active_tab(self) -> Option<TabView> {
        if 0 <= self.active < self.tabs.len() {
            Some(self.tabs[self.active])
        } else {
            None
        }
    }

    /// The active tab's path.
    pub open spec fn active_path(self) -> Option<Seq<char>> {
        match self.active_tab() {
            Some(tab) => tab.path,
            None => None,
        }
    }

    /// The active tab's editor.
    pub open spec fn active_editor(self) -> Option<u64> {
        match self.active_tab() {
            Some(tab) => Some(tab.editor),
            None => None,
        }
    }

    /// With one more tab, at the end and active.
    pub open spec fn with(self, tab: TabView) -> StripView {
        StripView { tabs: self.tabs.push(tab), active: self.tabs.len() as int }
    }

    /// Without the tab at `index`.
    pub open spec fn without(self, index: int) -> StripView {
        if 0 <= index < self.tabs.len() {
            StripView {
                tabs: self.tabs.remove(index),
                active: after_close(self.active, index, self.tabs.len() - 1),
            }
        } else {
            self
        }
    }

    /// With the tab at `from` dragged to `to`; a drag that leads nowhere
    /// changes nothing.
    pub open spec fn reordered(self, from: int, to: int) -> StripView {
        if from == to || from >= self.tabs.len() || to >= self.tabs.len() {
            self
        } else {
            StripView {
                tabs: self.tabs.remove(from).insert(to, self.tabs[from]),
                active: after_reorder(self.active, from, to),
            }
        }
    }

    /// With every tab pointed at where its file is after a rename.
    pub open spec fn renamed(self, from: Seq<char>, to: Seq<char>, disk: Disk) -> StripView {
        StripView {
            tabs: Seq::new(
                self.tabs.len(),
                |i: int| retargeted(self.tabs[i], from, to, disk),
            ),
            active: self.active,
        }
    }

    /// Without the tabs of the first `count` whose file is `path` or inside
    /// it, the last of them closed first.
    pub open spec fn without_under(self, path: Seq<char>, disk: Disk, count: int) -> StripView
        decreases count,
    {
        if count <= 0 {
            self
        } else if tab_under(self.tabs[count - 1], path, disk) {
            self.without(count - 1).without_under(path, disk, count - 1)
        } else {
            self.without_under(path, disk, count - 1)
        }
    }
}

impl View for TabStrip {
    type V = StripView;

    open spec fn view(&self) -> StripView {
        StripView { tabs: self.tabs.deep_view(), active: self.active as int }
    }
}

impl Default for TabStrip {
    fn default() -> (strip: Self)
        ensures
            strip@ == (StripView { tabs: Seq::empty(), active: 0 }),
            strip@.well_formed(),
    {
        TabStrip { tabs: Vec::new(), active: 0 }
    }
}

/// A tab that follows its file to a new place.
pub struct TabMove {
    pub index: usize,
    pub from: String,
    pub to: String,
}

impl vstd::view::DeepView for TabMove {
    type V = MoveView;

    open spec fn deep_view(&self) -> MoveView {
        MoveView { index: self.index as int, from: self.from@, to: self.to@ }
    }
}

impl TabStrip {
    /// The active tab.
    pub fn active_tab(&self) -> (tab: Option<&Tab>)
        ensures
            tab is Some == self@.active_tab() is Some,
            tab matches Some(found) ==> self@.active_tab() == Some(found.deep_view()),
    {
        if self.active < self.tabs.len() {
            Some(&self.tabs[self.active])
        } else {
            None
        }
    }

    /// The active tab's editor.
    pub fn active_editor(&self) -> (editor: Option<u64>)
        ensures
            editor == self@.active_editor(),
    {
        match self.active_tab() {
            Some(tab) => Some(tab.editor),
            None => None,
        }
    }

    /// The active tab's path.
    pub fn active_path(&self) -> (path: Option<&String>)
        ensures
            path matches Some(found) ==> self@.active_path() == Some(found@),
            path is None ==> self@.active_path() is None,
    {
        match self.active_tab() {
            Some(tab) => match &tab.path {
                Some(path) => Some(path),
                None => None,
            },
            None => None,
        }
    }

    /// The tab that shows the file at `path`.
    pub fn position_of_path(&self, path: &str) -> (index: Option<usize>)
        ensures
            match index {
                Some(i) => i < self.tabs.len() && tab_at_path(self@.tabs, path@, 0) == Some(
                    i as int,
                ),
                None => tab_at_path(self@.tabs, path@, 0) is None,
            },
    {
        let mut i: usize = 0;
        while i < self.tabs.len()
            invariant
                i <= self.tabs.len(),
                tab_at_path(self@.tabs, path@, i as int) == tab_at_path(self@.tabs, path@, 0),
            decreases self.tabs.len() - i,
        {
            if let Some(open) = &self.tabs[i].path {
                if are_same_path(open.as_str(), path) {
                    return Some(i);
                }
            }
            i += 1;
        }
        None
    }

    /// The tab that shows an editor. Titles are not unique and indices shift,
    /// so this is how a tab is found again after a wait.
    pub fn position_of_editor(&self, editor: u64) -> (index: Option<usize>)
        ensures
            match index {
                Some(i) => i < self.tabs.len() && tab_of_editor(self@.tabs, editor, 0) == Some(
                    i as int,
                ),
                None => tab_of_editor(self@.tabs, editor, 0) is None,
            },
    {
        let mut i: usize = 0;
        while i < self.tabs.len()
            invariant
                i <= self.tabs.len(),
                tab_of_editor(self@.tabs, editor, i as int) == tab_of_editor(self@.tabs, editor, 0),
            decreases self.tabs.len() - i,
        {
            if self.tabs[i].editor == editor {
                return Some(i);
            }
            i += 1;
        }
        None
    }

    /// Adds a tab at the end and makes it active.
    pub fn push(&mut self, tab: Tab)
        ensures
            final(self)@ == old(self)@.with(tab.deep_view()),
            final(self)@.well_formed(),
    {
        let ghost before = self@.tabs;
        self.active = self.tabs.len();
        self.tabs.push(tab);
        assert(self@.tabs =~= before.push(tab.deep_view()));
    }

    /// Removes the tab at `index`, if there is one.
    pub fn remove(&mut self, index: usize) -> (closed: Option<Tab>)
        ensures
            final(self)@ == old(self)@.without(index as int),
            old(self)@.well_formed() ==> final(self)@.well_formed(),
            closed.deep_view() == (if index < old(self)@.tabs.len() {
                Some(old(self)@.tabs[index as int])
            } else {
                None
            }),
    {
        if index >= self.tabs.len() {
            return None;
        }
        let ghost before = self@.tabs;
        let closed = self.tabs.remove(index);
        self.active = active_after_close(self.active, index, self.tabs.len());
        assert(self@.tabs =~= before.remove(index as int));
        Some(closed)
    }

    /// A tab dragged from `from` lands in slot `to`.
    pub fn reorder_tab(&mut self, from: usize, to: usize)
        ensures
            final(self)@ == old(self)@.reordered(from as int, to as int),
            old(self)@.well_formed() ==> final(self)@.well_formed(),
    {
        if from == to || from >= self.tabs.len() || to >= self.tabs.len() {
            return;
        }
        let ghost before = self@.tabs;
        let tab = self.tabs.remove(from);
        self.tabs.insert(to, tab);
        self.active = active_after_reorder(self.active, from, to);
        assert(self@.tabs =~= before.remove(from as int).insert(to as int, before[from as int]));
    }

    /// Points every tab under `from` at its new home under `to`. A tab that
    /// kept the old path would write its file back there on the next save.
    /// Hands back what moved, for the language server.
    pub fn retarget_tabs(&mut self, from: &str, to: &str, disk: &Disk) -> (moves: Vec<TabMove>)
        ensures
            final(self)@ == old(self)@.renamed(from@, to@, *disk),
            moves.deep_view() == moved(old(self)@.tabs, from@, to@, *disk),
    {
        let ghost before = self@;
        let mut moves: Vec<TabMove> = Vec::new();
        let mut i: usize = 0;
        assert(before.tabs.take(0) =~= Seq::<TabView>::empty());
        assert(moves.deep_view() =~= Seq::<MoveView>::empty());
        while i < self.tabs.len()
            invariant
                before == old(self)@,
                i <= self.tabs.len(),
                self.tabs.len() == before.tabs.len(),
                self.active == before.active,
                forall|k: int|
                    0 <= k < i ==> #[trigger] self@.tabs[k] == retargeted(
                        before.tabs[k],
                        from@,
                        to@,
                        *disk,
                    ),
                forall|k: int|
                    i <= k < self.tabs.len() ==> #[trigger] self@.tabs[k] == before.tabs[k],
                moves.deep_view() == moved(before.tabs.take(i as int), from@, to@, *disk),
            decreases self.tabs.len() - i,
        {
            let ghost gathered = moves.deep_view();
            let ghost now = self@.tabs;
            assert(self@.tabs[i as int] == before.tabs[i as int]);
            assert(self@.tabs[i as int] == self.tabs[i as int].deep_view());
            assert(before.tabs.take(i + 1).drop_last() =~= before.tabs.take(i as int));
            assert(before.tabs.take(i + 1).last() == before.tabs[i as int]);
            let found = match &self.tabs[i].path {
                Some(open) => match new_home(open.as_str(), from, to, disk) {
                    Some(path) => Some((open.clone(), path)),
                    None => None,
                },
                None => None,
            };
            if let Some((was, path)) = found {
                let editor = self.tabs[i].editor;
                let ghost step = MoveView { index: i as int, from: was@, to: path@ };
                self.tabs.set(i, Tab { path: Some(path.clone()), editor });
                moves.push(TabMove { index: i, from: was, to: path });
                assert(moves.deep_view() =~= gathered.push(step));
                assert(self@.tabs =~= now.update(
                    i as int,
                    retargeted(before.tabs[i as int], from@, to@, *disk),
                ));
            }
            i += 1;
        }
        assert(before.tabs.take(i as int) =~= before.tabs);
        assert(self@.tabs =~= before.renamed(from@, to@, *disk).tabs);
        moves
    }
}

/// Where a file at `open` is after `from` was renamed to `to`.
fn new_home(open: &str, from: &str, to: &str, disk: &Disk) -> (path: Option<String>)
    ensures
        path.deep_view() == renamed(open@, from@, to@, *disk),
{
    if !is_under(open, from, disk) {
        return None;
    }
    let real_open = canonical_prefix(open, disk);
    let real_from = canonical_prefix(from, disk);
    if are_same_path(real_open.as_str(), real_from.as_str()) {
        return Some(crate::text::owned(to));
    }
    match path_below(real_open.as_str(), real_from.as_str()) {
        Some(rest) => Some(join_path(to, rest.as_str())),
        None => None,
    }
}

/// Closing files that were deleted leaves the user where they were, unless
/// that file was one of them.
pub proof fn law_delete_keeps_active_file(
    strip: StripView,
    path: Seq<char>,
    disk: Disk,
    count: int,
)
    requires
        strip.well_formed(),
        strip.tabs.len() > 0,
        0 <= count <= strip.tabs.len(),
        !tab_under(strip.tabs[strip.active], path, disk),
    ensures
        strip.without_under(path, disk, count).active_tab() == Some(strip.tabs[strip.active]),
    decreases count,
{
    if count > 0 {
        if tab_under(strip.tabs[count - 1], path, disk) {
            law_close_keeps_active_file(strip.tabs, strip.active, count - 1);
            law_delete_keeps_active_file(strip.without(count - 1), path, disk, count - 1);
        } else {
            law_delete_keeps_active_file(strip, path, disk, count - 1);
        }
    }
}

/// Closing what is inside `path`, the last tab first, leaves what is outside.
pub proof fn lemma_without_under(strip: StripView, path: Seq<char>, disk: Disk, count: int)
    requires
        0 <= count <= strip.tabs.len(),
    ensures
        strip.without_under(path, disk, count).tabs == outside(
            strip.tabs.take(count),
            path,
            disk,
        ) + strip.tabs.skip(count),
    decreases count,
{
    if count == 0 {
        assert(strip.tabs.take(0) =~= Seq::<TabView>::empty());
        assert(outside(strip.tabs.take(0), path, disk) + strip.tabs.skip(0) =~= strip.tabs);
    } else {
        let front = strip.tabs.take(count);
        assert(front.drop_last() =~= strip.tabs.take(count - 1));
        assert(front.last() == strip.tabs[count - 1]);
        if tab_under(strip.tabs[count - 1], path, disk) {
            let rest = strip.without(count - 1);
            lemma_without_under(rest, path, disk, count - 1);
            assert(rest.tabs.take(count - 1) =~= strip.tabs.take(count - 1));
            assert(rest.tabs.skip(count - 1) =~= strip.tabs.skip(count));
        } else {
            lemma_without_under(strip, path, disk, count - 1);
            assert(outside(front.drop_last(), path, disk) + strip.tabs.skip(count - 1)
                =~= outside(front.drop_last(), path, disk).push(front.last()) + strip.tabs.skip(
                count,
            ));
        }
    }
}

/// None of the tabs outside `path` is inside it.
pub proof fn law_none_inside_is_left(tabs: Seq<TabView>, path: Seq<char>, disk: Disk)
    ensures
        forall|i: int|
            0 <= i < outside(tabs, path, disk).len() ==> !tab_under(
                #[trigger] outside(tabs, path, disk)[i],
                path,
                disk,
            ),
    decreases tabs.len(),
{
    if tabs.len() > 0 {
        law_none_inside_is_left(tabs.drop_last(), path, disk);
        let before = outside(tabs.drop_last(), path, disk);
        assert forall|i: int| 0 <= i < outside(tabs, path, disk).len() implies !tab_under(
            #[trigger] outside(tabs, path, disk)[i],
            path,
            disk,
        ) by {
            if i < before.len() {
                assert(outside(tabs, path, disk)[i] == before[i]);
            }
        }
    }
}

/// A file renamed by itself is at its new name afterwards.
pub proof fn law_renamed_file_follows(from: Seq<char>, to: Seq<char>, disk: Disk)
    ensures
        renamed(from, from, to, disk) == Some(to),
{
    crate::disk::law_under_itself(disk, from);
}

/// A search by path finds the first tab from there on that shows the path, and
/// finds none only where no tab does.
pub proof fn law_first_tab_of_a_path(tabs: Seq<TabView>, path: Seq<char>, from: int)
    requires
        0 <= from,
    ensures
        match tab_at_path(tabs, path, from) {
            Some(found) => {
                &&& from <= found < tabs.len()
                &&& tabs[found].path is Some
                &&& paths::components(tabs[found].path->0) == paths::components(path)
                &&& forall|k: int|
                    from <= k < found ==> (#[trigger] tabs[k]).path is None || paths::components(
                        tabs[k].path->0,
                    ) != paths::components(path)
            },
            None => forall|k: int|
                from <= k < tabs.len() ==> (#[trigger] tabs[k]).path is None || paths::components(
                    tabs[k].path->0,
                ) != paths::components(path),
        },
    decreases tabs.len() - from,
{
    if from < tabs.len() {
        law_first_tab_of_a_path(tabs, path, from + 1);
    }
}

/// A search by editor finds the first tab from there on with that editor, and
/// finds none only where no tab has it.
pub proof fn law_first_tab_of_an_editor(tabs: Seq<TabView>, editor: u64, from: int)
    requires
        0 <= from,
    ensures
        match tab_of_editor(tabs, editor, from) {
            Some(found) => {
                &&& from <= found < tabs.len()
                &&& tabs[found].editor == editor
                &&& forall|k: int| from <= k < found ==> (#[trigger] tabs[k]).editor != editor
            },
            None => forall|k: int|
                from <= k < tabs.len() ==> (#[trigger] tabs[k]).editor != editor,
        },
    decreases tabs.len() - from,
{
    if from < tabs.len() {
        law_first_tab_of_an_editor(tabs, editor, from + 1);
    }
}

/// The active tab is the one at the active index, and its file and its editor
/// are that tab's own.
pub proof fn law_active_tab_is_at_the_active_index(strip: StripView)
    ensures
        0 <= strip.active < strip.tabs.len() ==> {
            &&& strip.active_tab() == Some(strip.tabs[strip.active])
            &&& strip.active_path() == strip.tabs[strip.active].path
            &&& strip.active_editor() == Some(strip.tabs[strip.active].editor)
        },
        strip.active < 0 || strip.active >= strip.tabs.len() ==> {
            &&& strip.active_tab() is None
            &&& strip.active_path() is None
            &&& strip.active_editor() is None
        },
{
}

/// A tab that is added comes last and becomes the active one, and the others
/// stay where they are.
pub proof fn law_added_tab_is_active(strip: StripView, tab: TabView)
    ensures
        strip.with(tab).tabs.len() == strip.tabs.len() + 1,
        strip.with(tab).active == strip.tabs.len(),
        strip.with(tab).tabs[strip.tabs.len() as int] == tab,
        forall|k: int|
            0 <= k < strip.tabs.len() ==> #[trigger] strip.with(tab).tabs[k] == strip.tabs[k],
        strip.with(tab).well_formed(),
{
}

/// Closing a tab takes out that tab alone; the others keep their order.
pub proof fn law_closing_takes_out_one_tab(strip: StripView, index: int)
    requires
        strip.well_formed(),
        0 <= index < strip.tabs.len(),
    ensures
        strip.without(index).tabs.len() == strip.tabs.len() - 1,
        forall|k: int| 0 <= k < index ==> #[trigger] strip.without(index).tabs[k] == strip.tabs[k],
        forall|k: int|
            index <= k < strip.tabs.len() - 1 ==> #[trigger] strip.without(index).tabs[k]
                == strip.tabs[k + 1],
        strip.without(index).well_formed(),
{
}

/// Dragging a tab puts it into the slot it was dropped on, and the other tabs
/// keep their order around it.
pub proof fn law_dragged_tab_lands_in_its_slot(strip: StripView, from: int, to: int)
    requires
        strip.well_formed(),
        0 <= from < strip.tabs.len(),
        0 <= to < strip.tabs.len(),
    ensures
        strip.reordered(from, to).tabs.len() == strip.tabs.len(),
        strip.reordered(from, to).tabs[to] == strip.tabs[from],
        strip.reordered(from, to).tabs.remove(to) =~= strip.tabs.remove(from),
        strip.reordered(from, to).active_tab() == Some(strip.tabs[strip.active]),
        strip.reordered(from, to).well_formed(),
{
    law_reorder_keeps_active_file(strip.tabs, strip.active, from, to);
    if from != to {
        let moved = strip.tabs.remove(from).insert(to, strip.tabs[from]);
        assert(moved.remove(to) =~= strip.tabs.remove(from));
    }
}

/// The tabs outside a path are exactly those that are not under it, in their
/// order.
pub proof fn law_outside_keeps_the_rest(tabs: Seq<TabView>, path: Seq<char>, disk: Disk)
    ensures
        outside(tabs, path, disk) == tabs.filter(
            |tab: TabView| tab.path is None || !disk.under(tab.path->0, path),
        ),
    decreases tabs.len(),
{
    reveal(Seq::filter);
    if tabs.len() > 0 {
        law_outside_keeps_the_rest(tabs.drop_last(), path, disk);
    }
}

/// A path that moves with its directory keeps what is below the directory: the
/// new place, then the names that stood behind the old one. Nothing else moves.
pub proof fn law_moved_path_keeps_its_tail(
    open: Seq<char>,
    from: Seq<char>,
    to: Seq<char>,
    disk: Disk,
)
    ensures
        !disk.under(open, from) ==> renamed(open, from, to, disk) is None,
        disk.under(open, from) && paths::components(disk.real_prefix(open)) == paths::components(
            disk.real_prefix(from),
        ) ==> renamed(open, from, to, disk) == Some(to),
        disk.under(open, from) && paths::components(disk.real_prefix(from)).is_prefix_of(
            paths::components(disk.real_prefix(open)),
        ) && paths::components(disk.real_prefix(from)).len() < paths::components(
            disk.real_prefix(open),
        ).len() ==> renamed(open, from, to, disk) == Some(
            paths::join(to, paths::relative_to(disk.real_prefix(open), disk.real_prefix(from))->0),
        ),
        renamed(open, from, to, disk) is Some ==> disk.under(open, from),
{
}

/// A rename changes the path of a tab and never its editor, and leaves alone
/// every tab that is not under what was renamed and every one without a path.
pub proof fn law_rename_touches_only_what_moved(
    strip: StripView,
    from: Seq<char>,
    to: Seq<char>,
    disk: Disk,
    i: int,
)
    requires
        0 <= i < strip.tabs.len(),
    ensures
        strip.renamed(from, to, disk).tabs.len() == strip.tabs.len(),
        strip.renamed(from, to, disk).active == strip.active,
        strip.renamed(from, to, disk).tabs[i].editor == strip.tabs[i].editor,
        strip.tabs[i].path is None ==> strip.renamed(from, to, disk).tabs[i] == strip.tabs[i],
        strip.tabs[i].path is Some && !disk.under(strip.tabs[i].path->0, from) ==> strip.renamed(
            from,
            to,
            disk,
        ).tabs[i] == strip.tabs[i],
        strip.tabs[i].path is Some && paths::components(strip.tabs[i].path->0)
            == paths::components(from) && strip.tabs[i].path->0 == from ==> strip.renamed(
            from,
            to,
            disk,
        ).tabs[i].path == Some(to),
        strip.tabs[i].path is Some && renamed(strip.tabs[i].path->0, from, to, disk) is Some
            ==> strip.renamed(from, to, disk).tabs[i].path == renamed(
            strip.tabs[i].path->0,
            from,
            to,
            disk,
        ),
{
    if strip.tabs[i].path is Some {
        law_renamed_file_follows(from, to, disk);
    }
}

/// Every tab that moves is listed once, with where it was and where it is, in
/// the order of the tabs; no other tab is listed.
pub proof fn law_moves_list_what_moved(
    tabs: Seq<TabView>,
    from: Seq<char>,
    to: Seq<char>,
    disk: Disk,
)
    ensures
        forall|k: int|
            0 <= k < moved(tabs, from, to, disk).len() ==> {
                let step = #[trigger] moved(tabs, from, to, disk)[k];
                &&& 0 <= step.index < tabs.len()
                &&& tabs[step.index].path == Some(step.from)
                &&& renamed(step.from, from, to, disk) == Some(step.to)
            },
        forall|k: int, l: int|
            0 <= k < l < moved(tabs, from, to, disk).len() ==> (#[trigger] moved(
                tabs,
                from,
                to,
                disk,
            )[k]).index < (#[trigger] moved(tabs, from, to, disk)[l]).index,
        forall|i: int|
            0 <= i < tabs.len() && (#[trigger] tabs[i]).path is Some && renamed(
                tabs[i].path->0,
                from,
                to,
                disk,
            ) is Some ==> exists|k: int|
                0 <= k < moved(tabs, from, to, disk).len() && (#[trigger] moved(
                    tabs,
                    from,
                    to,
                    disk,
                )[k]).index == i,
    decreases tabs.len(),
{
    if tabs.len() > 0 {
        let fewer = tabs.drop_last();
        law_moves_list_what_moved(fewer, from, to, disk);
        let before = moved(fewer, from, to, disk);
        let all = moved(tabs, from, to, disk);
        assert(forall|k: int| 0 <= k < before.len() ==> #[trigger] all[k] == before[k]);
        assert forall|k: int| 0 <= k < all.len() implies {
            let step = #[trigger] all[k];
            &&& 0 <= step.index < tabs.len()
            &&& tabs[step.index].path == Some(step.from)
            &&& renamed(step.from, from, to, disk) == Some(step.to)
        } by {
            if k < before.len() {
                assert(all[k] == before[k]);
                assert(fewer[before[k].index] == tabs[before[k].index]);
            }
        }
        assert forall|i: int|
            0 <= i < tabs.len() && (#[trigger] tabs[i]).path is Some && renamed(
                tabs[i].path->0,
                from,
                to,
                disk,
            ) is Some implies exists|k: int|
            0 <= k < all.len() && (#[trigger] all[k]).index == i by {
            if i < fewer.len() {
                assert(fewer[i] == tabs[i]);
                let k = choose|k: int|
                    0 <= k < before.len() && (#[trigger] before[k]).index == i;
                assert(all[k].index == i);
            } else {
                assert(all[before.len() as int].index == i);
            }
        }
    }
}

/// A strip is seen in contracts as it is: every tab's path and editor, in order,
/// and which one is in front.
pub proof fn law_strip_is_seen_as_it_is(strip: TabStrip, i: int)
    ensures
        strip@.active == strip.active,
        strip@.tabs.len() == strip.tabs.len(),
        0 <= i < strip.tabs.len() ==> {
            &&& strip@.tabs[i].editor == strip.tabs[i].editor
            &&& strip.tabs[i].path is None ==> strip@.tabs[i].path is None
            &&& strip.tabs[i].path matches Some(path) ==> strip@.tabs[i].path == Some(path@)
        },
{
}

/// A closed tab leaves the one in front of the user there, and its neighbour
/// where it was that one itself.
pub proof fn law_closing_keeps_what_is_in_front(strip: StripView, index: int)
    requires
        strip.well_formed(),
        0 <= index < strip.tabs.len(),
        strip.tabs.len() > 1,
    ensures
        index != strip.active ==> strip.without(index).active_tab() == Some(
            strip.tabs[strip.active],
        ),
        index == strip.active && index + 1 < strip.tabs.len() ==> strip.without(index).active_tab()
            == Some(strip.tabs[index + 1]),
        index == strip.active && index + 1 == strip.tabs.len() ==> strip.without(
            index,
        ).active_tab() == Some(strip.tabs[index - 1]),
{
}

} // verus!

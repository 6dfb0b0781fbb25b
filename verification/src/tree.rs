//! The file tree: its rows, and how each of them is drawn.

use vstd::prelude::*;
use vstd::string::*;

use crate::paths;
use crate::paths::are_same_path;
use crate::theme::Theme;

verus! {

broadcast use vstd::seq::group_seq_axioms;

/// A row of the tree: a file, or a directory and whether it is open.
pub struct Entry {
    pub path: String,
    pub name: String,
    pub depth: u32,
    pub is_dir: bool,
    pub expanded: bool,
}

/// A row of the tree as contracts see it.
pub struct EntryView {
    pub path: Seq<char>,
    pub name: Seq<char>,
    pub depth: u32,
    pub is_dir: bool,
    pub expanded: bool,
}

impl vstd::view::DeepView for Entry {
    type V = EntryView;

    open spec fn deep_view(&self) -> EntryView {
        EntryView {
            path: self.path@,
            name: self.name@,
            depth: self.depth,
            is_dir: self.is_dir,
            expanded: self.expanded,
        }
    }
}

/// The open project's files, as far as they are shown.
pub struct Tree {
    pub root: String,
    /// The root's own name.
    pub name: String,
    pub entries: Vec<Entry>,
    pub show_hidden: bool,
}

/// The tree as contracts see it.
#[verifier::ext_equal]
pub struct TreeView {
    pub root: Seq<char>,
    pub name: Seq<char>,
    pub entries: Seq<EntryView>,
    pub show_hidden: bool,
}

impl View for Tree {
    type V = TreeView;

    open spec fn view(&self) -> TreeView {
        TreeView {
            root: self.root@,
            name: self.name@,
            entries: self.entries.deep_view(),
            show_hidden: self.show_hidden,
        }
    }
}

/// The glyph of a row.
#[derive(Clone, Copy, PartialEq, Eq, Structural, Debug)]
pub enum Icon {
    Folder,
    FolderOpened,
    /// The one that the file's name has.
    OfFile,
}

/// The arrow in front of a directory.
#[derive(Clone, Copy, PartialEq, Eq, Structural, Debug)]
pub enum Chevron {
    Right,
    Down,
}

/// A row as it is drawn.
pub struct TreeRow {
    pub name: String,
    /// How far it is indented, in pixels.
    pub indent: u64,
    pub color: u32,
    pub background: Option<u32>,
    pub chevron: Option<Chevron>,
    pub icon: Icon,
    /// The colour of the mark behind a changed file.
    pub mark: Option<u32>,
    /// Whether another row can be dropped on it.
    pub accepts_drop: bool,
}

/// A row as it is drawn, as contracts see it.
pub struct TreeRowView {
    pub name: Seq<char>,
    pub indent: u64,
    pub color: u32,
    pub background: Option<u32>,
    pub chevron: Option<Chevron>,
    pub icon: Icon,
    pub mark: Option<u32>,
    pub accepts_drop: bool,
}

impl vstd::view::DeepView for TreeRow {
    type V = TreeRowView;

    open spec fn deep_view(&self) -> TreeRowView {
        TreeRowView {
            name: self.name@,
            indent: self.indent,
            color: self.color,
            background: self.background,
            chevron: self.chevron,
            icon: self.icon,
            mark: self.mark,
            accepts_drop: self.accepts_drop,
        }
    }
}

/// Whether one of these paths is the same as `path`.
pub open spec fn lists_path(listed: Seq<Seq<char>>, path: Seq<char>) -> bool {
    exists|i: int| 0 <= i < listed.len() && paths::same_path(#[trigger] listed[i], path)
}

/// How a row is drawn: a changed file in its own colour and with a mark, the
/// open file on a tint, and everything that is neither a directory nor open
/// muted.
pub open spec fn row_view(
    entry: EntryView,
    modified: Seq<Seq<char>>,
    active: Option<Seq<char>>,
    theme: Theme,
) -> TreeRowView {
    let changed = lists_path(modified, entry.path);
    let open = active matches Some(path) && paths::same_path(path, entry.path);
    TreeRowView {
        name: entry.name,
        indent: (8 + 12 * entry.depth) as u64,
        color: if changed {
            theme.modified
        } else if entry.is_dir || open {
            theme.text
        } else {
            theme.text_muted
        },
        background: if open {
            Some(theme.selection)
        } else {
            None
        },
        chevron: if entry.is_dir {
            Some(
                if entry.expanded {
                    Chevron::Down
                } else {
                    Chevron::Right
                },
            )
        } else {
            None
        },
        icon: if !entry.is_dir {
            Icon::OfFile
        } else if entry.expanded {
            Icon::FolderOpened
        } else {
            Icon::Folder
        },
        mark: if changed {
            Some(theme.modified)
        } else {
            None
        },
        accepts_drop: entry.is_dir,
    }
}

/// Whether one of these paths is the same as `path`.
fn is_listed(listed: &Vec<String>, path: &str) -> (held: bool)
    ensures
        held == lists_path(listed.deep_view(), path@),
{
    let mut i: usize = 0;
    while i < listed.len()
        invariant
            i <= listed.len(),
            forall|k: int|
                0 <= k < i ==> !paths::same_path(#[trigger] listed.deep_view()[k], path@),
        decreases listed.len() - i,
    {
        assert(listed.deep_view()[i as int] == listed[i as int]@);
        if are_same_path(listed[i].as_str(), path) {
            return true;
        }
        i += 1;
    }
    false
}

/// How a row is drawn.
fn row_of(entry: &Entry, modified: &Vec<String>, active: Option<&str>, theme: &Theme) -> (row:
    TreeRow)
    ensures
        row.deep_view() == row_view(
            entry.deep_view(),
            modified.deep_view(),
            match active {
                Some(path) => Some(path@),
                None => None,
            },
            *theme,
        ),
{
    let changed = is_listed(modified, entry.path.as_str());
    let open = match active {
        Some(path) => are_same_path(path, entry.path.as_str()),
        None => false,
    };
    let color = if changed {
        theme.modified
    } else if entry.is_dir || open {
        theme.text
    } else {
        theme.text_muted
    };
    let chevron = if entry.is_dir {
        if entry.expanded {
            Some(Chevron::Down)
        } else {
            Some(Chevron::Right)
        }
    } else {
        None
    };
    let icon = if !entry.is_dir {
        Icon::OfFile
    } else if entry.expanded {
        Icon::FolderOpened
    } else {
        Icon::Folder
    };
    TreeRow {
        name: entry.name.clone(),
        indent: 8 + 12 * (entry.depth as u64),
        color,
        background: if open {
            Some(theme.selection)
        } else {
            None
        },
        chevron,
        icon,
        mark: if changed {
            Some(theme.modified)
        } else {
            None
        },
        accepts_drop: entry.is_dir,
    }
}

/// The rows of a stretch of the tree, as they are drawn.
pub open spec fn rows_view(
    entries: Seq<EntryView>,
    from: int,
    to: int,
    modified: Seq<Seq<char>>,
    active: Option<Seq<char>>,
    theme: Theme,
) -> Seq<TreeRowView> {
    let end = if to < entries.len() {
        to
    } else {
        entries.len() as int
    };
    Seq::new(
        (if from < end {
            end - from
        } else {
            0
        }) as nat,
        |i: int| row_view(entries[from + i], modified, active, theme),
    )
}

impl Tree {
    /// The rows from `from` up to `to`, as they are drawn. `modified` are the
    /// files that git reports as changed, `active` is the open file.
    pub fn render_tree_rows(
        &self,
        from: usize,
        to: usize,
        modified: &Vec<String>,
        active: Option<&str>,
        theme: &Theme,
    ) -> (rows: Vec<TreeRow>)
        ensures
            rows.deep_view() == rows_view(
                self@.entries,
                from as int,
                to as int,
                modified.deep_view(),
                match active {
                    Some(path) => Some(path@),
                    None => None,
                },
                *theme,
            ),
    {
        let ghost open = match active {
            Some(path) => Some(path@),
            None => None,
        };
        let ghost all = rows_view(
            self@.entries,
            from as int,
            to as int,
            modified.deep_view(),
            open,
            *theme,
        );
        let end: usize = if to < self.entries.len() {
            to
        } else {
            self.entries.len()
        };
        let mut rows: Vec<TreeRow> = Vec::new();
        let mut i: usize = from;
        assert(rows.deep_view() =~= all.take(0));
        while i < end
            invariant
                from <= i,
                i <= end || from >= end,
                i == from || i <= end,
                end <= self.entries.len(),
                all.len() == (if from < end {
                    end - from
                } else {
                    0
                }),
                open == (match active {
                    Some(path) => Some(path@),
                    None => None,
                }),
                forall|k: int|
                    0 <= k < all.len() ==> #[trigger] all[k] == row_view(
                        self@.entries[from + k],
                        modified.deep_view(),
                        open,
                        *theme,
                    ),
                rows.deep_view() == all.take(i - from),
            decreases end - i,
        {
            let ghost gathered = rows.deep_view();
            assert(self@.entries[i as int] == self.entries[i as int].deep_view());
            rows.push(row_of(&self.entries[i], modified, active, theme));
            assert(rows.deep_view() =~= gathered.push(all[i - from]));
            assert(all.take(i + 1 - from) =~= gathered.push(all[i - from]));
            i += 1;
        }
        assert(rows.deep_view() =~= all);
        rows
    }

    /// The row at `index`.
    pub fn entry(&self, index: usize) -> (entry: Option<&Entry>)
        ensures
            match entry {
                Some(found) => index < self@.entries.len() && found.deep_view()
                    == self@.entries[index as int],
                None => index >= self@.entries.len(),
            },
    {
        if index < self.entries.len() {
            Some(&self.entries[index])
        } else {
            None
        }
    }
}

/// A file that git reports as changed shows it twice: by its colour and by a
/// mark that does not need one.
pub proof fn law_change_is_not_told_by_colour_alone(
    entry: EntryView,
    modified: Seq<Seq<char>>,
    active: Option<Seq<char>>,
    theme: Theme,
)
    ensures
        row_view(entry, modified, active, theme).mark is Some <==> lists_path(
            modified,
            entry.path,
        ),
{
}

/// A row stands for its entry: its name, indented by its depth, with a chevron
/// and a folder's icon that say whether it is open, and it takes what is dropped
/// on it exactly where it is a directory.
pub proof fn law_row_stands_for_its_entry(
    entry: EntryView,
    modified: Seq<Seq<char>>,
    active: Option<Seq<char>>,
    theme: Theme,
)
    ensures
        ({
            let row = row_view(entry, modified, active, theme);
            &&& row.name == entry.name
            &&& entry.depth == 0 ==> row.indent == 8
            &&& row.accepts_drop == entry.is_dir
            &&& !entry.is_dir ==> row.chevron is None && row.icon is OfFile
            &&& entry.is_dir && entry.expanded ==> row.chevron == Some(Chevron::Down)
                && row.icon is FolderOpened
            &&& entry.is_dir && !entry.expanded ==> row.chevron == Some(Chevron::Right)
                && row.icon is Folder
        }),
{
}

/// Each step down indents a row by as much again.
pub proof fn law_deeper_rows_are_indented(
    outer: EntryView,
    inner: EntryView,
    modified: Seq<Seq<char>>,
    active: Option<Seq<char>>,
    theme: Theme,
)
    requires
        inner.depth == outer.depth + 1,
        8 + 12 * inner.depth <= u64::MAX,
    ensures
        row_view(inner, modified, active, theme).indent == row_view(
            outer,
            modified,
            active,
            theme,
        ).indent + 12,
{
}

/// The row of the file in front of the user is the one with the background, and
/// a changed file's row has the colour of a change.
pub proof fn law_row_shows_the_open_and_the_changed(
    entry: EntryView,
    modified: Seq<Seq<char>>,
    active: Option<Seq<char>>,
    theme: Theme,
)
    ensures
        ({
            let row = row_view(entry, modified, active, theme);
            let open = active is Some && paths::components(active->0) == paths::components(
                entry.path,
            );
            let changed = exists|i: int|
                0 <= i < modified.len() && paths::components(#[trigger] modified[i])
                    == paths::components(entry.path);
            &&& open ==> row.background == Some(theme.selection)
            &&& !open ==> row.background is None
            &&& changed ==> row.color == theme.modified && row.mark == Some(theme.modified)
            &&& !changed ==> row.mark is None
            &&& !changed && (entry.is_dir || open) ==> row.color == theme.text
            &&& !changed && !entry.is_dir && !open ==> row.color == theme.text_muted
        }),
{
    assert forall|i: int| 0 <= i < modified.len() implies paths::same_path(
        #[trigger] modified[i],
        entry.path,
    ) == (paths::components(modified[i]) == paths::components(entry.path)) by {}
}

/// The rows that are drawn are those of the range, each of its own entry.
pub proof fn law_rows_are_those_of_the_range(
    entries: Seq<EntryView>,
    from: int,
    to: int,
    modified: Seq<Seq<char>>,
    active: Option<Seq<char>>,
    theme: Theme,
    i: int,
)
    requires
        0 <= from <= to <= entries.len(),
    ensures
        rows_view(entries, from, to, modified, active, theme).len() == to - from,
        from <= i < to ==> rows_view(entries, from, to, modified, active, theme)[i - from]
            == row_view(entries[i], modified, active, theme),
{
}

} // verus!

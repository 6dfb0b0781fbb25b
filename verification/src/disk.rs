//! Questions about paths whose answers depend on what is on disk.
//!
//! The disk is read elsewhere, and what it said arrives as a [`Disk`]; the
//! answers here follow from that alone.

use vstd::prelude::*;
use vstd::string::*;

use crate::paths;
use crate::paths::{are_same_path, is_below, join_path, name_of, parent_of};
use crate::text::owned;

verus! {

broadcast use vstd::seq::group_seq_axioms;

/// What the disk was seen to say.
pub struct Disk {
    /// The paths at which something exists.
    pub existing: Vec<String>,
    /// The paths at which there is a file.
    pub files: Vec<String>,
    /// Spellings that resolve, each with the path it resolves to.
    pub resolved: Vec<(String, String)>,
}

/// The first resolution listed for `path`.
pub open spec fn resolution(listed: Seq<(Seq<char>, Seq<char>)>, path: Seq<char>) -> Option<
    Seq<char>,
>
    decreases listed.len(),
{
    if listed.len() == 0 {
        None
    } else if paths::same_path(listed[0].0, path) {
        Some(listed[0].1)
    } else {
        resolution(listed.skip(1), path)
    }
}

impl Disk {
    /// Whether something exists at `path`.
    pub open spec fn holds(&self, path: Seq<char>) -> bool {
        exists|i: int|
            0 <= i < self.existing.len() && paths::same_path(#[trigger] self.existing[i]@, path)
    }

    /// Whether there is a file at `path`.
    pub open spec fn is_file(&self, path: Seq<char>) -> bool {
        exists|i: int| 0 <= i < self.files.len() && paths::same_path(#[trigger] self.files[i]@, path)
    }

    /// The path that `path` resolves to, symbolic links followed.
    pub open spec fn resolves_to(&self, path: Seq<char>) -> Option<Seq<char>> {
        resolution(self.resolved.deep_view(), path)
    }

    /// As much of `path` as resolves, resolved, with the rest put back.
    pub open spec fn real_prefix(&self, path: Seq<char>) -> Seq<char>
        decreases paths::components(path).len(),
    {
        match self.resolves_to(path) {
            Some(found) => found,
            None => match (paths::parent(path), paths::file_name(path)) {
                (Some(up), Some(name)) => {
                    proof {
                        paths::lemma_parent(path);
                    }
                    paths::join(self.real_prefix(up), name)
                },
                _ => path,
            },
        }
    }

    /// Whether `path` is `ancestor` or sits inside it, whichever way the two
    /// are spelled.
    pub open spec fn under(&self, path: Seq<char>, ancestor: Seq<char>) -> bool {
        ||| paths::below(path, ancestor)
        ||| match (paths::parent(ancestor), paths::file_name(ancestor)) {
            (Some(up), Some(name)) => match self.resolves_to(up) {
                Some(real_up) => paths::below(self.real_prefix(path), paths::join(real_up, name)),
                None => false,
            },
            _ => false,
        }
    }

    /// Whether `dir` holds a file that marks a project's root.
    pub open spec fn marks_root(&self, dir: Seq<char>) -> bool {
        ||| self.holds(paths::join(dir, "composer.json"@))
        ||| self.holds(paths::join(dir, ".git"@))
    }

    /// The nearest directory, going up from `dir`, that marks a root.
    pub open spec fn nearest_root(&self, dir: Seq<char>) -> Option<Seq<char>>
        decreases paths::components(dir).len(),
    {
        if self.marks_root(dir) {
            Some(dir)
        } else {
            match paths::parent(dir) {
                Some(up) => {
                    proof {
                        paths::lemma_parent(dir);
                    }
                    self.nearest_root(up)
                },
                None => None,
            }
        }
    }

    /// The project that a file belongs to: the nearest marked directory above
    /// it, else the directory it is in.
    pub open spec fn project_root(&self, path: Seq<char>) -> Option<Seq<char>> {
        match paths::parent(path) {
            Some(start) => Some(
                match self.nearest_root(start) {
                    Some(root) => root,
                    None => start,
                },
            ),
            None => None,
        }
    }

    /// Whether there is a file at `path`.
    pub fn has_file(&self, path: &str) -> (held: bool)
        ensures
            held == self.is_file(path@),
    {
        let mut i: usize = 0;
        while i < self.files.len()
            invariant
                i <= self.files.len(),
                forall|k: int| 0 <= k < i ==> !paths::same_path(#[trigger] self.files[k]@, path@),
            decreases self.files.len() - i,
        {
            if are_same_path(self.files[i].as_str(), path) {
                return true;
            }
            i += 1;
        }
        false
    }

    /// Whether something exists at `path`.
    pub fn has(&self, path: &str) -> (held: bool)
        ensures
            held == self.holds(path@),
    {
        let mut i: usize = 0;
        while i < self.existing.len()
            invariant
                i <= self.existing.len(),
                forall|k: int|
                    0 <= k < i ==> !paths::same_path(#[trigger] self.existing[k]@, path@),
            decreases self.existing.len() - i,
        {
            if are_same_path(self.existing[i].as_str(), path) {
                return true;
            }
            i += 1;
        }
        false
    }

    /// The path that `path` resolves to.
    pub fn canonicalize(&self, path: &str) -> (found: Option<String>)
        ensures
            found.deep_view() == self.resolves_to(path@),
    {
        let ghost listed = self.resolved.deep_view();
        let mut i: usize = 0;
        assert(listed.skip(0) == listed);
        while i < self.resolved.len()
            invariant
                i <= self.resolved.len(),
                listed == self.resolved.deep_view(),
                resolution(listed.skip(i as int), path@) == resolution(listed, path@),
            decreases self.resolved.len() - i,
        {
            let ghost rest = listed.skip(i as int);
            assert(rest[0] == (self.resolved[i as int].0@, self.resolved[i as int].1@));
            if are_same_path(self.resolved[i].0.as_str(), path) {
                return Some(self.resolved[i].1.clone());
            }
            assert(rest.skip(1) == listed.skip(i + 1));
            i += 1;
        }
        None
    }
}

/// Canonicalises as much of `path` as still exists.
///
/// A deleted file's own path does not resolve, so this resolves the deepest
/// ancestor that does and puts the rest back.
pub fn canonical_prefix(path: &str, disk: &Disk) -> (resolved: String)
    ensures
        resolved@ == disk.real_prefix(path@),
    decreases paths::components(path@).len(),
{
    match disk.canonicalize(path) {
        Some(found) => found,
        None => {
            match (parent_of(path), name_of(path)) {
                (Some(up), Some(name)) => {
                    proof {
                        paths::lemma_parent(path@);
                    }
                    let front = canonical_prefix(up.as_str(), disk);
                    join_path(front.as_str(), name.as_str())
                },
                _ => owned(path),
            }
        },
    }
}

/// Whether `path` is `ancestor` or sits inside it.
///
/// The two may be spelled differently, one through a symbolic link and one
/// not, so a literal comparison that fails is tried again on what resolves.
/// The ancestor may be gone already: only its parent has to resolve.
pub fn is_under(path: &str, ancestor: &str, disk: &Disk) -> (held: bool)
    ensures
        held == disk.under(path@, ancestor@),
{
    if is_below(path, ancestor) {
        return true;
    }
    match (parent_of(ancestor), name_of(ancestor)) {
        (Some(up), Some(name)) => match disk.canonicalize(up.as_str()) {
            Some(real_up) => {
                let real_path = canonical_prefix(path, disk);
                let real_ancestor = join_path(real_up.as_str(), name.as_str());
                is_below(real_path.as_str(), real_ancestor.as_str())
            },
            None => false,
        },
        _ => false,
    }
}

/// The last component of a path, for a message the user reads; the whole path
/// where it has none.
pub fn file_name_of(path: &str) -> (name: String)
    ensures
        name@ == (match paths::file_name(path@) {
            Some(last) => last,
            None => path@,
        }),
{
    match name_of(path) {
        Some(last) => last,
        None => owned(path),
    }
}

/// The project root for a file opened without a folder: the nearest directory
/// above it that holds `composer.json` or `.git`, else its own directory.
/// `None` when the path has no parent.
pub fn project_root_for(path: &str, disk: &Disk) -> (root: Option<String>)
    ensures
        root.deep_view() == disk.project_root(path@),
{
    let start = match parent_of(path) {
        Some(start) => start,
        None => return None,
    };
    let mut dir = start.clone();
    loop
        invariant
            disk.nearest_root(dir@) == disk.nearest_root(start@),
            paths::parent(path@) == Some(start@),
        decreases paths::components(dir@).len(),
    {
        if disk.has(join_path(dir.as_str(), "composer.json").as_str()) || disk.has(
            join_path(dir.as_str(), ".git").as_str(),
        ) {
            return Some(dir);
        }
        match parent_of(dir.as_str()) {
            Some(up) => {
                proof {
                    paths::lemma_parent(dir@);
                }
                dir = up;
            },
            None => return Some(start),
        }
    }
}

/// A path is under itself, whatever the disk says.
pub proof fn law_under_itself(disk: Disk, path: Seq<char>)
    ensures
        disk.under(path, path),
{
    let parts = paths::components(path);
    assert(parts.subrange(0, parts.len() as int) == parts);
}

/// Going up from `dir` to a marked root only ever drops components, and
/// passes no marked directory on the way.
pub proof fn law_nearest_root(disk: Disk, dir: Seq<char>)
    requires
        disk.nearest_root(dir) is Some,
    ensures
        disk.marks_root(disk.nearest_root(dir)->0),
        paths::below(dir, disk.nearest_root(dir)->0),
        disk.nearest_root(dir)->0 != dir ==> !disk.marks_root(dir),
    decreases paths::components(dir).len(),
{
    let parts = paths::components(dir);
    if disk.marks_root(dir) {
        assert(parts.subrange(0, parts.len() as int) == parts);
    } else {
        paths::lemma_parent(dir);
        let up = paths::parent(dir)->0;
        law_nearest_root(disk, up);
        let root = paths::components(disk.nearest_root(up)->0);
        assert(parts.subrange(0, root.len() as int) == paths::components(up).subrange(
            0,
            root.len() as int,
        ));
    }
}

/// A file lies below the project root found for it.
pub proof fn law_project_root_holds_file(disk: Disk, path: Seq<char>)
    requires
        disk.project_root(path) is Some,
    ensures
        paths::below(path, disk.project_root(path)->0),
{
    let start = paths::parent(path)->0;
    let parts = paths::components(path);
    paths::lemma_parent(path);
    if disk.nearest_root(start) is Some {
        law_nearest_root(disk, start);
    } else {
        let own = paths::components(start);
        assert(own.subrange(0, own.len() as int) == own);
    }
    let root = paths::components(disk.project_root(path)->0);
    assert(parts.subrange(0, root.len() as int) == paths::components(start).subrange(
        0,
        root.len() as int,
    ));
}

/// A path resolves to what the first entry for it says, and to nothing exactly
/// where there is no entry.
pub proof fn law_first_resolution_counts(
    listed: Seq<(Seq<char>, Seq<char>)>,
    path: Seq<char>,
)
    ensures
        resolution(listed, path) matches Some(found) ==> exists|i: int|
            0 <= i < listed.len() && paths::same_path((#[trigger] listed[i]).0, path)
                && listed[i].1 == found && forall|j: int|
                0 <= j < i ==> !paths::same_path((#[trigger] listed[j]).0, path),
        resolution(listed, path) is None ==> forall|i: int|
            0 <= i < listed.len() ==> !paths::same_path((#[trigger] listed[i]).0, path),
    decreases listed.len(),
{
    if listed.len() > 0 {
        if paths::same_path(listed[0].0, path) {
            assert(resolution(listed, path) == Some(listed[0].1));
        } else {
            let rest = listed.skip(1);
            law_first_resolution_counts(rest, path);
            if let Some(found) = resolution(rest, path) {
                let i = choose|i: int|
                    0 <= i < rest.len() && paths::same_path((#[trigger] rest[i]).0, path)
                        && rest[i].1 == found && forall|j: int|
                        0 <= j < i ==> !paths::same_path((#[trigger] rest[j]).0, path);
                assert(listed[i + 1] == rest[i]);
                assert forall|j: int| 0 <= j < i + 1 implies !paths::same_path(
                    (#[trigger] listed[j]).0,
                    path,
                ) by {
                    if j > 0 {
                        assert(rest[j - 1] == listed[j]);
                    }
                }
            } else {
                assert forall|i: int| 0 <= i < listed.len() implies !paths::same_path(
                    (#[trigger] listed[i]).0,
                    path,
                ) by {
                    if i > 0 {
                        assert(rest[i - 1] == listed[i]);
                    }
                }
            }
        }
    }
}

/// What is on disk is what was told of it, by the components of its path.
pub proof fn law_disk_holds_what_was_told(disk: Disk, path: Seq<char>, i: int)
    ensures
        0 <= i < disk.existing.len() && paths::components(disk.existing[i]@) == paths::components(
            path,
        ) ==> disk.holds(path),
        disk.holds(path) ==> exists|k: int|
            0 <= k < disk.existing.len() && paths::components(#[trigger] disk.existing[k]@)
                == paths::components(path),
        0 <= i < disk.files.len() && paths::components(disk.files[i]@) == paths::components(path)
            ==> disk.is_file(path),
        disk.is_file(path) ==> exists|k: int|
            0 <= k < disk.files.len() && paths::components(#[trigger] disk.files[k]@)
                == paths::components(path),
{
    if 0 <= i < disk.existing.len() && paths::components(disk.existing[i]@) == paths::components(
        path,
    ) {
        assert(paths::same_path(disk.existing[i]@, path));
    }
    if 0 <= i < disk.files.len() && paths::components(disk.files[i]@) == paths::components(path) {
        assert(paths::same_path(disk.files[i]@, path));
    }
    if disk.holds(path) {
        let k = choose|k: int|
            0 <= k < disk.existing.len() && paths::same_path(#[trigger] disk.existing[k]@, path);
        assert(paths::components(disk.existing[k]@) == paths::components(path));
    }
    if disk.is_file(path) {
        let k = choose|k: int|
            0 <= k < disk.files.len() && paths::same_path(#[trigger] disk.files[k]@, path);
        assert(paths::components(disk.files[k]@) == paths::components(path));
    }
}

/// The directory some steps above a path.
pub open spec fn above(path: Seq<char>, steps: nat) -> Option<Seq<char>>
    decreases steps,
{
    if steps == 0 {
        Some(path)
    } else {
        match above(path, (steps - 1) as nat) {
            Some(up) => paths::parent(up),
            None => None,
        }
    }
}

proof fn lemma_above(path: Seq<char>, steps: nat)
    requires
        paths::parent(path) is Some,
    ensures
        above(path, steps + 1) == above(paths::parent(path)->0, steps),
    decreases steps,
{
    reveal_with_fuel(above, 2);
    if steps > 0 {
        lemma_above(path, (steps - 1) as nat);
    }
}

/// A project's root is the nearest directory upward that is marked as one: no
/// directory on the way there is, and where none is marked there is no root.
pub proof fn law_root_is_the_nearest_marked(disk: Disk, dir: Seq<char>, steps: nat)
    ensures
        disk.nearest_root(dir) matches Some(root) ==> exists|n: nat|
            #[trigger] above(dir, n) == Some(root) && disk.marks_root(root) && forall|m: nat|
                m < n ==> (#[trigger] above(dir, m)) is Some && !disk.marks_root(above(dir, m)->0),
        disk.nearest_root(dir) is None ==> (above(dir, steps) matches Some(up)
            ==> !disk.marks_root(up)),
    decreases paths::components(dir).len(), steps,
{
    if disk.marks_root(dir) {
        assert(above(dir, 0) == Some(dir));
        assert(disk.nearest_root(dir) == Some(dir));
    } else if let Some(up) = paths::parent(dir) {
        paths::lemma_parent(dir);
        if steps > 0 {
            law_root_is_the_nearest_marked(disk, up, (steps - 1) as nat);
            lemma_above(dir, (steps - 1) as nat);
        } else {
            law_root_is_the_nearest_marked(disk, up, 0);
        }
        if let Some(root) = disk.nearest_root(up) {
            let n = choose|n: nat|
                #[trigger] above(up, n) == Some(root) && disk.marks_root(root) && forall|m: nat|
                    m < n ==> (#[trigger] above(up, m)) is Some && !disk.marks_root(
                        above(up, m)->0,
                    );
            lemma_above(dir, n);
            assert(above(dir, n + 1) == Some(root));
            assert forall|m: nat| m < n + 1 implies (#[trigger] above(dir, m)) is Some
                && !disk.marks_root(above(dir, m)->0) by {
                if m > 0 {
                    lemma_above(dir, (m - 1) as nat);
                    assert(above(up, (m - 1) as nat) is Some);
                }
            }
        }
    } else if steps > 0 {
        lemma_nothing_above(dir, steps);
    }
}

proof fn lemma_nothing_above(path: Seq<char>, steps: nat)
    requires
        paths::parent(path) is None,
        steps > 0,
    ensures
        above(path, steps) is None,
    decreases steps,
{
    reveal_with_fuel(above, 2);
    if steps > 1 {
        lemma_nothing_above(path, (steps - 1) as nat);
    }
}

/// A directory is marked as a root by a composer file or by a repository in it.
pub proof fn law_what_marks_a_root(disk: Disk, dir: Seq<char>)
    ensures
        disk.holds(paths::join(dir, "composer.json"@)) ==> disk.marks_root(dir),
        disk.holds(paths::join(dir, ".git"@)) ==> disk.marks_root(dir),
        !disk.holds(paths::join(dir, "composer.json"@)) && !disk.holds(paths::join(dir, ".git"@))
            ==> !disk.marks_root(dir),
{
}

/// A file's project begins at the nearest root above it, and in its own
/// directory where there is none.
pub proof fn law_project_begins_at_its_root(disk: Disk, path: Seq<char>)
    ensures
        paths::parent(path) is None ==> disk.project_root(path) is None,
        paths::parent(path) matches Some(dir) ==> {
            &&& disk.nearest_root(dir) is Some ==> disk.project_root(path) == disk.nearest_root(dir)
            &&& disk.nearest_root(dir) is None ==> disk.project_root(path) == Some(dir)
        },
{
}

/// A path that resolves is what it resolves to; otherwise its name stands below
/// what its directory is.
pub proof fn law_resolved_directory_counts(disk: Disk, path: Seq<char>)
    ensures
        disk.resolves_to(path) matches Some(found) ==> disk.real_prefix(path) == found,
        disk.resolves_to(path) is None && paths::parent(path) is Some && paths::file_name(
            path,
        ) is Some && disk.resolves_to(paths::parent(path)->0) is Some ==> disk.real_prefix(path)
            == paths::join(
            disk.resolves_to(paths::parent(path)->0)->0,
            paths::file_name(path)->0,
        ),
{
    reveal_with_fuel(Disk::real_prefix, 2);
}

/// A path is under another where it is below it as written, or where what it
/// really is lies below what the other really is.
pub proof fn law_under_is_by_what_is_real(disk: Disk, path: Seq<char>, ancestor: Seq<char>)
    ensures
        paths::below(path, ancestor) ==> disk.under(path, ancestor),
        !paths::below(path, ancestor) ==> {
            &&& paths::parent(ancestor) is None || paths::file_name(ancestor) is None
                ==> !disk.under(path, ancestor)
            &&& paths::parent(ancestor) matches Some(up) ==> paths::file_name(
                ancestor,
            ) matches Some(name) ==> {
                &&& disk.resolves_to(up) is None ==> !disk.under(path, ancestor)
                &&& disk.resolves_to(up) matches Some(found) ==> disk.under(path, ancestor)
                    == paths::below(disk.real_prefix(path), paths::join(found, name))
            }
        },
{
}

} // verus!

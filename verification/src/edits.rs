//! Applying a language server's edit to many files: all of them or none.
//!
//! Everything is planned first, and anything that does not fit refuses the
//! whole edit before a byte has changed. Only a complete plan is carried out.

use vstd::prelude::*;
use vstd::string::*;

use crate::disk::Disk;
use crate::paths;
use crate::paths::are_same_path;
use crate::tabs::Tab;
use crate::text;
use crate::text::{decimal_text, join2, join3, owned};

verus! {

broadcast use vstd::seq::group_seq_axioms;

/// One replacement: the bytes `start..end` of a text give way to `new_text`.
pub struct ByteEdit {
    pub start: usize,
    pub end: usize,
    pub new_text: String,
}

impl Clone for ByteEdit {
    fn clone(&self) -> (copy: Self)
        ensures
            copy == *self,
    {
        ByteEdit { start: self.start, end: self.end, new_text: self.new_text.clone() }
    }
}

/// What a closed file would read after its edits.
pub enum DiskText {
    /// The file could not be read.
    Unreadable,
    /// Two of its edits overlap.
    Overlapping,
    /// The text to write.
    Rewritten(String),
}

/// The edits for one file.
pub struct FileChange {
    pub path: String,
    /// The edits as byte ranges into the open buffer, for a file that is open.
    pub byte_edits: Vec<ByteEdit>,
    /// The new text, for a file that is not.
    pub on_disk: DiskText,
}

/// One step of a plan that fits as a whole.
pub enum Planned {
    /// Apply these edits to the buffer of this tab.
    Buffer { tab: usize, edits: Vec<ByteEdit>, path: String },
    /// Write this text to this file.
    Disk { path: String, text: String },
}

/// Why an edit was not applied.
pub enum EditError {
    /// It creates, renames or deletes files.
    FileOperations,
    Overlapping(String),
    Unreadable(String),
    Unwritable(String),
}

impl EditError {
    /// The sentence for the status bar.
    pub open spec fn text(&self) -> Seq<char> {
        match self {
            EditError::FileOperations =>
                "the edit includes file operations this editor does not apply"@,
            EditError::Overlapping(path) => "overlapping edits in "@ + path@,
            EditError::Unreadable(path) => "could not read "@ + path@,
            EditError::Unwritable(path) => "could not write "@ + path@,
        }
    }

    /// The sentence for the status bar.
    pub fn message(&self) -> (message: String)
        ensures
            message@ == self.text(),
    {
        match self {
            EditError::FileOperations => owned(
                "the edit includes file operations this editor does not apply",
            ),
            EditError::Overlapping(path) => join2("overlapping edits in ", path.as_str()),
            EditError::Unreadable(path) => join2("could not read ", path.as_str()),
            EditError::Unwritable(path) => join2("could not write ", path.as_str()),
        }
    }
}

// ---------------------------------------------------------------------------
// Ordering the edits of one buffer
// ---------------------------------------------------------------------------

/// Edits are ordered by where they start, then by where they end.
pub open spec fn not_after(a: ByteEdit, b: ByteEdit) -> bool {
    a.start < b.start || (a.start == b.start && a.end <= b.end)
}

/// `edit` put into `ordered`, behind every edit that it does not precede.
pub open spec fn placed(ordered: Seq<ByteEdit>, edit: ByteEdit) -> Seq<ByteEdit>
    decreases ordered.len(),
{
    if ordered.len() == 0 || not_after(ordered.last(), edit) {
        ordered.push(edit)
    } else {
        placed(ordered.drop_last(), edit).push(ordered.last())
    }
}

/// The edits in order; those at one place keep the order they came in.
pub open spec fn in_order(edits: Seq<ByteEdit>) -> Seq<ByteEdit>
    decreases edits.len(),
{
    if edits.len() == 0 {
        edits
    } else {
        placed(in_order(edits.drop_last()), edits.last())
    }
}

/// Whether the edit at `i` reaches into the one behind it.
pub open spec fn reaches_next(ordered: Seq<ByteEdit>, i: int) -> bool {
    ordered[i].end > ordered[i + 1].start
}

/// Whether any edit reaches into the one behind it.
pub open spec fn overlapping(ordered: Seq<ByteEdit>) -> bool {
    exists|i: int| 0 <= i < ordered.len() - 1 && #[trigger] reaches_next(ordered, i)
}

/// Where `placed` puts the edit.
proof fn lemma_placed(ordered: Seq<ByteEdit>, edit: ByteEdit, at: int)
    requires
        0 <= at <= ordered.len(),
        at > 0 ==> not_after(ordered[at - 1], edit),
        forall|i: int| at <= i < ordered.len() ==> !not_after(#[trigger] ordered[i], edit),
    ensures
        placed(ordered, edit) == ordered.insert(at, edit),
    decreases ordered.len(),
{
    if at == ordered.len() {
        assert(ordered.insert(at, edit) =~= ordered.push(edit));
    } else {
        let shorter = ordered.drop_last();
        assert(!not_after(ordered[ordered.len() - 1], edit));
        lemma_placed(shorter, edit, at);
        assert(ordered.insert(at, edit) =~= shorter.insert(at, edit).push(ordered.last()));
    }
}

/// The edits in order; those at one place keep the order they came in.
pub fn sort_edits(edits: &Vec<ByteEdit>) -> (ordered: Vec<ByteEdit>)
    ensures
        ordered@ == in_order(edits@),
{
    let mut ordered: Vec<ByteEdit> = Vec::new();
    let mut i: usize = 0;
    assert(edits@.take(0) =~= Seq::<ByteEdit>::empty());
    assert(ordered@ =~= in_order(edits@.take(0)));
    while i < edits.len()
        invariant
            i <= edits.len(),
            ordered@ == in_order(edits@.take(i as int)),
            ordered.len() == i,
        decreases edits.len() - i,
    {
        let edit = edits[i].clone();
        let mut at: usize = ordered.len();
        while at > 0 && (ordered[at - 1].start > edit.start || (ordered[at - 1].start == edit.start
            && ordered[at - 1].end > edit.end))
            invariant
                at <= ordered.len(),
                forall|k: int| at <= k < ordered.len() ==> !not_after(#[trigger] ordered[k], edit),
            decreases at,
        {
            at -= 1;
        }
        proof {
            lemma_placed(ordered@, edit, at as int);
            assert(edits@.take(i + 1).drop_last() =~= edits@.take(i as int));
            assert(edits@.take(i + 1).last() == edits@[i as int]);
        }
        ordered.insert(at, edit);
        i += 1;
    }
    assert(edits@.take(i as int) =~= edits@);
    ordered
}

/// Whether an edit reaches into the one behind it.
pub fn any_overlap(ordered: &Vec<ByteEdit>) -> (held: bool)
    ensures
        held == overlapping(ordered@),
{
    let mut i: usize = 0;
    while i < ordered.len() && i + 1 < ordered.len()
        invariant
            i <= ordered.len(),
            forall|k: int|
                0 <= k < i && k < ordered.len() - 1 ==> !#[trigger] reaches_next(ordered@, k),
        decreases ordered.len() - i,
    {
        if ordered[i].end > ordered[i + 1].start {
            assert(reaches_next(ordered@, i as int));
            return true;
        }
        i += 1;
    }
    false
}

/// Putting an edit in its place keeps an ordered row ordered.
proof fn lemma_placed_ordered(ordered: Seq<ByteEdit>, edit: ByteEdit)
    requires
        forall|i: int, j: int|
            0 <= i <= j < ordered.len() ==> not_after(#[trigger] ordered[i], #[trigger] ordered[j]),
    ensures
        forall|i: int, j: int|
            0 <= i <= j < placed(ordered, edit).len() ==> not_after(
                #[trigger] placed(ordered, edit)[i],
                #[trigger] placed(ordered, edit)[j],
            ),
        forall|i: int|
            0 <= i < placed(ordered, edit).len() ==> (#[trigger] placed(ordered, edit)[i] == edit
                || exists|k: int| 0 <= k < ordered.len() && ordered[k] == placed(ordered, edit)[i]),
        placed(ordered, edit).to_multiset() == ordered.to_multiset().insert(edit),
    decreases ordered.len(),
{
    broadcast use vstd::seq_lib::group_to_multiset_ensures;

    let result = placed(ordered, edit);
    if ordered.len() == 0 || not_after(ordered.last(), edit) {
        assert forall|i: int, j: int| 0 <= i <= j < result.len() implies not_after(
            #[trigger] result[i],
            #[trigger] result[j],
        ) by {
            if j == ordered.len() && i < j {
                assert(not_after(ordered[i], ordered[ordered.len() - 1]));
            }
        }
        assert forall|i: int| 0 <= i < result.len() implies (#[trigger] result[i] == edit || exists|
            k: int,
        |
            0 <= k < ordered.len() && ordered[k] == result[i]) by {
            if i < ordered.len() {
                assert(ordered[i] == result[i]);
            }
        }
    } else {
        let shorter = ordered.drop_last();
        lemma_placed_ordered(shorter, edit);
        let front = placed(shorter, edit);
        assert(result == front.push(ordered.last()));
        assert forall|i: int, j: int| 0 <= i <= j < result.len() implies not_after(
            #[trigger] result[i],
            #[trigger] result[j],
        ) by {
            if j == front.len() && i < j {
                assert(result[i] == front[i]);
                if front[i] != edit {
                    let k = choose|k: int| 0 <= k < shorter.len() && shorter[k] == front[i];
                    assert(not_after(ordered[k], ordered[ordered.len() - 1]));
                }
            } else if j < front.len() {
                assert(not_after(front[i], front[j]));
            }
        }
        assert forall|i: int| 0 <= i < result.len() implies (#[trigger] result[i] == edit || exists|
            k: int,
        |
            0 <= k < ordered.len() && ordered[k] == result[i]) by {
            if i < front.len() {
                assert(result[i] == front[i]);
                if front[i] != edit {
                    let k = choose|k: int| 0 <= k < shorter.len() && shorter[k] == front[i];
                    assert(ordered[k] == result[i]);
                }
            } else {
                assert(ordered[ordered.len() - 1] == result[i]);
            }
        }
        assert(ordered == shorter.push(ordered.last()));
        assert(result.to_multiset() =~= front.to_multiset().insert(ordered.last()));
        assert(ordered.to_multiset() =~= shorter.to_multiset().insert(ordered.last()));
        assert(result.to_multiset() =~= ordered.to_multiset().insert(edit));
    }
}

/// Ordering edits neither loses, adds nor changes one, and leaves each not
/// after the next.
pub proof fn law_in_order(edits: Seq<ByteEdit>)
    ensures
        forall|i: int, j: int|
            0 <= i <= j < in_order(edits).len() ==> not_after(
                #[trigger] in_order(edits)[i],
                #[trigger] in_order(edits)[j],
            ),
        in_order(edits).to_multiset() == edits.to_multiset(),
    decreases edits.len(),
{
    broadcast use vstd::seq_lib::group_to_multiset_ensures;

    if edits.len() > 0 {
        law_in_order(edits.drop_last());
        lemma_placed_ordered(in_order(edits.drop_last()), edits.last());
        assert(edits == edits.drop_last().push(edits.last()));
    }
}

/// Every edit in order is one of the edits.
proof fn lemma_ordered_member(edits: Seq<ByteEdit>, i: int)
    requires
        0 <= i < in_order(edits).len(),
    ensures
        exists|k: int| 0 <= k < edits.len() && edits[k] == in_order(edits)[i],
{
    broadcast use vstd::seq_lib::group_to_multiset_ensures;

    law_in_order(edits);
    let edit = in_order(edits)[i];
    assert(in_order(edits).contains(edit));
    assert(edits.to_multiset().count(edit) > 0);
    assert(edits.contains(edit));
}

/// Of edits that are accepted for a buffer, no two touch the same byte: each
/// ends before, or where, every later one starts.
pub proof fn law_accepted_edits_are_disjoint(edits: Seq<ByteEdit>, i: int, j: int)
    requires
        forall|k: int| 0 <= k < edits.len() ==> (#[trigger] edits[k]).start <= edits[k].end,
        !overlapping(in_order(edits)),
        0 <= i < j < in_order(edits).len(),
    ensures
        in_order(edits)[i].end <= in_order(edits)[j].start,
    decreases j - i,
{
    let ordered = in_order(edits);
    assert(!reaches_next(ordered, i));
    if i + 1 < j {
        law_accepted_edits_are_disjoint(edits, i + 1, j);
        lemma_ordered_member(edits, i + 1);
    }
}

// ---------------------------------------------------------------------------
// Planning
// ---------------------------------------------------------------------------

/// Whether two resolutions are the same: both found one path. Paths that lead
/// nowhere have nothing in common.
pub open spec fn same_resolution(a: Option<Seq<char>>, b: Option<Seq<char>>) -> bool {
    match (a, b) {
        (Some(x), Some(y)) => paths::same_path(x, y),
        _ => false,
    }
}

/// Whether a tab shows the file at `path`, by its spelling or by what the
/// spellings resolve to.
pub open spec fn shows(tab: Tab, path: Seq<char>, disk: Disk) -> bool {
    match tab.path {
        Some(open) => paths::same_path(open@, path) || same_resolution(
            disk.resolves_to(open@),
            disk.resolves_to(path),
        ),
        None => false,
    }
}

/// The first tab, from `from` on, that shows `path`.
pub open spec fn open_tab(tabs: Seq<Tab>, path: Seq<char>, disk: Disk, from: int) -> Option<int>
    decreases tabs.len() - from,
{
    if from < 0 || from >= tabs.len() {
        None
    } else if shows(tabs[from], path, disk) {
        Some(from)
    } else {
        open_tab(tabs, path, disk, from + 1)
    }
}

/// Whether two resolutions are the same.
fn are_same_resolution(a: Option<String>, b: Option<String>) -> (held: bool)
    ensures
        held == same_resolution(a.deep_view(), b.deep_view()),
{
    match (a, b) {
        (Some(x), Some(y)) => are_same_path(x.as_str(), y.as_str()),
        _ => false,
    }
}

/// The first tab that shows the file at `path`.
pub fn find_open_tab(tabs: &Vec<Tab>, path: &str, disk: &Disk) -> (found: Option<usize>)
    ensures
        found is Some == open_tab(tabs@, path@, *disk, 0) is Some,
        found matches Some(tab) ==> tab < tabs.len() && tab == open_tab(tabs@, path@, *disk, 0)->0,
{
    let mut i: usize = 0;
    while i < tabs.len()
        invariant
            i <= tabs.len(),
            open_tab(tabs@, path@, *disk, i as int) == open_tab(tabs@, path@, *disk, 0),
        decreases tabs.len() - i,
    {
        if let Some(open) = &tabs[i].path {
            if are_same_path(open.as_str(), path) || are_same_resolution(
                disk.canonicalize(open.as_str()),
                disk.canonicalize(path),
            ) {
                return Some(i);
            }
        }
        i += 1;
    }
    None
}

/// Whether a change can be made: it is to an open buffer whose edits do not
/// overlap, or to a closed file that could be read and rewritten.
pub open spec fn fits(change: FileChange, tabs: Seq<Tab>, disk: Disk) -> bool {
    match open_tab(tabs, change.path@, disk, 0) {
        Some(_) => !overlapping(in_order(change.byte_edits@)),
        None => change.on_disk is Rewritten,
    }
}

/// Whether `planned` is the step that carries `change` out.
pub open spec fn carries_out(
    planned: Planned,
    change: FileChange,
    tabs: Seq<Tab>,
    disk: Disk,
) -> bool {
    match open_tab(tabs, change.path@, disk, 0) {
        Some(open) => {
            &&& planned matches Planned::Buffer { tab, edits, path }
            &&& tab == open
            &&& edits@ == in_order(change.byte_edits@)
            &&& path@ == change.path@
        },
        None => {
            &&& planned matches Planned::Disk { path, text }
            &&& path@ == change.path@
            &&& change.on_disk matches DiskText::Rewritten(new_text) && text@ == new_text@
        },
    }
}

/// Whether `error` says what is wrong with a change that does not fit.
pub open spec fn explains(
    error: EditError,
    change: FileChange,
    tabs: Seq<Tab>,
    disk: Disk,
) -> bool {
    match open_tab(tabs, change.path@, disk, 0) {
        Some(_) => error matches EditError::Overlapping(path) && path@ == change.path@,
        None => match change.on_disk {
            DiskText::Unreadable => error matches EditError::Unreadable(path) && path@
                == change.path@,
            _ => error matches EditError::Overlapping(path) && path@ == change.path@,
        },
    }
}

/// How many changes fit before the first that does not.
pub open spec fn fitting(changes: Seq<FileChange>, tabs: Seq<Tab>, disk: Disk) -> nat
    decreases changes.len(),
{
    if changes.len() == 0 || !fits(changes[0], tabs, disk) {
        0
    } else {
        1 + fitting(changes.skip(1), tabs, disk)
    }
}

proof fn lemma_fitting(changes: Seq<FileChange>, tabs: Seq<Tab>, disk: Disk, i: int)
    requires
        0 <= i <= changes.len(),
        forall|k: int| 0 <= k < i ==> fits(#[trigger] changes[k], tabs, disk),
        i < changes.len() ==> !fits(changes[i], tabs, disk),
    ensures
        fitting(changes, tabs, disk) == i,
    decreases changes.len(),
{
    if i > 0 {
        assert(fits(changes[0], tabs, disk));
        let rest = changes.skip(1);
        assert forall|k: int| 0 <= k < i - 1 implies fits(#[trigger] rest[k], tabs, disk) by {
            assert(rest[k] == changes[k + 1]);
        }
        lemma_fitting(rest, tabs, disk, i - 1);
    }
}

/// Plans one change.
fn plan_change(change: &FileChange, tabs: &Vec<Tab>, disk: &Disk) -> (planned: Result<
    Planned,
    EditError,
>)
    ensures
        planned is Ok == fits(*change, tabs@, *disk),
        planned matches Ok(step) ==> carries_out(step, *change, tabs@, *disk),
        planned matches Err(error) ==> explains(error, *change, tabs@, *disk),
{
    match find_open_tab(tabs, change.path.as_str(), disk) {
        Some(tab) => {
            let edits = sort_edits(&change.byte_edits);
            if any_overlap(&edits) {
                Err(EditError::Overlapping(change.path.clone()))
            } else {
                Ok(Planned::Buffer { tab, edits, path: change.path.clone() })
            }
        },
        None => match &change.on_disk {
            DiskText::Unreadable => Err(EditError::Unreadable(change.path.clone())),
            DiskText::Overlapping => Err(EditError::Overlapping(change.path.clone())),
            DiskText::Rewritten(text) => Ok(
                Planned::Disk { path: change.path.clone(), text: text.clone() },
            ),
        },
    }
}

/// Whether a plan is what an edit asks for: a step for each change, or the
/// reason why the first change that does not fit refuses it all.
pub open spec fn plans(
    changes: Option<&Vec<FileChange>>,
    tabs: Seq<Tab>,
    disk: Disk,
    plan: Result<Vec<Planned>, EditError>,
) -> bool {
    match changes {
        None => plan == Err::<Vec<Planned>, EditError>(EditError::FileOperations),
        Some(changes) => {
            let good = fitting(changes@, tabs, disk) as int;
            match plan {
                Ok(steps) => {
                    &&& good == changes.len()
                    &&& steps.len() == changes.len()
                    &&& forall|i: int|
                        0 <= i < steps.len() ==> carries_out(
                            #[trigger] steps[i],
                            changes[i],
                            tabs,
                            disk,
                        )
                },
                Err(error) => good < changes.len() && explains(error, changes[good], tabs, disk),
            }
        },
    }
}

/// Plans a whole edit, touching nothing. `None` for `changes` is an edit that
/// holds file operations. The first change that does not fit refuses it all.
pub fn plan_workspace_edit(changes: Option<&Vec<FileChange>>, tabs: &Vec<Tab>, disk: &Disk) -> (plan:
    Result<Vec<Planned>, EditError>)
    ensures
        plans(changes, tabs@, *disk, plan),
{
    let list = match changes {
        Some(list) => list,
        None => return Err(EditError::FileOperations),
    };
    let mut steps: Vec<Planned> = Vec::new();
    let mut i: usize = 0;
    while i < list.len()
        invariant
            changes == Some(list),
            i <= list.len(),
            steps.len() == i,
            forall|k: int| 0 <= k < i ==> fits(#[trigger] list[k], tabs@, *disk),
            forall|k: int|
                0 <= k < i ==> carries_out(#[trigger] steps[k], list[k], tabs@, *disk),
        decreases list.len() - i,
    {
        match plan_change(&list[i], tabs, disk) {
            Ok(step) => steps.push(step),
            Err(error) => {
                proof {
                    lemma_fitting(list@, tabs@, *disk, i as int);
                }
                return Err(error);
            },
        }
        i += 1;
    }
    proof {
        lemma_fitting(list@, tabs@, *disk, i as int);
    }
    Ok(steps)
}

/// What to do next about a plan.
#[derive(Clone, Copy, PartialEq, Eq, Structural, Debug)]
pub enum NextStep {
    /// Carry out the step at this place.
    CarryOut(usize),
    /// There is nothing left to do: every step was carried out, or the write at
    /// that place failed.
    Stop(Option<usize>),
}

/// What to do about a plan of `len` steps once the first `done` of them were
/// carried out, and `failed` says whether the one behind them was tried and
/// failed.
pub open spec fn step_after(len: nat, done: nat, failed: bool) -> NextStep {
    if failed {
        NextStep::Stop(Some(done as usize))
    } else if done < len {
        NextStep::CarryOut(done as usize)
    } else {
        NextStep::Stop(None)
    }
}

/// What to do next about a plan: its steps are carried out in order, and none
/// of them once a write has failed.
pub fn next_step(plan: &Vec<Planned>, done: usize, failed: bool) -> (next: NextStep)
    ensures
        next == step_after(plan.len() as nat, done as nat, failed),
{
    if failed {
        NextStep::Stop(Some(done))
    } else if done < plan.len() {
        NextStep::CarryOut(done)
    } else {
        NextStep::Stop(None)
    }
}

/// The steps that are tried of a plan of `len` steps, from the `done`th on,
/// where `fails` says which of them would fail.
pub open spec fn tried(len: nat, done: nat, fails: Seq<bool>) -> Seq<usize>
    decreases len - done,
{
    match step_after(len, done, false) {
        NextStep::CarryOut(step) => if fails[done as int] {
            match step_after(len, done, true) {
                NextStep::CarryOut(_) => seq![step] + tried(len, done + 1, fails),
                NextStep::Stop(_) => seq![step],
            }
        } else {
            seq![step] + tried(len, done + 1, fails)
        },
        NextStep::Stop(_) => Seq::empty(),
    }
}

/// A plan is carried out in its order, each step once, and nothing is tried
/// behind a write that failed: what was tried is the plan up to its end, or up
/// to the first step that fails.
pub proof fn law_steps_run_in_order(len: nat, done: nat, fails: Seq<bool>)
    requires
        len <= usize::MAX,
        done <= len,
        fails.len() == len,
    ensures
        forall|i: int| 0 <= i < tried(len, done, fails).len() ==> #[trigger] tried(
            len,
            done,
            fails,
        )[i] == done + i,
        forall|i: int| done <= i < done + tried(len, done, fails).len() - 1 ==> !#[trigger] fails[i],
        done + tried(len, done, fails).len() <= len,
        done + tried(len, done, fails).len() < len ==> tried(len, done, fails).len() > 0 && fails[done
            + tried(len, done, fails).len() - 1],
    decreases len - done,
{
    let all = tried(len, done, fails);
    if done < len && !fails[done as int] {
        law_steps_run_in_order(len, done + 1, fails);
        let rest = tried(len, done + 1, fails);
        assert(all == seq![done as usize] + rest);
        assert forall|i: int| 0 <= i < all.len() implies #[trigger] all[i] == done + i by {
            if i > 0 {
                assert(all[i] == rest[i - 1]);
            }
        }
    } else if done < len {
        assert(all =~= seq![done as usize]);
    }
}

/// What carrying a plan out came to.
pub struct EditReport {
    /// Whether the working tree changed, so that its status is read again.
    pub refresh_git: bool,
    /// Whether the buffers that were edited save themselves now.
    pub autosave: bool,
    /// How many files changed, or why it stopped.
    pub files: Result<usize, EditError>,
}

/// Whether a plan writes to disk.
pub open spec fn writes(plan: Seq<Planned>) -> bool {
    exists|i: int| 0 <= i < plan.len() && (#[trigger] plan[i]) is Disk
}

/// Reports on a plan that was carried out up to its end, or up to the write
/// that failed.
pub fn finish_workspace_edit(plan: &Vec<Planned>, failed: Option<usize>) -> (report: EditReport)
    requires
        failed matches Some(step) ==> step < plan.len() && plan[step as int] is Disk,
    ensures
        match failed {
            None => {
                &&& report.files == Ok::<usize, EditError>(plan.len())
                &&& report.refresh_git == writes(plan@)
                &&& report.autosave
            },
            Some(step) => {
                &&& !report.refresh_git
                &&& !report.autosave
                &&& report.files matches Err(EditError::Unwritable(path))
                &&& plan[step as int] matches Planned::Disk { path: target, .. }
                &&& path@ == target@
            },
        },
{
    if let Some(step) = failed {
        let files = match &plan[step] {
            Planned::Disk { path, .. } => Err(EditError::Unwritable(path.clone())),
            Planned::Buffer { .. } => Ok(plan.len()),
        };
        return EditReport { refresh_git: false, autosave: false, files };
    }
    let mut i: usize = 0;
    let mut refresh_git: bool = false;
    while i < plan.len()
        invariant
            i <= plan.len(),
            refresh_git == exists|k: int| 0 <= k < i && (#[trigger] plan[k]) is Disk,
        decreases plan.len() - i,
    {
        if let Planned::Disk { .. } = &plan[i] {
            refresh_git = true;
        }
        i += 1;
    }
    EditReport { refresh_git, autosave: true, files: Ok(plan.len()) }
}

/// What the status bar says once the server answered a rename.
pub open spec fn rename_status_text(reply: Option<Result<usize, EditError>>) -> Seq<char> {
    match reply {
        None => "The server offered no rename here"@,
        Some(Ok(files)) => "Renamed in "@ + text::decimal(files as nat) + " file(s)"@,
        Some(Err(error)) => "Rename not applied: "@ + error.text(),
    }
}

/// What the status bar says once the server answered a rename: `None` is a
/// server that offered nothing.
pub fn rename_status(reply: &Option<Result<usize, EditError>>) -> (status: String)
    ensures
        status@ == rename_status_text(*reply),
{
    match reply {
        None => owned("The server offered no rename here"),
        Some(Ok(files)) => join3(
            "Renamed in ",
            decimal_text(*files as u64).as_str(),
            " file(s)",
        ),
        Some(Err(error)) => join2("Rename not applied: ", error.message().as_str()),
    }
}

/// An edit is planned whole or not at all: a plan exists exactly where every
/// change fits.
pub proof fn law_all_or_nothing(changes: Seq<FileChange>, tabs: Seq<Tab>, disk: Disk)
    ensures
        fitting(changes, tabs, disk) == changes.len() <==> forall|i: int|
            0 <= i < changes.len() ==> fits(#[trigger] changes[i], tabs, disk),
        fitting(changes, tabs, disk) <= changes.len(),
    decreases changes.len(),
{
    if changes.len() > 0 {
        let rest = changes.skip(1);
        law_all_or_nothing(rest, tabs, disk);
        if fits(changes[0], tabs, disk) && fitting(rest, tabs, disk) == rest.len() {
            assert forall|i: int| 0 <= i < changes.len() implies fits(
                #[trigger] changes[i],
                tabs,
                disk,
            ) by {
                if i > 0 {
                    assert(rest[i - 1] == changes[i]);
                }
            }
        }
        if forall|i: int| 0 <= i < changes.len() ==> fits(#[trigger] changes[i], tabs, disk) {
            assert(fits(changes[0], tabs, disk));
            assert forall|i: int| 0 <= i < rest.len() implies fits(
                #[trigger] rest[i],
                tabs,
                disk,
            ) by {
                assert(rest[i] == changes[i + 1]);
            }
        }
    }
}

/// A file that no tab shows and that cannot be read refuses the whole edit,
/// whatever else the edit holds: nothing is planned, so nothing changes.
pub proof fn law_unreadable_file_refuses_all(
    changes: &Vec<FileChange>,
    i: int,
    tabs: Seq<Tab>,
    disk: Disk,
    plan: Result<Vec<Planned>, EditError>,
)
    requires
        0 <= i < changes.len(),
        changes[i].on_disk is Unreadable,
        forall|k: int| 0 <= k < tabs.len() ==> !shows(#[trigger] tabs[k], changes[i].path@, disk),
        plans(Some(changes), tabs, disk, plan),
    ensures
        plan is Err,
{
    lemma_no_open_tab(tabs, changes[i].path@, disk, 0);
    law_all_or_nothing(changes@, tabs, disk);
    assert(!fits(changes@[i], tabs, disk));
}

/// A file that cannot be resolved is open only where a tab has its very path.
pub proof fn law_unresolved_file_is_open_by_its_path_alone(tab: Tab, path: Seq<char>, disk: Disk)
    requires
        disk.resolves_to(path) is None,
    ensures
        shows(tab, path, disk) == (tab.path is Some && paths::same_path(tab.path->0@, path)),
{
}

proof fn lemma_no_open_tab(tabs: Seq<Tab>, path: Seq<char>, disk: Disk, from: int)
    requires
        0 <= from <= tabs.len(),
        forall|k: int| from <= k < tabs.len() ==> !shows(#[trigger] tabs[k], path, disk),
    ensures
        open_tab(tabs, path, disk, from) is None,
    decreases tabs.len() - from,
{
    if from < tabs.len() {
        assert(!shows(tabs[from], path, disk));
        lemma_no_open_tab(tabs, path, disk, from + 1);
    }
}

/// The tab that an edit goes to is the first one that shows the file, and there
/// is none only where no tab shows it.
pub proof fn law_first_open_tab(tabs: Seq<Tab>, path: Seq<char>, disk: Disk, from: int)
    requires
        0 <= from,
    ensures
        match open_tab(tabs, path, disk, from) {
            Some(found) => {
                &&& from <= found < tabs.len()
                &&& shows(tabs[found], path, disk)
                &&& forall|k: int| from <= k < found ==> !shows(#[trigger] tabs[k], path, disk)
            },
            None => forall|k: int|
                from <= k < tabs.len() ==> !shows(#[trigger] tabs[k], path, disk),
        },
    decreases tabs.len() - from,
{
    if from < tabs.len() {
        law_first_open_tab(tabs, path, disk, from + 1);
    }
}

/// A tab shows a file whose path it has, and one that its own path leads to;
/// nothing else, and a buffer without a path shows none.
pub proof fn law_tab_shows_its_file(tab: Tab, path: Seq<char>, disk: Disk)
    ensures
        tab.path is None ==> !shows(tab, path, disk),
        tab.path is Some && paths::components(tab.path->0@) == paths::components(path) ==> shows(
            tab,
            path,
            disk,
        ),
        tab.path is Some && disk.resolves_to(tab.path->0@) is Some && disk.resolves_to(path) is Some
            && paths::components(disk.resolves_to(tab.path->0@)->0) == paths::components(
            disk.resolves_to(path)->0,
        ) ==> shows(tab, path, disk),
        shows(tab, path, disk) ==> tab.path is Some && (paths::components(tab.path->0@)
            == paths::components(path) || (disk.resolves_to(tab.path->0@) is Some
            && disk.resolves_to(path) is Some && paths::components(
            disk.resolves_to(tab.path->0@)->0,
        ) == paths::components(disk.resolves_to(path)->0))),
{
}

/// Each change of an edit is carried out where its file is: in the buffer of
/// the first tab that shows it, with all of its edits, and on disk only where no
/// tab does, with the text that was worked out for it.
pub proof fn law_open_files_are_edited_in_their_buffers(
    changes: &Vec<FileChange>,
    tabs: Seq<Tab>,
    disk: Disk,
    plan: Vec<Planned>,
    i: int,
)
    requires
        plans(Some(changes), tabs, disk, Ok(plan)),
        0 <= i < changes.len(),
    ensures
        plan.len() == changes.len(),
        (exists|k: int| 0 <= k < tabs.len() && shows(#[trigger] tabs[k], changes[i].path@, disk))
            ==> plan[i] is Buffer,
        (forall|k: int| 0 <= k < tabs.len() ==> !shows(#[trigger] tabs[k], changes[i].path@, disk))
            ==> plan[i] is Disk,
        plan[i] matches Planned::Buffer { tab, edits, path } ==> {
            &&& tab < tabs.len()
            &&& shows(tabs[tab as int], changes[i].path@, disk)
            &&& forall|k: int| 0 <= k < tab ==> !shows(#[trigger] tabs[k], changes[i].path@, disk)
            &&& path@ == changes[i].path@
            &&& edits@.to_multiset() == changes[i].byte_edits@.to_multiset()
        },
        plan[i] matches Planned::Disk { path, text } ==> {
            &&& path@ == changes[i].path@
            &&& changes[i].on_disk is Rewritten
            &&& text@ == changes[i].on_disk->Rewritten_0@
        },
{
    law_first_open_tab(tabs, changes[i].path@, disk, 0);
    law_in_order(changes[i].byte_edits@);
    assert(carries_out(plan[i], changes[i], tabs, disk));
}

/// An edit is refused exactly where it holds file operations or a change does
/// not fit, and the reason is the first such change's: edits of an open file, or
/// of one on disk, that overlap, or a file that could not be read.
pub proof fn law_refusal_names_the_first_misfit(
    changes: &Vec<FileChange>,
    tabs: Seq<Tab>,
    disk: Disk,
    error: EditError,
)
    requires
        plans(Some(changes), tabs, disk, Err(error)),
    ensures
        exists|i: int|
            0 <= i < changes.len() && !fits(#[trigger] changes[i], tabs, disk) && (forall|k: int|
                0 <= k < i ==> fits(#[trigger] changes[k], tabs, disk)) && match error {
                EditError::Overlapping(path) => path@ == changes[i].path@,
                EditError::Unreadable(path) => path@ == changes[i].path@
                    && changes[i].on_disk is Unreadable,
                _ => false,
            },
{
    lemma_first_misfit(changes@, tabs, disk);
    let i = fitting(changes@, tabs, disk) as int;
    assert(!fits(changes[i], tabs, disk));
    assert(explains(error, changes[i], tabs, disk));
    assert forall|k: int| 0 <= k < i implies fits(#[trigger] changes[k], tabs, disk) by {
        assert(fits(changes@[k], tabs, disk));
    }
}

proof fn lemma_first_misfit(changes: Seq<FileChange>, tabs: Seq<Tab>, disk: Disk)
    ensures
        fitting(changes, tabs, disk) <= changes.len(),
        fitting(changes, tabs, disk) < changes.len() ==> !fits(
            changes[fitting(changes, tabs, disk) as int],
            tabs,
            disk,
        ),
        forall|k: int|
            0 <= k < fitting(changes, tabs, disk) ==> fits(#[trigger] changes[k], tabs, disk),
    decreases changes.len(),
{
    if changes.len() > 0 && fits(changes[0], tabs, disk) {
        let rest = changes.skip(1);
        lemma_first_misfit(rest, tabs, disk);
        assert forall|k: int| 0 <= k < fitting(changes, tabs, disk) implies fits(
            #[trigger] changes[k],
            tabs,
            disk,
        ) by {
            if k > 0 {
                assert(rest[k - 1] == changes[k]);
            }
        }
    }
}

/// A change fits where its file is open and no two of its edits share a byte,
/// or where it is closed and its new text could be worked out.
pub proof fn law_what_fits(change: FileChange, tabs: Seq<Tab>, disk: Disk, k: int)
    ensures
        0 <= k < tabs.len() && shows(tabs[k], change.path@, disk) ==> fits(change, tabs, disk) == !(
        exists|i: int|
            0 <= i < in_order(change.byte_edits@).len() - 1 && (#[trigger] in_order(
                change.byte_edits@,
            )[i]).end > in_order(change.byte_edits@)[i + 1].start),
        (forall|j: int| 0 <= j < tabs.len() ==> !shows(#[trigger] tabs[j], change.path@, disk))
            ==> fits(change, tabs, disk) == change.on_disk is Rewritten,
{
    law_first_open_tab(tabs, change.path@, disk, 0);
    let ordered = in_order(change.byte_edits@);
    if overlapping(ordered) {
        let i = choose|i: int| 0 <= i < ordered.len() - 1 && #[trigger] reaches_next(ordered, i);
        assert(ordered[i].end > ordered[i + 1].start);
    } else {
        assert forall|i: int| 0 <= i < ordered.len() - 1 implies !((#[trigger] ordered[i]).end
            > ordered[i + 1].start) by {
            assert(!reaches_next(ordered, i));
        }
    }
}

/// Edits are ordered by where they start, and by where they end where they start
/// together.
pub proof fn law_edits_are_ordered_by_place(a: ByteEdit, b: ByteEdit)
    ensures
        a.start < b.start ==> not_after(a, b) && !not_after(b, a),
        a.start == b.start && a.end < b.end ==> not_after(a, b) && !not_after(b, a),
        a.start == b.start && a.end == b.end ==> not_after(a, b) && not_after(b, a),
{
}

/// The edits of an open file are applied in the order of their places, and none
/// reaches into the next.
pub proof fn law_planned_edits_stand_apart(
    changes: &Vec<FileChange>,
    tabs: Seq<Tab>,
    disk: Disk,
    plan: Vec<Planned>,
    i: int,
    a: int,
)
    requires
        plans(Some(changes), tabs, disk, Ok(plan)),
        0 <= i < changes.len(),
        plan[i] is Buffer,
        0 <= a < plan[i]->Buffer_edits.len() - 1,
    ensures
        plan[i]->Buffer_edits[a].start <= plan[i]->Buffer_edits[a + 1].start,
        plan[i]->Buffer_edits[a].end <= plan[i]->Buffer_edits[a + 1].start,
{
    law_all_or_nothing(changes@, tabs, disk);
    law_in_order(changes[i].byte_edits@);
    law_first_open_tab(tabs, changes[i].path@, disk, 0);
    assert(carries_out(plan[i], changes[i], tabs, disk));
    assert(fits(changes@[i], tabs, disk));
    let ordered = in_order(changes[i].byte_edits@);
    assert(!reaches_next(ordered, a));
    assert(not_after(ordered[a], ordered[a + 1]));
}

/// A plan writes to disk exactly where one of its steps does.
pub proof fn law_plan_writes_where_a_step_does(plan: Seq<Planned>, i: int)
    ensures
        0 <= i < plan.len() && plan[i] is Disk ==> writes(plan),
        (forall|k: int| 0 <= k < plan.len() ==> (#[trigger] plan[k]) is Buffer) ==> !writes(plan),
{
}

/// How a rename went is told: in how many files, why not, or that the server had
/// nothing to offer.
pub proof fn law_rename_is_told(count: usize, error: EditError)
    ensures
        rename_status_text(None) == "The server offered no rename here"@,
        rename_status_text(Some(Ok(count))) == "Renamed in "@ + text::decimal(count as nat)
            + " file(s)"@,
        rename_status_text(Some(Err(error))) == "Rename not applied: "@ + error.text(),
{
}

/// An error names the file that it is about.
pub proof fn law_error_names_its_file(error: EditError)
    ensures
        error matches EditError::Overlapping(path) ==> error.text() == "overlapping edits in "@
            + path@,
        error matches EditError::Unreadable(path) ==> error.text() == "could not read "@ + path@,
        error matches EditError::Unwritable(path) ==> error.text() == "could not write "@ + path@,
        error is FileOperations ==> error.text()
            == "the edit includes file operations this editor does not apply"@,
{
}

/// A step is carried out while none failed and some are left, in order; a failure
/// ends it and says at which step.
pub proof fn law_failure_ends_the_edit(len: nat, done: nat)
    requires
        done <= len <= usize::MAX,
    ensures
        step_after(len, done, true) == NextStep::Stop(Some(done as usize)),
        done < len ==> step_after(len, done, false) == NextStep::CarryOut(done as usize),
        done == len ==> step_after(len, done, false) == NextStep::Stop(None),
{
}

} // verus!

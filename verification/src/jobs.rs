//! Background work, one slot for each kind of it.

use vstd::prelude::*;

verus! {

broadcast use vstd::seq::group_seq_axioms;

/// The kinds of background work the workspace runs, one slot each.
///
/// The slot is the unit of cancellation: a second folder load supersedes the
/// first. Work of a different kind is unrelated and is left alone.
#[derive(Clone, Copy, PartialEq, Eq, Structural, Hash, Debug)]
pub enum Job {
    OpenFolder,
    OpenFile,
    Save,
    QuickOpenIndex,
    RouteIndex,
    /// The autosave timer: each keystroke supersedes the pending save.
    AutosaveDebounce,
    /// Reading the project database.
    DbSchema,
    LogRead,
    DockerPs,
    /// The self-updater's download and swap.
    UpdateInstall,
    ArtisanList,
    ClosePrompt,
    /// A create, rename or delete started from the tree.
    FileOperation,
    GitWrite,
    /// A find-in-project sweep and the timer in front of it: a keystroke
    /// supersedes whichever of the two is live.
    ProjectSearch,
    LaravelTarget,
    /// Every language-server query: a new question abandons the last one.
    LspQuery,
    Lsp,
    GitStatus,
    GitDiff,
    TestRun,
    Completion,
    CompletionRoutes,
    CompletionColumns,
}

/// The first slot of a job, from `from` on.
pub open spec fn slot_of<T>(slots: Seq<(Job, T)>, job: Job, from: int) -> Option<int>
    decreases slots.len() - from,
{
    if from < 0 || from >= slots.len() {
        None
    } else if slots[from].0 == job {
        Some(from)
    } else {
        slot_of(slots, job, from + 1)
    }
}

/// One task in flight for each [`Job`]. Dropping a task cancels it.
pub struct JobSlots<T> {
    pub slots: Vec<(Job, T)>,
}

impl<T> JobSlots<T> {
    /// Whether no job has two slots.
    pub open spec fn well_formed(&self) -> bool {
        forall|i: int, j: int|
            0 <= i < j < self.slots.len() ==> (#[trigger] self.slots[i]).0 != (
            #[trigger] self.slots[j]).0
    }

    /// The tasks by job.
    pub open spec fn tasks(&self) -> Map<Job, T> {
        Map::new(
            |job: Job| exists|i: int| 0 <= i < self.slots.len() && (#[trigger] self.slots[i]).0 == job,
            |job: Job| {
                let at = choose|i: int|
                    0 <= i < self.slots.len() && (#[trigger] self.slots[i]).0 == job;
                self.slots[at].1
            },
        )
    }

    /// What a slot says of the map.
    proof fn lemma_slot(&self, i: int)
        requires
            self.well_formed(),
            0 <= i < self.slots.len(),
        ensures
            self.tasks().contains_key(self.slots[i].0),
            self.tasks()[self.slots[i].0] == self.slots[i].1,
    {
        let job = self.slots[i].0;
        let at = choose|k: int| 0 <= k < self.slots.len() && (#[trigger] self.slots[k]).0 == job;
        assert(self.slots[i].0 == job);
        assert(at == i);
    }

    /// Starts `task` as the current work for `job`, cancelling only that job's
    /// predecessor: it takes the predecessor's slot, or a new one at the end.
    pub fn start(&mut self, job: Job, task: T)
        requires
            old(self).well_formed(),
        ensures
            final(self).well_formed(),
            final(self).tasks() == old(self).tasks().insert(job, task),
            final(self).slots@ == (match slot_of(old(self).slots@, job, 0) {
                Some(at) => old(self).slots@.update(at, (job, task)),
                None => old(self).slots@.push((job, task)),
            }),
    {
        let ghost before = *self;
        let mut i: usize = 0;
        while i < self.slots.len() && self.slots[i].0 != job
            invariant
                i <= self.slots.len(),
                *self == before,
                before.well_formed(),
                forall|k: int| 0 <= k < i ==> (#[trigger] before.slots[k]).0 != job,
                slot_of(before.slots@, job, i as int) == slot_of(before.slots@, job, 0),
            decreases self.slots.len() - i,
        {
            i += 1;
        }
        if i < self.slots.len() {
            self.slots.set(i, (job, task));
            assert forall|a: int, b: int| 0 <= a < b < self.slots.len() implies (
            #[trigger] self.slots[a]).0 != (#[trigger] self.slots[b]).0 by {
                assert(before.slots[a].0 != before.slots[b].0);
            }
        } else {
            self.slots.push((job, task));
            assert forall|a: int, b: int| 0 <= a < b < self.slots.len() implies (
            #[trigger] self.slots[a]).0 != (#[trigger] self.slots[b]).0 by {
                if b < before.slots.len() {
                    assert(before.slots[a].0 != before.slots[b].0);
                } else {
                    assert(before.slots[a].0 != job);
                }
            }
        }
        proof {
            let expected = before.tasks().insert(job, task);
            assert(self.slots[i as int] == (job, task));
            self.lemma_slot(i as int);
            assert forall|other: Job| expected.contains_key(other)
                == #[trigger] self.tasks().contains_key(other) by {
                if other != job {
                    if before.tasks().contains_key(other) {
                        let k = choose|k: int|
                            0 <= k < before.slots.len() && (#[trigger] before.slots[k]).0 == other;
                        assert(self.slots[k].0 == other);
                    }
                    if self.tasks().contains_key(other) {
                        let k = choose|k: int|
                            0 <= k < self.slots.len() && (#[trigger] self.slots[k]).0 == other;
                        assert(before.slots[k].0 == other);
                    }
                }
            }
            assert forall|other: Job| #[trigger] expected.contains_key(other) implies expected[other]
                == self.tasks()[other] by {
                if other != job {
                    let k = choose|k: int|
                        0 <= k < before.slots.len() && (#[trigger] before.slots[k]).0 == other;
                    before.lemma_slot(k);
                    assert(self.slots[k] == before.slots[k]);
                    self.lemma_slot(k);
                }
            }
            assert(self.tasks() =~= expected);
        }
    }

    /// Drops the task for `job`, if any, cancelling it. The other slots stay
    /// as they are, in their order.
    pub fn cancel(&mut self, job: Job)
        requires
            old(self).well_formed(),
        ensures
            final(self).well_formed(),
            final(self).tasks() == old(self).tasks().remove(job),
            final(self).slots@ == (match slot_of(old(self).slots@, job, 0) {
                Some(at) => old(self).slots@.remove(at),
                None => old(self).slots@,
            }),
    {
        let ghost before = *self;
        let mut i: usize = 0;
        while i < self.slots.len() && self.slots[i].0 != job
            invariant
                i <= self.slots.len(),
                *self == before,
                before.well_formed(),
                forall|k: int| 0 <= k < i ==> (#[trigger] before.slots[k]).0 != job,
                slot_of(before.slots@, job, i as int) == slot_of(before.slots@, job, 0),
            decreases self.slots.len() - i,
        {
            i += 1;
        }
        if i < self.slots.len() {
            self.slots.remove(i);
            assert forall|a: int, b: int| 0 <= a < b < self.slots.len() implies (
            #[trigger] self.slots[a]).0 != (#[trigger] self.slots[b]).0 by {
                let a0 = if a < i { a } else { a + 1 };
                let b0 = if b < i { b } else { b + 1 };
                assert(before.slots[a0].0 != before.slots[b0].0);
            }
        }
        proof {
            let expected = before.tasks().remove(job);
            let gone = i < before.slots.len();
            assert forall|other: Job| expected.contains_key(other)
                == #[trigger] self.tasks().contains_key(other) by {
                if before.tasks().contains_key(other) && other != job {
                    let k = choose|k: int|
                        0 <= k < before.slots.len() && (#[trigger] before.slots[k]).0 == other;
                    let k1 = if gone && k > i { k - 1 } else { k };
                    assert(self.slots[k1].0 == other);
                }
                if self.tasks().contains_key(other) {
                    let k = choose|k: int|
                        0 <= k < self.slots.len() && (#[trigger] self.slots[k]).0 == other;
                    let k0 = if gone && k >= i { k + 1 } else { k };
                    assert(before.slots[k0].0 == other);
                    if gone {
                        assert(before.slots[k0].0 != before.slots[i as int].0);
                    }
                }
            }
            assert forall|other: Job| #[trigger] expected.contains_key(other) implies expected[other]
                == self.tasks()[other] by {
                let k = choose|k: int|
                    0 <= k < before.slots.len() && (#[trigger] before.slots[k]).0 == other;
                before.lemma_slot(k);
                let k1 = if gone && k > i { k - 1 } else { k };
                assert(self.slots[k1] == before.slots[k]);
                self.lemma_slot(k1);
            }
            assert(self.tasks() =~= expected);
        }
    }
}

impl<T> Default for JobSlots<T> {
    fn default() -> (slots: Self)
        ensures
            slots.well_formed(),
            slots.tasks() == Map::<Job, T>::empty(),
            slots.slots@ == Seq::<(Job, T)>::empty(),
    {
        let slots = JobSlots { slots: Vec::new() };
        assert(slots.tasks() =~= Map::<Job, T>::empty());
        slots
    }
}

/// A job's slot is the first one with its name, and it has none exactly where no
/// slot has.
pub proof fn law_slot_is_found_by_job<T>(slots: Seq<(Job, T)>, job: Job, from: int)
    requires
        0 <= from <= slots.len(),
    ensures
        slot_of(slots, job, from) matches Some(at) ==> from <= at < slots.len() && slots[at].0
            == job && forall|i: int| from <= i < at ==> (#[trigger] slots[i]).0 != job,
        slot_of(slots, job, from) is None ==> forall|i: int|
            from <= i < slots.len() ==> (#[trigger] slots[i]).0 != job,
    decreases slots.len() - from,
{
    if from < slots.len() && slots[from].0 != job {
        law_slot_is_found_by_job(slots, job, from + 1);
    }
}

} // verus!

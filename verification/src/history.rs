//! Where the cursor has been, so that Back and Forward can retrace it.

use vstd::prelude::*;
use vstd::string::*;

use crate::disk::Disk;
use crate::palette::Point;

verus! {

broadcast use vstd::seq::group_seq_axioms;

/// How many jumps Back can retrace.
pub const MAX_HISTORY: usize = 50;

/// A place in a file, as contracts see it.
pub type PlaceView = (Seq<char>, Point);

/// Two stacks of places: those behind, and those that Back came from.
///
/// Only jumps are recorded. `back` puts where you are onto the forward stack
/// as it takes off where you were, which is what makes the two a round trip.
pub struct JumpHistory {
    pub back: Vec<(String, Point)>,
    pub forward: Vec<(String, Point)>,
}

/// A history as contracts see it; the newest place of each stack is its last.
#[verifier::ext_equal]
pub struct Trail {
    pub back: Seq<PlaceView>,
    pub forward: Seq<PlaceView>,
}

/// The newest place whose file still exists, by its index, or -1.
pub open spec fn newest_reachable(stack: Seq<PlaceView>, disk: Disk) -> int
    decreases stack.len(),
{
    if stack.len() == 0 {
        -1
    } else if disk.holds(stack.last().0) {
        stack.len() - 1
    } else {
        newest_reachable(stack.drop_last(), disk)
    }
}

impl Trail {
    /// Whether the two stacks together stay within bounds.
    pub open spec fn bounded(self) -> bool {
        self.back.len() + self.forward.len() <= MAX_HISTORY
    }

    /// After a jump away from `place`: it is the newest behind, the oldest
    /// falls off past the bound, and the forward trail is abandoned.
    pub open spec fn pushed(self, place: PlaceView) -> Trail {
        let back = self.back.push(place);
        Trail {
            back: if back.len() > MAX_HISTORY {
                back.skip(1)
            } else {
                back
            },
            forward: Seq::empty(),
        }
    }

    /// Where Back leads.
    pub open spec fn back_to(self, disk: Disk) -> Option<PlaceView> {
        let at = newest_reachable(self.back, disk);
        if at < 0 {
            None
        } else {
            Some(self.back[at])
        }
    }

    /// After Back from `here`. Places whose file is gone are dropped on the
    /// way, and a Back that leads nowhere leaves the forward trail alone.
    pub open spec fn gone_back(self, here: PlaceView, disk: Disk) -> Trail {
        let at = newest_reachable(self.back, disk);
        if at < 0 {
            Trail { back: Seq::empty(), forward: self.forward }
        } else {
            Trail { back: self.back.take(at), forward: self.forward.push(here) }
        }
    }

    /// The same trail seen from the other end.
    pub open spec fn reversed(self) -> Trail {
        Trail { back: self.forward, forward: self.back }
    }
}

impl View for JumpHistory {
    type V = Trail;

    open spec fn view(&self) -> Trail {
        Trail { back: self.back.deep_view(), forward: self.forward.deep_view() }
    }
}

impl vstd::view::DeepView for Point {
    type V = Point;

    open spec fn deep_view(&self) -> Point {
        *self
    }
}

proof fn lemma_newest_reachable(stack: Seq<PlaceView>, disk: Disk, at: int)
    requires
        -1 <= at < stack.len(),
        at >= 0 ==> disk.holds(stack[at].0),
        forall|k: int| at < k < stack.len() ==> !disk.holds((#[trigger] stack[k]).0),
    ensures
        newest_reachable(stack, disk) == at,
    decreases stack.len(),
{
    if stack.len() > 0 && at < stack.len() - 1 {
        assert(!disk.holds(stack[stack.len() - 1].0));
        lemma_newest_reachable(stack.drop_last(), disk, at);
    }
}

/// Where the newest reachable place stands.
proof fn lemma_newest_reachable_bounds(stack: Seq<PlaceView>, disk: Disk)
    ensures
        -1 <= newest_reachable(stack, disk) < stack.len(),
        newest_reachable(stack, disk) >= 0 ==> disk.holds(
            stack[newest_reachable(stack, disk)].0,
        ),
    decreases stack.len(),
{
    if stack.len() > 0 && !disk.holds(stack.last().0) {
        lemma_newest_reachable_bounds(stack.drop_last(), disk);
    }
}

/// Takes off the newest place that still names a file on disk, and any newer
/// one that does not.
fn pop_reachable(stack: &mut Vec<(String, Point)>, disk: &Disk) -> (place: Option<(String, Point)>)
    ensures
        ({
            let before = old(stack).deep_view();
            let at = newest_reachable(before, *disk);
            if at < 0 {
                &&& place is None
                &&& final(stack).deep_view() == Seq::<PlaceView>::empty()
            } else {
                &&& place.deep_view() == Some(before[at])
                &&& final(stack).deep_view() == before.take(at)
            }
        }),
{
    let ghost before = stack.deep_view();
    while stack.len() > 0
        invariant
            before == old(stack).deep_view(),
            stack.deep_view() == before.take(stack.len() as int),
            stack.len() <= before.len(),
            forall|k: int| stack.len() <= k < before.len() ==> !disk.holds((#[trigger] before[k]).0),
        ensures
            stack.len() == 0,
            stack.deep_view() == before.take(stack.len() as int),
            stack.len() <= before.len(),
            forall|k: int| stack.len() <= k < before.len() ==> !disk.holds((#[trigger] before[k]).0),
        decreases stack.len(),
    {
        let ghost shorter = stack.deep_view();
        let ghost last = stack.len() - 1;
        let place = stack.pop();
        match place {
            Some(entry) => {
                assert(stack.deep_view() =~= before.take(last));
                assert(shorter[last] == (entry.0@, entry.1));
                assert(before[last] == shorter[last]);
                if disk.has(entry.0.as_str()) {
                    proof {
                        lemma_newest_reachable(before, *disk, last);
                    }
                    return Some(entry);
                }
            },
            None => {},
        }
    }
    proof {
        lemma_newest_reachable(before, *disk, -1);
        assert(stack.deep_view() =~= Seq::<PlaceView>::empty());
    }
    None
}

impl JumpHistory {
    /// Records a place being jumped away from.
    pub fn push(&mut self, location: (String, Point))
        ensures
            final(self)@ == old(self)@.pushed(location.deep_view()),
            old(self)@.bounded() ==> final(self)@.bounded(),
    {
        let ghost before = self.back.deep_view();
        self.back.push(location);
        assert(self.back.deep_view() =~= before.push(location.deep_view()));
        if self.back.len() > MAX_HISTORY {
            let ghost longer = self.back.deep_view();
            self.back.remove(0);
            assert(self.back.deep_view() =~= longer.skip(1));
        }
        self.forward.clear();
        assert(self.forward.deep_view() =~= Seq::<PlaceView>::empty());
    }

    /// Goes back to the last place jumped from that still exists, given where
    /// the cursor is now.
    pub fn back(&mut self, here: (String, Point), disk: &Disk) -> (place: Option<(String, Point)>)
        ensures
            place.deep_view() == old(self)@.back_to(*disk),
            final(self)@ == old(self)@.gone_back(here.deep_view(), *disk),
            old(self)@.bounded() ==> final(self)@.bounded(),
    {
        proof {
            lemma_newest_reachable_bounds(self.back.deep_view(), *disk);
        }
        match pop_reachable(&mut self.back, disk) {
            Some(previous) => {
                let ghost before = self.forward.deep_view();
                self.forward.push(here);
                assert(self.forward.deep_view() =~= before.push(here.deep_view()));
                Some(previous)
            },
            None => None,
        }
    }

    /// Undoes a [`JumpHistory::back`].
    pub fn forward(&mut self, here: (String, Point), disk: &Disk) -> (place: Option<
        (String, Point),
    >)
        ensures
            place.deep_view() == old(self)@.reversed().back_to(*disk),
            final(self)@ == old(self)@.reversed().gone_back(here.deep_view(), *disk).reversed(),
            old(self)@.bounded() ==> final(self)@.bounded(),
    {
        proof {
            lemma_newest_reachable_bounds(self.forward.deep_view(), *disk);
        }
        match pop_reachable(&mut self.forward, disk) {
            Some(next) => {
                let ghost before = self.back.deep_view();
                self.back.push(here);
                assert(self.back.deep_view() =~= before.push(here.deep_view()));
                Some(next)
            },
            None => None,
        }
    }
}

impl Default for JumpHistory {
    fn default() -> (history: Self)
        ensures
            history@ == (Trail { back: Seq::empty(), forward: Seq::empty() }),
            history@.bounded(),
    {
        let history = JumpHistory { back: Vec::new(), forward: Vec::new() };
        assert(history@ =~= (Trail { back: Seq::empty(), forward: Seq::empty() }));
        history
    }
}

/// Forward undoes Back: from where Back led, it leads to where Back started,
/// and only the places that Back found gone are missing afterwards.
pub proof fn law_forward_undoes_back(trail: Trail, here: PlaceView, disk: Disk)
    requires
        trail.back_to(disk) is Some,
        disk.holds(here.0),
    ensures
        ({
            let there = trail.back_to(disk)->0;
            let after = trail.gone_back(here, disk);
            let again = after.reversed().gone_back(there, disk).reversed();
            &&& after.reversed().back_to(disk) == Some(here)
            &&& again.forward == trail.forward
            &&& again.back == trail.back.take(newest_reachable(trail.back, disk) + 1)
        }),
{
    lemma_newest_reachable_bounds(trail.back, disk);
    let at = newest_reachable(trail.back, disk);
    let after = trail.gone_back(here, disk);
    lemma_newest_reachable(after.forward, disk, after.forward.len() - 1);
    assert(after.forward.take(after.forward.len() - 1) =~= trail.forward);
    assert(trail.back.take(at).push(trail.back[at]) =~= trail.back.take(at + 1));
}

/// Back never leads to a file that is gone, and a Back that leads nowhere is
/// one where every place behind is gone.
pub proof fn law_back_skips_what_is_gone(trail: Trail, disk: Disk)
    ensures
        trail.back_to(disk) matches Some(place) ==> disk.holds(place.0),
        trail.back_to(disk) is None ==> forall|k: int|
            0 <= k < trail.back.len() ==> !disk.holds((#[trigger] trail.back[k]).0),
    decreases trail.back.len(),
{
    lemma_newest_reachable_bounds(trail.back, disk);
    if trail.back.len() > 0 && !disk.holds(trail.back.last().0) {
        let shorter = Trail { back: trail.back.drop_last(), forward: trail.forward };
        law_back_skips_what_is_gone(shorter, disk);
        assert forall|k: int| trail.back_to(disk) is None && 0 <= k < trail.back.len() implies
            !disk.holds((#[trigger] trail.back[k]).0) by {
            if k < trail.back.len() - 1 {
                assert(shorter.back[k] == trail.back[k]);
            }
        }
    }
}

/// Right after a jump, Back returns to where the jump started.
pub proof fn law_back_returns_to_the_jump(trail: Trail, place: PlaceView, disk: Disk)
    requires
        trail.bounded(),
        disk.holds(place.0),
    ensures
        trail.pushed(place).back_to(disk) == Some(place),
        trail.pushed(place).forward.len() == 0,
{
}

/// The trail never grows past its bound, whatever is done on it.
pub proof fn law_trail_stays_bounded(trail: Trail, place: PlaceView, disk: Disk)
    requires
        trail.bounded(),
    ensures
        trail.pushed(place).bounded(),
        trail.gone_back(place, disk).bounded(),
        trail.reversed().gone_back(place, disk).reversed().bounded(),
{
    lemma_newest_reachable_bounds(trail.back, disk);
    lemma_newest_reachable_bounds(trail.forward, disk);
}

/// A jump is put behind everything that was jumped from before; only the oldest
/// place makes way where the trail is full, and nothing is left to go forward to.
pub proof fn law_jump_is_remembered(trail: Trail, place: PlaceView)
    ensures
        trail.pushed(place).back.len() > 0,
        trail.pushed(place).back.last() == place,
        trail.pushed(place).forward.len() == 0,
        trail.back.len() < MAX_HISTORY ==> trail.pushed(place).back == trail.back.push(place),
        trail.back.len() == MAX_HISTORY ==> trail.pushed(place).back == trail.back.skip(1).push(
            place,
        ),
{
    if trail.back.len() >= MAX_HISTORY {
        assert(trail.back.push(place).skip(1).last() == place);
        assert(trail.back.push(place).skip(1) =~= trail.back.skip(1).push(place));
    }
}

/// Back leads to the newest place that is still there: what is newer is gone,
/// what is older stays to go back to, and where it was taken from is the next
/// place to go forward to.
pub proof fn law_back_leads_to_the_newest_place(trail: Trail, here: PlaceView, disk: Disk)
    ensures
        match trail.back_to(disk) {
            Some(place) => {
                let left = trail.gone_back(here, disk).back;
                &&& left.len() < trail.back.len()
                &&& trail.back[left.len() as int] == place
                &&& disk.holds(place.0)
                &&& left == trail.back.take(left.len() as int)
                &&& forall|k: int|
                    left.len() < k < trail.back.len() ==> !disk.holds((#[trigger] trail.back[k]).0)
                &&& trail.gone_back(here, disk).forward == trail.forward.push(here)
            },
            None => {
                &&& trail.gone_back(here, disk).back.len() == 0
                &&& trail.gone_back(here, disk).forward == trail.forward
                &&& forall|k: int|
                    0 <= k < trail.back.len() ==> !disk.holds((#[trigger] trail.back[k]).0)
            },
        },
{
    lemma_newest_of(trail.back, disk);
}

proof fn lemma_newest_of(stack: Seq<PlaceView>, disk: Disk)
    ensures
        ({
            let at = newest_reachable(stack, disk);
            &&& -1 <= at < stack.len()
            &&& at >= 0 ==> disk.holds(stack[at].0)
            &&& forall|k: int| at < k < stack.len() ==> !disk.holds((#[trigger] stack[k]).0)
        }),
    decreases stack.len(),
{
    if stack.len() > 0 && !disk.holds(stack.last().0) {
        let fewer = stack.drop_last();
        lemma_newest_of(fewer, disk);
        let at = newest_reachable(stack, disk);
        assert forall|k: int| at < k < stack.len() implies !disk.holds((#[trigger] stack[k]).0) by {
            if k < fewer.len() {
                assert(fewer[k] == stack[k]);
            }
        }
    }
}

/// A trail is seen in contracts as it is, in order.
pub proof fn law_trail_is_seen_as_it_is(history: JumpHistory, i: int)
    ensures
        history@.back.len() == history.back.len(),
        history@.forward.len() == history.forward.len(),
        0 <= i < history.back.len() ==> history@.back[i] == (
            history.back[i].0@,
            history.back[i].1,
        ),
        0 <= i < history.forward.len() ==> history@.forward[i] == (
            history.forward[i].0@,
            history.forward[i].1,
        ),
{
}

} // verus!

//! Sounds of eating: which bite sound plays next, and the gulp that follows.
//!
//! The bite sounds live in a shuffle bag, so that every sound is heard once
//! per round and none twice in a row. The bag holds *slots*: numbers that the
//! caller maps to its audio samples. Half a second after the last bite a gulp
//! is due; a bite taken before that restarts the wait.

use bevy::time::{Timer, TimerMode};
use bevy_shuffle_bag::ShuffleBag;
use rand::rngs::ThreadRng;
use std::time::Duration;
use vstd::prelude::*;

verus! {

/// `bevy_shuffle_bag::ShuffleBag`, of which only the names below are
/// known.
#[verifier::external_type_specification]
#[verifier::external_body]
#[verifier::reject_recursive_types(T)]
pub struct ExShuffleBag<T>(ShuffleBag<T>);

/// `rand::rngs::ThreadRng`, of which nothing is known.
#[verifier::external_type_specification]
#[verifier::external_body]
pub struct ExThreadRng(ThreadRng);

/// The items a bag was made from, in the order they were given.
pub uninterp spec fn bag_items(bag: ShuffleBag<usize>) -> Seq<usize>;

/// The positions in `bag_items` that the current round has yet to hand out.
/// The last one is handed out next.
pub uninterp spec fn bag_draft(bag: ShuffleBag<usize>) -> Seq<usize>;

/// `draft` names each of the positions `0..n` exactly once.
pub open spec fn full_round(draft: Seq<usize>, n: nat) -> bool {
    &&& draft.len() == n
    &&& draft.no_duplicates()
    &&& forall|i: int| 0 <= i < draft.len() ==> draft[i] < n
}

/// `rand::rng`: the random number generator of the current thread. Nothing
/// is claimed of what it will produce. It cannot be had where the operating
/// system gives no randomness to seed it with.
#[verifier::external_body]
fn thread_rng() -> ThreadRng {
    rand::rng()
}

/// `ShuffleBag::try_new`: no bag for an empty collection, else a bag that
/// keeps the collection as given and starts on a full round in some order.
#[verifier::external_body]
fn bag_try_new(items: Vec<usize>, rng: &mut ThreadRng) -> (r: Option<ShuffleBag<usize>>)
    ensures
        r is None <==> items@.len() == 0,
        r matches Some(bag) ==> bag_items(bag) == items@ && full_round(
            bag_draft(bag),
            items@.len(),
        ),
{
    ShuffleBag::try_new(items, rng)
}

/// `ShuffleBag::pick`: hands out the item at the last position of the round
/// and drops that position. When the round is thereby used up a new full
/// round is shuffled, which, with more than one item, does not start on the
/// position just handed out. The collection itself never changes. The call
/// fails on an empty round or a position outside the collection, which the
/// preconditions leave out.
#[verifier::external_body]
fn bag_pick(bag: &mut ShuffleBag<usize>, rng: &mut ThreadRng) -> (r: usize)
    requires
        bag_draft(*old(bag)).len() > 0,
        bag_draft(*old(bag)).last() < bag_items(*old(bag)).len(),
    ensures
        bag_items(*final(bag)) == bag_items(*old(bag)),
        r == bag_items(*old(bag))[bag_draft(*old(bag)).last() as int],
        bag_draft(*old(bag)).len() > 1 ==> bag_draft(*final(bag)) == bag_draft(
            *old(bag),
        ).drop_last(),
        bag_draft(*old(bag)).len() == 1 ==> full_round(
            bag_draft(*final(bag)),
            bag_items(*old(bag)).len(),
        ),
        bag_draft(*old(bag)).len() == 1 && bag_items(*old(bag)).len() > 1 ==> bag_draft(
            *final(bag),
        ).last() != bag_draft(*old(bag)).last(),
    no_unwind
{
    *bag.pick(rng)
}

/// `Timer::tick` of `bevy::time`, on a one-shot timer made by `Timer::new`
/// with the length `duration` and set by `Timer::set_elapsed` to have run
/// for `elapsed`, all in nanoseconds: what `Timer::elapsed` and
/// `Timer::is_finished` say after another `delta`. The timer finishes once
/// the time run reaches its length, and stops there.
#[verifier::external_body]
fn tick_once(duration: u64, elapsed: u64, delta: u64) -> (r: (u64, bool))
    ensures
        r.1 == (elapsed + delta >= duration),
        r.0 == if r.1 {
            duration as int
        } else {
            elapsed + delta
        },
{
    let mut timer = Timer::new(Duration::from_nanos(duration), TimerMode::Once);
    timer.set_elapsed(Duration::from_nanos(elapsed));
    let finished = timer.tick(Duration::from_nanos(delta)).is_finished();
    (timer.elapsed().as_nanos() as u64, finished)
}

/// The bite sounds, handed out in shuffled rounds.
pub struct EatSounds {
    bag: ShuffleBag<usize>,
}

impl EatSounds {
    /// The slots in the bag, as given at construction.
    pub closed spec fn sounds(&self) -> Seq<usize> {
        bag_items(self.bag)
    }

    /// Positions in `sounds` still to be heard this round, the next one last.
    pub closed spec fn round(&self) -> Seq<usize> {
        bag_draft(self.bag)
    }

    /// The slot that the next `pick` returns.
    pub open spec fn upcoming(&self) -> usize {
        self.sounds()[self.round().last() as int]
    }

    /// A round is never empty, names no position twice and stays inside the
    /// bag.
    #[verifier::type_invariant]
    pub open spec fn wf(&self) -> bool {
        &&& self.sounds().len() <= usize::MAX
        &&& self.round().len() > 0
        &&& self.round().no_duplicates()
        &&& forall|i: int| 0 <= i < self.round().len() ==> self.round()[i] < self.sounds().len()
    }

    /// A bag of the given slots, about to start its first round. There is no
    /// bag of nothing.
    pub fn try_new(sounds: Vec<usize>) -> (r: Option<Self>)
        ensures
            r is None <==> sounds@.len() == 0,
            r matches Some(s) ==> s.wf() && s.sounds() == sounds@ && full_round(
                s.round(),
                sounds@.len(),
            ),
    {
        assert(sounds@.len() == sounds.len());
        let mut rng = thread_rng();
        match bag_try_new(sounds, &mut rng) {
            Some(bag) => Some(EatSounds { bag }),
            None => None,
        }
    }

    /// How the bag has changed once `self` has handed out a slot and become
    /// `after`. The slots stay; the round shrinks by its last position, or,
    /// where that was the only one left, a new full round begins, which in a
    /// bag of several slots does not start on the position just handed out.
    pub open spec fn picked(&self, after: &Self) -> bool {
        &&& after.wf()
        &&& after.sounds() == self.sounds()
        &&& self.round().len() > 1 ==> after.round() == self.round().drop_last()
        &&& self.round().len() == 1 ==> full_round(after.round(), self.sounds().len())
        &&& self.round().len() == 1 && self.sounds().len() > 1 ==> after.round().last()
            != self.round().last()
    }

    /// Takes the next slot out of the round.
    pub fn pick(&mut self) -> (r: usize)
        ensures
            r == old(self).upcoming(),
            old(self).sounds().contains(r),
            old(self).picked(final(self)),
    {
        proof {
            use_type_invariant(&*self);
        }
        let mut rng = thread_rng();
        bag_pick(&mut self.bag, &mut rng)
    }
}

/// No slot comes twice in a row: in a bag of at least two slots, all
/// different, the slot that comes after a pick differs from the one picked.
pub proof fn lemma_never_twice_in_a_row(before: &EatSounds, after: &EatSounds)
    requires
        before.wf(),
        before.picked(after),
        before.sounds().len() > 1,
        before.sounds().no_duplicates(),
    ensures
        after.upcoming() != before.upcoming(),
{
    let round = before.round();
    if round.len() > 1 {
        assert(after.round().last() == round[round.len() - 2]);
        assert(round.last() == round[round.len() - 1]);
    }
    assert(after.round().last() != round.last());
}

/// A round that has just begun names every position of the bag, so that
/// every slot is handed out before the round is over.
pub proof fn lemma_round_covers_bag(sounds: &EatSounds, position: usize)
    requires
        sounds.wf(),
        full_round(sounds.round(), sounds.sounds().len()),
        position < sounds.sounds().len(),
    ensures
        exists|k: int| 0 <= k < sounds.round().len() && #[trigger] sounds.round()[k] == position,
{
    let round = sounds.round();
    let n = sounds.sounds().len();
    // A sequence of n different positions below n takes every one of them.
    let taken = round.to_set();
    let all = Set::<usize>::new(|p: usize| p < n);
    round.unique_seq_to_set();
    assert(taken.len() == n);
    assert(taken.subset_of(all)) by {
        assert forall|p: usize| taken.contains(p) implies all.contains(p) by {
            let i = choose|i: int| 0 <= i < round.len() && round[i] == p;
            assert(round[i] < n);
        }
    }
    lemma_positions_below(n);
    vstd::set_lib::lemma_subset_equality(taken, all);
    assert(all.contains(position));
    assert(round.contains(position));
}

/// There are exactly `n` positions below `n`.
proof fn lemma_positions_below(n: nat)
    requires
        n <= usize::MAX,
    ensures
        Set::<usize>::new(|p: usize| p < n).finite(),
        Set::<usize>::new(|p: usize| p < n).len() == n,
    decreases n,
{
    let below = Set::<usize>::new(|p: usize| p < n);
    if n == 0 {
        assert(below =~= Set::<usize>::empty());
    } else {
        let fewer = Set::<usize>::new(|p: usize| p < (n - 1) as nat);
        lemma_positions_below((n - 1) as nat);
        assert(below =~= fewer.insert((n - 1) as usize));
    }
}

/// How long after a bite the gulp is heard, in nanoseconds.
pub const GULP_DELAY_NANOS: u64 = 500_000_000;

/// The wait between the last bite and the gulp.
pub struct GulpTimer {
    elapsed: Option<u64>,
}

impl GulpTimer {
    /// Nanoseconds waited since the last bite; `None` while no gulp is due.
    pub closed spec fn waited(&self) -> Option<u64> {
        self.elapsed
    }

    /// A pending gulp has not yet waited out its delay.
    #[verifier::type_invariant]
    pub open spec fn wf(&self) -> bool {
        self.waited() matches Some(t) ==> t < GULP_DELAY_NANOS
    }

    /// No gulp is due.
    pub fn new() -> (r: Self)
        ensures
            r.waited() is None,
    {
        GulpTimer { elapsed: None }
    }

    /// A bite was taken: the wait starts over.
    pub fn start(&mut self)
        ensures
            final(self).waited() == Some(0u64),
    {
        self.elapsed = Some(0);
    }

    /// Lets `delta` nanoseconds pass and says whether the gulp is heard now.
    /// It is heard exactly when one was due and the wait has reached the
    /// delay; with that the timer is cleared. Otherwise a pending wait grows
    /// by `delta`.
    pub fn tick(&mut self, delta: u64) -> (gulp: bool)
        ensures
            gulp == (old(self).waited() matches Some(t) && t + delta >= GULP_DELAY_NANOS),
            gulp ==> final(self).waited() is None,
            !gulp ==> final(self).waited() == match old(self).waited() {
                Some(t) => Some((t + delta) as u64),
                None => None,
            },
    {
        proof {
            use_type_invariant(&*self);
        }
        match self.elapsed {
            None => false,
            Some(t) => {
                let (now, finished) = tick_once(GULP_DELAY_NANOS, t, delta);
                if finished {
                    self.elapsed = None;
                } else {
                    self.elapsed = Some(now);
                }
                finished
            },
        }
    }
}

/// A bite: the slot of the bite sound to play. The gulp's wait starts over.
pub fn play_eat_sound(sounds: &mut EatSounds, gulp: &mut GulpTimer) -> (slot: usize)
    ensures
        slot == old(sounds).upcoming(),
        old(sounds).sounds().contains(slot),
        old(sounds).picked(final(sounds)),
        final(gulp).waited() == Some(0u64),
{
    let slot = sounds.pick();
    gulp.start();
    slot
}

} // verus!

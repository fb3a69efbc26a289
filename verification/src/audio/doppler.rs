//! The sample history behind the Doppler effect.
//!
//! For every pair of listener and sound source the last few samples of their
//! distance are kept, one per simulation step, oldest first. The pitch shift
//! is estimated from the change between neighbouring samples, so a history
//! of fewer than two samples gives no estimate, and the playback speed of
//! the source stays as it is. Where several listeners hear a source, the
//! nearest one decides.
//!
//! Distances reach this module as the bits of their floating-point values.
//! The numbers are ordered as the IEEE 754 total order has them, in which
//! every number has its place: negative numbers before positive ones, and
//! each zero, infinity and NaN on the side its sign puts it.

use crate::entity::Entity;
use std::collections::HashMap;
use vstd::prelude::*;

verus! {

broadcast use vstd::std_specs::hash::group_hash_axioms;

/// How many samples a history keeps unless told otherwise.
pub const DEFAULT_MAX_POSITIONS: usize = 3;

/// A history after the newest sample has been added to it: a history that
/// already holds `max_positions` samples or more lets go of its oldest one.
pub open spec fn pushed<T>(history: Seq<T>, sample: T, max_positions: usize) -> Seq<T> {
    if history.len() < max_positions {
        history.push(sample)
    } else {
        history.push(sample).drop_first()
    }
}

/// The number of intervals between the neighbouring samples of a history,
/// over which a speed estimate averages: one fewer than there are samples.
/// A history of fewer than two samples has no interval and gives no
/// estimate.
pub open spec fn interval_count<T>(history: Seq<T>) -> Option<usize> {
    if history.len() < 2 {
        None
    } else {
        Some((history.len() - 1) as usize)
    }
}

/// A source gives no estimate on the step it is first sampled, and gives
/// one over a single interval on the step after.
pub proof fn lemma_estimate_from_second_sample<T>(first: T, second: T, max_positions: usize)
    requires
        max_positions >= 2,
    ensures
        interval_count(pushed(Seq::<T>::empty(), first, max_positions)) is None,
        interval_count(
            pushed(pushed(Seq::<T>::empty(), first, max_positions), second, max_positions),
        ) == Some(1usize),
{
}

/// A full history stays full: the newest sample takes the place that the
/// oldest one leaves, and the rest keep their order.
pub proof fn lemma_full_history_shifts<T>(history: Seq<T>, sample: T, max_positions: usize)
    requires
        history.len() == max_positions,
        max_positions >= 1,
    ensures
        pushed(history, sample, max_positions).len() == max_positions,
        pushed(history, sample, max_positions) == history.skip(1).push(sample),
        pushed(history, sample, max_positions).last() == sample,
{
    assert(pushed(history, sample, max_positions) =~= history.skip(1).push(sample));
}

/// The most recent samples of one listener and source, oldest first. What a
/// sample holds is up to the caller.
pub struct DopplerData<T> {
    positions: Vec<T>,
    max_positions: usize,
}

impl<T> View for DopplerData<T> {
    type V = Seq<T>;

    closed spec fn view(&self) -> Seq<T> {
        self.positions@
    }
}

impl<T> DopplerData<T> {
    /// The most samples the history keeps.
    pub closed spec fn max_positions(&self) -> usize {
        self.max_positions
    }

    /// The history never holds more samples than it may keep.
    #[verifier::type_invariant]
    pub open spec fn wf(&self) -> bool {
        self@.len() <= self.max_positions()
    }

    /// An empty history that keeps up to `DEFAULT_MAX_POSITIONS` samples.
    pub fn new() -> (r: Self)
        ensures
            r@ == Seq::<T>::empty(),
            r.max_positions() == DEFAULT_MAX_POSITIONS,
    {
        DopplerData { positions: Vec::new(), max_positions: DEFAULT_MAX_POSITIONS }
    }

    /// Adds the newest sample. A history that is full lets go of its oldest
    /// sample to make room.
    pub fn push(&mut self, sample: T)
        ensures
            final(self).max_positions() == old(self).max_positions(),
            final(self)@ == pushed(old(self)@, sample, old(self).max_positions()),
            final(self).wf(),
    {
        proof {
            use_type_invariant(&*self);
        }
        let max_positions = self.max_positions;
        let mut positions = Vec::new();
        std::mem::swap(&mut positions, &mut self.positions);
        positions.push(sample);
        if positions.len() > max_positions {
            positions.remove(0);
        }
        self.positions = positions;
    }

    /// The samples, oldest first.
    pub fn positions(&self) -> (r: &Vec<T>)
        ensures
            r@ == self@,
    {
        &self.positions
    }

    /// How many samples the history holds.
    pub fn len(&self) -> (r: usize)
        ensures
            r == self@.len(),
    {
        self.positions.len()
    }

    /// The number of intervals between neighbouring samples, if there are
    /// any.
    pub fn intervals(&self) -> (r: Option<usize>)
        ensures
            r == interval_count(self@),
    {
        if self.positions.len() < 2 {
            None
        } else {
            Some(self.positions.len() - 1)
        }
    }
}

/// What one listener knows of the sound sources around it: a history for
/// every source it has sampled.
pub struct DopplerListener<T> {
    sources: HashMap<u64, DopplerData<T>>,
}

impl<T> View for DopplerListener<T> {
    type V = Map<Entity, Seq<T>>;

    closed spec fn view(&self) -> Map<Entity, Seq<T>> {
        Map::new(|e: Entity| self.sources@.contains_key(e.0), |e: Entity| self.sources@[e.0]@)
    }
}

impl<T> DopplerListener<T> {
    /// Every history keeps the default number of samples.
    #[verifier::type_invariant]
    closed spec fn wf(&self) -> bool {
        forall|k: u64| #[trigger]
            self.sources@.contains_key(k) ==> self.sources@[k].max_positions()
                == DEFAULT_MAX_POSITIONS && self.sources@[k]@.len() <= DEFAULT_MAX_POSITIONS
    }

    /// A listener that has sampled no source.
    pub fn new() -> (r: Self)
        ensures
            r@ == Map::<Entity, Seq<T>>::empty(),
    {
        let r = DopplerListener { sources: HashMap::new() };
        assert(r@ =~= Map::<Entity, Seq<T>>::empty());
        r
    }

    /// Adds a sample to the history of a source. A source that is new to
    /// the listener starts on an empty history.
    pub fn update(&mut self, source: Entity, sample: T)
        ensures
            final(self)@ == old(self)@.insert(
                source,
                pushed(
                    if old(self)@.contains_key(source) {
                        old(self)@[source]
                    } else {
                        Seq::<T>::empty()
                    },
                    sample,
                    DEFAULT_MAX_POSITIONS,
                ),
            ),
    {
        proof {
            use_type_invariant(&*self);
        }
        let mut sources = HashMap::new();
        std::mem::swap(&mut sources, &mut self.sources);
        let mut data = match sources.remove(&source.0) {
            Some(data) => data,
            None => DopplerData::new(),
        };
        data.push(sample);
        proof {
            use_type_invariant(&data);
        }
        sources.insert(source.0, data);
        self.sources = sources;
        assert(self@ =~= old(self)@.insert(
            source,
            pushed(
                if old(self)@.contains_key(source) {
                    old(self)@[source]
                } else {
                    Seq::<T>::empty()
                },
                sample,
                DEFAULT_MAX_POSITIONS,
            ),
        ));
    }

    /// Forgets a source and its history.
    pub fn remove(&mut self, source: Entity)
        ensures
            final(self)@ == old(self)@.remove(source),
    {
        proof {
            use_type_invariant(&*self);
        }
        let mut sources = HashMap::new();
        std::mem::swap(&mut sources, &mut self.sources);
        sources.remove(&source.0);
        self.sources = sources;
        assert(self@ =~= old(self)@.remove(source));
    }

    /// The history from which the speed of a source can be estimated: the
    /// one the listener has of the source, provided it holds two samples
    /// or more. Without it there is no estimate.
    pub fn estimable(&self, source: Entity) -> (r: Option<&DopplerData<T>>)
        ensures
            r is Some == (self@.contains_key(source) && interval_count(self@[source]) is Some),
            r matches Some(data) ==> data@ == self@[source],
    {
        match self.sources.get(&source.0) {
            Some(data) => if data.len() >= 2 {
                Some(data)
            } else {
                None
            },
            None => None,
        }
    }

    /// The history of a source, if the listener has sampled it.
    pub fn get(&self, source: Entity) -> (r: Option<&DopplerData<T>>)
        ensures
            r is Some == self@.contains_key(source),
            r matches Some(data) ==> data@ == self@[source],
    {
        self.sources.get(&source.0)
    }
}

/// The place of the floating-point number with the given bits in the total
/// order: the number of one set of bits comes before that of another
/// exactly when its place is the smaller one. Without a sign bit the bits
/// themselves give the place; with it, larger bits come earlier.
pub open spec fn total_order_place(bits: u32) -> int {
    if bits < 0x8000_0000 {
        bits as int
    } else {
        0x7fff_ffff - bits
    }
}

/// The place of the number with the given bits in the total order.
pub fn place(bits: u32) -> (r: i64)
    ensures
        r == total_order_place(bits),
{
    if bits < 0x8000_0000 {
        bits as i64
    } else {
        0x7fff_ffff - (bits as i64)
    }
}

/// Whether `nearest` is the first of `distances` that none of the others
/// comes before.
pub open spec fn is_nearest(distances: Seq<u32>, nearest: int) -> bool {
    &&& 0 <= nearest < distances.len()
    &&& forall|j: int|
        0 <= j < distances.len() ==> total_order_place(distances[nearest]) <= total_order_place(
            #[trigger] distances[j],
        )
    &&& forall|j: int|
        0 <= j < nearest ==> total_order_place(distances[nearest]) < total_order_place(
            #[trigger] distances[j],
        )
}

/// The listener that is nearest to a source, given the distance of every
/// listener as the bits of a number: the first listener at the least
/// distance. There is none where there are no listeners.
pub fn nearest_listener(distances: &Vec<u32>) -> (r: Option<usize>)
    ensures
        match r {
            Some(nearest) => is_nearest(distances@, nearest as int),
            None => distances@.len() == 0,
        },
{
    if distances.len() == 0 {
        return None;
    }
    let mut nearest: usize = 0;
    let mut i: usize = 1;
    while i < distances.len()
        invariant
            1 <= i <= distances@.len(),
            nearest < i,
            forall|j: int|
                0 <= j < i ==> total_order_place(distances@[nearest as int]) <= total_order_place(
                    #[trigger] distances@[j],
                ),
            forall|j: int|
                0 <= j < nearest ==> total_order_place(distances@[nearest as int])
                    < total_order_place(#[trigger] distances@[j]),
        decreases distances@.len() - i,
    {
        if place(distances[i]) < place(distances[nearest]) {
            nearest = i;
        }
        i += 1;
    }
    Some(nearest)
}

} // verus!

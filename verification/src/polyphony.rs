//! Polyphony limiting: the queue of sounds that are playing, oldest first.

use crate::config::DEFAULT_MAX_POLYPHONY;
use std::collections::VecDeque;
use vstd::prelude::*;

verus! {

/// The voices of `voices` whose flag in `finished` is false, in their order.
pub open spec fn unfinished<S>(voices: Seq<S>, finished: Seq<bool>) -> Seq<S>
    decreases voices.len(),
{
    if voices.len() == 0 {
        Seq::empty()
    } else {
        let rest = unfinished(voices.drop_last(), finished.drop_last());
        if finished.last() {
            rest
        } else {
            rest.push(voices.last())
        }
    }
}

/// How many of `len` voices must stop so that one more fits under `limit`.
pub open spec fn excess(len: nat, limit: nat) -> nat {
    if len >= limit {
        (len - limit + 1) as nat
    } else {
        0
    }
}

/// The voices that stop when the limit is enforced: the oldest unfinished ones.
pub open spec fn evicted_voices<S>(voices: Seq<S>, finished: Seq<bool>, limit: nat) -> Seq<S> {
    let kept = unfinished(voices, finished);
    kept.take(excess(kept.len(), limit) as int)
}

/// The voices that keep playing when the limit is enforced.
pub open spec fn remaining_voices<S>(voices: Seq<S>, finished: Seq<bool>, limit: nat) -> Seq<S> {
    let kept = unfinished(voices, finished);
    kept.skip(excess(kept.len(), limit) as int)
}

/// Tracks the sounds that are playing and enforces the polyphony limit.
pub struct PolyphonyQueue<S> {
    active: VecDeque<S>,
    max_polyphony: usize,
}

impl<S> PolyphonyQueue<S> {
    /// The limit is at least one sound.
    #[verifier::type_invariant]
    spec fn limit_positive(self) -> bool {
        self.max_polyphony >= 1
    }

    /// The tracked voices, oldest first.
    pub closed spec fn voices(self) -> Seq<S> {
        self.active@
    }

    /// The maximum number of simultaneous sounds.
    pub closed spec fn limit(self) -> nat {
        self.max_polyphony as nat
    }

    /// An empty queue with the default limit.
    pub fn new() -> (q: Self)
        ensures
            q.voices() == Seq::<S>::empty(),
            q.limit() == 5,
    {
        PolyphonyQueue { active: VecDeque::new(), max_polyphony: DEFAULT_MAX_POLYPHONY }
    }

    /// Sets the limit; a limit below one becomes one.
    pub fn set_max_polyphony(&mut self, max: usize)
        ensures
            final(self).limit() == if max >= 1 { max as nat } else { 1 },
            final(self).voices() == old(self).voices(),
    {
        self.max_polyphony = if max >= 1 { max } else { 1 };
    }

    /// The current limit.
    pub fn max_polyphony(&self) -> (r: usize)
        ensures
            r == self.limit(),
    {
        self.max_polyphony
    }

    /// The tracked voices, oldest first.
    pub fn active(&self) -> (r: &VecDeque<S>)
        ensures
            r@ == self.voices(),
    {
        &self.active
    }

    /// The number of tracked voices.
    pub fn len(&self) -> (r: usize)
        ensures
            r == self.voices().len(),
    {
        self.active.len()
    }

    /// Drops the finished voices (`finished[i]` tells whether the `i`-th
    /// voice has finished), then, while the limit leaves no room for one more
    /// sound, removes the oldest voices and hands them back to be stopped.
    pub fn enforce_polyphony(&mut self, finished: &Vec<bool>) -> (stopped: Vec<S>)
        requires
            finished@.len() == old(self).voices().len(),
        ensures
            stopped@ == evicted_voices(old(self).voices(), finished@, old(self).limit()),
            final(self).voices() == remaining_voices(old(self).voices(), finished@, old(self).limit()),
            final(self).limit() == old(self).limit(),
            final(self).voices().len() < final(self).limit(),
    {
        proof {
            use_type_invariant(&*self);
        }
        let ghost voices = self.active@;
        let ghost flags = finished@;
        let mut old_active: VecDeque<S> = VecDeque::new();
        std::mem::swap(&mut old_active, &mut self.active);
        let mut kept: VecDeque<S> = VecDeque::new();
        let n = finished.len();
        let mut i: usize = 0;
        while i < n
            invariant
                n == flags.len(),
                flags == finished@,
                voices.len() == n,
                i <= n,
                old_active@ == voices.skip(i as int),
                kept@ == unfinished(voices.take(i as int), flags.take(i as int)),
            decreases n - i,
        {
            let v = old_active.pop_front();
            assert(voices.take(i + 1).drop_last() =~= voices.take(i as int));
            assert(flags.take(i + 1).drop_last() =~= flags.take(i as int));
            assert(voices.skip(i as int).skip(1) =~= voices.skip(i + 1));
            match v {
                Some(voice) => {
                    if !finished[i] {
                        kept.push_back(voice);
                    }
                },
                None => {},
            }
            i = i + 1;
        }
        assert(voices.take(n as int) =~= voices);
        assert(flags.take(n as int) =~= flags);
        let ghost all_kept = kept@;
        let mut stopped: Vec<S> = Vec::new();
        while kept.len() >= self.max_polyphony
            invariant
                self.max_polyphony >= 1,
                all_kept == unfinished(voices, flags),
                stopped@.len() <= all_kept.len(),
                stopped@ == all_kept.take(stopped@.len() as int),
                kept@ == all_kept.skip(stopped@.len() as int),
                stopped@.len() <= excess(all_kept.len(), self.max_polyphony as nat),
            decreases kept.len(),
        {
            let ghost before = stopped@.len();
            match kept.pop_front() {
                Some(voice) => {
                    stopped.push(voice);
                    assert(all_kept.take(before as int + 1) =~= all_kept.take(before as int).push(all_kept[before as int]));
                    assert(all_kept.skip(before as int).subrange(1, all_kept.skip(before as int).len() as int)
                        =~= all_kept.skip(before as int + 1));
                },
                None => {},
            }
        }
        self.active = kept;
        stopped
    }

    /// Starts tracking a new voice, the newest.
    pub fn push(&mut self, voice: S)
        ensures
            final(self).voices() == old(self).voices().push(voice),
            final(self).limit() == old(self).limit(),
    {
        proof {
            use_type_invariant(&*self);
        }
        let mut active: VecDeque<S> = VecDeque::new();
        std::mem::swap(&mut active, &mut self.active);
        active.push_back(voice);
        self.active = active;
    }
}

/// However many voices play and whichever have finished, after the limit is
/// enforced and one more sound starts, no more than `limit` sounds play; the
/// stopped voices are the oldest unfinished ones and the rest keep their order.
pub proof fn polyphony_limit_holds<S>(voices: Seq<S>, finished: Seq<bool>, limit: nat, new_voice: S)
    requires
        limit >= 1,
        finished.len() == voices.len(),
    ensures
        remaining_voices(voices, finished, limit).push(new_voice).len() <= limit,
        evicted_voices(voices, finished, limit) + remaining_voices(voices, finished, limit)
            == unfinished(voices, finished),
{
    let kept = unfinished(voices, finished);
    assert(kept.take(excess(kept.len(), limit) as int) + kept.skip(excess(kept.len(), limit) as int) =~= kept);
}

/// `idx` lists, in increasing order, exactly the positions whose flag is false.
pub open spec fn lists_unset_positions(idx: Seq<int>, flags: Seq<bool>) -> bool {
    &&& forall|j: int| 0 <= j < idx.len() ==> 0 <= #[trigger] idx[j] < flags.len() && !flags[idx[j]]
    &&& forall|j: int, k: int| 0 <= j < k < idx.len() ==> #[trigger] idx[j] < #[trigger] idx[k]
    &&& forall|i: int| 0 <= i < flags.len() && !#[trigger] flags[i] ==> exists|j: int|
        0 <= j < idx.len() && idx[j] == i
}

proof fn unset_positions<S>(voices: Seq<S>, finished: Seq<bool>) -> (idx: Seq<int>)
    requires
        finished.len() == voices.len(),
    ensures
        lists_unset_positions(idx, finished),
        idx.len() == unfinished(voices, finished).len(),
        forall|j: int| 0 <= j < idx.len() ==> unfinished(voices, finished)[j] == voices[#[trigger] idx[j]],
    decreases voices.len(),
{
    if voices.len() == 0 {
        Seq::empty()
    } else {
        let n = voices.len() - 1;
        let prev = unset_positions(voices.drop_last(), finished.drop_last());
        let fl = finished.drop_last();
        assert forall|j: int| 0 <= j < prev.len() implies 0 <= #[trigger] prev[j] < n && !finished[prev[j]] by {
            assert(fl[prev[j]] == finished[prev[j]]);
        }
        if finished.last() {
            assert forall|i: int| 0 <= i < finished.len() && !#[trigger] finished[i] implies exists|j: int|
                0 <= j < prev.len() && prev[j] == i by {
                assert(i < n);
                assert(!fl[i]);
            }
            prev
        } else {
            let idx = prev.push(n);
            assert forall|j: int| 0 <= j < idx.len() implies 0 <= #[trigger] idx[j] < finished.len()
                && !finished[idx[j]] by {
                if j < prev.len() {
                    assert(idx[j] == prev[j]);
                }
            }
            assert forall|j: int, k: int| 0 <= j < k < idx.len() implies #[trigger] idx[j] < #[trigger] idx[k] by {
                if k < prev.len() {
                    assert(idx[j] == prev[j] && idx[k] == prev[k]);
                } else {
                    assert(idx[j] == prev[j]);
                }
            }
            assert forall|i: int| 0 <= i < finished.len() && !#[trigger] finished[i] implies exists|j: int|
                0 <= j < idx.len() && idx[j] == i by {
                if i < n {
                    assert(!fl[i]);
                    let j = choose|j: int| 0 <= j < prev.len() && prev[j] == i;
                    assert(idx[j] == i);
                } else {
                    assert(idx[prev.len() as int] == i);
                }
            }
            assert forall|j: int| 0 <= j < idx.len() implies unfinished(voices, finished)[j] == voices[#[trigger] idx[j]] by {
                if j < prev.len() {
                    assert(idx[j] == prev[j]);
                    assert(voices.drop_last()[prev[j]] == voices[prev[j]]);
                }
            }
            idx
        }
    }
}

/// Cleaning up keeps exactly the voices whose finished flag is false, in
/// their order: the kept voices are the voices at the increasing list of all
/// positions with a false flag, and no voice with a true flag is kept.
pub proof fn cleanup_keeps_exactly_unfinished<S>(voices: Seq<S>, finished: Seq<bool>)
    requires
        finished.len() == voices.len(),
    ensures
        exists|idx: Seq<int>|
            {
                &&& lists_unset_positions(idx, finished)
                &&& #[trigger] idx.len() == unfinished(voices, finished).len()
                &&& forall|j: int| 0 <= j < idx.len() ==> unfinished(voices, finished)[j] == voices[#[trigger] idx[j]]
            },
{
    let idx = unset_positions(voices, finished);
    assert(idx.len() == unfinished(voices, finished).len());
}

/// Of the `k` voices still playing after clean-up, exactly `k - limit + 1`
/// (none when `k < limit`) are stopped, the oldest ones, and the others keep
/// playing in their order.
pub proof fn stops_just_enough_oldest<S>(voices: Seq<S>, finished: Seq<bool>, limit: nat)
    requires
        limit >= 1,
        finished.len() == voices.len(),
    ensures
        ({
            let k = unfinished(voices, finished).len();
            &&& evicted_voices(voices, finished, limit).len() == if k >= limit { k - limit + 1 } else { 0int }
            &&& remaining_voices(voices, finished, limit).len() == if k >= limit { limit - 1 } else { k as int }
            &&& evicted_voices(voices, finished, limit) + remaining_voices(voices, finished, limit)
                == unfinished(voices, finished)
        }),
{
    let kept = unfinished(voices, finished);
    assert(kept.take(excess(kept.len(), limit) as int) + kept.skip(excess(kept.len(), limit) as int) =~= kept);
}

} // verus!

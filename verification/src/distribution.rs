//! Bounded frequency histogram with overflow counting. Profiling feeds it
//! execution samples; speculation asks it for the dominant observed category
//! at a call site.

use vstd::prelude::*;
use vstd::std_specs::cmp::PartialEqSpec;

verus! {

/// A bounded histogram: at most `capacity` buckets, created on first sight
/// and never evicted, each with an occurrence count, plus an overflow counter
/// for observations made once the buckets are full.
///
/// Buckets are matched by the item type's own equality, so everything the
/// contracts say about matching is phrased over `T::eq_spec`.
pub struct Distribution<T: Copy + PartialEq> {
    /// Observed items, in creation order. Parallel to `counts`.
    pub buckets: Vec<T>,
    /// `counts[i]` is how often `buckets[i]` has been observed.
    pub counts: Vec<usize>,
    /// Maximum number of buckets, fixed at construction.
    pub capacity: usize,
    /// Observations that found no matching bucket and no room for a new one.
    pub other: usize,
}

impl<T: Copy + PartialEq> Distribution<T> {
    /// One bucket per count, and never more buckets than the capacity allows.
    pub open spec fn wf(&self) -> bool {
        &&& self.buckets@.len() == self.counts@.len()
        &&& self.buckets@.len() <= self.capacity
    }

    /// `i` is the first bucket of `s` that `item` matches.
    pub open spec fn is_first_match(s: Seq<T>, item: T, i: int) -> bool {
        &&& 0 <= i < s.len()
        &&& s[i].eq_spec(&item)
        &&& forall|j: int| 0 <= j < i ==> !s[j].eq_spec(&item)
    }

    /// `item` matches no bucket of `s`.
    pub open spec fn no_match(s: Seq<T>, item: T) -> bool {
        forall|i: int| 0 <= i < s.len() ==> !s[i].eq_spec(&item)
    }

    /// Every count, and the overflow counter, has room for one more
    /// observation.
    pub open spec fn can_count(&self) -> bool {
        &&& forall|i: int| 0 <= i < self.counts@.len() ==> self.counts@[i] < usize::MAX
        &&& self.other < usize::MAX
    }

    /// An empty histogram with room for `capacity` buckets.
    pub fn new(capacity: usize) -> (r: Self)
        ensures
            r.wf(),
            r.capacity == capacity,
            r.buckets@.len() == 0,
            r.counts@.len() == 0,
            r.other == 0,
    {
        Distribution { buckets: Vec::new(), counts: Vec::new(), capacity, other: 0 }
    }

    /// Records one observation of `item`: the first matching bucket's count
    /// is incremented; failing that, a new bucket is created if there is
    /// room; failing that, the overflow counter is incremented.
    pub fn observe(&mut self, item: T)
        requires
            old(self).wf(),
            old(self).can_count(),
            T::obeys_eq_spec(),
        ensures
            final(self).wf(),
            final(self).capacity == old(self).capacity,
            forall|i: int|
                Self::is_first_match(old(self).buckets@, item, i) ==> {
                    &&& final(self).buckets@ == old(self).buckets@
                    &&& final(self).counts@ == old(self).counts@.update(
                        i,
                        (old(self).counts@[i] + 1) as usize,
                    )
                    &&& final(self).other == old(self).other
                },
            Self::no_match(old(self).buckets@, item) && old(self).buckets@.len() < old(
                self,
            ).capacity ==> {
                &&& final(self).buckets@ == old(self).buckets@.push(item)
                &&& final(self).counts@ == old(self).counts@.push(1)
                &&& final(self).other == old(self).other
            },
            Self::no_match(old(self).buckets@, item) && old(self).buckets@.len() >= old(
                self,
            ).capacity ==> {
                &&& final(self).buckets@ == old(self).buckets@
                &&& final(self).counts@ == old(self).counts@
                &&& final(self).other == old(self).other + 1
            },
    {
        let mut i: usize = 0;
        while i < self.buckets.len()
            invariant
                self == old(self),
                old(self).wf(),
                old(self).can_count(),
                T::obeys_eq_spec(),
                i <= self.buckets@.len(),
                forall|j: int| 0 <= j < i ==> !self.buckets@[j].eq_spec(&item),
            decreases self.buckets@.len() - i,
        {
            if self.buckets[i] == item {
                let c = self.counts[i];
                self.counts.set(i, c + 1);
                return ;
            }
            i += 1;
        }
        if self.buckets.len() < self.capacity {
            self.buckets.push(item);
            self.counts.push(1);
        } else {
            self.other = self.other + 1;
        }
    }

    /// The bucket with the strictly highest count, taking the first bucket in
    /// creation order on ties, or none if no bucket exists. The overflow
    /// counter is deliberately ignored, even when it dominates the true
    /// distribution.
    pub fn most_common(&self) -> (r: Option<T>)
        requires
            self.wf(),
        ensures
            match r {
                None => self.buckets@.len() == 0,
                Some(b) => exists|i: int|
                    {
                        &&& 0 <= i < self.buckets@.len()
                        &&& b == self.buckets@[i]
                        &&& forall|j: int|
                            0 <= j < self.counts@.len() ==> self.counts@[j] <= self.counts@[i]
                        &&& forall|j: int| 0 <= j < i ==> self.counts@[j] < self.counts@[i]
                    },
            },
    {
        if self.buckets.len() == 0 {
            return None;
        }
        let mut best: usize = 0;
        let mut i: usize = 1;
        while i < self.counts.len()
            invariant
                self.wf(),
                self.buckets@.len() > 0,
                best < i <= self.counts@.len(),
                forall|j: int| 0 <= j < i ==> self.counts@[j] <= self.counts@[best as int],
                forall|j: int| 0 <= j < best ==> self.counts@[j] < self.counts@[best as int],
            decreases self.counts@.len() - i,
        {
            if self.counts[i] > self.counts[best] {
                best = i;
            }
            i += 1;
        }
        let b = self.buckets[best];
        proof {
            let bi = best as int;
            assert({
                &&& 0 <= bi < self.buckets@.len()
                &&& b == self.buckets@[bi]
                &&& forall|j: int| 0 <= j < self.counts@.len() ==> self.counts@[j] <= self.counts@[bi]
                &&& forall|j: int| 0 <= j < bi ==> self.counts@[j] < self.counts@[bi]
            });
        }
        Some(b)
    }
}

/// If some bucket of `s` matches `item`, a first matching bucket exists.
pub proof fn lemma_first_match_exists<T: Copy + PartialEq>(s: Seq<T>, item: T)
    requires
        !Distribution::<T>::no_match(s, item),
    ensures
        exists|i: int| Distribution::<T>::is_first_match(s, item, i),
    decreases s.len(),
{
    if s[0].eq_spec(&item) {
        assert(Distribution::<T>::is_first_match(s, item, 0));
    } else {
        let rest = s.drop_first();
        assert(!Distribution::<T>::no_match(rest, item)) by {
            let w = choose|i: int| 0 <= i < s.len() && s[i].eq_spec(&item);
            assert(rest[w - 1] == s[w] && rest[w - 1].eq_spec(&item));
        }
        lemma_first_match_exists(rest, item);
        let i = choose|i: int| Distribution::<T>::is_first_match(rest, item, i);
        assert forall|j: int| 0 <= j < i + 1 implies !s[j].eq_spec(&item) by {
            if j > 0 {
                assert(s[j] == rest[j - 1]);
            }
        }
        assert(Distribution::<T>::is_first_match(s, item, i + 1));
    }
}

} // verus!

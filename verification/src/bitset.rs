//! Dense fixed-capacity bit set over small integer indices, the
//! change-tracking building block for fixed-point dataflow analyses.

use vstd::prelude::*;

verus! {

/// Bit `b` of the word `e`.
pub open spec fn nth_bit(e: u64, b: u64) -> bool
    recommends
        b < 64,
{
    (e >> b) & 1 == 1
}

/// A set of bits with a capacity fixed at construction. The view is the
/// sequence of all `capacity` bits, so `self@[i]` is bit `i`.
pub struct BitSet {
    storage: Vec<u64>,
    num_bits: usize,
}

impl View for BitSet {
    type V = Seq<bool>;

    closed spec fn view(&self) -> Seq<bool> {
        Seq::new(self.num_bits as nat, |i: int| self.spec_bit(i))
    }
}

impl BitSet {
    /// Bit `i` as stored, including the padding bits of the last word.
    closed spec fn spec_bit(&self, i: int) -> bool {
        nth_bit(self.storage@[i / 64], (i % 64) as u64)
    }

    /// The storage is exactly large enough for `num_bits`, and every bit at
    /// or above `num_bits` is clear.
    pub closed spec fn wf(&self) -> bool {
        &&& self.storage@.len() == self.num_bits / 64 + 1
        &&& forall|i: int|
            self.num_bits <= i < self.storage@.len() * 64 ==> !self.spec_bit(i)
    }

    /// A set of `num_bits` bits, all clear.
    pub fn with_capacity(num_bits: usize) -> (r: Self)
        ensures
            r.wf(),
            r@.len() == num_bits,
            forall|i: int| 0 <= i < num_bits ==> !r@[i],
    {
        let num_entries = num_bits / 64 + 1;
        let mut storage: Vec<u64> = Vec::new();
        while storage.len() < num_entries
            invariant
                storage@.len() <= num_entries,
                forall|j: int| 0 <= j < storage@.len() ==> storage@[j] == 0u64,
            decreases num_entries - storage@.len(),
        {
            storage.push(0u64);
        }
        let r = BitSet { storage, num_bits };
        proof {
            assert forall|i: int| 0 <= i < r.storage@.len() * 64 implies !r.spec_bit(i) by {
                lemma_bit_index(i, r.storage@.len() as int);
                let b = (i % 64) as u64;
                assert(!nth_bit(0u64, b)) by (bit_vector);
            }
        }
        r
    }

    /// Sets bit `idx`. Returns whether the bit was newly inserted: `true` if
    /// the set did not originally contain it, and `false` otherwise.
    pub fn insert(&mut self, idx: usize) -> (newly: bool)
        requires
            old(self).wf(),
            idx < old(self)@.len(),
        ensures
            final(self).wf(),
            final(self)@ == old(self)@.update(idx as int, true),
            newly == !old(self)@[idx as int],
    {
        proof {
            lemma_bit_in_storage(idx as int, self.num_bits as int);
        }
        let entry_idx = idx / 64;
        let bit_idx = (idx % 64) as u64;
        let e = self.storage[entry_idx];
        let newly = (e & (1u64 << bit_idx)) == 0;
        self.storage.set(entry_idx, e | (1u64 << bit_idx));
        proof {
            lemma_or_set_bit(e, bit_idx);
            assert forall|i: int| 0 <= i < old(self).storage@.len() * 64 && i != idx
                implies self.spec_bit(i) == old(self).spec_bit(i) by {
                lemma_bit_index(i, old(self).storage@.len() as int);
                if i / 64 == idx / 64 {
                    vstd::arithmetic::div_mod::lemma_fundamental_div_mod(i, 64);
                    vstd::arithmetic::div_mod::lemma_fundamental_div_mod(idx as int, 64);
                    let b2 = (i % 64) as u64;
                    assert(b2 != bit_idx);
                    lemma_or_other_bit(e, bit_idx, b2);
                }
            }
            assert(self.spec_bit(idx as int));
            assert(final(self)@ =~= old(self)@.update(idx as int, true));
        }
        newly
    }

    /// Whether bit `idx` is set.
    pub fn get(&self, idx: usize) -> (r: bool)
        requires
            self.wf(),
            idx < self@.len(),
        ensures
            r == self@[idx as int],
    {
        proof {
            lemma_bit_in_storage(idx as int, self.num_bits as int);
        }
        let entry_idx = idx / 64;
        let bit_idx = (idx % 64) as u64;
        let r = (self.storage[entry_idx] & (1u64 << bit_idx)) != 0;
        proof {
            let e = self.storage@[entry_idx as int];
            lemma_or_set_bit(e, bit_idx);
        }
        r
    }

    /// Clears every bit of `self` that is not also set in `other`. Returns
    /// whether `self` changed. Both sets must have the same capacity.
    pub fn intersect_with(&mut self, other: &BitSet) -> (changed: bool)
        requires
            old(self).wf(),
            other.wf(),
            old(self)@.len() == other@.len(),
        ensures
            final(self).wf(),
            final(self)@.len() == old(self)@.len(),
            forall|k: int|
                0 <= k < old(self)@.len() ==> final(self)@[k] == (old(self)@[k] && other@[k]),
            changed <==> exists|k: int| 0 <= k < old(self)@.len() && old(self)@[k] && !other@[k],
    {
        let ghost orig = *self;
        let mut changed = false;
        let mut i: usize = 0;
        while i < self.storage.len()
            invariant
                orig.wf(),
                other.wf(),
                orig@.len() == other@.len(),
                self.num_bits == orig.num_bits,
                self.storage@.len() == orig.storage@.len(),
                orig.storage@.len() == other.storage@.len(),
                i <= self.storage@.len(),
                forall|j: int| i <= j < self.storage@.len() ==> self.storage@[j] == orig.storage@[j],
                forall|j: int|
                    0 <= j < i ==> self.storage@[j] == (orig.storage@[j] & other.storage@[j]),
                changed <==> exists|k: int|
                    0 <= k < orig.num_bits && k / 64 < i && orig.spec_bit(k) && !other.spec_bit(k),
            decreases self.storage@.len() - i,
        {
            let before = self.storage[i];
            let after = before & other.storage[i];
            self.storage.set(i, after);
            if after != before {
                changed = true;
                proof {
                    lemma_and_changed_bit(before, other.storage@[i as int]);
                    let b = choose|b: u64|
                        b < 64 && nth_bit(before, b) && !nth_bit(
                            other.storage@[i as int],
                            b,
                        );
                    let k = i * 64 + b;
                    lemma_recompose(i as int, b as int);
                    assert(orig.spec_bit(k as int) && !other.spec_bit(k as int));
                    assert(k < orig.num_bits) by {
                        if k >= orig.num_bits {
                            assert(k < orig.storage@.len() * 64) by (nonlinear_arith)
                                requires
                                    k == i * 64 + b,
                                    b < 64,
                                    i < orig.storage@.len(),
                            ;
                            assert(!orig.spec_bit(k as int));
                        }
                    }
                }
            } else {
                proof {
                    lemma_and_bits(before, other.storage@[i as int]);
                    assert forall|k: int|
                        0 <= k < orig.num_bits && k / 64 == i && orig.spec_bit(k) && !other.spec_bit(
                            k,
                        ) implies false by {
                        vstd::arithmetic::div_mod::lemma_fundamental_div_mod(k, 64);
                        let b = (k % 64) as u64;
                        assert(nth_bit(before, b) && !nth_bit(other.storage@[i as int], b));
                        assert(nth_bit(before & other.storage@[i as int], b) == (nth_bit(
                            before,
                            b,
                        ) && nth_bit(other.storage@[i as int], b)));
                    }
                }
            }
            proof {
                lemma_and_bits(before, other.storage@[i as int]);
            }
            i += 1;
        }
        proof {
            assert(orig == *old(self));
            assert forall|k: int| 0 <= k < self.storage@.len() * 64 implies self.spec_bit(k) == (
            orig.spec_bit(k) && other.spec_bit(k)) by {
                lemma_bit_index(k, self.storage@.len() as int);
                lemma_and_bits(orig.storage@[k / 64], other.storage@[k / 64]);
            }
            assert forall|k: int| 0 <= k < orig.num_bits implies self@[k] == (orig@[k]
                && other@[k]) by {
                lemma_bit_in_storage(k, orig.num_bits as int);
                assert(k < self.storage@.len() * 64);
            }
            assert(self.storage@.len() == self.num_bits / 64 + 1);
            assert forall|k: int|
                self.num_bits <= k < self.storage@.len() * 64 implies !self.spec_bit(k) by {
                assert(!orig.spec_bit(k));
            }
            if changed {
                let k = choose|k: int|
                    0 <= k < orig.num_bits && k / 64 < i && orig.spec_bit(k) && !other.spec_bit(k);
                assert(orig@[k] && !other@[k]);
            }
            if exists|k: int| 0 <= k < orig@.len() && orig@[k] && !other@[k] {
                let k = choose|k: int| 0 <= k < orig@.len() && orig@[k] && !other@[k];
                lemma_bit_in_storage(k, orig.num_bits as int);
                assert(0 <= k < orig.num_bits && k / 64 < i && orig.spec_bit(k)
                    && !other.spec_bit(k));
                assert(changed);
            }
        }
        changed
    }
}

/// Any index below `n * 64` falls in a word below `n`, at a bit offset
/// below 64.
proof fn lemma_bit_index(i: int, n: int)
    requires
        0 <= i,
        0 < n,
        i < n * 64,
    ensures
        0 <= i / 64 < n,
        0 <= i % 64 < 64,
        i == 64 * (i / 64) + (i % 64),
{
    vstd::arithmetic::div_mod::lemma_fundamental_div_mod(i, 64);
}

/// An index below the capacity falls inside the `capacity / 64 + 1` words of
/// storage.
proof fn lemma_bit_in_storage(i: int, num_bits: int)
    requires
        0 <= i < num_bits,
    ensures
        0 <= i / 64 <= num_bits / 64,
        0 <= i % 64 < 64,
        i == 64 * (i / 64) + (i % 64),
        i < (num_bits / 64 + 1) * 64,
{
    vstd::arithmetic::div_mod::lemma_fundamental_div_mod(i, 64);
    vstd::arithmetic::div_mod::lemma_fundamental_div_mod(num_bits, 64);
}

/// Recombining a word index and a bit offset yields the index they came from.
proof fn lemma_recompose(i: int, b: int)
    requires
        0 <= i,
        0 <= b < 64,
    ensures
        (i * 64 + b) / 64 == i,
        (i * 64 + b) % 64 == b,
{
    vstd::arithmetic::div_mod::lemma_fundamental_div_mod_converse(i * 64 + b, 64, i, b);
}

/// Setting bit `b` by or-ing in `1 << b` sets exactly that bit, and testing
/// `e & (1 << b)` reads it.
proof fn lemma_or_set_bit(e: u64, b: u64)
    by (bit_vector)
    requires
        b < 64,
    ensures
        nth_bit(e | (1u64 << b), b),
        ((e & (1u64 << b)) == 0) == !nth_bit(e, b),
{
}

/// Or-ing in `1 << b` leaves every other bit as it was.
proof fn lemma_or_other_bit(e: u64, b: u64, b2: u64)
    by (bit_vector)
    requires
        b < 64,
        b2 < 64,
        b2 != b,
    ensures
        nth_bit(e | (1u64 << b), b2) == nth_bit(e, b2),
{
}

/// `&` acts on each bit independently.
proof fn lemma_and_bits(x: u64, y: u64)
    by (bit_vector)
    ensures
        forall|b: u64| b < 64 ==> nth_bit(x & y, b) == (nth_bit(x, b) && nth_bit(y, b)),
{
}

/// A non-zero word has some bit set.
proof fn lemma_nonzero_has_bit(z: u64)
    requires
        z != 0,
    ensures
        exists|b: u64| b < 64 && nth_bit(z, b),
    decreases z,
{
    if z & 1 == 1 {
        assert(nth_bit(z, 0)) by (bit_vector)
            requires z & 1 == 1,
        ;
    } else {
        let z2 = z >> 1;
        assert(z2 != 0 && z2 < z) by (bit_vector)
            requires z != 0, z & 1 != 1, z2 == z >> 1,
        ;
        lemma_nonzero_has_bit(z2);
        let b = choose|b: u64| b < 64 && nth_bit(z2, b);
        assert(b < 63) by (bit_vector)
            requires b < 64, nth_bit(z >> 1, b),
        ;
        let b1 = (b + 1) as u64;
        assert(nth_bit(z, b1)) by (bit_vector)
            requires b < 63, b1 == b + 1, nth_bit(z >> 1, b),
        ;
    }
}

/// If `x & y` differs from `x`, some bit is set in `x` and clear in `y`.
proof fn lemma_and_changed_bit(x: u64, y: u64)
    requires
        x & y != x,
    ensures
        exists|b: u64| b < 64 && nth_bit(x, b) && !nth_bit(y, b),
{
    let z = x & !y;
    assert(z != 0) by (bit_vector)
        requires x & y != x, z == x & !y,
    ;
    lemma_nonzero_has_bit(z);
    let b = choose|b: u64| b < 64 && nth_bit(z, b);
    assert(nth_bit(x, b) && !nth_bit(y, b)) by (bit_vector)
        requires b < 64, nth_bit(x & !y, b),
    ;
}

} // verus!

//! A small concrete cover item: a set of elements drawn from `0..64`, held as
//! a bit set.  Its covering set is itself, its score is its cardinality, and
//! an update removes the elements that the chosen item already covers.  This
//! is the item type the crate's tests drive the greedy engine with.

use vstd::prelude::*;
use crate::max_cover::MaxCover;

verus! {

/// How many ones the low `n` bits of `x` hold.
pub open spec fn popcount_rec(x: u64, n: nat) -> nat
    decreases n,
{
    if n == 0 {
        0
    } else {
        (x & 1) as nat + popcount_rec(x >> 1, (n - 1) as nat)
    }
}

/// How many ones `x` holds.
pub open spec fn popcount(x: u64) -> nat {
    popcount_rec(x, 64)
}

/// Striking bits out never increases the count.
proof fn lemma_popcount_rec_diff(a: u64, b: u64, n: nat)
    ensures
        popcount_rec(a & !b, n) <= popcount_rec(a, n),
    decreases n,
{
    if n > 0 {
        assert(((a & !b) & 1) <= (a & 1)) by (bit_vector);
        assert((a & !b) >> 1 == (a >> 1) & !(b >> 1)) by (bit_vector);
        lemma_popcount_rec_diff(a >> 1, b >> 1, (n - 1) as nat);
    }
}

/// A set of elements in `0..64`, stored as one bit per element.
#[derive(Debug, PartialEq, Eq, Structural)]
pub struct ElementSet {
    pub bits: u64,
}

impl Clone for ElementSet {
    fn clone(&self) -> (r: Self)
        ensures
            r == *self,
    {
        ElementSet { bits: self.bits }
    }
}

impl ElementSet {
    /// The set holds element `e`.
    pub open spec fn spec_contains(self, e: u64) -> bool {
        e < 64 && (self.bits >> e) & 1 == 1
    }

    /// The set holding exactly the listed elements.
    #[verifier::loop_isolation(false)]
    pub fn from_elements(elements: &Vec<u64>) -> (r: Self)
        requires
            forall|i: int| 0 <= i < elements@.len() ==> elements@[i] < 64,
        ensures
            forall|e: u64| r.spec_contains(e) <==> elements@.contains(e),
    {
        let mut bits: u64 = 0;
        proof {
            assert forall|e: u64| e < 64 implies !((bits >> e) & 1 == 1) by {
                assert((0u64 >> e) & 1 == 0) by (bit_vector);
            }
        }
        let mut i: usize = 0;
        while i < elements.len()
            invariant
                i <= elements@.len(),
                forall|e: u64| e < 64 ==> (((bits >> e) & 1 == 1) <==> elements@.take(
                    i as int,
                ).contains(e)),
            decreases elements@.len() - i,
        {
            let v = elements[i];
            let ghost old_bits = bits;
            bits = bits | (1u64 << v);
            proof {
                let pre = elements@.take(i as int);
                let post = elements@.take(i + 1);
                assert(post.drop_last() =~= pre);
                assert(post[i as int] == v);
                assert forall|e: u64| e < 64 implies (((bits >> e) & 1 == 1) <==> post.contains(
                    e,
                )) by {
                    assert(v < 64 && e < 64 ==> ((((old_bits | (1u64 << v)) >> e) & 1 == 1) <==> ((
                    old_bits >> e) & 1 == 1 || e == v))) by (bit_vector);
                    assert(((old_bits >> e) & 1 == 1) <==> pre.contains(e));
                    if (bits >> e) & 1 == 1 {
                        if e == v {
                            assert(post.contains(e));
                        } else {
                            let w = choose|w: int| 0 <= w < pre.len() && #[trigger] pre[w] == e;
                            assert(pre[w] == elements@[w]);
                            assert(post[w] == elements@[w]);
                            assert(post.contains(e));
                        }
                    } else {
                        if post.contains(e) {
                            let w = choose|w: int| 0 <= w < post.len() && #[trigger] post[w] == e;
                            if w < i {
                                assert(pre[w] == e);
                                assert(pre.contains(e));
                            }
                            assert(false);
                        }
                    }
                }
            }
            i += 1;
        }
        proof {
            assert(elements@.take(elements@.len() as int) =~= elements@);
            assert forall|e: u64| (ElementSet { bits }).spec_contains(e) <==> elements@.contains(
                e,
            ) by {
                if e >= 64 && elements@.contains(e) {
                    let w = choose|w: int| 0 <= w < elements@.len() && #[trigger] elements@[w] == e;
                }
            }
        }
        ElementSet { bits }
    }
}

impl MaxCover for ElementSet {
    type Object = ElementSet;

    type Intermediate = ElementSet;

    type Set = ElementSet;

    open spec fn spec_intermediate(&self) -> ElementSet {
        *self
    }

    open spec fn spec_set(&self) -> ElementSet {
        *self
    }

    open spec fn spec_score(&self) -> nat {
        popcount(self.bits)
    }

    open spec fn spec_update(&self, chosen_intermediate: ElementSet, chosen_set: ElementSet) -> Self {
        ElementSet { bits: self.bits & !chosen_set.bits }
    }

    open spec fn spec_object(intermediate: ElementSet) -> ElementSet {
        intermediate
    }

    proof fn lemma_clone_is_exact(a: Self, b: Self) {
    }

    proof fn lemma_update_monotone(&self, chosen_intermediate: ElementSet, chosen_set: ElementSet) {
        lemma_popcount_rec_diff(self.bits, chosen_set.bits, 64);
    }

    fn intermediate(&self) -> (r: &ElementSet) {
        self
    }

    fn convert_to_object(intermediate: &ElementSet) -> (r: ElementSet) {
        ElementSet { bits: intermediate.bits }
    }

    fn covering_set(&self) -> (r: &ElementSet) {
        self
    }

    fn update_covering_set(&mut self, max_obj: &ElementSet, max_set: &ElementSet) {
        self.bits = self.bits & !max_set.bits;
    }

    fn score(&self) -> (r: usize) {
        let mut x = self.bits;
        let mut count: usize = 0;
        let mut i: usize = 0;
        while i < 64
            invariant
                i <= 64,
                count <= i,
                count as nat + popcount_rec(x, (64 - i) as nat) == popcount(self.bits),
            decreases 64 - i,
        {
            proof {
                assert((x & 1) <= 1) by (bit_vector);
                assert(popcount_rec(x, (64 - i) as nat) == (x & 1) as nat + popcount_rec(
                    x >> 1,
                    (63 - i) as nat,
                ));
            }
            count = count + (x & 1) as usize;
            x = x >> 1;
            i += 1;
        }
        count
    }
}

} // verus!

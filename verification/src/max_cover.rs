//! Greedy approximation for the maximum-coverage problem.
//!
//! Terminology:
//! * `item`: something that implements the [`MaxCover`] trait
//! * `element`: something contained in a set, and covered by the covering set of an item
//! * `object`: something extracted from an item in order to comprise a solution

use vstd::prelude::*;
use vstd::pervasive::cloned;
use vstd::multiset::Multiset;

verus! {

/// Trait for types that we can compute a maximum cover for.
///
/// Each item exposes an intermediate representation, a covering set and a
/// non-negative score.  The engine repeatedly selects the best-scoring item
/// and tells every other item to shrink its covering set accordingly.
///
/// The ghost members pin the behaviour of the executable ones down: every
/// operation is a pure function of the item's value, and an update may never
/// increase an item's score.  Those two laws are what make the greedy loop's
/// per-step maximum valid and what guarantee that solutions come out in
/// non-increasing score order.
pub trait MaxCover: Clone + Sized {
    /// The result type, of which we would eventually like a collection of maximal quality.
    type Object: Clone;
    /// The intermediate object type, which can be converted to `Object`.
    type Intermediate: Clone;
    /// The type used to represent sets.
    type Set: Clone;

    /// The value that `intermediate` returns.
    spec fn spec_intermediate(&self) -> Self::Intermediate;

    /// The value that `covering_set` returns.
    spec fn spec_set(&self) -> Self::Set;

    /// The item's current quality measure.
    spec fn spec_score(&self) -> nat;

    /// The item's value after `update_covering_set` runs with the given arguments.
    spec fn spec_update(
        &self,
        chosen_intermediate: Self::Intermediate,
        chosen_set: Self::Set,
    ) -> Self;

    /// The object that `convert_to_object` extracts from an intermediate representation.
    spec fn spec_object(intermediate: Self::Intermediate) -> Self::Object;

    /// Duplication is exact: a clone of an item is the item's value.
    proof fn lemma_clone_is_exact(a: Self, b: Self)
        requires
            cloned::<Self>(a, b),
        ensures
            a == b,
    ;

    /// An update triggered by another item's selection never increases the score.
    proof fn lemma_update_monotone(
        &self,
        chosen_intermediate: Self::Intermediate,
        chosen_set: Self::Set,
    )
        ensures
            self.spec_update(chosen_intermediate, chosen_set).spec_score() <= self.spec_score(),
    ;

    /// Extract the intermediate object.
    fn intermediate(&self) -> (r: &Self::Intermediate)
        ensures
            *r == self.spec_intermediate(),
    ;

    /// Convert the borrowed intermediate object to an owned object for the solution.
    fn convert_to_object(intermediate: &Self::Intermediate) -> (r: Self::Object)
        ensures
            r == Self::spec_object(*intermediate),
    ;

    /// Get the set of elements covered.
    fn covering_set(&self) -> (r: &Self::Set)
        ensures
            *r == self.spec_set(),
    ;

    /// Update the set of items covered, for the inclusion of some object in the solution.
    fn update_covering_set(&mut self, max_obj: &Self::Intermediate, max_set: &Self::Set)
        ensures
            *final(self) == old(self).spec_update(*max_obj, *max_set),
    ;

    /// The quality of this item's covering set, usually its cardinality.
    fn score(&self) -> (r: usize)
        ensures
            r as nat == self.spec_score(),
    ;
}

/// Helper struct to track which items of the input are still available for inclusion.
/// Saves removing elements from the work vector.
pub struct MaxCoverItem<T> {
    pub item: T,
    pub available: bool,
}

impl<T> MaxCoverItem<T> {
    pub fn new(item: T) -> (r: Self)
        ensures
            r.item == item,
            r.available,
    {
        MaxCoverItem { item, available: true }
    }
}

/// An entry can still be selected: it was not chosen yet and covers something.
pub open spec fn entry_usable<T: MaxCover>(e: MaxCoverItem<T>) -> bool {
    e.available && e.item.spec_score() != 0
}

/// Index of the best usable entry among the first `n` entries of `s`: the one
/// with the maximal score.  A linear scan that replaces its candidate whenever
/// the new score is at least as large produces it, so ties go to the largest
/// index; the rule is deterministic in the input order and nothing more.
pub open spec fn best_in_prefix<T: MaxCover>(s: Seq<MaxCoverItem<T>>, n: int) -> Option<int>
    decreases n,
{
    if n <= 0 {
        None
    } else if !entry_usable(s[n - 1]) {
        best_in_prefix(s, n - 1)
    } else {
        match best_in_prefix(s, n - 1) {
            None => Some(n - 1),
            Some(b) => if s[n - 1].item.spec_score() >= s[b].item.spec_score() {
                Some(n - 1)
            } else {
                Some(b)
            },
        }
    }
}

/// Index of the entry that one round of the greedy loop selects, if any.
pub open spec fn best_entry<T: MaxCover>(s: Seq<MaxCoverItem<T>>) -> Option<int> {
    best_in_prefix(s, s.len() as int)
}

/// The working entries after one round that selected entry `b`: the selected
/// entry becomes unavailable, and every other usable entry shrinks its
/// covering set for the inclusion of the selected item.
pub open spec fn select_round<T: MaxCover>(s: Seq<MaxCoverItem<T>>, b: int) -> Seq<MaxCoverItem<T>> {
    let chosen = s[b].item;
    Seq::new(
        s.len(),
        |j: int|
            if j == b {
                MaxCoverItem { item: chosen, available: false }
            } else if entry_usable(s[j]) {
                MaxCoverItem {
                    item: s[j].item.spec_update(chosen.spec_intermediate(), chosen.spec_set()),
                    available: s[j].available,
                }
            } else {
                s[j]
            },
    )
}

/// The sequence of items that up to `limit` greedy rounds select from the
/// working entries `s`, in order of selection.
pub open spec fn greedy_cover<T: MaxCover>(s: Seq<MaxCoverItem<T>>, limit: nat) -> Seq<T>
    decreases limit,
{
    if limit == 0 {
        Seq::empty()
    } else {
        match best_entry(s) {
            None => Seq::empty(),
            Some(b) => seq![s[b].item] + greedy_cover(select_round(s, b), (limit - 1) as nat),
        }
    }
}

/// The initial working entries for an input collection: one available entry
/// per item whose score is not zero, in input order.
pub open spec fn nonzero_entries<T: MaxCover>(items: Seq<T>) -> Seq<MaxCoverItem<T>>
    decreases items.len(),
{
    if items.len() == 0 {
        Seq::empty()
    } else if items.last().spec_score() != 0 {
        nonzero_entries(items.drop_last()).push(MaxCoverItem { item: items.last(), available: true })
    } else {
        nonzero_entries(items.drop_last())
    }
}

/// What `maximum_cover` returns: the greedy selection over the non-zero-score
/// part of the input, bounded by `limit`.
pub open spec fn spec_maximum_cover<T: MaxCover>(items: Seq<T>, limit: nat) -> Seq<T> {
    greedy_cover(nonzero_entries(items), limit)
}

/// The number of usable entries of `s`.
pub open spec fn usable_count<T: MaxCover>(s: Seq<MaxCoverItem<T>>) -> nat
    decreases s.len(),
{
    if s.len() == 0 {
        0
    } else {
        usable_count(s.drop_last()) + (if entry_usable(s.last()) {
            1nat
        } else {
            0nat
        })
    }
}

/// `best_in_prefix` points at a usable entry that no usable entry of the
/// prefix beats, and returns `None` only when the prefix holds no usable entry.
proof fn lemma_best_in_prefix_props<T: MaxCover>(s: Seq<MaxCoverItem<T>>, n: int)
    requires
        0 <= n <= s.len(),
    ensures
        best_in_prefix(s, n) is None ==> forall|j: int| 0 <= j < n ==> !entry_usable(#[trigger] s[j]),
        best_in_prefix(s, n) matches Some(b) ==> 0 <= b < n && entry_usable(s[b]) && forall|j: int|
            0 <= j < n && entry_usable(#[trigger] s[j]) ==> s[j].item.spec_score()
                <= s[b].item.spec_score(),
    decreases n,
{
    if n > 0 {
        lemma_best_in_prefix_props(s, n - 1);
    }
}

proof fn lemma_usable_count_le<T: MaxCover>(t: Seq<MaxCoverItem<T>>, s: Seq<MaxCoverItem<T>>)
    requires
        t.len() == s.len(),
        forall|k: int| 0 <= k < t.len() && entry_usable(#[trigger] t[k]) ==> entry_usable(s[k]),
    ensures
        usable_count(t) <= usable_count(s),
    decreases t.len(),
{
    if t.len() > 0 {
        lemma_usable_count_le(t.drop_last(), s.drop_last());
    }
}

proof fn lemma_usable_count_lt<T: MaxCover>(
    t: Seq<MaxCoverItem<T>>,
    s: Seq<MaxCoverItem<T>>,
    b: int,
)
    requires
        t.len() == s.len(),
        forall|k: int| 0 <= k < t.len() && entry_usable(#[trigger] t[k]) ==> entry_usable(s[k]),
        0 <= b < s.len(),
        entry_usable(s[b]),
        !entry_usable(t[b]),
    ensures
        usable_count(t) < usable_count(s),
    decreases t.len(),
{
    if b == t.len() - 1 {
        lemma_usable_count_le(t.drop_last(), s.drop_last());
    } else {
        lemma_usable_count_lt(t.drop_last(), s.drop_last(), b);
    }
}

proof fn lemma_usable_count_full<T: MaxCover>(s: Seq<MaxCoverItem<T>>)
    requires
        forall|k: int| 0 <= k < s.len() ==> entry_usable(#[trigger] s[k]),
    ensures
        usable_count(s) == s.len(),
    decreases s.len(),
{
    if s.len() > 0 {
        lemma_usable_count_full(s.drop_last());
    }
}

/// Every initial working entry is available with a non-zero score.
proof fn lemma_nonzero_entries_usable<T: MaxCover>(items: Seq<T>)
    ensures
        forall|k: int| 0 <= k < nonzero_entries(items).len() ==> entry_usable(
            #[trigger] nonzero_entries(items)[k],
        ),
    decreases items.len(),
{
    if items.len() > 0 {
        lemma_nonzero_entries_usable(items.drop_last());
        let prev = nonzero_entries(items.drop_last());
        assert forall|k: int| 0 <= k < nonzero_entries(items).len() implies entry_usable(
            nonzero_entries(items)[k],
        ) by {
            if k < prev.len() {
                assert(entry_usable(prev[k]));
            }
        }
    }
}

/// One round keeps entries usable only if they were usable before, makes the
/// selected entry unusable, and never increases any entry's score.
proof fn lemma_select_round_props<T: MaxCover>(s: Seq<MaxCoverItem<T>>, b: int)
    requires
        0 <= b < s.len(),
    ensures
        select_round(s, b).len() == s.len(),
        !entry_usable(select_round(s, b)[b]),
        forall|k: int| 0 <= k < s.len() && entry_usable(#[trigger] select_round(s, b)[k])
            ==> entry_usable(s[k]) && select_round(s, b)[k].item.spec_score()
            <= s[k].item.spec_score(),
{
    assert forall|k: int|
        0 <= k < s.len() && entry_usable(#[trigger] select_round(s, b)[k]) implies entry_usable(
        s[k],
    ) && select_round(s, b)[k].item.spec_score() <= s[k].item.spec_score() by {
        if k != b && entry_usable(s[k]) {
            s[k].item.lemma_update_monotone(s[b].item.spec_intermediate(), s[b].item.spec_set());
        }
    }
}

proof fn lemma_greedy_cover_len<T: MaxCover>(s: Seq<MaxCoverItem<T>>, limit: nat)
    ensures
        greedy_cover(s, limit).len() <= limit,
        greedy_cover(s, limit).len() <= usable_count(s),
    decreases limit,
{
    if limit > 0 {
        match best_entry(s) {
            None => {},
            Some(b) => {
                lemma_best_in_prefix_props(s, s.len() as int);
                lemma_select_round_props(s, b);
                lemma_usable_count_lt(select_round(s, b), s, b);
                lemma_greedy_cover_len(select_round(s, b), (limit - 1) as nat);
            },
        }
    }
}

proof fn lemma_greedy_cover_nonzero<T: MaxCover>(s: Seq<MaxCoverItem<T>>, limit: nat)
    ensures
        forall|k: int| 0 <= k < greedy_cover(s, limit).len() ==> (#[trigger] greedy_cover(
            s,
            limit,
        )[k]).spec_score() != 0,
    decreases limit,
{
    if limit > 0 {
        match best_entry(s) {
            None => {},
            Some(b) => {
                lemma_best_in_prefix_props(s, s.len() as int);
                lemma_greedy_cover_nonzero(select_round(s, b), (limit - 1) as nat);
                let tail = greedy_cover(select_round(s, b), (limit - 1) as nat);
                assert forall|k: int| 0 <= k < greedy_cover(s, limit).len() implies (
                #[trigger] greedy_cover(s, limit)[k]).spec_score() != 0 by {
                    if k > 0 {
                        assert(greedy_cover(s, limit)[k] == tail[k - 1]);
                    }
                }
            },
        }
    }
}

proof fn lemma_greedy_cover_bounded<T: MaxCover>(s: Seq<MaxCoverItem<T>>, limit: nat, c: nat)
    requires
        forall|j: int| 0 <= j < s.len() && entry_usable(#[trigger] s[j]) ==> s[j].item.spec_score()
            <= c,
    ensures
        forall|k: int| 0 <= k < greedy_cover(s, limit).len() ==> (#[trigger] greedy_cover(
            s,
            limit,
        )[k]).spec_score() <= c,
    decreases limit,
{
    if limit > 0 {
        match best_entry(s) {
            None => {},
            Some(b) => {
                lemma_best_in_prefix_props(s, s.len() as int);
                lemma_select_round_props(s, b);
                lemma_greedy_cover_bounded(select_round(s, b), (limit - 1) as nat, c);
                let tail = greedy_cover(select_round(s, b), (limit - 1) as nat);
                assert forall|k: int| 0 <= k < greedy_cover(s, limit).len() implies (
                #[trigger] greedy_cover(s, limit)[k]).spec_score() <= c by {
                    if k > 0 {
                        assert(greedy_cover(s, limit)[k] == tail[k - 1]);
                    }
                }
            },
        }
    }
}

proof fn lemma_greedy_cover_descending<T: MaxCover>(s: Seq<MaxCoverItem<T>>, limit: nat)
    ensures
        forall|k: int| 0 <= k && k + 1 < greedy_cover(s, limit).len() ==> (#[trigger] greedy_cover(
            s,
            limit,
        )[k + 1]).spec_score() <= greedy_cover(s, limit)[k].spec_score(),
    decreases limit,
{
    if limit > 0 {
        match best_entry(s) {
            None => {},
            Some(b) => {
                lemma_best_in_prefix_props(s, s.len() as int);
                lemma_select_round_props(s, b);
                lemma_greedy_cover_bounded(
                    select_round(s, b),
                    (limit - 1) as nat,
                    s[b].item.spec_score(),
                );
                lemma_greedy_cover_descending(select_round(s, b), (limit - 1) as nat);
                let tail = greedy_cover(select_round(s, b), (limit - 1) as nat);
                assert forall|k: int| 0 <= k && k + 1 < greedy_cover(s, limit).len() implies (
                #[trigger] greedy_cover(s, limit)[k + 1]).spec_score() <= greedy_cover(
                    s,
                    limit,
                )[k].spec_score() by {
                    assert(greedy_cover(s, limit)[k + 1] == tail[k]);
                    if k > 0 {
                        assert(greedy_cover(s, limit)[k] == tail[k - 1]);
                        assert(tail[(k - 1) + 1].spec_score() <= tail[k - 1].spec_score());
                    } else {
                        assert(greedy_cover(s, limit)[0] == s[b].item);
                        assert(tail[0].spec_score() <= s[b].item.spec_score());
                    }
                }
            },
        }
    }
}

/// With a limit of zero, the greedy selection is empty, whatever the input.
pub proof fn lemma_maximum_cover_zero_limit<T: MaxCover>(items: Seq<T>)
    ensures
        spec_maximum_cover(items, 0) == Seq::<T>::empty(),
{
}

/// The greedy selection never exceeds the limit, nor the number of input
/// items whose score is not zero.
pub proof fn lemma_maximum_cover_len<T: MaxCover>(items: Seq<T>, limit: nat)
    ensures
        spec_maximum_cover(items, limit).len() <= limit,
        spec_maximum_cover(items, limit).len() <= nonzero_entries(items).len(),
{
    lemma_greedy_cover_len(nonzero_entries(items), limit);
    lemma_nonzero_entries_usable(items);
    lemma_usable_count_full(nonzero_entries(items));
}

/// Every selected item had a non-zero score at the moment of selection; in
/// particular no item whose score was zero at input time is ever selected.
pub proof fn lemma_maximum_cover_nonzero<T: MaxCover>(items: Seq<T>, limit: nat)
    ensures
        forall|k: int| 0 <= k < spec_maximum_cover(items, limit).len() ==> (
        #[trigger] spec_maximum_cover(items, limit)[k]).spec_score() != 0,
{
    lemma_greedy_cover_nonzero(nonzero_entries(items), limit);
}

/// Selected items come out in non-increasing order of their score at the
/// moment of selection.
pub proof fn lemma_maximum_cover_descending<T: MaxCover>(items: Seq<T>, limit: nat)
    ensures
        forall|k: int| 0 <= k && k + 1 < spec_maximum_cover(items, limit).len() ==> (
        #[trigger] spec_maximum_cover(items, limit)[k + 1]).spec_score() <= spec_maximum_cover(
            items,
            limit,
        )[k].spec_score(),
{
    lemma_greedy_cover_descending(nonzero_entries(items), limit);
}

/// The selection is a pure function of the input collection and the limit:
/// re-running `maximum_cover` on an unmodified input with the same limit
/// yields an identical sequence.
pub proof fn lemma_maximum_cover_deterministic<T: MaxCover>(
    items1: Seq<T>,
    items2: Seq<T>,
    limit: nat,
)
    requires
        items1 == items2,
    ensures
        spec_maximum_cover(items1, limit) == spec_maximum_cover(items2, limit),
{
}

proof fn lemma_cover_result_props<T: MaxCover>(items: Seq<T>, limit: nat)
    ensures
        spec_maximum_cover(items, limit).len() <= limit,
        spec_maximum_cover(items, limit).len() <= nonzero_entries(items).len(),
        forall|k: int| 0 <= k < spec_maximum_cover(items, limit).len() ==> (
        #[trigger] spec_maximum_cover(items, limit)[k]).spec_score() != 0,
        forall|k: int| 0 <= k && k + 1 < spec_maximum_cover(items, limit).len() ==> (
        #[trigger] spec_maximum_cover(items, limit)[k + 1]).spec_score() <= spec_maximum_cover(
            items,
            limit,
        )[k].spec_score(),
{
    lemma_maximum_cover_len(items, limit);
    lemma_maximum_cover_nonzero(items, limit);
    lemma_maximum_cover_descending(items, limit);
}

/// Compute an approximate maximum cover using a greedy algorithm.
///
/// * Time complexity: `O(limit * items.len())`
/// * Space complexity: `O(items.len())`
///
/// The label tags the run for observability only; it has no influence on the
/// outcome and is ignored here.
#[verifier::loop_isolation(false)]
pub fn maximum_cover<T: MaxCover>(items: Vec<T>, limit: usize, _label: &str) -> (result: Vec<T>)
    ensures
        result@ == spec_maximum_cover(items@, limit as nat),
        result@.len() <= limit,
        result@.len() <= nonzero_entries(items@).len(),
        limit == 0 ==> result@.len() == 0,
        forall|k: int| 0 <= k < result@.len() ==> (#[trigger] result@[k]).spec_score() != 0,
        forall|k: int| 0 <= k && k + 1 < result@.len() ==> (#[trigger] result@[k
            + 1]).spec_score() <= result@[k].spec_score(),
{
    let ghost orig: Seq<T> = items@;

    // Construct an initial vec of all items, marked available.  Items whose
    // score is already zero are discarded for good: they can never be
    // selected nor meaningfully updated.
    let mut all_items: Vec<MaxCoverItem<T>> = Vec::new();
    proof {
        assert(orig.take(0) =~= Seq::<T>::empty());
    }
    for x in it: items.into_iter()
        invariant
            it.seq() == orig,
            all_items@ == nonzero_entries(orig.take(it.index() as int)),
    {
        let ghost done: int = it.index() as int;
        if x.score() != 0 {
            all_items.push(MaxCoverItem::new(x));
        }
        proof {
            assert(orig.take(done + 1).drop_last() =~= orig.take(done));
            assert(orig.take(done + 1).last() == orig[done]);
            assert(all_items@ == nonzero_entries(orig.take(done + 1)));
        }
    }
    proof {
        assert(orig.take(orig.len() as int) =~= orig);
    }

    let mut result: Vec<T> = Vec::new();
    let mut rounds: usize = 0;
    while rounds < limit
        invariant
            rounds <= limit,
            result@.len() == rounds,
            result@ + greedy_cover(all_items@, (limit - rounds) as nat) == spec_maximum_cover(
                orig,
                limit as nat,
            ),
        decreases limit - rounds,
    {
        // Select the item with the maximum score.
        let mut best: Option<usize> = None;
        let mut best_score: usize = 0;
        let mut j: usize = 0;
        while j < all_items.len()
            invariant
                j <= all_items@.len(),
                (match best {
                    None => best_in_prefix(all_items@, j as int) is None,
                    Some(b) => best_in_prefix(all_items@, j as int) == Some(b as int) && (b as int)
                        < j && best_score as nat == all_items@[b as int].item.spec_score(),
                }),
            decreases all_items@.len() - j,
        {
            let e = &all_items[j];
            let avail = e.available;
            let sc = e.item.score();
            if avail && sc != 0 {
                if best.is_none() || sc >= best_score {
                    best = Some(j);
                    best_score = sc;
                }
            }
            j += 1;
        }

        let ghost s = all_items@;
        let ghost left: nat = (limit - rounds) as nat;
        match best {
            None => {
                // No available item with a non-zero score is left: normal
                // early termination with whatever has been accumulated.
                proof {
                    assert(greedy_cover(s, left) =~= Seq::<T>::empty());
                    assert(result@ + greedy_cover(s, left) =~= result@);
                    assert(result@ == spec_maximum_cover(orig, limit as nat));
                    lemma_cover_result_props(orig, limit as nat);
                }
                return result;
            },
            Some(bi) => {
                proof {
                    lemma_best_in_prefix_props(s, s.len() as int);
                }
                // Mark the selected entry unavailable and retain a copy.
                let e = &mut all_items[bi];
                e.available = false;
                let chosen = e.item.clone();
                proof {
                    T::lemma_clone_is_exact(s[bi as int].item, chosen);
                }
                let ghost flagged = s.update(
                    bi as int,
                    MaxCoverItem { item: s[bi as int].item, available: false },
                );
                assert(all_items@ == flagged);

                // Update the covering sets of the other items, for the
                // inclusion of the selected item.  Elements covered by the
                // selected item can't be re-covered.
                let inter = chosen.intermediate();
                let cset = chosen.covering_set();
                let mut j: usize = 0;
                while j < all_items.len()
                    invariant
                        j <= s.len(),
                        bi < s.len(),
                        all_items@.len() == s.len(),
                        entry_usable(s[bi as int]),
                        chosen == s[bi as int].item,
                        *inter == chosen.spec_intermediate(),
                        *cset == chosen.spec_set(),
                        flagged == s.update(
                            bi as int,
                            MaxCoverItem { item: s[bi as int].item, available: false },
                        ),
                        forall|k: int| 0 <= k < j ==> all_items@[k] == #[trigger] select_round(
                            s,
                            bi as int,
                        )[k],
                        forall|k: int| j <= k < s.len() ==> #[trigger] all_items@[k] == flagged[k],
                    decreases s.len() - j,
                {
                    let e = &all_items[j];
                    let avail = e.available;
                    let sc = e.item.score();
                    if avail && sc != 0 {
                        let em = &mut all_items[j];
                        em.item.update_covering_set(inter, cset);
                    }
                    j += 1;
                }
                proof {
                    assert(all_items@ =~= select_round(s, bi as int));
                    assert(greedy_cover(s, left) == seq![s[bi as int].item] + greedy_cover(
                        select_round(s, bi as int),
                        (left - 1) as nat,
                    ));
                }
                result.push(chosen);
                rounds += 1;
                proof {
                    assert(result@ + greedy_cover(all_items@, (limit - rounds) as nat)
                        =~= spec_maximum_cover(orig, limit as nat));
                }
            },
        }
    }
    proof {
        assert(greedy_cover(all_items@, 0) =~= Seq::<T>::empty());
        assert(result@ + greedy_cover(all_items@, 0) =~= result@);
        lemma_cover_result_props(orig, limit as nat);
    }
    result
}

/// The merge (as in merge sort) of two solutions: whenever both sequences are
/// non-empty, the head of the first one is taken as long as its score is
/// greater than or equal to the head of the second one, so ties favour the
/// first solution.
pub open spec fn spec_merge<T: MaxCover>(a: Seq<T>, b: Seq<T>) -> Seq<T>
    decreases a.len() + b.len(),
{
    if a.len() == 0 {
        b
    } else if b.len() == 0 {
        a
    } else if a[0].spec_score() >= b[0].spec_score() {
        seq![a[0]] + spec_merge(a.drop_first(), b)
    } else {
        seq![b[0]] + spec_merge(a, b.drop_first())
    }
}

/// Scores are non-increasing along the sequence, as they are in a solution
/// that the greedy engine produced.
pub open spec fn scores_descending<T: MaxCover>(s: Seq<T>) -> bool {
    forall|i: int, j: int| 0 <= i <= j < s.len() ==> (#[trigger] s[j]).spec_score() <= (
    #[trigger] s[i]).spec_score()
}

/// Merging keeps every item of both solutions: the merge has their combined
/// length and is a permutation of their concatenation.
pub proof fn lemma_merge_keeps_items<T: MaxCover>(a: Seq<T>, b: Seq<T>)
    ensures
        spec_merge(a, b).len() == a.len() + b.len(),
        spec_merge(a, b).to_multiset() == a.to_multiset().add(b.to_multiset()),
    decreases a.len() + b.len(),
{
    broadcast use vstd::seq_lib::group_to_multiset_ensures;
    broadcast use vstd::multiset::group_multiset_axioms;

    if a.len() == 0 {
        assert(a.to_multiset().add(b.to_multiset()) =~= b.to_multiset());
    } else if b.len() == 0 {
        assert(a.to_multiset().add(b.to_multiset()) =~= a.to_multiset());
    } else if a[0].spec_score() >= b[0].spec_score() {
        lemma_merge_keeps_items(a.drop_first(), b);
        vstd::seq_lib::lemma_multiset_commutative(seq![a[0]], spec_merge(a.drop_first(), b));
        assert(seq![a[0]].drop_first() =~= Seq::<T>::empty());
        assert(seq![a[0]].to_multiset() =~= Multiset::<T>::empty().insert(a[0]));
        assert(a =~= seq![a[0]] + a.drop_first());
        vstd::seq_lib::lemma_multiset_commutative(seq![a[0]], a.drop_first());
        assert(spec_merge(a, b).to_multiset() =~= a.to_multiset().add(b.to_multiset()));
    } else {
        lemma_merge_keeps_items(a, b.drop_first());
        vstd::seq_lib::lemma_multiset_commutative(seq![b[0]], spec_merge(a, b.drop_first()));
        assert(seq![b[0]].drop_first() =~= Seq::<T>::empty());
        assert(seq![b[0]].to_multiset() =~= Multiset::<T>::empty().insert(b[0]));
        assert(b =~= seq![b[0]] + b.drop_first());
        vstd::seq_lib::lemma_multiset_commutative(seq![b[0]], b.drop_first());
        assert(spec_merge(a, b).to_multiset() =~= a.to_multiset().add(b.to_multiset()));
    }
}

/// Every item of the merge comes from one of the merged solutions.
pub proof fn lemma_merge_element_origin<T: MaxCover>(a: Seq<T>, b: Seq<T>)
    ensures
        forall|k: int| 0 <= k < spec_merge(a, b).len() ==> a.contains(
            #[trigger] spec_merge(a, b)[k],
        ) || b.contains(spec_merge(a, b)[k]),
    decreases a.len() + b.len(),
{
    if a.len() == 0 || b.len() == 0 {
    } else {
        let m = spec_merge(a, b);
        if a[0].spec_score() >= b[0].spec_score() {
            lemma_merge_element_origin(a.drop_first(), b);
            let rest = spec_merge(a.drop_first(), b);
            assert forall|k: int| 0 <= k < m.len() implies a.contains(#[trigger] m[k])
                || b.contains(m[k]) by {
                if k == 0 {
                    assert(m[0] == a[0]);
                    assert(a.contains(a[0]));
                } else {
                    assert(m[k] == rest[k - 1]);
                    if a.drop_first().contains(rest[k - 1]) {
                        let i = choose|i: int|
                            0 <= i < a.drop_first().len() && a.drop_first()[i] == rest[k - 1];
                        assert(a[i + 1] == rest[k - 1]);
                        assert(a.contains(m[k]));
                    }
                }
            }
        } else {
            lemma_merge_element_origin(a, b.drop_first());
            let rest = spec_merge(a, b.drop_first());
            assert forall|k: int| 0 <= k < m.len() implies a.contains(#[trigger] m[k])
                || b.contains(m[k]) by {
                if k == 0 {
                    assert(m[0] == b[0]);
                    assert(b.contains(b[0]));
                } else {
                    assert(m[k] == rest[k - 1]);
                    if b.drop_first().contains(rest[k - 1]) {
                        let i = choose|i: int|
                            0 <= i < b.drop_first().len() && b.drop_first()[i] == rest[k - 1];
                        assert(b[i + 1] == rest[k - 1]);
                        assert(b.contains(m[k]));
                    }
                }
            }
        }
    }
}

/// Merging two solutions that are each in non-increasing score order yields a
/// sequence in non-increasing score order.
pub proof fn lemma_merge_descending<T: MaxCover>(a: Seq<T>, b: Seq<T>)
    requires
        scores_descending(a),
        scores_descending(b),
    ensures
        scores_descending(spec_merge(a, b)),
    decreases a.len() + b.len(),
{
    if a.len() == 0 || b.len() == 0 {
    } else {
        let m = spec_merge(a, b);
        let (first, rest_a, rest_b) = if a[0].spec_score() >= b[0].spec_score() {
            (a[0], a.drop_first(), b)
        } else {
            (b[0], a, b.drop_first())
        };
        let rest = spec_merge(rest_a, rest_b);
        assert(scores_descending(rest_a));
        assert(scores_descending(rest_b));
        lemma_merge_descending(rest_a, rest_b);
        lemma_merge_element_origin(rest_a, rest_b);
        assert forall|i: int, j: int| 0 <= i <= j < m.len() implies (#[trigger] m[j]).spec_score()
            <= (#[trigger] m[i]).spec_score() by {
            if i == 0 && j > 0 {
                assert(m[j] == rest[j - 1]);
                if rest_a.contains(rest[j - 1]) {
                    let x = choose|x: int| 0 <= x < rest_a.len() && rest_a[x] == rest[j - 1];
                    assert(rest_a[x].spec_score() <= rest_a[0].spec_score());
                } else {
                    assert(rest_b.contains(rest[j - 1]));
                    let x = choose|x: int| 0 <= x < rest_b.len() && rest_b[x] == rest[j - 1];
                    assert(rest_b[x].spec_score() <= rest_b[0].spec_score());
                }
                assert(m[j].spec_score() <= first.spec_score());
            } else if i > 0 {
                assert(m[i] == rest[i - 1]);
                assert(m[j] == rest[j - 1]);
                assert(rest[j - 1].spec_score() <= rest[i - 1].spec_score());
            }
        }
    }
}

/// Relies on itertools' `Itertools::merge_by`: as long as both iterators have
/// a head, it emits the first iterator's head when the closure approves the
/// pair and the second one's head otherwise, and once either side runs out it
/// drains the other, so with this closure it computes exactly the score merge.
#[verifier::external_body]
fn merge_by_score<T: MaxCover>(cover1: Vec<T>, cover2: Vec<T>) -> (r: Vec<T>)
    ensures
        r@ == spec_merge(cover1@, cover2@),
{
    itertools::Itertools::merge_by(
        cover1.into_iter(),
        cover2,
        |item1: &T, item2: &T| item1.score() >= item2.score(),
    ).collect()
}

/// Perform a greedy merge of two max cover solutions, preferring higher-score values.
///
/// Each input solution is expected to be in non-increasing score order, as the
/// greedy engine produces them; the caller must guarantee that, it is not
/// checked here.  On such inputs the merge is itself in non-increasing score
/// order (see [`lemma_merge_descending`]); on any input it is the score merge
/// of the two sequences, truncated to `limit` entries and converted.
#[verifier::loop_isolation(false)]
pub fn merge_solutions<T: MaxCover>(cover1: Vec<T>, cover2: Vec<T>, limit: usize) -> (r: Vec<
    T::Object,
>)
    ensures
        r@.len() == vstd::math::min(limit as int, spec_merge(cover1@, cover2@).len() as int),
        forall|k: int| 0 <= k < r@.len() ==> r@[k] == T::spec_object((#[trigger] spec_merge(
            cover1@,
            cover2@,
        )[k]).spec_intermediate()),
{
    proof {
        lemma_merge_keeps_items(cover1@, cover2@);
    }
    let merged = merge_by_score(cover1, cover2);
    let take = if limit < merged.len() {
        limit
    } else {
        merged.len()
    };
    let mut result: Vec<T::Object> = Vec::new();
    let mut i: usize = 0;
    while i < take
        invariant
            i <= take,
            result@.len() == i,
            forall|k: int| 0 <= k < i ==> result@[k] == T::spec_object(
                (#[trigger] merged@[k]).spec_intermediate(),
            ),
        decreases take - i,
    {
        let e = &merged[i];
        let obj = T::convert_to_object(e.intermediate());
        result.push(obj);
        i += 1;
    }
    result
}

} // verus!

use vstd::prelude::*;

use crate::cyclic::{next_ord, prev_ord, step_next, step_prev};
use crate::cyclic::{lemma_step_next_reaches, lemma_step_prev_reaches};
use crate::variant_list::VariantList;

verus! {

/// Unit error returned by the fallible reverse lookup when the supplied
/// integer lies outside `[0, cardinality)`. It carries no payload: only the
/// presence or absence of a variant is signalled.
#[derive(Clone, Copy, PartialEq, Eq, Structural, Debug)]
pub struct ReverseLookupError;

/// A value of a zero-indexed enum, in the runtime-table model: the enum is
/// an ordered table of `card` variants, and a value is the ordinal of one of
/// them. Every operation that the generated code attaches to such an enum is
/// a method here.
#[derive(Clone, Copy, PartialEq, Eq, Structural, Debug)]
pub struct Variant {
    /// Cardinality of the enum this value belongs to.
    pub card: usize,
    /// 0-based position of this variant in declared order; also its
    /// discriminant.
    pub ord: usize,
}

/// `r_ord` is the first ordinal strictly after `ord` in cyclic successor
/// order whose entry in `members` holds, within one full turn.
pub open spec fn is_first_next_in(ord: nat, card: nat, members: Seq<bool>, r_ord: nat) -> bool {
    exists|steps: nat|
        1 <= steps <= card && r_ord == step_next(ord, steps, card) && members[r_ord as int]
            && (forall|k: nat| 1 <= k < steps ==> !members[step_next(ord, k, card) as int])
}

/// `r_ord` is the first ordinal strictly before `ord` in cyclic predecessor
/// order whose entry in `members` holds, within one full turn.
pub open spec fn is_first_prev_in(ord: nat, card: nat, members: Seq<bool>, r_ord: nat) -> bool {
    exists|steps: nat|
        1 <= steps <= card && r_ord == step_prev(ord, steps, card) && members[r_ord as int]
            && (forall|k: nat| 1 <= k < steps ==> !members[step_prev(ord, k, card) as int])
}

impl Variant {
    /// A variant value is well formed when its ordinal is a valid position.
    pub open spec fn wf(self) -> bool {
        self.ord < self.card
    }

    /// The cyclic successor: the variant at position `(ord + 1) mod card`,
    /// wrapping from the last variant to the first.
    pub fn next(&self) -> (r: Variant)
        requires
            self.wf(),
        ensures
            r.wf(),
            r.card == self.card,
            r.ord == next_ord(self.ord as nat, self.card as nat),
    {
        if self.ord + 1 == self.card {
            Variant { card: self.card, ord: 0 }
        } else {
            Variant { card: self.card, ord: self.ord + 1 }
        }
    }

    /// The cyclic predecessor: the variant at position
    /// `(ord + card - 1) mod card`, wrapping from the first variant to the
    /// last.
    pub fn prev(&self) -> (r: Variant)
        requires
            self.wf(),
        ensures
            r.wf(),
            r.card == self.card,
            r.ord == prev_ord(self.ord as nat, self.card as nat),
    {
        if self.ord == 0 {
            Variant { card: self.card, ord: self.card - 1 }
        } else {
            Variant { card: self.card, ord: self.ord - 1 }
        }
    }

    /// Ordinal value: the variant's 0-based discriminant.
    pub fn val(&self) -> (r: usize)
        ensures
            r == self.ord,
    {
        self.ord
    }

    /// Conditional successor: starting from `self.next()`, advances via
    /// successor until a variant whose entry in `members` holds is reached,
    /// and returns the first such variant. `members` is the predicate,
    /// tabulated by ordinal; it must hold somewhere, since the walk would
    /// otherwise never terminate.
    pub fn next_in(&self, members: &Vec<bool>) -> (r: Variant)
        requires
            self.wf(),
            members@.len() == self.card,
            exists|k: int| 0 <= k < members@.len() && members@[k],
        ensures
            r.wf(),
            r.card == self.card,
            is_first_next_in(self.ord as nat, self.card as nat, members@, r.ord as nat),
    {
        let ghost ord0 = self.ord as nat;
        let ghost cardn = self.card as nat;
        let mut item = self.next();
        let ghost mut steps: nat = 1;
        proof {
            assert(step_next(ord0, 0, cardn) == ord0);
            assert(step_next(ord0, 1, cardn) == next_ord(ord0, cardn));
        }
        while !members[item.ord]
            invariant
                self.wf(),
                members@.len() == self.card,
                exists|k: int| 0 <= k < members@.len() && members@[k],
                ord0 == self.ord as nat,
                cardn == self.card as nat,
                item.wf(),
                item.card == self.card,
                1 <= steps <= cardn,
                item.ord == step_next(ord0, steps, cardn),
                forall|k: nat| 1 <= k < steps ==> !members@[step_next(ord0, k, cardn) as int],
            decreases cardn - steps,
        {
            proof {
                if steps == cardn {
                    let t = choose|k: int| 0 <= k < members@.len() && members@[k];
                    lemma_step_next_reaches(ord0, t as nat, cardn);
                    let s0 = choose|s: nat|
                        1 <= s <= cardn && step_next(ord0, s, cardn) == t as nat;
                    assert(!members@[t]);
                }
                steps = steps + 1;
            }
            item = item.next();
        }
        proof {
            assert(is_first_next_in(ord0, cardn, members@, item.ord as nat)) by {
                assert(1 <= steps <= cardn && item.ord as nat == step_next(ord0, steps, cardn)
                    && members@[item.ord as int]
                    && (forall|k: nat|
                        1 <= k < steps ==> !members@[step_next(ord0, k, cardn) as int]));
            }
        }
        item
    }

    /// Conditional predecessor: symmetric to the conditional successor,
    /// walking backward from `self.prev()` until a variant whose entry in
    /// `members` holds is reached.
    pub fn prev_in(&self, members: &Vec<bool>) -> (r: Variant)
        requires
            self.wf(),
            members@.len() == self.card,
            exists|k: int| 0 <= k < members@.len() && members@[k],
        ensures
            r.wf(),
            r.card == self.card,
            is_first_prev_in(self.ord as nat, self.card as nat, members@, r.ord as nat),
    {
        let ghost ord0 = self.ord as nat;
        let ghost cardn = self.card as nat;
        let mut item = self.prev();
        let ghost mut steps: nat = 1;
        proof {
            assert(step_prev(ord0, 0, cardn) == ord0);
            assert(step_prev(ord0, 1, cardn) == prev_ord(ord0, cardn));
        }
        while !members[item.ord]
            invariant
                self.wf(),
                members@.len() == self.card,
                exists|k: int| 0 <= k < members@.len() && members@[k],
                ord0 == self.ord as nat,
                cardn == self.card as nat,
                item.wf(),
                item.card == self.card,
                1 <= steps <= cardn,
                item.ord == step_prev(ord0, steps, cardn),
                forall|k: nat| 1 <= k < steps ==> !members@[step_prev(ord0, k, cardn) as int],
            decreases cardn - steps,
        {
            proof {
                if steps == cardn {
                    let t = choose|k: int| 0 <= k < members@.len() && members@[k];
                    lemma_step_prev_reaches(ord0, t as nat, cardn);
                    let s0 = choose|s: nat|
                        1 <= s <= cardn && step_prev(ord0, s, cardn) == t as nat;
                    assert(!members@[t]);
                }
                steps = steps + 1;
            }
            item = item.prev();
        }
        proof {
            assert(is_first_prev_in(ord0, cardn, members@, item.ord as nat)) by {
                assert(1 <= steps <= cardn && item.ord as nat == step_prev(ord0, steps, cardn)
                    && members@[item.ord as int]
                    && (forall|k: nat|
                        1 <= k < steps ==> !members@[step_prev(ord0, k, cardn) as int]));
            }
        }
        item
    }
}

impl VariantList {
    /// Cardinality of the enum: the number of its variants, a constant of
    /// the generated code.
    pub fn len(&self) -> (r: usize)
        ensures
            r == self.card(),
    {
        self.variants.len()
    }

    /// Enumeration as a growable sequence: every variant in declared order,
    /// so the value at index `i` is exactly the variant with ordinal `i`.
    pub fn vars_vec(&self) -> (r: Vec<Variant>)
        ensures
            r@.len() == self.card(),
            forall|i: int| 0 <= i < r@.len() ==> r@[i].card == self.card() && r@[i].ord == i,
    {
        let n = self.variants.len();
        let mut r: Vec<Variant> = Vec::new();
        let mut i: usize = 0;
        while i < n
            invariant
                n == self.card(),
                i <= n,
                r@.len() == i,
                forall|j: int| 0 <= j < i ==> r@[j].card == n && r@[j].ord == j,
            decreases n - i,
        {
            r.push(Variant { card: n, ord: i });
            i = i + 1;
        }
        r
    }

    /// Enumeration as a fixed-size table: the same variants in the same
    /// declared order as `vars_vec`. The generated code returns an array
    /// whose length is the compile-time cardinality; in this runtime-table
    /// model the length is pinned to the cardinality by contract instead.
    pub fn vars_array(&self) -> (r: Vec<Variant>)
        ensures
            r@.len() == self.card(),
            forall|i: int| 0 <= i < r@.len() ==> r@[i].card == self.card() && r@[i].ord == i,
    {
        self.vars_vec()
    }

    /// Fallible reverse lookup: maps an integer back to the variant whose
    /// ordinal it is. Succeeds exactly on `[0, cardinality)`; any other
    /// value yields the unit `ReverseLookupError`.
    pub fn try_from(&self, value: usize) -> (r: Result<Variant, ReverseLookupError>)
        ensures
            r is Ok <==> value < self.card(),
            r matches Ok(v) ==> v.wf() && v.card == self.card() && v.ord == value,
    {
        if value < self.variants.len() {
            Ok(Variant { card: self.variants.len(), ord: value })
        } else {
            Err(ReverseLookupError)
        }
    }
}

} // verus!

use vstd::prelude::*;

verus! {

/// Ordinal of the cyclic successor of position `ord` in an enum of `card`
/// variants: the next position in declared order, wrapping from the last
/// variant back to the first.
pub open spec fn next_ord(ord: nat, card: nat) -> nat {
    if ord + 1 == card {
        0
    } else {
        (ord + 1) as nat
    }
}

/// Ordinal of the cyclic predecessor of position `ord`: the previous position
/// in declared order, wrapping from the first variant back to the last.
pub open spec fn prev_ord(ord: nat, card: nat) -> nat {
    if ord == 0 {
        (card - 1) as nat
    } else {
        (ord - 1) as nat
    }
}

/// The ordinal reached from `ord` by `steps` applications of the successor.
pub open spec fn step_next(ord: nat, steps: nat, card: nat) -> nat
    decreases steps,
{
    if steps == 0 {
        ord
    } else {
        next_ord(step_next(ord, (steps - 1) as nat, card), card)
    }
}

/// The ordinal reached from `ord` by `steps` applications of the predecessor.
pub open spec fn step_prev(ord: nat, steps: nat, card: nat) -> nat
    decreases steps,
{
    if steps == 0 {
        ord
    } else {
        prev_ord(step_prev(ord, (steps - 1) as nat, card), card)
    }
}

/// The successor of a valid ordinal is a valid ordinal, and it is exactly
/// `(ord + 1) mod card`.
pub proof fn lemma_next_ord_spec(ord: nat, card: nat)
    requires
        ord < card,
    ensures
        next_ord(ord, card) < card,
        next_ord(ord, card) == ((ord + 1) as int) % (card as int),
{
    if ord + 1 == card {
        assert((card as int) % (card as int) == 0) by (nonlinear_arith)
            requires card >= 1;
    } else {
        assert(((ord + 1) as int) % (card as int) == ord + 1) by (nonlinear_arith)
            requires 0 <= ord + 1 < card;
    }
}

/// The predecessor of a valid ordinal is a valid ordinal, and it is exactly
/// `(ord + card - 1) mod card`.
pub proof fn lemma_prev_ord_spec(ord: nat, card: nat)
    requires
        ord < card,
    ensures
        prev_ord(ord, card) < card,
        prev_ord(ord, card) == ((ord + card - 1) as int) % (card as int),
{
    if ord == 0 {
        assert(((card - 1) as int) % (card as int) == card - 1) by (nonlinear_arith)
            requires card >= 1;
    } else {
        assert(((ord + card - 1) as int) % (card as int) == ord - 1) by (nonlinear_arith)
            requires 1 <= ord < card;
    }
}

/// Closed form of the iterated successor, for at most one full turn: walking
/// `steps` positions forward lands on `ord + steps`, minus `card` once the
/// walk has wrapped.
pub proof fn lemma_step_next_closed_form(ord: nat, steps: nat, card: nat)
    requires
        ord < card,
        steps <= card,
    ensures
        step_next(ord, steps, card) == if ord + steps < card {
            (ord + steps) as nat
        } else {
            (ord + steps - card) as nat
        },
    decreases steps,
{
    if steps > 0 {
        lemma_step_next_closed_form(ord, (steps - 1) as nat, card);
    }
}

/// Closed form of the iterated predecessor, for at most one full turn:
/// walking `steps` positions backward lands on `ord - steps`, plus `card`
/// once the walk has wrapped.
pub proof fn lemma_step_prev_closed_form(ord: nat, steps: nat, card: nat)
    requires
        ord < card,
        steps <= card,
    ensures
        step_prev(ord, steps, card) == if ord >= steps {
            (ord - steps) as nat
        } else {
            (ord + card - steps) as nat
        },
    decreases steps,
{
    if steps > 0 {
        lemma_step_prev_closed_form(ord, (steps - 1) as nat, card);
    }
}

/// Cyclic closure: applying the successor `card` times to any valid ordinal
/// returns that same ordinal, and likewise for the predecessor.
pub proof fn lemma_cycles_close(ord: nat, card: nat)
    requires
        ord < card,
    ensures
        step_next(ord, card, card) == ord,
        step_prev(ord, card, card) == ord,
{
    lemma_step_next_closed_form(ord, card, card);
    lemma_step_prev_closed_form(ord, card, card);
}

/// Inverse law: for any valid ordinal, the predecessor of the successor and
/// the successor of the predecessor are the ordinal itself.
pub proof fn lemma_next_prev_inverse(ord: nat, card: nat)
    requires
        ord < card,
    ensures
        prev_ord(next_ord(ord, card), card) == ord,
        next_ord(prev_ord(ord, card), card) == ord,
{
}

/// Every valid ordinal is reached from any starting ordinal within one full
/// turn of successor steps.
pub proof fn lemma_step_next_reaches(ord: nat, target: nat, card: nat)
    requires
        ord < card,
        target < card,
    ensures
        exists|steps: nat| 1 <= steps <= card && step_next(ord, steps, card) == target,
{
    if target > ord {
        let steps = (target - ord) as nat;
        lemma_step_next_closed_form(ord, steps, card);
        assert(1 <= steps <= card && step_next(ord, steps, card) == target);
    } else {
        let steps = (target + card - ord) as nat;
        lemma_step_next_closed_form(ord, steps, card);
        assert(1 <= steps <= card && step_next(ord, steps, card) == target);
    }
}

/// Every valid ordinal is reached from any starting ordinal within one full
/// turn of predecessor steps.
pub proof fn lemma_step_prev_reaches(ord: nat, target: nat, card: nat)
    requires
        ord < card,
        target < card,
    ensures
        exists|steps: nat| 1 <= steps <= card && step_prev(ord, steps, card) == target,
{
    if target < ord {
        let steps = (ord - target) as nat;
        lemma_step_prev_closed_form(ord, steps, card);
        assert(1 <= steps <= card && step_prev(ord, steps, card) == target);
    } else {
        let steps = (ord + card - target) as nat;
        lemma_step_prev_closed_form(ord, steps, card);
        assert(1 <= steps <= card && step_prev(ord, steps, card) == target);
    }
}

} // verus!

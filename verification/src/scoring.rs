//! Per-frame scoring: each live cart is observed (capacity, live count of
//! intersecting fish, horizontal position) and either breaks, finishes, or
//! stays, updating the score accordingly.

use vstd::prelude::*;

verus! {

/// A cart past this x coordinate (thousandths of a world unit) has reached
/// the finish line.
pub const FINISH_X_MILLI: i64 = 750_000;

/// What the scoring pass observes of one cart on one frame. The fish count
/// is the live intersection count reported by the physics engine for the
/// cart's sensor collider; it is never cached between frames.
#[derive(Clone, Copy, Debug, PartialEq, Eq, Structural)]
pub struct CartObs {
    /// Most fish the cart holds before it breaks.
    pub capacity: usize,
    /// Fish currently intersecting the cart's sensor collider.
    pub count: usize,
    /// The cart's x coordinate, in thousandths of a world unit.
    pub x_milli: i64,
}

/// The scoring decision for one cart on one frame. Anything but `Stays`
/// means the cart (with its children) is removed from the world this frame.
#[derive(Clone, Copy, Debug, PartialEq, Eq, Structural)]
pub enum CartFate {
    /// Overfilled: more fish than capacity. The cart breaks and the score
    /// drops by the fish count, floored at zero.
    Breaks,
    /// Reached the finish line without overfilling. The score rises by the
    /// fish count.
    Finishes,
    /// Neither condition holds; nothing changes this frame.
    Stays,
}

/// The decision for one observed cart. Breaking is checked first, so a cart
/// that is both overfilled and past the finish line breaks and never scores.
pub open spec fn spec_fate(c: CartObs) -> CartFate {
    if c.count > c.capacity {
        CartFate::Breaks
    } else if c.x_milli > FINISH_X_MILLI {
        CartFate::Finishes
    } else {
        CartFate::Stays
    }
}

/// The score after one cart's fate is applied: a breaking cart subtracts its
/// count but never takes the score below zero; a finishing cart adds its
/// count; a staying cart changes nothing.
pub open spec fn spec_apply(score: int, c: CartObs) -> int {
    match spec_fate(c) {
        CartFate::Breaks => if score - c.count >= 0 { score - c.count } else { 0 },
        CartFate::Finishes => score + c.count,
        CartFate::Stays => score,
    }
}

/// The score after a whole frame's carts are processed in order.
pub open spec fn spec_run(score: int, carts: Seq<CartObs>) -> int
    decreases carts.len(),
{
    if carts.len() == 0 {
        score
    } else {
        spec_apply(spec_run(score, carts.drop_last()), carts.last())
    }
}

/// Total fish count over a frame's carts; the score can rise by at most
/// this much in one frame.
pub open spec fn spec_total_count(carts: Seq<CartObs>) -> int
    decreases carts.len(),
{
    if carts.len() == 0 {
        0
    } else {
        carts.first().count + spec_total_count(carts.drop_first())
    }
}

/// Decide one cart's fate: break when overfilled, else finish when past the
/// finish line, else stay.
pub fn cart_fate(c: &CartObs) -> (f: CartFate)
    ensures
        f == spec_fate(*c),
{
    if c.count > c.capacity {
        CartFate::Breaks
    } else if c.x_milli > FINISH_X_MILLI {
        CartFate::Finishes
    } else {
        CartFate::Stays
    }
}

/// Apply one cart's fate to the score: subtract the count floored at zero
/// on a break, add it on a finish, keep it otherwise.
pub fn apply_fate(score: usize, c: &CartObs) -> (s: usize)
    requires
        spec_fate(*c) == CartFate::Finishes ==> score + c.count <= usize::MAX,
    ensures
        s == spec_apply(score as int, *c),
{
    match cart_fate(c) {
        CartFate::Breaks => if score > c.count { score - c.count } else { 0 },
        CartFate::Finishes => score + c.count,
        CartFate::Stays => score,
    }
}

/// Score never drops below zero, whatever a frame's carts hold.
pub proof fn lemma_score_never_negative(score: int, carts: Seq<CartObs>)
    requires
        score >= 0,
    ensures
        spec_run(score, carts) >= 0,
    decreases carts.len(),
{
    if carts.len() > 0 {
        lemma_score_never_negative(score, carts.drop_last());
    }
}

/// An overfilled cart breaks on the frame that observes it and never
/// scores: its step can only lower the score.
pub proof fn lemma_overfilled_cart_never_scores(score: int, c: CartObs)
    requires
        score >= 0,
        c.count > c.capacity,
    ensures
        spec_fate(c) == CartFate::Breaks,
        spec_apply(score, c) <= score,
{
}

/// A cart past the finish line that has not overfilled finishes and raises
/// the score by exactly its live fish count.
pub proof fn lemma_finishing_cart_scores(score: int, c: CartObs)
    requires
        c.count <= c.capacity,
        c.x_milli > FINISH_X_MILLI,
    ensures
        spec_fate(c) == CartFate::Finishes,
        spec_apply(score, c) == score + c.count,
{
}

/// Process one frame's carts in order: decide every cart's fate and fold
/// the score updates, exactly as `spec_run` describes.
pub fn score_frame(score: usize, carts: &Vec<CartObs>) -> (r: (usize, Vec<CartFate>))
    requires
        score + spec_total_count(carts@) <= usize::MAX,
    ensures
        r.0 == spec_run(score as int, carts@),
        r.1@.len() == carts@.len(),
        forall|i: int| 0 <= i < carts@.len() ==> r.1@[i] == spec_fate(carts@[i]),
{
    let mut cur: usize = score;
    let mut fates: Vec<CartFate> = Vec::new();
    let n: usize = carts.len();
    let mut i: usize = 0;
    proof {
        assert(carts@.subrange(0, n as int) =~= carts@);
    }
    while i < n
        invariant
            n == carts@.len(),
            0 <= i <= n,
            cur == spec_run(score as int, carts@.subrange(0, i as int)),
            cur + spec_total_count(carts@.subrange(i as int, n as int)) <= usize::MAX,
            fates@.len() == i,
            forall|j: int| 0 <= j < i ==> fates@[j] == spec_fate(carts@[j]),
        decreases n - i,
    {
        let c = carts[i];
        proof {
            let suffix = carts@.subrange(i as int, n as int);
            assert(suffix.drop_first() =~= carts@.subrange(i as int + 1, n as int));
            assert(suffix.first() == carts@[i as int]);
            lemma_total_count_nonneg(carts@.subrange(i as int + 1, n as int));
        }
        let next = apply_fate(cur, &c);
        fates.push(cart_fate(&c));
        proof {
            let prefix = carts@.subrange(0, i as int + 1);
            assert(prefix.drop_last() =~= carts@.subrange(0, i as int));
            assert(prefix.last() == carts@[i as int]);
        }
        cur = next;
        i = i + 1;
    }
    proof {
        assert(carts@.subrange(0, n as int) =~= carts@);
    }
    (cur, fates)
}

/// A frame's total fish count is never negative.
proof fn lemma_total_count_nonneg(carts: Seq<CartObs>)
    ensures
        spec_total_count(carts) >= 0,
    decreases carts.len(),
{
    if carts.len() > 0 {
        lemma_total_count_nonneg(carts.drop_first());
    }
}

} // verus!

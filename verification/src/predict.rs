//! Triangle-wave fold that maps a raw ballistic projection back onto the
//! playing surface, approximating any number of side-wall bounces.

use vstd::prelude::*;
use vstd::math::abs;
use vstd::arithmetic::div_mod::lemma_fundamental_div_mod;
use vstd::arithmetic::div_mod::lemma_fundamental_div_mod_converse;
use vstd::arithmetic::div_mod::lemma_mod_bound;
use vstd::arithmetic::div_mod::lemma_mod_multiples_vanish;
use vstd::arithmetic::div_mod::lemma_small_mod;

verus! {

/// Termination measure for the fold: reflecting a value above the width
/// strictly shrinks its magnitude, and negating a value below zero keeps
/// the magnitude but clears the sign flag.
pub open spec fn fold_measure(p: int) -> int {
    2 * abs(p) + if p < 0 { 1int } else { 0int }
}

/// Reflect `p` into the surface until it no longer lies below zero or above
/// the width. A value congruent to `width` modulo `2*width` has no image in
/// the half-open surface `[0, width)`; the fold maps it to `width` itself.
pub open spec fn fold_raw(p: int, w: int) -> int
    decreases fold_measure(p)
        when w >= 1
{
    if p < 0 {
        fold_raw(-p, w)
    } else if p > w {
        fold_raw(2 * w - p, w)
    } else {
        p
    }
}

/// The fold never leaves `[0, width]`.
pub proof fn lemma_fold_bounds(p: int, w: int)
    requires
        w >= 1,
    ensures
        0 <= fold_raw(p, w) <= w,
    decreases fold_measure(p),
{
    if p < 0 {
        lemma_fold_bounds(-p, w);
    } else if p > w {
        lemma_fold_bounds(2 * w - p, w);
    }
}

/// Remainder of a negated value: negating the dividend mirrors a nonzero
/// remainder across the divisor.
proof fn lemma_neg_mod(p: int, d: int)
    requires
        d >= 1,
    ensures
        (-p) % d == if p % d == 0 { 0int } else { d - p % d },
{
    let q = p / d;
    let r = p % d;
    lemma_fundamental_div_mod(p, d);
    lemma_mod_bound(p, d);
    if r == 0 {
        assert(-p == (-q) * d + 0) by (nonlinear_arith)
            requires p == d * q + r && r == 0;
        lemma_fundamental_div_mod_converse(-p, d, -q, 0);
    } else {
        assert(-p == (-q - 1) * d + (d - r)) by (nonlinear_arith)
            requires p == d * q + r;
        lemma_fundamental_div_mod_converse(-p, d, -q - 1, d - r);
    }
}

/// The fold reaches the width itself only from a raw value congruent to the
/// width modulo a full period.
proof fn lemma_fold_peak(p: int, w: int)
    requires
        w >= 1,
        p % (2 * w) != w,
    ensures
        fold_raw(p, w) != w,
    decreases fold_measure(p),
{
    let d = 2 * w;
    if p < 0 {
        lemma_neg_mod(p, d);
        lemma_fold_peak(-p, w);
    } else if p > w {
        lemma_mod_multiples_vanish(1, -p, d);
        assert(2 * w - p == d * 1 + (-p));
        lemma_neg_mod(p, d);
        lemma_fold_peak(2 * w - p, w);
    } else {
        lemma_small_mod(p as nat, d as nat);
    }
}

/// Law: the folded prediction lies in `[0, width)` whenever the raw value is
/// not congruent to the width modulo `2*width` (at such a value the
/// triangle wave peaks at the width itself and has no image in range).
pub proof fn lemma_fold_in_range(raw: int, width: int)
    requires
        width >= 1,
        raw % (2 * width) != width,
    ensures
        0 <= fold_raw(raw, width) < width,
{
    lemma_fold_bounds(raw, width);
    lemma_fold_peak(raw, width);
}

/// Law: folding a value already on the surface is a no-op.
pub proof fn lemma_fold_noop(raw: int, width: int)
    requires
        width >= 1,
        0 <= raw < width,
    ensures
        fold_raw(raw, width) == raw,
{
}

/// Reflect a raw prediction back onto the surface, one wall at a time.
pub fn fold_prediction(raw: i64, width: i64) -> (r: i64)
    requires
        1 <= width <= 0x10_0000,
        -0x4000_0000_0000_0000 <= raw <= 0x4000_0000_0000_0000,
    ensures
        r as int == fold_raw(raw as int, width as int),
        0 <= r <= width,
{
    let mut p: i64 = raw;
    while p < 0 || p > width
        invariant
            1 <= width <= 0x10_0000,
            -0x4000_0000_0000_0000 <= p <= 0x4000_0000_0000_0000,
            fold_raw(p as int, width as int) == fold_raw(raw as int, width as int),
        decreases fold_measure(p as int),
    {
        if p > width {
            p = 2 * width - p;
        } else {
            p = -p;
        }
    }
    p
}

} // verus!

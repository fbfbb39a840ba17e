use vstd::prelude::*;

use crate::units::{MAX_SCALE, MIN_SCALE, ZOOM_DIVISOR};

verus! {

/// `v` brought into `[MIN_SCALE, MAX_SCALE]`.
pub open spec fn clamp_scale(v: int) -> int {
    if v < MIN_SCALE {
        MIN_SCALE as int
    } else if v > MAX_SCALE {
        MAX_SCALE as int
    } else {
        v
    }
}

/// The scale after one wheel event `d` at scale `s`: `s * (1 - d / 5)`,
/// rounded down to a whole millionth, then clamped.
pub open spec fn zoom_after(s: int, d: int) -> int {
    clamp_scale((s * (ZOOM_DIVISOR - d)) / (ZOOM_DIVISOR as int))
}

/// The scale after the wheel events `ds`, applied one by one in order from `s`.
pub open spec fn zoom_fold(s: int, ds: Seq<i64>) -> int
    decreases ds.len(),
{
    if ds.len() == 0 {
        s
    } else {
        zoom_after(zoom_fold(s, ds.drop_last()), ds.last() as int)
    }
}

/// True when `s` lies within `[MIN_SCALE, MAX_SCALE]`.
pub open spec fn scale_in_bounds(s: int) -> bool {
    MIN_SCALE <= s <= MAX_SCALE
}

/// One wheel event: the scale `scale` becomes `scale * (1 - d / 5)`, clamped
/// into `[MIN_SCALE, MAX_SCALE]`. Any `d` is accepted.
pub fn zoom_step(scale: u64, d: i64) -> (r: u64)
    ensures
        r == zoom_after(scale as int, d as int),
        scale_in_bounds(r as int),
{
    if d >= ZOOM_DIVISOR {
        assert(scale * (ZOOM_DIVISOR - d) <= 0) by (nonlinear_arith)
            requires
                scale >= 0,
                ZOOM_DIVISOR - d <= 0,
        ;
        MIN_SCALE
    } else {
        let factor: u128 = (ZOOM_DIVISOR as i128 - d as i128) as u128;
        assert(scale * factor <= 0xffff_ffff_ffff_ffff * 0xffff_ffff_ffff_ffff) by (nonlinear_arith)
            requires
                scale <= 0xffff_ffff_ffff_ffff,
                factor <= 0xffff_ffff_ffff_ffff,
        ;
        let product: u128 = scale as u128 * factor;
        let q: u128 = product / (ZOOM_DIVISOR as u128);
        if q < MIN_SCALE as u128 {
            MIN_SCALE
        } else if q > MAX_SCALE as u128 {
            MAX_SCALE
        } else {
            q as u64
        }
    }
}

/// The wheel events `ds`, applied one by one in order: each event scales the
/// result of the one before it, and is clamped before the next is applied.
pub fn zoom_all(scale: u64, ds: &Vec<i64>) -> (r: u64)
    ensures
        r == zoom_fold(scale as int, ds@),
        ds@.len() > 0 ==> scale_in_bounds(r as int),
        ds@.len() == 0 ==> r == scale,
{
    let mut s: u64 = scale;
    let mut i: usize = 0;
    while i < ds.len()
        invariant
            i <= ds@.len(),
            s == zoom_fold(scale as int, ds@.subrange(0, i as int)),
            i > 0 ==> scale_in_bounds(s as int),
        decreases ds@.len() - i,
    {
        assert(ds@.subrange(0, i + 1).drop_last() =~= ds@.subrange(0, i as int));
        s = zoom_step(s, ds[i]);
        i = i + 1;
    }
    assert(ds@.subrange(0, ds@.len() as int) =~= ds@);
    s
}

/// After at least one wheel event the scale lies within
/// `[MIN_SCALE, MAX_SCALE]`, however large the events; a scale that starts
/// within the bounds stays within them after any events, none included.
pub proof fn lemma_zoom_fold_in_bounds(s: int, ds: Seq<i64>)
    requires
        ds.len() > 0 || scale_in_bounds(s),
    ensures
        scale_in_bounds(zoom_fold(s, ds)),
{
}

/// Wheel events compound in order: applying `a` and then `b` gives the same
/// scale as applying `a` followed by `b` in one batch.
pub proof fn lemma_zoom_fold_concat(s: int, a: Seq<i64>, b: Seq<i64>)
    ensures
        zoom_fold(s, a + b) == zoom_fold(zoom_fold(s, a), b),
    decreases b.len(),
{
    if b.len() == 0 {
        assert(a + b =~= a);
    } else {
        assert((a + b).drop_last() =~= a + b.drop_last());
        lemma_zoom_fold_concat(s, a, b.drop_last());
    }
}

} // verus!

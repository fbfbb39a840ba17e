use vstd::prelude::*;

verus! {

/// One pointer movement, in thousandths of a unit along each axis.
#[derive(Clone, Copy, Debug, PartialEq, Eq, Structural)]
pub struct PointerDelta {
    pub dx: i64,
    pub dy: i64,
}

/// A point or displacement in world space, in billionths of a world unit.
#[derive(Clone, Copy, Debug, PartialEq, Eq, Structural)]
pub struct Position {
    pub x: i128,
    pub y: i128,
    pub z: i128,
}

/// The sum of the horizontal movements of `ds`.
pub open spec fn sum_dx(ds: Seq<PointerDelta>) -> int
    decreases ds.len(),
{
    if ds.len() == 0 {
        0
    } else {
        sum_dx(ds.drop_last()) + ds.last().dx
    }
}

/// The sum of the vertical movements of `ds`.
pub open spec fn sum_dy(ds: Seq<PointerDelta>) -> int
    decreases ds.len(),
{
    if ds.len() == 0 {
        0
    } else {
        sum_dy(ds.drop_last()) + ds.last().dy
    }
}

/// Each coordinate of a sum of `n` movements lies within `n` times the
/// range of one movement.
proof fn lemma_sum_bound(ds: Seq<PointerDelta>)
    ensures
        -(ds.len() * 0x8000_0000_0000_0000) <= sum_dx(ds) <= ds.len() * 0x8000_0000_0000_0000,
        -(ds.len() * 0x8000_0000_0000_0000) <= sum_dy(ds) <= ds.len() * 0x8000_0000_0000_0000,
    decreases ds.len(),
{
    if ds.len() > 0 {
        lemma_sum_bound(ds.drop_last());
    }
}

/// The pan vector of a frame: all pointer movements `ds` added up, as
/// `(sum of dx, sum of dy)`. The sum always fits.
pub fn pan_total(ds: &Vec<PointerDelta>) -> (r: (i128, i128))
    ensures
        r.0 == sum_dx(ds@),
        r.1 == sum_dy(ds@),
{
    let mut sx: i128 = 0;
    let mut sy: i128 = 0;
    let n: usize = ds.len();
    let mut i: usize = 0;
    while i < n
        invariant
            i <= n,
            n == ds@.len(),
            sx == sum_dx(ds@.subrange(0, i as int)),
            sy == sum_dy(ds@.subrange(0, i as int)),
        decreases n - i,
    {
        let d = ds[i];
        proof {
            lemma_sum_bound(ds@.subrange(0, i as int));
            assert(ds@.subrange(0, i + 1).drop_last() =~= ds@.subrange(0, i as int));
        }
        sx = sx + d.dx as i128;
        sy = sy + d.dy as i128;
        i = i + 1;
    }
    assert(ds@.subrange(0, ds@.len() as int) =~= ds@);
    (sx, sy)
}

} // verus!

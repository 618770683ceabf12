//! Drawing a batch of points in the unit square and estimating pi from the
//! share that falls inside the quarter disc.
//!
//! A coordinate is a `u32` `c` standing for `c / 2^32`, uniform over `[0, 1)`.
//! A point `(x, y)` lies inside when `sqrt(x^2 + y^2) < 1`, which on those
//! integers is exactly `x^2 + y^2 < 2^64`.
use vstd::prelude::*;

use crate::fixed::ONE;

verus! {

/// The square of the coordinate scale: `(2^32)^2`.
pub open spec fn scale_sq() -> int {
    0x1_0000_0000_0000_0000
}

/// Whether the point `(x, y)` lies strictly inside the unit quarter disc.
pub open spec fn in_quarter_disc(x: u32, y: u32) -> bool {
    x * x + y * y < scale_sq()
}

/// How many points of `pts` lie inside the quarter disc.
pub open spec fn count_inside(pts: Seq<(u32, u32)>) -> nat
    decreases pts.len(),
{
    if pts.len() == 0 {
        0
    } else {
        count_inside(pts.drop_last()) + if in_quarter_disc(pts.last().0, pts.last().1) {
            1nat
        } else {
            0nat
        }
    }
}

/// The fixed-point estimate `4 * inside / total`, rounded down.
pub open spec fn estimate_of(inside: nat, total: nat) -> int {
    (4 * ONE * inside) as int / total as int
}

/// The points whose coordinates stand at equal positions of `xs` and `ys`.
pub open spec fn points_of(xs: Seq<u32>, ys: Seq<u32>) -> Seq<(u32, u32)> {
    Seq::new(xs.len(), |i: int| (xs[i], ys[i]))
}

/// Counting the points inside splits over a concatenation.
proof fn lemma_count_inside_append(a: Seq<(u32, u32)>, b: Seq<(u32, u32)>)
    ensures
        count_inside(a + b) == count_inside(a) + count_inside(b),
    decreases b.len(),
{
    if b.len() == 0 {
        assert(a + b =~= a);
    } else {
        lemma_count_inside_append(a, b.drop_last());
        assert((a + b).drop_last() =~= a + b.drop_last());
        assert((a + b).last() == b.last());
    }
}

/// Points drawn per chunk of a batch, which bounds the memory a batch holds.
pub const CHUNK_POINTS: u32 = 4096;

/// Relies on random_number::random for `u32`: a value drawn uniformly from
/// the whole range of the type (every `u32` may come back).
#[verifier::external_body]
fn random_coordinate() -> (r: u32) {
    random_number::random::<u32>()
}

/// Whether the point `(x, y)` lies inside the unit quarter disc.
pub fn is_inside(x: u32, y: u32) -> (r: bool)
    ensures
        r == in_quarter_disc(x, y),
{
    assert(x * x < 0x1_0000_0000_0000_0000) by (nonlinear_arith)
        requires
            x < 0x1_0000_0000,
    ;
    assert(y * y < 0x1_0000_0000_0000_0000) by (nonlinear_arith)
        requires
            y < 0x1_0000_0000,
    ;
    let xx: u128 = (x as u128) * (x as u128);
    let yy: u128 = (y as u128) * (y as u128);
    xx + yy < 0x1_0000_0000_0000_0000u128
}

/// How many of the points `(xs[i], ys[i])` lie inside the unit quarter disc.
pub fn count_inside_points(xs: &Vec<u32>, ys: &Vec<u32>) -> (r: u32)
    requires
        xs.len() == ys.len(),
        xs.len() <= u32::MAX,
    ensures
        r == count_inside(points_of(xs@, ys@)),
        r <= xs.len(),
{
    let mut count: u32 = 0;
    let mut i: usize = 0;
    while i < xs.len()
        invariant
            i <= xs.len(),
            xs.len() == ys.len(),
            xs.len() <= u32::MAX,
            count == count_inside(points_of(xs@, ys@).take(i as int)),
            count <= i,
        decreases xs.len() - i,
    {
        proof {
            let pts = points_of(xs@, ys@);
            assert(pts.take(i as int + 1).drop_last() =~= pts.take(i as int));
            assert(pts.take(i as int + 1).last() == (xs@[i as int], ys@[i as int]));
        }
        if is_inside(xs[i], ys[i]) {
            count = count + 1;
        }
        i = i + 1;
    }
    assert(points_of(xs@, ys@).take(xs.len() as int) =~= points_of(xs@, ys@));
    count
}

/// The fixed-point estimate of pi from `inside` of `total` points falling
/// inside the quarter disc: `4 * inside / total`, rounded down.
pub fn batch_estimate(inside: u32, total: u32) -> (r: u64)
    requires
        0 < total,
        inside <= total,
    ensures
        r == estimate_of(inside as nat, total as nat),
        r <= 4 * ONE,
{
    assert(inside * (4 * ONE) <= 0x4_0000_0000 * 0x1_0000_0000) by (nonlinear_arith)
        requires
            inside < 0x1_0000_0000,
    ;
    let num: u128 = (inside as u128) * (4 * ONE as u128);
    assert(num == 4 * ONE * inside) by (nonlinear_arith)
        requires
            num == inside * (4 * ONE),
    ;
    let q: u128 = num / (total as u128);
    assert(q <= 4 * ONE) by (nonlinear_arith)
        requires
            q == num as int / total as int,
            num == inside * (4 * ONE),
            inside <= total,
            0 < total,
    ;
    q as u64
}

/// Draws `num_samples` points uniformly from the unit square and returns the
/// fixed-point estimate `4 * inside / num_samples` of pi, where `inside`
/// counts the points strictly inside the unit quarter disc. Points are drawn
/// in chunks of at most `CHUNK_POINTS`, each counted by `count_inside_points`.
pub fn run_samples(num_samples: &u32) -> (r: u64)
    requires
        *num_samples > 0,
    ensures
        exists|pts: Seq<(u32, u32)>|
            pts.len() == *num_samples && r == estimate_of(count_inside(pts), *num_samples as nat),
        r <= 4 * ONE,
{
    let n: u32 = *num_samples;
    let mut inside_count: u32 = 0;
    let ghost mut pts: Seq<(u32, u32)> = Seq::empty();
    let mut drawn: u32 = 0;
    while drawn < n
        invariant
            drawn <= n,
            pts.len() == drawn,
            inside_count == count_inside(pts),
            inside_count <= drawn,
        decreases n - drawn,
    {
        let remaining: u32 = n - drawn;
        let chunk: u32 = if remaining < CHUNK_POINTS {
            remaining
        } else {
            CHUNK_POINTS
        };
        let mut xs: Vec<u32> = Vec::new();
        let mut ys: Vec<u32> = Vec::new();
        let mut j: u32 = 0;
        while j < chunk
            invariant
                j <= chunk,
                xs.len() == j,
                ys.len() == j,
            decreases chunk - j,
        {
            xs.push(random_coordinate());
            ys.push(random_coordinate());
            j = j + 1;
        }
        let c: u32 = count_inside_points(&xs, &ys);
        proof {
            lemma_count_inside_append(pts, points_of(xs@, ys@));
            pts = pts + points_of(xs@, ys@);
        }
        inside_count = inside_count + c;
        drawn = drawn + chunk;
    }
    batch_estimate(inside_count, n)
}

} // verus!

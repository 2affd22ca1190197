//! Moving-sum kernel of the separable box filter.
//!
//! The blur and edge filters run two 1-D passes (horizontal then vertical)
//! over the pixel grid. Each pass slides a window of radius `r` along a
//! line, clamped to the line's ends, and needs the window sum and width at
//! every cell. Recomputing the sum per cell would cost O(len * r); instead
//! the kernel is updated in O(1) per cell: the entering cell is added and
//! the leaving cell subtracted. This module computes those per-cell window
//! sums and widths for one line of integer samples and proves them equal to
//! the directly defined window sums; the surrounding filters divide sum by
//! width to obtain the moving average.

use vstd::prelude::*;
use vstd::arithmetic::mul::lemma_mul_inequality;

verus! {

/// First cell of the window centred at `h` with radius `radius`, clamped to
/// the start of the line.
pub open spec fn win_lo(h: int, radius: int) -> int {
    if h - radius >= 0 {
        h - radius
    } else {
        0
    }
}

/// Last cell (inclusive) of the window centred at `h`, clamped to the end
/// of a line of length `len`.
pub open spec fn win_hi(h: int, radius: int, len: int) -> int {
    if h + radius <= len - 1 {
        h + radius
    } else {
        len - 1
    }
}

/// Sum of `s[a..b)`.
pub open spec fn sum_range(s: Seq<i64>, a: int, b: int) -> int
    decreases b - a,
    when a >= b || (0 <= a && b <= s.len())
{
    if a >= b {
        0
    } else {
        s[a] + sum_range(s, a + 1, b)
    }
}

proof fn lemma_sum_range_extend_right(s: Seq<i64>, a: int, b: int)
    requires
        0 <= a <= b,
        b + 1 <= s.len(),
    ensures
        sum_range(s, a, b + 1) == sum_range(s, a, b) + s[b],
    decreases b - a,
{
    reveal_with_fuel(sum_range, 2);
    if a < b {
        lemma_sum_range_extend_right(s, a + 1, b);
    }
}

proof fn lemma_sum_range_bound(s: Seq<i64>, a: int, b: int, bound: int)
    requires
        0 <= a <= b <= s.len(),
        0 <= bound,
        forall|i: int| a <= i < b ==> -bound <= #[trigger] s[i] <= bound,
    ensures
        -((b - a) * bound) <= sum_range(s, a, b) <= (b - a) * bound,
    decreases b - a,
{
    if a < b {
        lemma_sum_range_bound(s, a + 1, b, bound);
        assert((b - a) * bound == (b - a - 1) * bound + bound) by (nonlinear_arith);
    }
}

/// One pass of the moving-sum kernel over a line of samples, every sample
/// within `[-bound, bound]`: returns, for each cell, the sum and the width
/// of the window of the given radius centred there, clamped to the line.
/// The window sums are maintained incrementally — add the entering cell,
/// subtract the leaving cell — in O(1) per cell.
#[verifier::loop_isolation(false)]
pub fn moving_window_sums(values: &Vec<i64>, radius: usize, bound: i64) -> (out: (Vec<i64>, Vec<
    usize,
>))
    requires
        radius < values@.len(),
        0 <= bound,
        forall|i: int| 0 <= i < values@.len() ==> -bound <= #[trigger] values@[i] <= bound,
        values@.len() * bound <= i64::MAX,
    ensures
        out.0@.len() == values@.len(),
        out.1@.len() == values@.len(),
        forall|h: int|
            0 <= h < values@.len() ==> out.0@[h] == sum_range(
                values@,
                win_lo(h, radius as int),
                win_hi(h, radius as int, values@.len() as int) + 1,
            ),
        forall|h: int|
            0 <= h < values@.len() ==> out.1@[h] == win_hi(
                h,
                radius as int,
                values@.len() as int,
            ) + 1 - win_lo(h, radius as int),
{
    let n = values.len();
    let ghost r = radius as int;
    let ghost nn = n as int;
    let mut kernel: i64 = 0;
    let mut klen: usize = 0;
    let mut i: usize = 0;
    while i < radius + 1
        invariant
            radius < n,
            n == values@.len(),
            0 <= bound,
            forall|k: int| 0 <= k < values@.len() ==> -bound <= #[trigger] values@[k] <= bound,
            values@.len() * bound <= i64::MAX,
            i <= radius + 1,
            klen == i,
            kernel == sum_range(values@, 0, i as int),
        decreases radius + 1 - i,
    {
        proof {
            lemma_sum_range_extend_right(values@, 0, i as int);
            lemma_sum_range_bound(values@, 0, i + 1, bound as int);
            lemma_mul_inequality(i + 1, nn, bound as int);
        }
        kernel = kernel + values[i];
        klen = klen + 1;
        i = i + 1;
    }
    let mut sums: Vec<i64> = Vec::new();
    let mut counts: Vec<usize> = Vec::new();
    let mut h: usize = 0;
    while h < n
        invariant
            radius < n,
            n == values@.len(),
            0 <= bound,
            forall|k: int| 0 <= k < values@.len() ==> -bound <= #[trigger] values@[k] <= bound,
            values@.len() * bound <= i64::MAX,
            h <= n,
            sums@.len() == h,
            counts@.len() == h,
            forall|k: int|
                0 <= k < h ==> sums@[k] == sum_range(values@, win_lo(k, r), win_hi(k, r, nn) + 1),
            forall|k: int| 0 <= k < h ==> counts@[k] == win_hi(k, r, nn) + 1 - win_lo(k, r),
            kernel == sum_range(values@, win_lo(h as int, r), win_hi(h as int, r, nn) + 1),
            klen == win_hi(h as int, r, nn) + 1 - win_lo(h as int, r),
        decreases n - h,
    {
        sums.push(kernel);
        counts.push(klen);
        let ghost lo = win_lo(h as int, r);
        let ghost hi = win_hi(h as int, r, nn);
        if h < n - radius - 1 {
            proof {
                lemma_sum_range_extend_right(values@, lo, hi + 1);
                lemma_sum_range_bound(values@, lo, hi + 2, bound as int);
                lemma_mul_inequality(hi + 2 - lo, nn, bound as int);
            }
            kernel = kernel + values[h + radius + 1];
            klen = klen + 1;
        }
        if h >= radius {
            proof {
                lemma_sum_range_bound(values@, lo + 1, win_hi(h as int + 1, r, nn) + 1, bound as int);
                lemma_mul_inequality(win_hi(h as int + 1, r, nn) - lo, nn, bound as int);
                assert(sum_range(values@, lo, win_hi(h as int + 1, r, nn) + 1) == values@[lo]
                    + sum_range(values@, lo + 1, win_hi(h as int + 1, r, nn) + 1));
            }
            kernel = kernel - values[h - radius];
            klen = klen - 1;
        }
        h = h + 1;
    }
    (sums, counts)
}

} // verus!

//! Hermite polynomial interpolation on (abscissa, value, derivative)
//! data, by the divided-difference table of the classic Fortran
//! routine: each abscissa appears twice, the first column interleaves
//! the values, the second holds derivatives at odd positions and
//! secants at even ones, and within every later column the derivative
//! entries are filled before the value entries they depend on. The
//! contract pins the exact sequence of IEEE-754 operations.

use vstd::prelude::*;
use crate::fbits::{f64_add, f64_div, f64_mul, f64_sub, fadd, fdiv, fmul, fsub, F64_ZERO};

verus! {

/// The left weight of the interpolant at 1-based row `i1` of column
/// `j`: the distance from the right abscissa of its span to `x`.
pub open spec fn h_c1(xv: Seq<u64>, x: u64, i1: int, j: int) -> u64 {
    fsub(xv[(i1 + j + 1) / 2 - 1], x)
}

/// The right weight: the distance from `x` to the left abscissa of the
/// span.
pub open spec fn h_c2(xv: Seq<u64>, x: u64, i1: int) -> u64 {
    fsub(x, xv[(i1 + 1) / 2 - 1])
}

/// The width of the span of the interpolant at row `i1` of column `j`.
pub open spec fn h_denom(xv: Seq<u64>, i1: int, j: int) -> u64 {
    fsub(xv[(i1 + j + 1) / 2 - 1], xv[(i1 + 1) / 2 - 1])
}

/// The first value column of the table, at 0-based position `i`: the
/// linear Taylor polynomials at even positions, the linear interpolants
/// at odd ones (the final odd position keeps its input value, which no
/// later column reads).
pub open spec fn hv_init(xv: Seq<u64>, y: Seq<u64>, x: u64, i: int) -> u64 {
    let n = xv.len() as int;
    let k = i / 2;
    if i % 2 == 0 {
        fadd(fmul(y[i + 1], fsub(x, xv[k])), y[i])
    } else if k < n - 1 {
        fdiv(
            fadd(fmul(fsub(xv[k + 1], x), y[i - 1]), fmul(fsub(x, xv[k]), y[i + 1])),
            fsub(xv[k + 1], xv[k]),
        )
    } else {
        y[i]
    }
}

/// The first derivative column of the table: the input derivatives at
/// even positions, the secants of adjacent value pairs at odd ones
/// (the final odd position is never read and stays zero).
pub open spec fn hd_init(xv: Seq<u64>, y: Seq<u64>, x: u64, i: int) -> u64 {
    let n = xv.len() as int;
    let k = i / 2;
    if i % 2 == 0 {
        y[i + 1]
    } else if k < n - 1 {
        fdiv(fsub(y[i + 1], y[i - 1]), fsub(xv[k + 1], xv[k]))
    } else {
        F64_ZERO
    }
}

/// The value entry at 1-based row `i1` of column `j` of the table.
pub open spec fn hv(xv: Seq<u64>, y: Seq<u64>, x: u64, i1: int, j: int) -> u64
    decreases j,
{
    if j <= 1 {
        hv_init(xv, y, x, i1 - 1)
    } else {
        fdiv(
            fadd(
                fmul(h_c1(xv, x, i1, j), hv(xv, y, x, i1, j - 1)),
                fmul(h_c2(xv, x, i1), hv(xv, y, x, i1 + 1, j - 1)),
            ),
            h_denom(xv, i1, j),
        )
    }
}

/// The derivative entry at 1-based row `i1` of column `j` of the
/// table, which depends on the value entries of the previous column.
pub open spec fn hd(xv: Seq<u64>, y: Seq<u64>, x: u64, i1: int, j: int) -> u64
    decreases j,
{
    if j <= 1 {
        hd_init(xv, y, x, i1 - 1)
    } else {
        fdiv(
            fadd(
                fadd(
                    fmul(h_c1(xv, x, i1, j), hd(xv, y, x, i1, j - 1)),
                    fmul(h_c2(xv, x, i1), hd(xv, y, x, i1 + 1, j - 1)),
                ),
                fsub(hv(xv, y, x, i1 + 1, j - 1), hv(xv, y, x, i1, j - 1)),
            ),
            h_denom(xv, i1, j),
        )
    }
}

/// Hermite interpolation at `x` of the `n` (abscissa, value,
/// derivative) triples whose abscissas are `xvals` and whose values
/// and derivatives interleave in `yvals`: the interpolated value and
/// its derivative, as the top entries of the order-`2n` table.
pub fn hrmint_(xvals: &[u64], yvals: &[u64], x: u64) -> (r: (u64, u64))
    requires
        2 <= xvals@.len() <= 64,
        yvals@.len() == 2 * xvals@.len(),
    ensures
        r.0 == hv(xvals@, yvals@, x, 1, 2 * xvals@.len() - 1),
        r.1 == hd(xvals@, yvals@, x, 1, 2 * xvals@.len() - 1),
{
    let n = xvals.len();
    let m = 2 * n;
    let ghost xv = xvals@;
    let ghost y = yvals@;

    // The first column of the work array holds the input values; the
    // second column starts at zero.
    let mut work: Vec<u64> = Vec::new();
    let mut i: usize = 0;
    while i < m
        invariant
            i <= m,
            m == 2 * n,
            n == xv.len(),
            y.len() == m,
            xv == xvals@,
            y == yvals@,
            work@.len() == i,
            forall|t: int| 0 <= t < i ==> #[trigger] work@[t] == y[t],
        decreases m - i,
    {
        work.push(yvals[i]);
        i = i + 1;
    }
    let mut i2: usize = 0;
    while i2 < m
        invariant
            i2 <= m,
            m == 2 * n,
            y.len() == m,
            work@.len() == m + i2,
            forall|t: int| 0 <= t < m ==> #[trigger] work@[t] == y[t],
            forall|t: int| m <= t < m + i2 ==> #[trigger] work@[t] == F64_ZERO,
        decreases m - i2,
    {
        work.push(F64_ZERO);
        i2 = i2 + 1;
    }

    // Compute the second column: derivatives first, because the value
    // interpolation overwrites the inputs the derivatives depend on.
    let mut k: usize = 0;
    while k + 1 < n
        invariant
            k < n,
            m == 2 * n,
            2 <= n <= 64,
            n == xv.len(),
            y.len() == m,
            xv == xvals@,
            y == yvals@,
            work@.len() == 2 * m,
            forall|t: int| 0 <= t < 2 * k ==> #[trigger] work@[t] == hv_init(xv, y, x, t),
            forall|t: int| 2 * k <= t < m ==> #[trigger] work@[t] == y[t],
            forall|t: int| 0 <= t < 2 * k ==> #[trigger] work@[m + t] == hd_init(xv, y, x, t),
            forall|t: int| 2 * k <= t < m ==> #[trigger] work@[m + t] == F64_ZERO,
        decreases n - k,
    {
        let c1 = f64_sub(xvals[k + 1], x);
        let c2 = f64_sub(x, xvals[k]);
        let denom = f64_sub(xvals[k + 1], xvals[k]);
        let prev: usize = 2 * k;
        let this: usize = prev + 1;
        let next: usize = this + 1;
        work[m + prev] = work[this];
        work[m + this] = f64_div(f64_sub(work[next], work[prev]), denom);
        let temp = f64_add(f64_mul(work[this], c2), work[prev]);
        work[this] = f64_div(f64_add(f64_mul(c1, work[prev]), f64_mul(c2, work[next])), denom);
        work[prev] = temp;
        k = k + 1;
    }

    // The last pair was not touched by the loop above.
    work[m + (m - 2)] = work[m - 1];
    let last = f64_add(f64_mul(work[m - 1], f64_sub(x, xvals[n - 1])), work[m - 2]);
    work[m - 2] = last;
    proof {
        assert forall|t: int| 0 <= t < m implies #[trigger] work@[t] == hv(xv, y, x, t + 1, 1) by {
            if t == m - 1 {
                assert(work@[t] == y[t]);
            }
        }
        assert forall|t: int| 0 <= t < m implies #[trigger] work@[m + t] == hd(xv, y, x, t + 1, 1) by {}
    }

    // Columns 3 through 2n of the theoretical table, in place: within
    // each step the derivative entries are computed before the value
    // entries of the same row.
    let mut j: usize = 2;
    while j < m
        invariant
            2 <= j <= m,
            m == 2 * n,
            2 <= n <= 64,
            n == xv.len(),
            xv == xvals@,
            y == yvals@,
            work@.len() == 2 * m,
            forall|t: int| 0 <= t <= m - j ==> #[trigger] work@[t] == hv(xv, y, x, t + 1, j - 1),
            forall|t: int| 0 <= t <= m - j ==> #[trigger] work@[m + t] == hd(xv, y, x, t + 1, j - 1),
        decreases m - j,
    {
        let mut i1: usize = 1;
        while i1 <= m - j
            invariant
                1 <= i1 <= m - j + 1,
                2 <= j < m,
                m == 2 * n,
                2 <= n <= 64,
                n == xv.len(),
                xv == xvals@,
                y == yvals@,
                work@.len() == 2 * m,
                forall|t: int| 0 <= t < i1 - 1 ==> #[trigger] work@[t] == hv(xv, y, x, t + 1, j as int),
                forall|t: int| i1 - 1 <= t <= m - j ==> #[trigger] work@[t] == hv(xv, y, x, t + 1, j - 1),
                forall|t: int| 0 <= t < i1 - 1 ==> #[trigger] work@[m + t] == hd(xv, y, x, t + 1, j as int),
                forall|t: int|
                    i1 - 1 <= t <= m - j ==> #[trigger] work@[m + t] == hd(xv, y, x, t + 1, j - 1),
            decreases m + 1 - j - i1,
        {
            let i0: usize = i1 - 1;
            let xi: usize = (i1 + 1) / 2;
            let xij: usize = (i1 + j + 1) / 2;
            let c1 = f64_sub(xvals[xij - 1], x);
            let c2 = f64_sub(x, xvals[xi - 1]);
            let denom = f64_sub(xvals[xij - 1], xvals[xi - 1]);
            proof {
                assert(c1 == h_c1(xv, x, i1 as int, j as int));
                assert(c2 == h_c2(xv, x, i1 as int));
                assert(denom == h_denom(xv, i1 as int, j as int));
                let tnext: int = i0 as int + 1;
                assert(work@[m + tnext] == hd(xv, y, x, i1 + 1, j - 1));
                assert(work@[m + i0] == hd(xv, y, x, i1 as int, j - 1));
                assert(work@[i0 as int] == hv(xv, y, x, i1 as int, j - 1));
                assert(work@[tnext] == hv(xv, y, x, i1 + 1, j - 1));
            }
            work[m + i0] = f64_div(
                f64_add(
                    f64_add(f64_mul(c1, work[m + i0]), f64_mul(c2, work[m + i0 + 1])),
                    f64_sub(work[i0 + 1], work[i0]),
                ),
                denom,
            );
            work[i0] = f64_div(f64_add(f64_mul(c1, work[i0]), f64_mul(c2, work[i0 + 1])), denom);
            i1 = i1 + 1;
        }
        j = j + 1;
    }
    (work[0], work[m])
}

} // verus!

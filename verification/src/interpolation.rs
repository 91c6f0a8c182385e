//! Chebyshev interpolation: the Clenshaw recurrence and the derived
//! series used for velocities of position-only records.
//!
//! Every contract here pins the exact sequence of IEEE-754 operations
//! performed, so that evaluation is specified bit for bit.

use vstd::prelude::*;
use vstd::arithmetic::power2::{
    lemma2_to64, lemma2_to64_rest, lemma_pow2_adds, lemma_pow2_pos, lemma_pow2_strictly_increases,
    pow2,
};
use crate::fbits::{
    f64_add, f64_div, f64_mul, f64_sub, fadd, fdiv, fmul, fsub, F64_HALF, F64_TWO, F64_ZERO,
};

verus! {

/// The intermediate value `b_j` of the Clenshaw recurrence for the
/// series with coefficients `c` at normalised abscissa `tau`:
/// `b_j = 2 tau * b_(j+1) - b_(j+2) + c_j`, with every `b` past the end
/// of the series equal to zero.
pub open spec fn cheb_b(c: Seq<u64>, tau: u64, j: int) -> u64
    decreases c.len() + 2 - j,
{
    if j < 0 || j >= c.len() {
        F64_ZERO
    } else {
        fadd(fsub(fmul(fmul(F64_TWO, tau), cheb_b(c, tau, j + 1)), cheb_b(c, tau, j + 2)), c[j])
    }
}

/// The value of the Chebyshev series `c` at `tau`, in the formulation
/// `c_0 + tau * b_1 - b_2` that matches the reference evaluation bit for
/// bit.
pub open spec fn spec_cheb_value(c: Seq<u64>, tau: u64) -> u64 {
    if c.len() == 0 {
        F64_ZERO
    } else {
        fsub(fadd(c[0], fmul(tau, cheb_b(c, tau, 1))), cheb_b(c, tau, 2))
    }
}

/// Evaluates a Chebyshev series by the Clenshaw recurrence.
pub fn chebyshev_eval(c: &[u64], tau: u64) -> (r: u64)
    ensures
        r == spec_cheb_value(c@, tau),
{
    let n = c.len();
    if n == 0 {
        return F64_ZERO;
    }
    let tt = f64_mul(F64_TWO, tau);
    let mut bj1: u64 = F64_ZERO;
    let mut bj2: u64 = F64_ZERO;
    let mut j: usize = n;
    while j > 1
        invariant
            1 <= j <= n,
            n == c@.len(),
            tt == fmul(F64_TWO, tau),
            bj1 == cheb_b(c@, tau, j as int),
            bj2 == cheb_b(c@, tau, j as int + 1),
        decreases j,
    {
        j = j - 1;
        let bj = f64_add(f64_sub(f64_mul(tt, bj1), bj2), c[j]);
        bj2 = bj1;
        bj1 = bj;
    }
    f64_sub(f64_add(c[0], f64_mul(tau, bj1)), bj2)
}

/// The unscaled derivative-series recurrence for the Chebyshev series
/// `c`: `d_j = d_(j+2) + 2 (j+1) c_(j+1)`, with every `d` at or past the
/// last coefficient equal to zero. The coefficient of degree zero of the
/// true derivative series is half of `d_0`.
pub open spec fn deriv_rec(c: Seq<u64>, j: int) -> u64
    decreases c.len() + 2 - j,
{
    if j < 0 || j + 1 >= c.len() {
        F64_ZERO
    } else {
        fadd(deriv_rec(c, j + 2), fmul(small_int_bits((2 * (j + 1)) as u64), c[j + 1]))
    }
}

/// The coefficients of the derivative of the Chebyshev series `c`, one
/// degree lower than `c`.
pub open spec fn deriv_series(c: Seq<u64>) -> Seq<u64> {
    if c.len() == 0 {
        Seq::empty()
    } else {
        Seq::new(
            (c.len() - 1) as nat,
            |j: int| if j == 0 { fmul(F64_HALF, deriv_rec(c, 0)) } else { deriv_rec(c, j) },
        )
    }
}

/// The floor of the base-two logarithm of a positive integer.
pub open spec fn spec_ilog2(n: int) -> int
    decreases n,
{
    if n <= 1 {
        0
    } else {
        1 + spec_ilog2(n / 2)
    }
}

/// The IEEE-754 double encoding of a small positive integer: exponent
/// `1023 + floor(log2 n)` and the bits of `n` below its leading one,
/// aligned to the top of the 52-bit fraction field.
pub open spec fn small_int_bits(n: u64) -> u64 {
    let p = spec_ilog2(n as int) as u64;
    (((1023 + p) as u64) << 52u64) | ((n << ((52 - p) as u64)) & 0xfffffffffffff)
}

/// Encodes a small positive integer as an IEEE-754 double, exactly.
pub fn int_to_f64_bits(n: u64) -> (r: u64)
    requires
        1 <= n < 0x10000000000000,
    ensures
        r == small_int_bits(n),
{
    let mut p: u64 = 0;
    let mut m: u64 = n;
    proof {
        lemma2_to64();
    }
    while m > 1
        invariant
            1 <= m,
            p <= 52,
            n < 0x10000000000000,
            m as int == n as int / pow2(p as nat) as int,
            pow2(p as nat) <= n,
            spec_ilog2(n as int) == p + spec_ilog2(m as int),
        decreases m,
    {
        proof {
            lemma_pow2_step(n, p, m);
        }
        m = m / 2;
        p = p + 1;
    }
    (((1023 + p) as u64) << 52u64) | ((n << ((52 - p) as u64)) & 0xfffffffffffff)
}

/// One halving step: the quotient by the next power of two, the bound on
/// the exponent, and the logarithm recursion.
proof fn lemma_pow2_step(n: u64, p: u64, m: u64)
    requires
        2 <= m,
        p <= 52,
        n < 0x10000000000000,
        m as int == n as int / pow2(p as nat) as int,
        pow2(p as nat) <= n,
        spec_ilog2(n as int) == p + spec_ilog2(m as int),
    ensures
        (m / 2) as int == n as int / pow2((p + 1) as nat) as int,
        pow2((p + 1) as nat) <= n,
        p + 1 <= 52,
        spec_ilog2(n as int) == p + 1 + spec_ilog2((m / 2) as int),
{
    lemma_pow2_pos(p as nat);
    lemma_pow2_adds(p as nat, 1);
    lemma2_to64();
    lemma2_to64_rest();
    let q = pow2(p as nat) as int;
    // Quotient chaining: (n / q) / 2 == n / (2 q).
    vstd::arithmetic::div_mod::lemma_div_denominator(n as int, q, 2);
    assert(q * 2 == 2 * q) by (nonlinear_arith);
    // From m >= 2: n >= 2 q, so the next power of two still fits.
    vstd::arithmetic::div_mod::lemma_fundamental_div_mod(n as int, q);
    vstd::arithmetic::mul::lemma_mul_inequality(2, m as int, q);
    assert(m as int * q == q * m as int) by (nonlinear_arith);
    // The exponent never reaches 53 while n fits in 52 bits.
    if p + 1 > 52 {
        lemma_pow2_strictly_increases(52, (p + 1) as nat);
        assert(false);
    }
}

/// Builds the derivative series of `c` as a vector.
pub fn derivative_coeffs(c: &[u64]) -> (r: Vec<u64>)
    requires
        1 <= c@.len() <= 1000,
    ensures
        r@ == deriv_series(c@),
{
    let n = c.len();
    let mut r: Vec<u64> = Vec::new();
    let mut k: usize = 0;
    while k + 1 < n
        invariant
            k <= n - 1,
            n == c@.len(),
            n <= 1000,
            r@.len() == k,
        decreases n - k,
    {
        r.push(F64_ZERO);
        k = k + 1;
    }
    let mut j: usize = n - 1;
    while j > 0
        invariant
            j <= n - 1,
            n == c@.len(),
            n <= 1000,
            r@.len() == n - 1,
            forall|i: int| j <= i < n - 1 ==> r@[i] == deriv_rec(c@, i),
        decreases j,
    {
        j = j - 1;
        let upper: u64 = if j + 2 < n - 1 { r[j + 2] } else { F64_ZERO };
        proof {
            if !(j + 2 < n - 1) {
                assert(deriv_rec(c@, j as int + 2) == F64_ZERO);
            }
        }
        let two_j1 = int_to_f64_bits(2 * (j as u64) + 2);
        r[j] = f64_add(upper, f64_mul(two_j1, c[j + 1]));
    }
    if n > 1 {
        let d0 = r[0];
        r[0] = f64_mul(F64_HALF, d0);
    }
    proof {
        assert(r@ =~= deriv_series(c@));
    }
    r
}

/// The value of the derivative of the Chebyshev series `c` at `tau`,
/// scaled by the reciprocal of `radius`.
pub open spec fn spec_cheb_derivative(c: Seq<u64>, tau: u64, radius: u64) -> u64 {
    fdiv(spec_cheb_value(deriv_series(c), tau), radius)
}

/// Evaluates the derivative of the Chebyshev series `c` at `tau`, scaled
/// by the reciprocal of the record's radius.
pub fn chebyshev_derivative_eval(c: &[u64], tau: u64, radius: u64) -> (r: u64)
    requires
        1 <= c@.len() <= 1000,
    ensures
        r == spec_cheb_derivative(c@, tau, radius),
{
    let dc = derivative_coeffs(c);
    let v = chebyshev_eval(dc.as_slice(), tau);
    f64_div(v, radius)
}

} // verus!

use anise::ephemeris::{Spline, SplineKind};
use anise::fbits::{f64_add, f64_div, f64_le, f64_lt, f64_mul, f64_pos_floor32, f64_sub};
use anise::hrmint::hrmint_;
use anise::interpolation::{chebyshev_eval, derivative_coeffs, int_to_f64_bits};

fn b(x: f64) -> u64 {
    x.to_bits()
}

fn f(x: u64) -> f64 {
    f64::from_bits(x)
}

#[test]
fn arithmetic_wrappers_match_hardware() {
    let pairs = [
        (1.5, 2.25),
        (-3.75, 0.1),
        (1e300, 1e-300),
        (-0.0, 0.0),
        (123456.789, -987654.321),
    ];
    fn agree(got: f64, want: f64) -> bool {
        got == want || (got.is_nan() && want.is_nan())
    }
    for (x, y) in pairs {
        assert!(agree(f(f64_add(b(x), b(y))), x + y));
        assert!(agree(f(f64_sub(b(x), b(y))), x - y));
        assert!(agree(f(f64_mul(b(x), b(y))), x * y));
        assert!(agree(f(f64_div(b(x), b(y))), x / y));
    }
    // Division by zero follows IEEE-754: an infinity, never a panic.
    assert_eq!(f(f64_div(b(1.0), b(0.0))), f64::INFINITY);
}

#[test]
fn comparisons_match_hardware() {
    let vals = [-1e9, -2.5, -0.0, 0.0, 1e-12, 3.5, 1e30];
    for x in vals {
        for y in vals {
            assert_eq!(f64_le(b(x), b(y)), x <= y);
            assert_eq!(f64_lt(b(x), b(y)), x < y);
        }
    }
    assert!(!f64_le(f64::NAN.to_bits(), b(1.0)));
    assert!(!f64_lt(b(1.0), f64::NAN.to_bits()));
}

#[test]
fn positive_floor_saturates() {
    assert_eq!(f64_pos_floor32(b(0.0)), 0);
    assert_eq!(f64_pos_floor32(b(0.99)), 0);
    assert_eq!(f64_pos_floor32(b(1.0)), 1);
    assert_eq!(f64_pos_floor32(b(37.9)), 37);
    assert_eq!(f64_pos_floor32(b(-5.0)), 0);
    assert_eq!(f64_pos_floor32(b(1e300)), 0xffffffff);
    assert_eq!(f64_pos_floor32(f64::NAN.to_bits()), 0);
}

#[test]
fn small_integers_encode_exactly() {
    for n in [1u64, 2, 3, 7, 10, 255, 1024, 123_456_789] {
        assert_eq!(f(int_to_f64_bits(n)), n as f64);
    }
}

/// An independent Clenshaw evaluation with hardware doubles.
fn clenshaw_ref(c: &[f64], tau: f64) -> f64 {
    let mut bj1 = 0.0f64;
    let mut bj2 = 0.0f64;
    let tt = 2.0 * tau;
    for j in (1..c.len()).rev() {
        let bj = tt * bj1 - bj2 + c[j];
        bj2 = bj1;
        bj1 = bj;
    }
    c[0] + tau * bj1 - bj2
}

#[test]
fn chebyshev_matches_reference_evaluation() {
    let c = [3.0, -1.25, 0.5, 2.75, -0.125];
    let cb: Vec<u64> = c.iter().map(|x| b(*x)).collect();
    for tau in [-1.0, -0.33, 0.0, 0.5, 0.99, 1.0] {
        assert_eq!(f(chebyshev_eval(&cb, b(tau))), clenshaw_ref(&c, tau));
    }
}

#[test]
fn derivative_of_linear_series_is_its_slope() {
    // d/dtau (c0 + c1 T1) = c1.
    let cb = [b(4.0), b(2.5)];
    let d = derivative_coeffs(&cb);
    assert_eq!(d.len(), 1);
    assert_eq!(f(d[0]), 2.5);
}

#[test]
fn chebyshev_mid_epoch_returns_first_coefficient() {
    // A position-only record of degree one: at the record's mid-epoch
    // the normalised abscissa is zero and each component is exactly
    // the first coefficient of its series.
    let spline = Spline {
        kind: SplineKind::ChebyshevTriplet,
        init_epoch_bits: b(0.0),
        final_epoch_bits: b(32.0),
        interval_length_bits: b(32.0),
        degree: 1,
        num_records: 1,
        data: vec![
            b(16.0),
            b(16.0),
            b(7.5),
            b(0.25),
            b(-3.0),
            b(0.5),
            b(42.0),
            b(-0.125),
        ],
    };
    let (pos, vel) = spline.posvel_at(b(16.0)).unwrap();
    assert_eq!(f(pos.x), 7.5);
    assert_eq!(f(pos.y), -3.0);
    assert_eq!(f(pos.z), 42.0);
    // The derivative of a degree-one series is its slope coefficient,
    // scaled by the record radius.
    assert_eq!(f(vel.x), 0.25 / 16.0);
    assert_eq!(f(vel.y), 0.5 / 16.0);
    assert_eq!(f(vel.z), -0.125 / 16.0);
}

#[test]
fn spline_selects_record_by_epoch() {
    // Two degree-zero position-velocity records over [0, 20).
    let spline = Spline {
        kind: SplineKind::ChebyshevHextet,
        init_epoch_bits: b(0.0),
        final_epoch_bits: b(20.0),
        interval_length_bits: b(10.0),
        degree: 0,
        num_records: 2,
        data: vec![
            b(5.0),
            b(5.0),
            b(1.0),
            b(2.0),
            b(3.0),
            b(0.0),
            b(0.0),
            b(0.0),
            b(15.0),
            b(5.0),
            b(4.0),
            b(5.0),
            b(6.0),
            b(0.0),
            b(0.0),
            b(0.0),
        ],
    };
    let (p0, _) = spline.posvel_at(b(2.0)).unwrap();
    assert_eq!(f(p0.x), 1.0);
    let (p1, _) = spline.posvel_at(b(17.0)).unwrap();
    assert_eq!(f(p1.x), 4.0);
}

/// An independent evaluation of the Hermite divided-difference table
/// with hardware doubles, in the same operation order.
fn hrmint_ref(xvals: &[f64], yvals: &[f64], x: f64) -> (f64, f64) {
    let n = xvals.len();
    let m = 2 * n;
    let mut work = vec![0.0f64; 2 * m];
    for i in 0..m {
        work[i] = yvals[i];
    }
    for k in 0..n - 1 {
        let c1 = xvals[k + 1] - x;
        let c2 = x - xvals[k];
        let denom = xvals[k + 1] - xvals[k];
        let prev = 2 * k;
        let this = prev + 1;
        let next = this + 1;
        work[m + prev] = work[this];
        work[m + this] = (work[next] - work[prev]) / denom;
        let temp = work[this] * c2 + work[prev];
        work[this] = (c1 * work[prev] + c2 * work[next]) / denom;
        work[prev] = temp;
    }
    work[m + m - 2] = work[m - 1];
    work[m - 2] = work[m - 1] * (x - xvals[n - 1]) + work[m - 2];
    for j in 2..m {
        for i1 in 1..=(m - j) {
            let i0 = i1 - 1;
            let xi = (i1 + 1) / 2;
            let xij = (i1 + j + 1) / 2;
            let c1 = xvals[xij - 1] - x;
            let c2 = x - xvals[xi - 1];
            let denom = xvals[xij - 1] - xvals[xi - 1];
            work[m + i0] = (c1 * work[m + i0] + c2 * work[m + i0 + 1]
                + (work[i0 + 1] - work[i0]))
                / denom;
            work[i0] = (c1 * work[i0] + c2 * work[i0 + 1]) / denom;
        }
    }
    (work[0], work[m])
}

#[test]
fn hermite_matches_reference_evaluation() {
    let xv = [0.0, 1.0, 3.0, 4.5];
    let yv = [1.0, 0.5, 2.0, -0.25, -1.0, 0.75, 3.0, 0.125];
    let xvb: Vec<u64> = xv.iter().map(|v| b(*v)).collect();
    let yvb: Vec<u64> = yv.iter().map(|v| b(*v)).collect();
    for x in [0.0, 0.4, 1.7, 2.9, 4.2] {
        let (fx, dfx) = hrmint_(&xvb, &yvb, b(x));
        let (rf, rdf) = hrmint_ref(&xv, &yv, x);
        assert_eq!(f(fx), rf);
        assert_eq!(f(dfx), rdf);
    }
}

#[test]
fn hermite_reproduces_samples_at_their_epochs() {
    // At a sample abscissa the weight from that abscissa is exactly
    // zero and the surviving weights cancel against their spans, so
    // evaluation returns the stored sample and derivative exactly.
    let xv = [0.0, 1.0, 3.0, 4.5];
    let yv = [1.0, 0.5, 2.0, -0.25, -1.0, 0.75, 3.0, 0.125];
    let xvb: Vec<u64> = xv.iter().map(|v| b(*v)).collect();
    let yvb: Vec<u64> = yv.iter().map(|v| b(*v)).collect();
    for (i, xs) in xv.iter().enumerate() {
        let (fx, dfx) = hrmint_(&xvb, &yvb, b(*xs));
        assert_eq!(f(fx), yv[2 * i]);
        assert_eq!(f(dfx), yv[2 * i + 1]);
    }
}

//! Ephemeris records: for each body, the identifier of its parent in the
//! frame graph and the Chebyshev spline that gives its state relative to
//! that parent.

use vstd::prelude::*;
use crate::errors::AniseError;
use crate::fbits::{
    f64_div, f64_le, f64_lt, f64_pos_floor32, f64_sub, fdiv, fsub, spec_f64_le, spec_f64_lt,
    spec_pos_floor32, F64_NEG_ONE, F64_ONE,
};
use crate::interpolation::{
    chebyshev_derivative_eval, chebyshev_eval, spec_cheb_derivative, spec_cheb_value,
};
use crate::math::Vector3;

verus! {

/// How a spline's records lay out their Chebyshev series.
#[derive(Clone, Copy, Debug, PartialEq, Eq, Structural)]
pub enum SplineKind {
    /// Three position series per record; velocity is the derivative of
    /// the position series, scaled by the record radius.
    ChebyshevTriplet,
    /// Six independent series per record: position and velocity.
    ChebyshevHextet,
}

/// An equal-spaced Chebyshev spline. Each record is `mid`, `radius`,
/// then one series of `degree + 1` coefficients per component, all
/// carried as IEEE-754 bit patterns.
#[derive(Clone, Debug)]
pub struct Spline {
    pub kind: SplineKind,
    /// Bits of the first covered epoch, in ephemeris seconds.
    pub init_epoch_bits: u64,
    /// Bits of the last covered epoch, in ephemeris seconds.
    pub final_epoch_bits: u64,
    /// Bits of the length in seconds of one record's interval.
    pub interval_length_bits: u64,
    /// Degree of each Chebyshev series.
    pub degree: usize,
    /// Number of records.
    pub num_records: usize,
    /// The records, flattened.
    pub data: Vec<u64>,
}

impl Spline {
    /// How many series one record holds.
    pub open spec fn series_count(&self) -> int {
        match self.kind {
            SplineKind::ChebyshevTriplet => 3,
            SplineKind::ChebyshevHextet => 6,
        }
    }

    /// How many doubles one record holds.
    pub open spec fn record_len(&self) -> int {
        2 + self.series_count() * (self.degree + 1)
    }

    /// Structural validity: at least one record, a bounded degree, and a
    /// data region of exactly `num_records` records.
    pub open spec fn wf(&self) -> bool {
        &&& 1 <= self.num_records
        &&& self.degree + 1 <= 1000
        &&& self.num_records * self.record_len() == self.data@.len()
    }

    /// The record index the epoch selects: the floor of the elapsed time
    /// over the interval length, clamped to the last record (and, for
    /// negative or non-numeric elapsed time, to the first).
    pub open spec fn spec_record_index(&self, t: u64) -> int {
        let kf = spec_pos_floor32(fdiv(fsub(t, self.init_epoch_bits), self.interval_length_bits));
        if kf >= self.num_records { self.num_records - 1 } else { kf as int }
    }

    /// The coefficients of series `s` of record `k`.
    pub open spec fn series_at(&self, k: int, s: int) -> Seq<u64> {
        self.data@.subrange(
            k * self.record_len() + 2 + s * (self.degree + 1),
            k * self.record_len() + 2 + (s + 1) * (self.degree + 1),
        )
    }

    /// The normalised abscissa for epoch `t` in record `k`: the elapsed
    /// time from the record's mid-point over its radius, clamped to
    /// `[-1, 1]` on the two boundary records only.
    pub open spec fn spec_tau(&self, t: u64, k: int) -> u64 {
        let mid = self.data@[k * self.record_len()];
        let radius = self.data@[k * self.record_len() + 1];
        let tau0 = fdiv(fsub(t, mid), radius);
        if k == 0 && spec_f64_lt(tau0, F64_NEG_ONE) {
            F64_NEG_ONE
        } else if k == self.num_records - 1 && spec_f64_lt(F64_ONE, tau0) {
            F64_ONE
        } else {
            tau0
        }
    }

    /// What evaluation at epoch `t` returns: a coverage error outside
    /// `[init, final]`, otherwise the position and velocity vectors read
    /// from the selected record's series at the normalised abscissa.
    pub open spec fn spec_posvel(&self, t: u64) -> Result<(Vector3, Vector3), AniseError> {
        if !(spec_f64_le(self.init_epoch_bits, t) && spec_f64_le(t, self.final_epoch_bits)) {
            Err(AniseError::MissingInterpolationData)
        } else {
            let k = self.spec_record_index(t);
            let tau = self.spec_tau(t, k);
            let radius = self.data@[k * self.record_len() + 1];
            let pos = Vector3 {
                x: spec_cheb_value(self.series_at(k, 0), tau),
                y: spec_cheb_value(self.series_at(k, 1), tau),
                z: spec_cheb_value(self.series_at(k, 2), tau),
            };
            let vel = match self.kind {
                SplineKind::ChebyshevTriplet => Vector3 {
                    x: spec_cheb_derivative(self.series_at(k, 0), tau, radius),
                    y: spec_cheb_derivative(self.series_at(k, 1), tau, radius),
                    z: spec_cheb_derivative(self.series_at(k, 2), tau, radius),
                },
                SplineKind::ChebyshevHextet => Vector3 {
                    x: spec_cheb_value(self.series_at(k, 3), tau),
                    y: spec_cheb_value(self.series_at(k, 4), tau),
                    z: spec_cheb_value(self.series_at(k, 5), tau),
                },
            };
            Ok((pos, vel))
        }
    }

    /// Evaluates position and velocity at the epoch whose ephemeris
    /// seconds have the given bits.
    #[verifier::rlimit(30)]
    pub fn posvel_at(&self, t: u64) -> (r: Result<(Vector3, Vector3), AniseError>)
        requires
            self.wf(),
        ensures
            r == self.spec_posvel(t),
    {
        if !(f64_le(self.init_epoch_bits, t) && f64_le(t, self.final_epoch_bits)) {
            return Err(AniseError::MissingInterpolationData);
        }
        let nper: usize = match self.kind {
            SplineKind::ChebyshevTriplet => 3,
            SplineKind::ChebyshevHextet => 6,
        };
        let rl: usize = 2 + nper * (self.degree + 1);
        let kf = f64_pos_floor32(f64_div(f64_sub(t, self.init_epoch_bits), self.interval_length_bits));
        let k: usize = if kf >= self.num_records as u64 {
            self.num_records - 1
        } else {
            kf as usize
        };
        let dlen = self.data.len();
        proof {
            lemma_record_bounds(self.num_records as int, k as int, self.record_len());
            assert(k * rl + rl <= dlen);
        }
        let base: usize = k * rl;
        let mid = self.data[base];
        let radius = self.data[base + 1];
        let tau0 = f64_div(f64_sub(t, mid), radius);
        let tau: u64 = if k == 0 && f64_lt(tau0, F64_NEG_ONE) {
            F64_NEG_ONE
        } else if k == self.num_records - 1 && f64_lt(F64_ONE, tau0) {
            F64_ONE
        } else {
            tau0
        };
        let m = self.degree + 1;
        proof {
            match self.kind {
                SplineKind::ChebyshevTriplet => {
                    assert(nper == 3);
                    assert(rl == 2 + 3 * m);
                },
                SplineKind::ChebyshevHextet => {
                    assert(nper == 6);
                    assert(rl == 2 + 6 * m);
                },
            }
            assert(rl == self.record_len());
            assert(base as int == k as int * self.record_len());
            assert(base + rl <= self.data@.len());
        }
        let s = self.data.as_slice();
        let cx = &s[base + 2..base + 2 + m];
        let cy = &s[base + 2 + m..base + 2 + 2 * m];
        let cz = &s[base + 2 + 2 * m..base + 2 + 3 * m];
        proof {
            assert(cx@ =~= self.series_at(k as int, 0));
            assert(cy@ =~= self.series_at(k as int, 1));
            assert(cz@ =~= self.series_at(k as int, 2));
        }
        let pos = Vector3 {
            x: chebyshev_eval(cx, tau),
            y: chebyshev_eval(cy, tau),
            z: chebyshev_eval(cz, tau),
        };
        let vel = match self.kind {
            SplineKind::ChebyshevTriplet => Vector3 {
                x: chebyshev_derivative_eval(cx, tau, radius),
                y: chebyshev_derivative_eval(cy, tau, radius),
                z: chebyshev_derivative_eval(cz, tau, radius),
            },
            SplineKind::ChebyshevHextet => {
                let cvx = &s[base + 2 + 3 * m..base + 2 + 4 * m];
                let cvy = &s[base + 2 + 4 * m..base + 2 + 5 * m];
                let cvz = &s[base + 2 + 5 * m..base + 2 + 6 * m];
                proof {
                    assert(cvx@ =~= self.series_at(k as int, 3));
                    assert(cvy@ =~= self.series_at(k as int, 4));
                    assert(cvz@ =~= self.series_at(k as int, 5));
                }
                Vector3 {
                    x: chebyshev_eval(cvx, tau),
                    y: chebyshev_eval(cvy, tau),
                    z: chebyshev_eval(cvz, tau),
                }
            },
        };
        Ok((pos, vel))
    }
}

/// A record selected by a valid index leaves room for one whole record.
proof fn lemma_record_bounds(num_records: int, k: int, rl: int)
    requires
        0 <= k < num_records,
        0 <= rl,
    ensures
        k * rl + rl <= num_records * rl,
        0 <= k * rl,
{
    vstd::arithmetic::mul::lemma_mul_inequality(k + 1, num_records, rl);
    vstd::arithmetic::mul::lemma_mul_is_distributive_add_other_way(rl, k, 1);
    vstd::arithmetic::mul::lemma_mul_nonnegative(k, rl);
}

/// One body's ephemeris: the identifier of its parent and the spline
/// that gives its state relative to that parent.
#[derive(Clone, Debug)]
pub struct Ephemeris {
    /// Hash of the parent this body's states are expressed against.
    pub parent_ephemeris_hash: u32,
    /// The body's state spline.
    pub spline: Spline,
}

impl Ephemeris {
    /// Structural validity of the record.
    pub open spec fn wf(&self) -> bool {
        self.spline.wf()
    }
}

} // verus!

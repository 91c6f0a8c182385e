use anise::context::{AniseContext, Epoch, LookupTable};
use anise::ephemeris::{Ephemeris, Spline, SplineKind};
use anise::errors::{AniseError, IntegrityErrorKind};
use anise::frames::Frame;
use anise::math::Vector3;

fn b(x: f64) -> u64 {
    x.to_bits()
}

fn f(x: u64) -> f64 {
    f64::from_bits(x)
}

/// A one-record, degree-zero spline whose position and velocity are
/// constant over [0, 100] seconds.
fn constant_spline(pos: [f64; 3], vel: [f64; 3]) -> Spline {
    Spline {
        kind: SplineKind::ChebyshevHextet,
        init_epoch_bits: b(0.0),
        final_epoch_bits: b(100.0),
        interval_length_bits: b(100.0),
        degree: 0,
        num_records: 1,
        data: vec![
            b(50.0),
            b(50.0),
            b(pos[0]),
            b(pos[1]),
            b(pos[2]),
            b(vel[0]),
            b(vel[1]),
            b(vel[2]),
        ],
    }
}

/// Earth (hash 1) orbits the barycentre; the Moon (hash 2) and a probe
/// (hash 3) orbit the Earth.
fn small_context() -> AniseContext {
    AniseContext {
        ephemeris_lut: LookupTable { hashes: vec![1, 2, 3] },
        orientation_lut: LookupTable { hashes: vec![] },
        ephemeris_data: vec![
            Ephemeris {
                parent_ephemeris_hash: 0,
                spline: constant_spline([1.0, 2.0, 3.0], [0.25, 0.5, 0.75]),
            },
            Ephemeris {
                parent_ephemeris_hash: 1,
                spline: constant_spline([10.0, 20.0, 30.0], [1.0, 2.0, 3.0]),
            },
            Ephemeris {
                parent_ephemeris_hash: 1,
                spline: constant_spline([-4.0, 8.0, -16.0], [0.125, -0.25, 0.5]),
            },
        ],
        orientation_data: vec![],
    }
}

fn frame(h: u32) -> Frame {
    Frame { ephemeris_hash: h, orientation_hash: 0 }
}

fn epoch(t: f64) -> Epoch {
    Epoch { et_seconds_bits: b(t) }
}

#[test]
fn translate_moon_to_earth() {
    let ctx = small_context();
    let (pos, vel) = ctx.translate_from_to(frame(2), frame(1), epoch(10.0)).unwrap();
    // T(moon -> root) - T(earth -> root) = (S2 + S1) - S1 = S2 exactly
    // for these small integer values.
    assert_eq!(f(pos.x), 10.0);
    assert_eq!(f(pos.y), 20.0);
    assert_eq!(f(pos.z), 30.0);
    assert_eq!(f(vel.x), 1.0);
    assert_eq!(f(vel.y), 2.0);
    assert_eq!(f(vel.z), 3.0);
}

#[test]
fn translate_identity_is_zero() {
    let ctx = small_context();
    let (pos, vel) = ctx.translate_from_to(frame(2), frame(2), epoch(10.0)).unwrap();
    assert_eq!(pos, Vector3 { x: 0, y: 0, z: 0 });
    assert_eq!(vel, Vector3 { x: 0, y: 0, z: 0 });
}

#[test]
fn translate_antisymmetry() {
    let ctx = small_context();
    let (pos_ab, vel_ab) = ctx.translate_from_to(frame(2), frame(3), epoch(10.0)).unwrap();
    let (pos_ba, vel_ba) = ctx.translate_from_to(frame(3), frame(2), epoch(10.0)).unwrap();
    assert_eq!(f(pos_ab.x), -f(pos_ba.x));
    assert_eq!(f(pos_ab.y), -f(pos_ba.y));
    assert_eq!(f(pos_ab.z), -f(pos_ba.z));
    assert_eq!(f(vel_ab.x), -f(vel_ba.x));
    assert_eq!(f(vel_ab.y), -f(vel_ba.y));
    assert_eq!(f(vel_ab.z), -f(vel_ba.z));
}

#[test]
fn translate_composability() {
    let ctx = small_context();
    let t = epoch(10.0);
    let (d, dv) = ctx.translate_from_to(frame(2), frame(3), t).unwrap();
    let (d1, dv1) = ctx.translate_from_to(frame(2), frame(1), t).unwrap();
    let (d2, dv2) = ctx.translate_from_to(frame(1), frame(3), t).unwrap();
    assert!((f(d.x) - (f(d1.x) + f(d2.x))).abs() <= 1e-12);
    assert!((f(d.y) - (f(d1.y) + f(d2.y))).abs() <= 1e-12);
    assert!((f(d.z) - (f(d1.z) + f(d2.z))).abs() <= 1e-12);
    assert!((f(dv.x) - (f(dv1.x) + f(dv2.x))).abs() <= 1e-12);
    assert!((f(dv.y) - (f(dv1.y) + f(dv2.y))).abs() <= 1e-12);
    assert!((f(dv.z) - (f(dv1.z) + f(dv2.z))).abs() <= 1e-12);
}

#[test]
fn translate_state_adds_frame_translation() {
    let ctx = small_context();
    let r = Vector3 { x: b(100.0), y: b(200.0), z: b(300.0) };
    let v = Vector3 { x: b(1.0), y: b(1.0), z: b(1.0) };
    let (pos, vel) = ctx.translate_state_to(r, v, frame(2), frame(1), epoch(10.0)).unwrap();
    assert_eq!(f(pos.x), 110.0);
    assert_eq!(f(pos.y), 220.0);
    assert_eq!(f(pos.z), 330.0);
    assert_eq!(f(vel.x), 2.0);
    assert_eq!(f(vel.y), 3.0);
    assert_eq!(f(vel.z), 4.0);
}

#[test]
fn disjoint_roots_are_an_integrity_error() {
    // One file covers Mars (hash 21, parent 20), another Jupiter
    // (hash 31, parent 30); nothing connects the two trees.
    let ctx = AniseContext {
        ephemeris_lut: LookupTable { hashes: vec![21, 31] },
        orientation_lut: LookupTable { hashes: vec![] },
        ephemeris_data: vec![
            Ephemeris {
                parent_ephemeris_hash: 20,
                spline: constant_spline([1.0, 0.0, 0.0], [0.0, 0.0, 0.0]),
            },
            Ephemeris {
                parent_ephemeris_hash: 30,
                spline: constant_spline([2.0, 0.0, 0.0], [0.0, 0.0, 0.0]),
            },
        ],
        orientation_data: vec![],
    };
    let err = ctx.translate_from_to(frame(21), frame(31), epoch(10.0)).unwrap_err();
    match err {
        AniseError::IntegrityError(IntegrityErrorKind::DisjointRoots { from_frame, to_frame }) => {
            assert_eq!(from_frame, frame(21));
            assert_eq!(to_frame, frame(31));
        }
        other => panic!("expected disjoint roots, got {:?}", other),
    }
}

#[test]
fn deep_graph_exceeds_max_tree_depth() {
    // A chain 1 -> 2 -> ... -> 10 is deeper than the fixed bound.
    let mut hashes = Vec::new();
    let mut data = Vec::new();
    for h in 1u32..=9 {
        hashes.push(h);
        data.push(Ephemeris {
            parent_ephemeris_hash: h + 1,
            spline: constant_spline([1.0, 0.0, 0.0], [0.0, 0.0, 0.0]),
        });
    }
    let ctx = AniseContext {
        ephemeris_lut: LookupTable { hashes },
        orientation_lut: LookupTable { hashes: vec![] },
        ephemeris_data: data,
        orientation_data: vec![],
    };
    let err = ctx.try_ephemeris_path(&frame(1)).unwrap_err();
    assert_eq!(err, AniseError::MaxTreeDepth);
}

#[test]
fn path_stops_at_barycenter_and_at_root() {
    let ctx = small_context();
    let (len, path) = ctx.try_ephemeris_path(&frame(2)).unwrap();
    assert_eq!(len, 2);
    assert_eq!(path[0], Some(1));
    assert_eq!(path[1], Some(0));
    assert_eq!(path[2], None);
    let (len1, path1) = ctx.try_ephemeris_path(&frame(1)).unwrap();
    assert_eq!(len1, 1);
    assert_eq!(path1[0], Some(0));
}

#[test]
fn unknown_frame_is_not_found() {
    let ctx = small_context();
    let err = ctx.translate_from_to(frame(77), frame(1), epoch(10.0)).unwrap_err();
    assert_eq!(err, AniseError::ItemNotFound);
}

#[test]
fn epoch_outside_coverage_is_an_interpolation_error() {
    let ctx = small_context();
    let err = ctx.translate_from_to(frame(2), frame(1), epoch(250.0)).unwrap_err();
    assert_eq!(err, AniseError::MissingInterpolationData);
}

#[test]
fn find_root_of_siblings_is_their_parent() {
    let ctx = small_context();
    assert_eq!(ctx.find_ephemeris_root(frame(2), frame(3)).unwrap(), 1);
    assert_eq!(ctx.find_ephemeris_root(frame(3), frame(2)).unwrap(), 1);
}

#[test]
fn lookup_data_by_index() {
    let ctx = small_context();
    assert_eq!(ctx.try_ephemeris_data(1).unwrap().parent_ephemeris_hash, 1);
    assert!(matches!(
        ctx.try_ephemeris_data(17),
        Err(AniseError::IntegrityError(IntegrityErrorKind::LookupTable))
    ));
    assert!(matches!(
        ctx.try_orientation_data(0),
        Err(AniseError::IntegrityError(IntegrityErrorKind::LookupTable))
    ));
}

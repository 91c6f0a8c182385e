//! The loaded-data context and its query surface: lookup tables, paths
//! to the root of the frame graph, common ancestors, and translations
//! between frames.

use vstd::prelude::*;
use vstd::array::ArrayAdditionalExecFns;
use crate::ephemeris::Ephemeris;
use crate::errors::{AniseError, IntegrityErrorKind};
use crate::frames::{Frame, SOLAR_SYSTEM_BARYCENTER};
use crate::math::{spec_vadd, spec_vneg, spec_vsub, spec_zero_vec, vadd, vec_same_value, vsub, Vector3};

verus! {

/// No translation may traverse more than this many graph edges.
pub const MAX_TREE_DEPTH: usize = 8;

/// An opaque scalar instant, carried as the IEEE-754 bits of its
/// ephemeris-seconds value.
#[derive(Clone, Copy, Debug, PartialEq, Eq, Structural)]
pub struct Epoch {
    pub et_seconds_bits: u64,
}

/// Maps a body's hash to the index of its record: the hash at position
/// `i` describes the record at position `i` of the data it indexes.
#[derive(Clone, Debug)]
pub struct LookupTable {
    pub hashes: Vec<u32>,
}

/// The first position of `h` in `s` at or after `from`, or -1.
pub open spec fn first_index_of(s: Seq<u32>, h: u32, from: int) -> int
    decreases s.len() - from,
{
    if from < 0 || from >= s.len() {
        -1
    } else if s[from] == h {
        from
    } else {
        first_index_of(s, h, from + 1)
    }
}

impl LookupTable {
    /// What looking a hash up returns: the first index holding it, or
    /// an item-not-found error.
    pub open spec fn spec_index_for_hash(&self, hash: u32) -> Result<usize, AniseError> {
        let i = first_index_of(self.hashes@, hash, 0);
        if i < 0 {
            Err(AniseError::ItemNotFound)
        } else {
            Ok(i as usize)
        }
    }

    /// Returns the index of the record described by this hash, or an
    /// error when the hash is absent.
    pub fn index_for_hash(&self, hash: &u32) -> (r: Result<usize, AniseError>)
        ensures
            r == self.spec_index_for_hash(*hash),
    {
        let n = self.hashes.len();
        let mut j: usize = 0;
        while j < n
            invariant
                j <= n,
                n == self.hashes@.len(),
                first_index_of(self.hashes@, *hash, 0) == first_index_of(
                    self.hashes@,
                    *hash,
                    j as int,
                ),
            decreases n - j,
        {
            if self.hashes[j] == *hash {
                return Ok(j);
            }
            j = j + 1;
        }
        Err(AniseError::ItemNotFound)
    }
}

/// All of the loaded ephemeris and orientation records, with the lookup
/// tables that index them.
#[derive(Clone, Debug)]
pub struct AniseContext {
    pub ephemeris_lut: LookupTable,
    pub orientation_lut: LookupTable,
    pub ephemeris_data: Vec<Ephemeris>,
    pub orientation_data: Vec<Ephemeris>,
}

impl AniseContext {
    /// Structural validity: every record's spline is well formed.
    pub open spec fn wf(&self) -> bool {
        forall|i: int|
            0 <= i < self.ephemeris_data@.len() ==> (#[trigger] self.ephemeris_data@[i]).wf()
    }

    /// Try to return the ephemeris for the provided index, or returns an error.
    pub fn try_ephemeris_data(&self, idx: usize) -> (r: Result<&Ephemeris, AniseError>)
        ensures
            idx < self.ephemeris_data@.len() ==> (r matches Ok(e) && *e
                == self.ephemeris_data@[idx as int]),
            idx >= self.ephemeris_data@.len() ==> (r matches Err(e) && e
                == AniseError::IntegrityError(IntegrityErrorKind::LookupTable)),
    {
        match self.ephemeris_data.get(idx) {
            Some(e) => Ok(e),
            None => Err(AniseError::IntegrityError(IntegrityErrorKind::LookupTable)),
        }
    }

    /// Try to return the orientation for the provided index, or returns an error.
    pub fn try_orientation_data(&self, idx: usize) -> (r: Result<&Ephemeris, AniseError>)
        ensures
            idx < self.orientation_data@.len() ==> (r matches Ok(e) && *e
                == self.orientation_data@[idx as int]),
            idx >= self.orientation_data@.len() ==> (r matches Err(e) && e
                == AniseError::IntegrityError(IntegrityErrorKind::LookupTable)),
    {
        match self.orientation_data.get(idx) {
            Some(e) => Ok(e),
            None => Err(AniseError::IntegrityError(IntegrityErrorKind::LookupTable)),
        }
    }

    /// One step up the tree: the parent hash recorded for `h`, or the
    /// error of the lookup that failed.
    pub open spec fn spec_parent_of(&self, h: u32) -> Result<u32, AniseError> {
        match self.ephemeris_lut.spec_index_for_hash(h) {
            Err(e) => Err(e),
            Ok(i) => if i < self.ephemeris_data@.len() {
                Ok(self.ephemeris_data@[i as int].parent_ephemeris_hash)
            } else {
                Err(AniseError::IntegrityError(IntegrityErrorKind::LookupTable))
            },
        }
    }

    /// The chain of parent hashes from `h` up to the solar system
    /// barycentre or to a hash with no record of its own, whichever
    /// comes first; exhausting the fuel is the depth error.
    pub open spec fn spec_path_from(&self, h: u32, fuel: nat) -> Result<Seq<u32>, AniseError>
        decreases fuel,
    {
        if fuel == 0 {
            Err(AniseError::MaxTreeDepth)
        } else {
            match self.spec_parent_of(h) {
                Err(e) => Err(e),
                Ok(p) => {
                    if p == SOLAR_SYSTEM_BARYCENTER {
                        Ok(seq![p])
                    } else if self.ephemeris_lut.spec_index_for_hash(p) == Err::<
                        usize,
                        AniseError,
                    >(AniseError::ItemNotFound) {
                        Ok(seq![p])
                    } else {
                        match self.spec_path_from(p, (fuel - 1) as nat) {
                            Err(e) => Err(e),
                            Ok(rest) => Ok(seq![p] + rest),
                        }
                    }
                },
            }
        }
    }

    /// The path of the source frame: `spec_path_from` its ephemeris
    /// hash, with the full depth budget.
    pub open spec fn spec_ephemeris_path(&self, source: Frame) -> Result<Seq<u32>, AniseError> {
        self.spec_path_from(source.ephemeris_hash, MAX_TREE_DEPTH as nat)
    }

    /// Try to construct the path from the source frame all the way to the solar
    /// system barycenter or to the root ephemeris of this context.
    ///
    /// On success the path holds between 1 and [`MAX_TREE_DEPTH`] parent
    /// hashes, in order from the source's parent upward; a chain that
    /// does not reach a root within the bound is the depth error.
    pub fn try_ephemeris_path(&self, source: &Frame) -> (r: Result<
        (usize, [Option<u32>; MAX_TREE_DEPTH]),
        AniseError,
    >)
        ensures
            ({
                let sp = self.spec_ephemeris_path(*source);
                match r {
                    Ok((len, arr)) => {
                        &&& sp matches Ok(s)
                        &&& s.len() == len
                        &&& 1 <= len <= MAX_TREE_DEPTH
                        &&& forall|i: int| 0 <= i < len ==> arr@[i] == Some(s[i])
                        &&& forall|i: int| len <= i < MAX_TREE_DEPTH ==> arr@[i] is None
                    },
                    Err(e) => sp == Err::<Seq<u32>, AniseError>(e),
                }
            }),
    {
        let mut of_path: [Option<u32>; MAX_TREE_DEPTH] = vstd::array::array_fill_for_copy_types(
            None,
        );
        let mut of_path_len: usize = 0;
        let mut prev_ephem_hash = source.ephemeris_hash;
        let ghost mut pref: Seq<u32> = Seq::empty();
        let mut it: usize = 0;
        while it < MAX_TREE_DEPTH
            invariant
                it <= MAX_TREE_DEPTH,
                of_path_len == it,
                pref.len() == it,
                forall|i: int| 0 <= i < it ==> of_path@[i] == Some(pref[i]),
                forall|i: int| it <= i < MAX_TREE_DEPTH ==> of_path@[i] is None,
                ({
                    let full = self.spec_path_from(
                        source.ephemeris_hash,
                        MAX_TREE_DEPTH as nat,
                    );
                    let rest = self.spec_path_from(prev_ephem_hash, (MAX_TREE_DEPTH - it) as nat);
                    match rest {
                        Ok(s) => full == Ok::<Seq<u32>, AniseError>(pref + s),
                        Err(e) => full == Err::<Seq<u32>, AniseError>(e),
                    }
                }),
            decreases MAX_TREE_DEPTH - it,
        {
            let idx = match self.ephemeris_lut.index_for_hash(&prev_ephem_hash) {
                Ok(i) => i,
                Err(e) => {
                    return Err(e);
                },
            };
            let parent_ephem = match self.try_ephemeris_data(idx) {
                Ok(e) => e,
                Err(e) => {
                    return Err(e);
                },
            };
            let parent_hash = parent_ephem.parent_ephemeris_hash;
            let ghost pref_old: Seq<u32> = pref;
            of_path.set(of_path_len, Some(parent_hash));
            of_path_len = of_path_len + 1;
            proof {
                pref = pref.push(parent_hash);
                assert(pref_old + seq![parent_hash] =~= pref);
            }
            if parent_hash == SOLAR_SYSTEM_BARYCENTER {
                return Ok((of_path_len, of_path));
            } else if let Err(e) = self.ephemeris_lut.index_for_hash(&parent_hash) {
                if e == AniseError::ItemNotFound {
                    // The root of this context's tree: the parent has no
                    // record of its own.
                    return Ok((of_path_len, of_path));
                }
            }
            proof {
                let rest = self.spec_path_from(parent_hash, (MAX_TREE_DEPTH - it - 1) as nat);
                match rest {
                    Ok(s) => {
                        assert(pref_old + (seq![parent_hash] + s) =~= pref + s);
                    },
                    Err(_) => {},
                }
            }
            prev_ephem_hash = parent_hash;
            it = it + 1;
        }
        Err(AniseError::MaxTreeDepth)
    }
}

/// An order on frames, used only to break the tie between equally long
/// paths so that the ancestor search treats its two arguments
/// symmetrically.
pub open spec fn spec_frame_le(a: Frame, b: Frame) -> bool {
    a.ephemeris_hash < b.ephemeris_hash || (a.ephemeris_hash == b.ephemeris_hash
        && a.orientation_hash <= b.orientation_hash)
}

/// The first element of `outer` at or after `i` that occurs anywhere in
/// `inner`.
pub open spec fn first_common_from(outer: Seq<u32>, inner: Seq<u32>, i: int) -> Option<u32>
    decreases outer.len() - i,
{
    if i < 0 || i >= outer.len() {
        None
    } else if inner.contains(outer[i]) {
        Some(outer[i])
    } else {
        first_common_from(outer, inner, i + 1)
    }
}

impl AniseContext {
    /// What the common-ancestor search returns, given the two paths:
    /// the first hash shared by both, scanning the shorter path (on a
    /// tie, the path of the frame that is first in `spec_frame_le`) in
    /// order; two frames that share nothing are disjoint roots.
    pub open spec fn spec_common_root(
        &self,
        from_frame: Frame,
        to_frame: Frame,
        fp: Seq<u32>,
        tp: Seq<u32>,
    ) -> Result<u32, AniseError> {
        if fp.len() == 0 && tp.len() == 0 {
            Err(
                AniseError::IntegrityError(
                    IntegrityErrorKind::DisjointRoots { from_frame, to_frame },
                ),
            )
        } else if fp.len() != 0 && tp.len() == 0 {
            // The other frame is already at the root of this context.
            Ok(to_frame.ephemeris_hash)
        } else if tp.len() != 0 && fp.len() == 0 {
            Ok(from_frame.ephemeris_hash)
        } else {
            let outer_is_from = fp.len() < tp.len() || (fp.len() == tp.len() && spec_frame_le(
                from_frame,
                to_frame,
            ));
            let common = if outer_is_from {
                first_common_from(fp, tp, 0)
            } else {
                first_common_from(tp, fp, 0)
            };
            match common {
                Some(h) => Ok(h),
                None => Err(
                    AniseError::IntegrityError(
                        IntegrityErrorKind::DisjointRoots { from_frame, to_frame },
                    ),
                ),
            }
        }
    }

    /// What the root search returns: the frames' shared hash when they
    /// are equal, else the common ancestor of their two paths, with the
    /// `from` path's error winning when both fail.
    pub open spec fn spec_find_root(&self, from_frame: Frame, to_frame: Frame) -> Result<
        u32,
        AniseError,
    > {
        if from_frame == to_frame {
            Ok(from_frame.ephemeris_hash)
        } else {
            match self.spec_ephemeris_path(from_frame) {
                Err(e) => Err(e),
                Ok(fp) => match self.spec_ephemeris_path(to_frame) {
                    Err(e) => Err(e),
                    Ok(tp) => self.spec_common_root(from_frame, to_frame, fp, tp),
                },
            }
        }
    }

    /// Returns the root of two frames: the common ancestor at which
    /// their paths meet. Whatever the order of the two arguments, the
    /// search scans the same path in the same order, so the root it
    /// finds does not depend on that order.
    pub fn find_ephemeris_root(&self, from_frame: Frame, to_frame: Frame) -> (r: Result<
        u32,
        AniseError,
    >)
        ensures
            r == self.spec_find_root(from_frame, to_frame),
    {
        if from_frame == to_frame {
            // Both frames match, so there is no need to go higher up.
            return Ok(from_frame.ephemeris_hash);
        }
        let (from_len, from_path) = match self.try_ephemeris_path(&from_frame) {
            Ok(p) => p,
            Err(e) => {
                return Err(e);
            },
        };
        let (to_len, to_path) = match self.try_ephemeris_path(&to_frame) {
            Ok(p) => p,
            Err(e) => {
                return Err(e);
            },
        };
        let ghost fseq = self.spec_ephemeris_path(from_frame)->Ok_0;
        let ghost tseq = self.spec_ephemeris_path(to_frame)->Ok_0;
        // A successful path always has at least one node, so neither
        // prefix is empty here.
        let outer_is_from: bool = from_len < to_len || (from_len == to_len && frame_le(
            &from_frame,
            &to_frame,
        ));
        let common: Option<u32> = if outer_is_from {
            first_common_in_paths(&from_path, from_len, Ghost(fseq), &to_path, to_len, Ghost(tseq))
        } else {
            first_common_in_paths(&to_path, to_len, Ghost(tseq), &from_path, from_len, Ghost(fseq))
        };
        match common {
            Some(h) => Ok(h),
            None => Err(
                AniseError::IntegrityError(
                    IntegrityErrorKind::DisjointRoots { from_frame, to_frame },
                ),
            ),
        }
    }
}

impl AniseContext {
    /// The walk from `h` up to `root`, adding each traversed edge's
    /// state to the accumulators: at the root it yields the
    /// accumulators; a failed lookup or evaluation is returned; running
    /// out of fuel is the depth error.
    pub open spec fn spec_sum_walk(
        &self,
        h: u32,
        root: u32,
        t: u64,
        fuel: nat,
        accp: Vector3,
        accv: Vector3,
    ) -> Result<(Vector3, Vector3), AniseError>
        decreases fuel,
    {
        if h == root {
            Ok((accp, accv))
        } else if fuel == 0 {
            Err(AniseError::MaxTreeDepth)
        } else {
            match self.ephemeris_lut.spec_index_for_hash(h) {
                Err(e) => Err(e),
                Ok(i) => if i >= self.ephemeris_data@.len() {
                    Err(AniseError::IntegrityError(IntegrityErrorKind::LookupTable))
                } else {
                    let rec = self.ephemeris_data@[i as int];
                    match rec.spline.spec_posvel(t) {
                        Err(e) => Err(e),
                        Ok(pv) => self.spec_sum_walk(
                            rec.parent_ephemeris_hash,
                            root,
                            t,
                            (fuel - 1) as nat,
                            spec_vadd(accp, pv.0),
                            spec_vadd(accv, pv.1),
                        ),
                    }
                },
            }
        }
    }

    /// The total translation that carries the frame of hash `h` onto
    /// the frame of hash `root`: the walk with the full depth budget,
    /// starting at zero accumulators.
    pub open spec fn spec_translate_to_root(&self, h: u32, root: u32, t: u64) -> Result<
        (Vector3, Vector3),
        AniseError,
    > {
        self.spec_sum_walk(
            h,
            root,
            t,
            MAX_TREE_DEPTH as nat,
            spec_zero_vec(),
            spec_zero_vec(),
        )
    }

    /// Walks from the body of hash `h` up to the body of hash `root`,
    /// summing the state of every traversed edge at the epoch.
    pub fn translate_to_root(&self, h: u32, root: u32, epoch: Epoch) -> (r: Result<
        (Vector3, Vector3),
        AniseError,
    >)
        requires
            self.wf(),
        ensures
            r == self.spec_translate_to_root(h, root, epoch.et_seconds_bits),
    {
        let t = epoch.et_seconds_bits;
        let mut accp = Vector3::zeros();
        let mut accv = Vector3::zeros();
        let mut h_cur = h;
        let mut it: usize = 0;
        loop
            invariant
                it <= MAX_TREE_DEPTH,
                self.wf(),
                t == epoch.et_seconds_bits,
                self.spec_translate_to_root(h, root, t) == self.spec_sum_walk(
                    h_cur,
                    root,
                    t,
                    (MAX_TREE_DEPTH - it) as nat,
                    accp,
                    accv,
                ),
            decreases MAX_TREE_DEPTH - it,
        {
            if h_cur == root {
                return Ok((accp, accv));
            }
            if it == MAX_TREE_DEPTH {
                return Err(AniseError::MaxTreeDepth);
            }
            let idx = match self.ephemeris_lut.index_for_hash(&h_cur) {
                Ok(i) => i,
                Err(e) => {
                    return Err(e);
                },
            };
            let rec = match self.try_ephemeris_data(idx) {
                Ok(r2) => r2,
                Err(e) => {
                    return Err(e);
                },
            };
            let (p, v) = match rec.spline.posvel_at(t) {
                Ok(pv) => pv,
                Err(e) => {
                    return Err(e);
                },
            };
            accp = vadd(&accp, &p);
            accv = vadd(&accv, &v);
            h_cur = rec.parent_ephemeris_hash;
            it = it + 1;
        }
    }

    /// What a translation query returns: zero for equal frames, else
    /// the difference between the walks of the two frames to their
    /// common root.
    pub open spec fn spec_translate(&self, from_frame: Frame, to_frame: Frame, epoch: Epoch) -> Result<
        (Vector3, Vector3),
        AniseError,
    > {
        if from_frame == to_frame {
            Ok((spec_zero_vec(), spec_zero_vec()))
        } else {
            match self.spec_find_root(from_frame, to_frame) {
                Err(e) => Err(e),
                Ok(root) => match self.spec_translate_to_root(
                    from_frame.ephemeris_hash,
                    root,
                    epoch.et_seconds_bits,
                ) {
                    Err(e) => Err(e),
                    Ok(f) => match self.spec_translate_to_root(
                        to_frame.ephemeris_hash,
                        root,
                        epoch.et_seconds_bits,
                    ) {
                        Err(e) => Err(e),
                        Ok(tt) => Ok((spec_vsub(f.0, tt.0), spec_vsub(f.1, tt.1))),
                    },
                },
            }
        }
    }

    /// Returns the position vector and velocity vector needed to translate the
    /// `from_frame` to the `to_frame`, in kilometres and kilometres per
    /// second.
    ///
    /// **WARNING:** This function only performs the translation and no
    /// rotation whatsoever.
    ///
    /// Besides pinning the result, the contract carries two laws: a
    /// frame translated onto itself is exactly zero, and swapping the
    /// two frames succeeds exactly when this call does and yields, component
    /// by component, the exactly negated values.
    pub fn translate_from_to(&self, from_frame: Frame, to_frame: Frame, epoch: Epoch) -> (r:
        Result<(Vector3, Vector3), AniseError>)
        requires
            self.wf(),
        ensures
            r == self.spec_translate(from_frame, to_frame, epoch),
            from_frame == to_frame ==> r == Ok::<(Vector3, Vector3), AniseError>(
                (spec_zero_vec(), spec_zero_vec()),
            ),
            ({
                let bwd = self.spec_translate(to_frame, from_frame, epoch);
                &&& (r is Ok <==> bwd is Ok)
                &&& (r matches Ok(pv1) ==> (bwd matches Ok(pv2) ==> vec_same_value(
                    pv2.0,
                    spec_vneg(pv1.0),
                ) && vec_same_value(pv2.1, spec_vneg(pv1.1))))
            }),
    {
        if from_frame == to_frame {
            // Both frames match: the translation is exactly zero.
            proof {
                crate::fbits::lemma_zero_neg_zero();
            }
            return Ok((Vector3::zeros(), Vector3::zeros()));
        }
        let root_result = self.find_ephemeris_root(from_frame, to_frame);
        proof {
            lemma_find_root_symmetric(*self, from_frame, to_frame);
        }
        let ephem_root = match root_result {
            Ok(rt) => rt,
            Err(e) => {
                return Err(e);
            },
        };
        // Add the vectors from each frame down to the common root and
        // return the difference of both walks.
        let (pos_from, vel_from) = match self.translate_to_root(
            from_frame.ephemeris_hash,
            ephem_root,
            epoch,
        ) {
            Ok(pv) => pv,
            Err(e) => {
                return Err(e);
            },
        };
        let (pos_to, vel_to) = match self.translate_to_root(
            to_frame.ephemeris_hash,
            ephem_root,
            epoch,
        ) {
            Ok(pv) => pv,
            Err(e) => {
                return Err(e);
            },
        };
        Ok((vsub(&pos_from, &pos_to), vsub(&vel_from, &vel_to)))
    }

    /// Translates a state with its origin (`to_frame`), returning that state
    /// with respect to the requested frame: the frame translation added to
    /// the supplied position and velocity.
    ///
    /// **WARNING:** This function only performs the translation and no
    /// rotation whatsoever.
    pub fn translate_state_to(
        &self,
        position_km: Vector3,
        velocity_kmps: Vector3,
        from_frame: Frame,
        to_frame: Frame,
        epoch: Epoch,
    ) -> (r: Result<(Vector3, Vector3), AniseError>)
        requires
            self.wf(),
        ensures
            ({
                match self.spec_translate(from_frame, to_frame, epoch) {
                    Ok(pv) => r matches Ok(s) && s.0 == spec_vadd(position_km, pv.0) && s.1
                        == spec_vadd(velocity_kmps, pv.1),
                    Err(e) => r == Err::<(Vector3, Vector3), AniseError>(e),
                }
            }),
    {
        let (frame_pos, frame_vel) = match self.translate_from_to(from_frame, to_frame, epoch) {
            Ok(pv) => pv,
            Err(e) => {
                return Err(e);
            },
        };
        Ok((vadd(&position_km, &frame_pos), vadd(&velocity_kmps, &frame_vel)))
    }
}

/// Translating any frame onto itself at any epoch is exactly the zero
/// translation: the identity law of the translation engine.
pub proof fn lemma_translate_identity(ctx: AniseContext, f: Frame, epoch: Epoch)
    ensures
        ctx.spec_translate(f, f, epoch) == Ok::<(Vector3, Vector3), AniseError>(
            (spec_zero_vec(), spec_zero_vec()),
        ),
{
}

/// The root search does not depend on the order of its two arguments:
/// both orders return the same ancestor, or both fail.
pub proof fn lemma_find_root_symmetric(ctx: AniseContext, a: Frame, b: Frame)
    ensures
        ({
            let fab = ctx.spec_find_root(a, b);
            let fba = ctx.spec_find_root(b, a);
            match (fab, fba) {
                (Ok(x), Ok(y)) => x == y,
                (Err(_), Err(_)) => true,
                _ => false,
            }
        }),
{
    if a != b {
        match (ctx.spec_ephemeris_path(a), ctx.spec_ephemeris_path(b)) {
            (Ok(fp), Ok(tp)) => {
                if fp.len() != 0 && tp.len() != 0 && fp.len() == tp.len() {
                    // The tie-break picks the same outer path for both
                    // argument orders, because the order on distinct
                    // frames is strict.
                    assert(!(spec_frame_le(a, b) && spec_frame_le(b, a)));
                    assert(spec_frame_le(a, b) || spec_frame_le(b, a));
                }
            },
            _ => {},
        }
    }
}

/// Runtime form of the tie-breaking order on frames.
fn frame_le(a: &Frame, b: &Frame) -> (r: bool)
    ensures
        r == spec_frame_le(*a, *b),
{
    a.ephemeris_hash < b.ephemeris_hash || (a.ephemeris_hash == b.ephemeris_hash
        && a.orientation_hash <= b.orientation_hash)
}

/// Scans the outer prefix in order and returns the first hash that
/// occurs anywhere in the inner prefix.
fn first_common_in_paths(
    outer: &[Option<u32>; MAX_TREE_DEPTH],
    outer_len: usize,
    Ghost(oseq): Ghost<Seq<u32>>,
    inner: &[Option<u32>; MAX_TREE_DEPTH],
    inner_len: usize,
    Ghost(iseq): Ghost<Seq<u32>>,
) -> (r: Option<u32>)
    requires
        outer_len <= MAX_TREE_DEPTH,
        inner_len <= MAX_TREE_DEPTH,
        oseq.len() == outer_len,
        iseq.len() == inner_len,
        forall|i: int| 0 <= i < outer_len ==> outer@[i] == Some(oseq[i]),
        forall|i: int| 0 <= i < inner_len ==> inner@[i] == Some(iseq[i]),
    ensures
        r == first_common_from(oseq, iseq, 0),
{
    let mut oi: usize = 0;
    while oi < outer_len
        invariant
            oi <= outer_len,
            outer_len <= MAX_TREE_DEPTH,
            inner_len <= MAX_TREE_DEPTH,
            oseq.len() == outer_len,
            iseq.len() == inner_len,
            forall|i: int| 0 <= i < outer_len ==> outer@[i] == Some(oseq[i]),
            forall|i: int| 0 <= i < inner_len ==> inner@[i] == Some(iseq[i]),
            first_common_from(oseq, iseq, 0) == first_common_from(oseq, iseq, oi as int),
        decreases outer_len - oi,
    {
        let ho: u32 = match outer[oi] {
            Some(h) => h,
            None => {
                proof {
                    assert(false);
                }
                0
            },
        };
        let mut ii: usize = 0;
        while ii < inner_len
            invariant
                ii <= inner_len,
                oi < outer_len,
                inner_len <= MAX_TREE_DEPTH,
                oseq.len() == outer_len,
                iseq.len() == inner_len,
                ho == oseq[oi as int],
                forall|i: int| 0 <= i < inner_len ==> inner@[i] == Some(iseq[i]),
                forall|i: int| 0 <= i < ii ==> iseq[i] != ho,
                first_common_from(oseq, iseq, 0) == first_common_from(oseq, iseq, oi as int),
            decreases inner_len - ii,
        {
            let hi: u32 = match inner[ii] {
                Some(h) => h,
                None => {
                    proof {
                        assert(false);
                    }
                    0
                },
            };
            if ho == hi {
                proof {
                    assert(iseq.contains(oseq[oi as int]));
                    assert(first_common_from(oseq, iseq, oi as int) == Some(ho));
                }
                return Some(ho);
            }
            ii = ii + 1;
        }
        proof {
            assert(forall|i: int| 0 <= i < iseq.len() ==> iseq[i] != ho);
            assert(!iseq.contains(oseq[oi as int]));
            assert(first_common_from(oseq, iseq, oi as int) == first_common_from(
                oseq,
                iseq,
                oi as int + 1,
            ));
        }
        oi = oi + 1;
    }
    proof {
        assert(first_common_from(oseq, iseq, oi as int) is None);
    }
    None
}

} // verus!

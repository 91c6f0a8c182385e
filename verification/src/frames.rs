//! Reference frames: a pair of integer identifiers, one for the point in
//! space the origin tracks (ephemeris) and one for the axes (orientation).

use vstd::prelude::*;

verus! {

/// Hash of the solar system barycentre, the root of every ephemeris tree.
pub const SOLAR_SYSTEM_BARYCENTER: u32 = 0;

/// A reference frame is a pair of identifiers: which point the origin
/// tracks, and which set of axes states are expressed in. Two frames are
/// equal exactly when both identifiers are equal.
#[derive(Clone, Copy, Debug, PartialEq, Eq, Structural)]
pub struct Frame {
    pub ephemeris_hash: u32,
    pub orientation_hash: u32,
}

impl Frame {
    /// Builds a frame from its two identifiers.
    pub fn from_ephem_orient(ephemeris_hash: u32, orientation_hash: u32) -> (r: Frame)
        ensures
            r == (Frame { ephemeris_hash, orientation_hash }),
    {
        Frame { ephemeris_hash, orientation_hash }
    }

    /// Returns a copy of this frame whose ephemeris identifier is replaced.
    pub fn with_ephem(&self, new_ephem_hash: u32) -> (r: Frame)
        ensures
            r == (Frame {
                ephemeris_hash: new_ephem_hash,
                orientation_hash: self.orientation_hash,
            }),
    {
        Frame { ephemeris_hash: new_ephem_hash, orientation_hash: self.orientation_hash }
    }
}

} // verus!

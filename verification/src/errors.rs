//! Error kinds surfaced by the toolkit. Every failure is a distinct
//! variant; no error carries free-form text, so that contracts can speak
//! about errors exactly.

use vstd::prelude::*;
use crate::frames::Frame;

verus! {

/// What exactly went wrong while decoding DAF bytes.
#[derive(Clone, Copy, Debug, PartialEq, Eq, Structural)]
pub enum ParseIssue {
    /// A fixed-width text field holds bytes that are not valid UTF-8.
    InvalidUtf8,
    /// The identifier word does not begin with `DAF/`.
    NotDaf,
    /// The identifier word names a DAF subtype other than SPK or PCK.
    UnsupportedSubtype,
    /// The endianness marker is neither `LTL-IEEE` nor `BIG-IEEE`.
    UnknownEndianness,
    /// The file's endianness differs from the host's and cannot be decoded.
    ForeignEndianness,
    /// The buffer is too short to hold the record being read.
    Truncated,
    /// A summary-record chain visits a record twice.
    CyclicSummaryChain,
    /// A constants dataset does not begin with its magic word.
    WrongMagic,
    /// A constants dataset carries a type tag this toolkit does not know.
    UnknownDatasetType,
    /// A constants dataset carries a type other than the requested one.
    WrongDatasetType,
}

/// An integrity problem in loaded data: the files contradict themselves.
#[derive(Clone, Copy, Debug, PartialEq, Eq, Structural)]
pub enum IntegrityErrorKind {
    /// A lookup table entry points outside the data it indexes.
    LookupTable,
    /// Two frames do not share a common ancestor in the loaded graph.
    DisjointRoots { from_frame: Frame, to_frame: Frame },
}

/// Every error the core query surface can return.
#[derive(Clone, Copy, Debug, PartialEq, Eq, Structural)]
pub enum AniseError {
    /// Loaded files contradict themselves; callers cannot fix this locally.
    IntegrityError(IntegrityErrorKind),
    /// The requested identifier or name is absent from the loaded data.
    ItemNotFound,
    /// Graph traversal exceeded the fixed depth bound.
    MaxTreeDepth,
    /// Malformed file bytes.
    DAFParserError(ParseIssue),
    /// The epoch falls outside every record that covers the frame.
    MissingInterpolationData,
    /// A fixed-capacity slot table is full.
    CapacityExceeded,
}

/// Errors of the almanac's file-loading surface.
#[derive(Clone, Copy, Debug, PartialEq, Eq, Structural)]
pub enum AlmanacError {
    /// The bytes parse as a DAF but loading the ephemeris file failed.
    Ephemeris(AniseError),
    /// The bytes parse as a DAF but loading the orientation file failed.
    Orientation(AniseError),
    /// The bytes parse as a constants dataset but decoding it failed.
    TLDataSet(AniseError),
    /// The bytes are neither a DAF nor a recognised constants dataset.
    GenericError,
}

} // verus!

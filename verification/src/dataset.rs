//! The self-describing constants dataset: a magic word, a version, a
//! dataset-type tag, and an opaque record region.

use vstd::prelude::*;
use bytes::Bytes;
use crate::errors::{AniseError, ParseIssue};

verus! {

/// A shared, reference-counted, immutable byte buffer of the `bytes`
/// crate, declared so that the toolkit can hold loaded files without
/// copying them.
#[verifier::external_type_specification]
#[verifier::external_body]
pub struct ExBytes(Bytes);

/// What a shared byte buffer holds.
pub uninterp spec fn bytes_seq(b: Bytes) -> Seq<u8>;

/// Relies on `Bytes::as_ref` (through `AsRef<[u8]>`): a view of the
/// buffer's contents, without copying.
#[verifier::external_body]
pub fn bytes_as_slice(b: &Bytes) -> (r: &[u8])
    ensures
        r@ == bytes_seq(*b),
{
    b.as_ref()
}

/// Relies on `Bytes::clone`: a new handle to the same contents,
/// without copying them.
#[verifier::external_body]
pub fn bytes_clone(b: &Bytes) -> (r: Bytes)
    ensures
        bytes_seq(r) == bytes_seq(*b),
{
    b.clone()
}

/// Relies on `Bytes::new`: an empty buffer.
#[verifier::external_body]
pub fn bytes_new() -> (r: Bytes)
    ensures
        bytes_seq(r) == Seq::<u8>::empty(),
{
    Bytes::new()
}

/// The kinds of self-describing datasets.
#[derive(Clone, Copy, Debug, PartialEq, Eq, Structural)]
pub enum DataSetType {
    NotApplicable,
    SpacecraftData,
    PlanetaryData,
    EulerParameterData,
}

/// The header of a self-describing dataset: its format version and its
/// type tag.
#[derive(Clone, Copy, Debug, PartialEq, Eq, Structural)]
pub struct Metadata {
    pub version_major: u8,
    pub version_minor: u8,
    pub version_patch: u8,
    pub dataset_type: DataSetType,
}

impl Default for Metadata {
    /// A header that names no dataset.
    fn default() -> (r: Self)
        ensures
            r == (Metadata {
                version_major: 0,
                version_minor: 0,
                version_patch: 0,
                dataset_type: DataSetType::NotApplicable,
            }),
    {
        Metadata {
            version_major: 0,
            version_minor: 0,
            version_patch: 0,
            dataset_type: DataSetType::NotApplicable,
        }
    }
}

/// The header that names no dataset.
pub open spec fn spec_default_metadata() -> Metadata {
    Metadata {
        version_major: 0,
        version_minor: 0,
        version_patch: 0,
        dataset_type: DataSetType::NotApplicable,
    }
}

/// The bytes of the ASCII magic word `ANISE`.
pub open spec fn anise_magic() -> Seq<u8> {
    seq![65u8, 78u8, 73u8, 83u8, 69u8]
}

/// How many bytes the dataset header occupies: the magic, three
/// version bytes, and the type tag.
pub const DATASET_HEADER_LEN: usize = 9;

/// The dataset type encoded by a tag byte, if any.
pub open spec fn spec_dataset_type(tag: u8) -> Option<DataSetType> {
    if tag == 0 {
        Some(DataSetType::NotApplicable)
    } else if tag == 1 {
        Some(DataSetType::SpacecraftData)
    } else if tag == 2 {
        Some(DataSetType::PlanetaryData)
    } else if tag == 3 {
        Some(DataSetType::EulerParameterData)
    } else {
        None
    }
}

/// What decoding a dataset header returns for these bytes.
pub open spec fn spec_decode_header(b: Seq<u8>) -> Result<Metadata, AniseError> {
    if b.len() < DATASET_HEADER_LEN {
        Err(AniseError::DAFParserError(ParseIssue::Truncated))
    } else if b.subrange(0, 5) != anise_magic() {
        Err(AniseError::DAFParserError(ParseIssue::WrongMagic))
    } else {
        match spec_dataset_type(b[8]) {
            None => Err(AniseError::DAFParserError(ParseIssue::UnknownDatasetType)),
            Some(t) => Ok(
                Metadata {
                    version_major: b[5],
                    version_minor: b[6],
                    version_patch: b[7],
                    dataset_type: t,
                },
            ),
        }
    }
}

impl Metadata {
    /// Decodes the dataset header at the head of a byte buffer.
    pub fn decode_header(bytes: &[u8]) -> (r: Result<Metadata, AniseError>)
        ensures
            r == spec_decode_header(bytes@),
    {
        if bytes.len() < DATASET_HEADER_LEN {
            return Err(AniseError::DAFParserError(ParseIssue::Truncated));
        }
        let magic_ok = bytes[0] == 65 && bytes[1] == 78 && bytes[2] == 73 && bytes[3] == 83
            && bytes[4] == 69;
        proof {
            if magic_ok {
                assert(bytes@.subrange(0, 5) =~= anise_magic());
            } else {
                assert(bytes@.subrange(0, 5) != anise_magic()) by {
                    if bytes@.subrange(0, 5) == anise_magic() {
                        assert(bytes@.subrange(0, 5)[0] == 65);
                        assert(bytes@.subrange(0, 5)[1] == 78);
                        assert(bytes@.subrange(0, 5)[2] == 73);
                        assert(bytes@.subrange(0, 5)[3] == 83);
                        assert(bytes@.subrange(0, 5)[4] == 69);
                    }
                }
            }
        }
        if !magic_ok {
            return Err(AniseError::DAFParserError(ParseIssue::WrongMagic));
        }
        let tag = bytes[8];
        let dataset_type = if tag == 0 {
            DataSetType::NotApplicable
        } else if tag == 1 {
            DataSetType::SpacecraftData
        } else if tag == 2 {
            DataSetType::PlanetaryData
        } else if tag == 3 {
            DataSetType::EulerParameterData
        } else {
            return Err(AniseError::DAFParserError(ParseIssue::UnknownDatasetType));
        };
        Ok(
            Metadata {
                version_major: bytes[5],
                version_minor: bytes[6],
                version_patch: bytes[7],
                dataset_type,
            },
        )
    }
}

/// Dataset values are interchangeable when their headers are equal and
/// their buffers hold the same bytes.
pub open spec fn dataset_equiv(a: (Metadata, Seq<u8>), b: (Metadata, Seq<u8>)) -> bool {
    a.0 == b.0 && a.1 == b.1
}

/// A dataset of spacecraft constants, held as its decoded header and
/// its raw bytes.
#[derive(Debug)]
pub struct SpacecraftDataSet {
    pub metadata: Metadata,
    pub bytes: Bytes,
}

/// A dataset of planetary constants, held as its decoded header and
/// its raw bytes.
#[derive(Debug)]
pub struct PlanetaryDataSet {
    pub metadata: Metadata,
    pub bytes: Bytes,
}

/// A dataset of Euler parameters, held as its decoded header and its
/// raw bytes.
#[derive(Debug)]
pub struct EulerParameterDataSet {
    pub metadata: Metadata,
    pub bytes: Bytes,
}

/// What loading a dataset of the expected type from these bytes
/// returns: the decoded header when it decodes and carries that type.
pub open spec fn spec_dataset_from(b: Seq<u8>, expected: DataSetType) -> Result<
    Metadata,
    AniseError,
> {
    match spec_decode_header(b) {
        Err(e) => Err(e),
        Ok(m) => if m.dataset_type == expected {
            Ok(m)
        } else {
            Err(AniseError::DAFParserError(ParseIssue::WrongDatasetType))
        },
    }
}

/// Decodes and checks the header for a dataset of the expected type.
fn dataset_header_from(bytes: &Bytes, expected: DataSetType) -> (r: Result<Metadata, AniseError>)
    ensures
        r == spec_dataset_from(bytes_seq(*bytes), expected),
{
    let m = match Metadata::decode_header(bytes_as_slice(bytes)) {
        Ok(m) => m,
        Err(e) => {
            return Err(e);
        },
    };
    if !(m.dataset_type == expected) {
        return Err(AniseError::DAFParserError(ParseIssue::WrongDatasetType));
    }
    Ok(m)
}

impl SpacecraftDataSet {
    /// Its header and contents, as the equivalence on datasets reads
    /// them.
    pub open spec fn view_parts(&self) -> (Metadata, Seq<u8>) {
        (self.metadata, bytes_seq(self.bytes))
    }

    /// Loads a spacecraft dataset from a byte buffer, keeping the
    /// buffer without copying it.
    pub fn try_from_bytes(bytes: Bytes) -> (r: Result<SpacecraftDataSet, AniseError>)
        ensures
            ({
                match spec_dataset_from(bytes_seq(bytes), DataSetType::SpacecraftData) {
                    Err(e) => r == Err::<SpacecraftDataSet, AniseError>(e),
                    Ok(m) => r matches Ok(d) && d.metadata == m && bytes_seq(d.bytes) == bytes_seq(
                        bytes,
                    ),
                }
            }),
    {
        match dataset_header_from(&bytes, DataSetType::SpacecraftData) {
            Ok(metadata) => Ok(SpacecraftDataSet { metadata, bytes }),
            Err(e) => Err(e),
        }
    }
}

impl Default for SpacecraftDataSet {
    /// An empty dataset.
    fn default() -> (r: Self)
        ensures
            r.metadata == spec_default_metadata(),
            bytes_seq(r.bytes) == Seq::<u8>::empty(),
    {
        SpacecraftDataSet { metadata: Metadata::default(), bytes: bytes_new() }
    }
}

impl Clone for SpacecraftDataSet {
    /// A new handle to the same dataset.
    fn clone(&self) -> (r: Self)
        ensures
            r.metadata == self.metadata,
            bytes_seq(r.bytes) == bytes_seq(self.bytes),
    {
        SpacecraftDataSet { metadata: self.metadata, bytes: bytes_clone(&self.bytes) }
    }
}

impl PlanetaryDataSet {
    /// Its header and contents, as the equivalence on datasets reads
    /// them.
    pub open spec fn view_parts(&self) -> (Metadata, Seq<u8>) {
        (self.metadata, bytes_seq(self.bytes))
    }

    /// Loads a planetary dataset from a byte buffer, keeping the
    /// buffer without copying it.
    pub fn try_from_bytes(bytes: Bytes) -> (r: Result<PlanetaryDataSet, AniseError>)
        ensures
            ({
                match spec_dataset_from(bytes_seq(bytes), DataSetType::PlanetaryData) {
                    Err(e) => r == Err::<PlanetaryDataSet, AniseError>(e),
                    Ok(m) => r matches Ok(d) && d.metadata == m && bytes_seq(d.bytes) == bytes_seq(
                        bytes,
                    ),
                }
            }),
    {
        match dataset_header_from(&bytes, DataSetType::PlanetaryData) {
            Ok(metadata) => Ok(PlanetaryDataSet { metadata, bytes }),
            Err(e) => Err(e),
        }
    }
}

impl Default for PlanetaryDataSet {
    /// An empty dataset.
    fn default() -> (r: Self)
        ensures
            r.metadata == spec_default_metadata(),
            bytes_seq(r.bytes) == Seq::<u8>::empty(),
    {
        PlanetaryDataSet { metadata: Metadata::default(), bytes: bytes_new() }
    }
}

impl Clone for PlanetaryDataSet {
    /// A new handle to the same dataset.
    fn clone(&self) -> (r: Self)
        ensures
            r.metadata == self.metadata,
            bytes_seq(r.bytes) == bytes_seq(self.bytes),
    {
        PlanetaryDataSet { metadata: self.metadata, bytes: bytes_clone(&self.bytes) }
    }
}

impl EulerParameterDataSet {
    /// Its header and contents, as the equivalence on datasets reads
    /// them.
    pub open spec fn view_parts(&self) -> (Metadata, Seq<u8>) {
        (self.metadata, bytes_seq(self.bytes))
    }

    /// Loads an Euler-parameter dataset from a byte buffer, keeping
    /// the buffer without copying it.
    pub fn try_from_bytes(bytes: Bytes) -> (r: Result<EulerParameterDataSet, AniseError>)
        ensures
            ({
                match spec_dataset_from(bytes_seq(bytes), DataSetType::EulerParameterData) {
                    Err(e) => r == Err::<EulerParameterDataSet, AniseError>(e),
                    Ok(m) => r matches Ok(d) && d.metadata == m && bytes_seq(d.bytes) == bytes_seq(
                        bytes,
                    ),
                }
            }),
    {
        match dataset_header_from(&bytes, DataSetType::EulerParameterData) {
            Ok(metadata) => Ok(EulerParameterDataSet { metadata, bytes }),
            Err(e) => Err(e),
        }
    }
}

impl Default for EulerParameterDataSet {
    /// An empty dataset.
    fn default() -> (r: Self)
        ensures
            r.metadata == spec_default_metadata(),
            bytes_seq(r.bytes) == Seq::<u8>::empty(),
    {
        EulerParameterDataSet { metadata: Metadata::default(), bytes: bytes_new() }
    }
}

impl Clone for EulerParameterDataSet {
    /// A new handle to the same dataset.
    fn clone(&self) -> (r: Self)
        ensures
            r.metadata == self.metadata,
            bytes_seq(r.bytes) == bytes_seq(self.bytes),
    {
        EulerParameterDataSet { metadata: self.metadata, bytes: bytes_clone(&self.bytes) }
    }
}

} // verus!

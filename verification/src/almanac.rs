//! The Almanac: the owner of every loaded SPICE file and constants
//! dataset. Loading yields a new Almanac that shares the old file
//! buffers, so older values stay valid.

use vstd::prelude::*;
use bytes::Bytes;
use crate::dataset::{
    bytes_as_slice, bytes_clone, bytes_seq, spec_dataset_from, spec_decode_header,
    spec_default_metadata, DataSetType, EulerParameterDataSet, Metadata, PlanetaryDataSet,
    SpacecraftDataSet,
};
use crate::errors::{AlmanacError, AniseError, ParseIssue};
use crate::recordtypes::{
    ascii_trim, big_ieee_bytes, host_endian, ltl_ieee_bytes, pck_bytes, spec_is_daf, spec_u32_at,
    spk_bytes, DAFFileRecord, Endian, RCRD_LEN,
};

verus! {

/// At most this many SPK files can be loaded at once.
pub const MAX_LOADED_SPKS: usize = 32;

/// At most this many BPC files can be loaded at once.
pub const MAX_LOADED_BPCS: usize = 8;

/// At most this many spacecraft constants records can be loaded.
pub const MAX_SPACECRAFT_DATA: usize = 16;

/// At most this many planetary constants records can be loaded.
pub const MAX_PLANETARY_DATA: usize = 64;

/// True when these file bytes begin with a `DAF/` identifier of the
/// given subtype word.
pub open spec fn spec_is_daf_of(b: Seq<u8>, subtype: Seq<u8>) -> bool {
    &&& b.len() >= RCRD_LEN
    &&& vstd::utf8::valid_utf8(b.subrange(0, 8))
    &&& spec_is_daf(b.subrange(0, 8))
    &&& ascii_trim(b.subrange(0, 8).subrange(4, 8)) == subtype
}

/// The integer fields of the file record that a parsed DAF keeps, read
/// with the endianness `e`.
pub open spec fn spec_daf_fields_ok(fr: DAFFileRecord, b: Seq<u8>, e: Endian) -> bool {
    &&& fr.locidw@ == b.subrange(0, 8)
    &&& fr.nd == spec_u32_at(b, 8, e)
    &&& fr.ni == spec_u32_at(b, 12, e)
    &&& fr.locifn@ == b.subrange(16, 76)
    &&& fr.forward == spec_u32_at(b, 76, e)
    &&& fr.backward == spec_u32_at(b, 80, e)
    &&& fr.free_addr == spec_u32_at(b, 84, e)
    &&& fr.locfmt@ == b.subrange(88, 96)
}

/// A loaded SPK ephemeris file: its shared byte buffer and its parsed
/// file record.
#[derive(Debug)]
pub struct SPK {
    pub bytes: Bytes,
    pub file_record: DAFFileRecord,
}

/// A loaded binary PCK orientation file: its shared byte buffer and
/// its parsed file record.
#[derive(Debug)]
pub struct BPC {
    pub bytes: Bytes,
    pub file_record: DAFFileRecord,
}

/// The machine-independent part of what parsing a DAF of the given
/// subtype from these bytes guarantees: when and how it fails, and
/// that a success kept the buffer and read the header from it in the
/// file's own declared endianness.
pub open spec fn spec_daf_parse_ok(
    b: Seq<u8>,
    subtype: Seq<u8>,
    kept: Seq<u8>,
    fr: DAFFileRecord,
) -> bool {
    &&& kept == b
    &&& spec_is_daf_of(b, subtype)
    &&& (fr.locfmt@ == ltl_ieee_bytes() || fr.locfmt@ == big_ieee_bytes())
    &&& (fr.locfmt@ == ltl_ieee_bytes() ==> spec_daf_fields_ok(fr, b, Endian::Little))
    &&& (fr.locfmt@ == big_ieee_bytes() ==> spec_daf_fields_ok(fr, b, Endian::Big))
}

/// The errors a DAF parse can return for these bytes, each tied to the
/// condition that produces it; which of the two endianness outcomes
/// happens depends on the host.
pub open spec fn spec_daf_parse_err(b: Seq<u8>, subtype: Seq<u8>, e: AniseError) -> bool {
    ||| (b.len() < RCRD_LEN && e == AniseError::DAFParserError(ParseIssue::Truncated))
    ||| (b.len() >= RCRD_LEN && !vstd::utf8::valid_utf8(b.subrange(0, 8)) && e
        == AniseError::DAFParserError(ParseIssue::InvalidUtf8))
    ||| (b.len() >= RCRD_LEN && vstd::utf8::valid_utf8(b.subrange(0, 8)) && !spec_is_daf(
        b.subrange(0, 8),
    ) && e == AniseError::DAFParserError(ParseIssue::NotDaf))
    ||| (b.len() >= RCRD_LEN && vstd::utf8::valid_utf8(b.subrange(0, 8)) && spec_is_daf(
        b.subrange(0, 8),
    ) && ascii_trim(b.subrange(0, 8).subrange(4, 8)) != subtype && e
        == AniseError::DAFParserError(ParseIssue::UnsupportedSubtype))
    ||| (spec_is_daf_of(b, subtype) && (e == AniseError::DAFParserError(ParseIssue::InvalidUtf8)
        || e == AniseError::DAFParserError(ParseIssue::UnknownEndianness) || e
        == AniseError::DAFParserError(ParseIssue::ForeignEndianness)))
}

/// Parses the file record of a DAF buffer and checks that it declares
/// the wanted subtype and the host's endianness.
fn daf_parse(bytes: &Bytes, want_spk: bool) -> (r: Result<DAFFileRecord, AniseError>)
    ensures
        ({
            let b = bytes_seq(*bytes);
            let subtype = if want_spk {
                spk_bytes()
            } else {
                pck_bytes()
            };
            match r {
                Ok(fr) => spec_daf_parse_ok(b, subtype, b, fr),
                Err(e) => spec_daf_parse_err(b, subtype, e),
            }
        }),
{
    let slice = bytes_as_slice(bytes);
    let native = host_endian();
    let fr = match DAFFileRecord::read_from(slice, native) {
        Some(fr) => fr,
        None => {
            return Err(AniseError::DAFParserError(ParseIssue::Truncated));
        },
    };
    if let Err(e) = fr.identification() {
        return Err(e);
    }
    // `identification` yields only the two known subtype words; check
    // for the wanted one by the trimmed bytes of the identifier word.
    let sub_ok = {
        let idw = fr.locidw.as_slice();
        let sub = crate::recordtypes::trim_slice(&idw[4..8]);
        let spk: [u8; 3] = [83, 80, 75];
        let pck: [u8; 3] = [80, 67, 75];
        proof {
            assert(spk@ =~= spk_bytes());
            assert(pck@ =~= pck_bytes());
        }
        if want_spk {
            crate::recordtypes::eq_bytes(sub, spk.as_slice())
        } else {
            crate::recordtypes::eq_bytes(sub, pck.as_slice())
        }
    };
    if !sub_ok {
        return Err(AniseError::DAFParserError(ParseIssue::UnsupportedSubtype));
    }
    match fr.endianness_with(native) {
        Ok(_) => (),
        Err(e) => {
            return Err(e);
        },
    }
    proof {
        assert(bytes_seq(*bytes).subrange(0, 8).subrange(4, 8) =~= bytes_seq(*bytes).subrange(
            4,
            8,
        ));
    }
    Ok(fr)
}

impl SPK {
    /// Parses an SPK file from a shared byte buffer, keeping the
    /// buffer without copying it.
    pub fn parse(bytes: Bytes) -> (r: Result<SPK, AniseError>)
        ensures
            ({
                let b = bytes_seq(bytes);
                match r {
                    Ok(s) => spec_daf_parse_ok(b, spk_bytes(), bytes_seq(s.bytes), s.file_record),
                    Err(e) => spec_daf_parse_err(b, spk_bytes(), e),
                }
            }),
    {
        match daf_parse(&bytes, true) {
            Ok(file_record) => Ok(SPK { bytes, file_record }),
            Err(e) => Err(e),
        }
    }
}

/// What walking a parsed DAF's summary chain guarantees, given the
/// endianness marker its file record carries: with a well-formed
/// marker the result is the specified chain in that endianness unless
/// the host reads the other one; other markers fail as the endianness
/// check does.
pub open spec fn spec_chain_outcome(
    fr: DAFFileRecord,
    b: Seq<u8>,
    r: Result<Vec<(crate::recordtypes::DAFSummaryRecord, crate::recordtypes::NameRecord)>, AniseError>,
) -> bool {
    let fuel = (b.len() as int / RCRD_LEN as int) as nat;
    &&& (!vstd::utf8::valid_utf8(fr.locfmt@) ==> r == Err::<
        Vec<(crate::recordtypes::DAFSummaryRecord, crate::recordtypes::NameRecord)>,
        AniseError,
    >(AniseError::DAFParserError(ParseIssue::InvalidUtf8)))
    &&& (vstd::utf8::valid_utf8(fr.locfmt@) && fr.locfmt@ != ltl_ieee_bytes() && fr.locfmt@
        != big_ieee_bytes() ==> r == Err::<
        Vec<(crate::recordtypes::DAFSummaryRecord, crate::recordtypes::NameRecord)>,
        AniseError,
    >(AniseError::DAFParserError(ParseIssue::UnknownEndianness)))
    &&& (vstd::utf8::valid_utf8(fr.locfmt@) && fr.locfmt@ == ltl_ieee_bytes() ==> (crate::daf::chain_matches(
        r,
        crate::daf::spec_chain_from(b, fr.forward as int, Endian::Little, fuel),
    ) || r == Err::<
        Vec<(crate::recordtypes::DAFSummaryRecord, crate::recordtypes::NameRecord)>,
        AniseError,
    >(AniseError::DAFParserError(ParseIssue::ForeignEndianness))))
    &&& (vstd::utf8::valid_utf8(fr.locfmt@) && fr.locfmt@ == big_ieee_bytes() ==> (crate::daf::chain_matches(
        r,
        crate::daf::spec_chain_from(b, fr.forward as int, Endian::Big, fuel),
    ) || r == Err::<
        Vec<(crate::recordtypes::DAFSummaryRecord, crate::recordtypes::NameRecord)>,
        AniseError,
    >(AniseError::DAFParserError(ParseIssue::ForeignEndianness))))
}

impl SPK {
    /// Walks this file's summary-record chain, pairing each summary
    /// record with the name record that follows it.
    pub fn summary_chain(&self) -> (r: Result<
        Vec<(crate::recordtypes::DAFSummaryRecord, crate::recordtypes::NameRecord)>,
        AniseError,
    >)
        ensures
            spec_chain_outcome(self.file_record, bytes_seq(self.bytes), r),
    {
        let native = host_endian();
        let e = match self.file_record.endianness_with(native) {
            Ok(e) => e,
            Err(err) => {
                return Err(err);
            },
        };
        crate::daf::summary_chain(bytes_as_slice(&self.bytes), self.file_record.fwrd_idx(), e)
    }
}

impl BPC {
    /// Walks this file's summary-record chain, pairing each summary
    /// record with the name record that follows it.
    pub fn summary_chain(&self) -> (r: Result<
        Vec<(crate::recordtypes::DAFSummaryRecord, crate::recordtypes::NameRecord)>,
        AniseError,
    >)
        ensures
            spec_chain_outcome(self.file_record, bytes_seq(self.bytes), r),
    {
        let native = host_endian();
        let e = match self.file_record.endianness_with(native) {
            Ok(e) => e,
            Err(err) => {
                return Err(err);
            },
        };
        crate::daf::summary_chain(bytes_as_slice(&self.bytes), self.file_record.fwrd_idx(), e)
    }
}

impl Clone for SPK {
    /// A new handle to the same file.
    fn clone(&self) -> (r: Self)
        ensures
            bytes_seq(r.bytes) == bytes_seq(self.bytes),
            r.file_record == self.file_record,
    {
        SPK { bytes: bytes_clone(&self.bytes), file_record: self.file_record }
    }
}

impl BPC {
    /// Parses a binary PCK file from a shared byte buffer, keeping the
    /// buffer without copying it.
    pub fn parse(bytes: Bytes) -> (r: Result<BPC, AniseError>)
        ensures
            ({
                let b = bytes_seq(bytes);
                match r {
                    Ok(s) => spec_daf_parse_ok(b, pck_bytes(), bytes_seq(s.bytes), s.file_record),
                    Err(e) => spec_daf_parse_err(b, pck_bytes(), e),
                }
            }),
    {
        match daf_parse(&bytes, false) {
            Ok(file_record) => Ok(BPC { bytes, file_record }),
            Err(e) => Err(e),
        }
    }
}

impl Clone for BPC {
    /// A new handle to the same file.
    fn clone(&self) -> (r: Self)
        ensures
            bytes_seq(r.bytes) == bytes_seq(self.bytes),
            r.file_record == self.file_record,
    {
        BPC { bytes: bytes_clone(&self.bytes), file_record: self.file_record }
    }
}

/// An Almanac contains all of the loaded SPICE and constants data.
#[derive(Debug)]
pub struct Almanac {
    /// NAIF SPK files, kept unchanged.
    pub spk_data: Vec<SPK>,
    /// NAIF BPC files, kept unchanged.
    pub bpc_data: Vec<BPC>,
    /// Dataset of planetary data.
    pub planetary_data: PlanetaryDataSet,
    /// Dataset of spacecraft data.
    pub spacecraft_data: SpacecraftDataSet,
    /// Dataset of euler parameters.
    pub euler_param_data: EulerParameterDataSet,
}

/// Two SPK values are interchangeable when they hold the same bytes
/// and header.
pub open spec fn spk_equiv(a: SPK, b: SPK) -> bool {
    bytes_seq(a.bytes) == bytes_seq(b.bytes) && a.file_record == b.file_record
}

/// Two BPC values are interchangeable when they hold the same bytes
/// and header.
pub open spec fn bpc_equiv(a: BPC, b: BPC) -> bool {
    bytes_seq(a.bytes) == bytes_seq(b.bytes) && a.file_record == b.file_record
}

/// Two SPK lists are interchangeable element by element.
pub open spec fn spks_equiv(a: Seq<SPK>, b: Seq<SPK>) -> bool {
    a.len() == b.len() && forall|i: int| 0 <= i < a.len() ==> spk_equiv(#[trigger] a[i], b[i])
}

/// Two BPC lists are interchangeable element by element.
pub open spec fn bpcs_equiv(a: Seq<BPC>, b: Seq<BPC>) -> bool {
    a.len() == b.len() && forall|i: int| 0 <= i < a.len() ==> bpc_equiv(#[trigger] a[i], b[i])
}

/// Clones a list of SPK handles.
fn clone_spks(v: &Vec<SPK>) -> (r: Vec<SPK>)
    ensures
        spks_equiv(r@, v@),
{
    let mut r: Vec<SPK> = Vec::new();
    let n = v.len();
    let mut i: usize = 0;
    while i < n
        invariant
            i <= n,
            n == v@.len(),
            r@.len() == i,
            forall|j: int| 0 <= j < i ==> spk_equiv(#[trigger] r@[j], v@[j]),
        decreases n - i,
    {
        r.push(v[i].clone());
        i = i + 1;
    }
    r
}

/// Clones a list of BPC handles.
fn clone_bpcs(v: &Vec<BPC>) -> (r: Vec<BPC>)
    ensures
        bpcs_equiv(r@, v@),
{
    let mut r: Vec<BPC> = Vec::new();
    let n = v.len();
    let mut i: usize = 0;
    while i < n
        invariant
            i <= n,
            n == v@.len(),
            r@.len() == i,
            forall|j: int| 0 <= j < i ==> bpc_equiv(#[trigger] r@[j], v@[j]),
        decreases n - i,
    {
        r.push(v[i].clone());
        i = i + 1;
    }
    r
}

impl Default for Almanac {
    /// An Almanac with nothing loaded.
    fn default() -> (r: Self)
        ensures
            r.spk_data@.len() == 0,
            r.bpc_data@.len() == 0,
            r.planetary_data.metadata == spec_default_metadata(),
            r.spacecraft_data.metadata == spec_default_metadata(),
            r.euler_param_data.metadata == spec_default_metadata(),
    {
        Almanac {
            spk_data: Vec::new(),
            bpc_data: Vec::new(),
            planetary_data: PlanetaryDataSet::default(),
            spacecraft_data: SpacecraftDataSet::default(),
            euler_param_data: EulerParameterDataSet::default(),
        }
    }
}

impl Clone for Almanac {
    /// A new Almanac sharing every loaded buffer.
    fn clone(&self) -> (r: Self)
        ensures
            spks_equiv(r.spk_data@, self.spk_data@),
            bpcs_equiv(r.bpc_data@, self.bpc_data@),
            r.planetary_data.view_parts() == self.planetary_data.view_parts(),
            r.spacecraft_data.view_parts() == self.spacecraft_data.view_parts(),
            r.euler_param_data.view_parts() == self.euler_param_data.view_parts(),
    {
        Almanac {
            spk_data: clone_spks(&self.spk_data),
            bpc_data: clone_bpcs(&self.bpc_data),
            planetary_data: self.planetary_data.clone(),
            spacecraft_data: self.spacecraft_data.clone(),
            euler_param_data: self.euler_param_data.clone(),
        }
    }
}

impl Almanac {
    /// Loads the provided spacecraft data into a clone of this original Almanac.
    pub fn with_spacecraft_data(&self, spacecraft_data: SpacecraftDataSet) -> (r: Self)
        ensures
            r.spacecraft_data == spacecraft_data,
            spks_equiv(r.spk_data@, self.spk_data@),
            bpcs_equiv(r.bpc_data@, self.bpc_data@),
            r.planetary_data.view_parts() == self.planetary_data.view_parts(),
            r.euler_param_data.view_parts() == self.euler_param_data.view_parts(),
    {
        let mut me = self.clone();
        me.spacecraft_data = spacecraft_data;
        me
    }

    /// Loads the provided Euler parameter data into a clone of this original Almanac.
    pub fn with_euler_parameters(&self, ep_dataset: EulerParameterDataSet) -> (r: Self)
        ensures
            r.euler_param_data == ep_dataset,
            spks_equiv(r.spk_data@, self.spk_data@),
            bpcs_equiv(r.bpc_data@, self.bpc_data@),
            r.planetary_data.view_parts() == self.planetary_data.view_parts(),
            r.spacecraft_data.view_parts() == self.spacecraft_data.view_parts(),
    {
        let mut me = self.clone();
        me.euler_param_data = ep_dataset;
        me
    }

    /// Loads the provided planetary data into a clone of this original Almanac.
    pub fn with_planetary_data(&self, planetary_data: PlanetaryDataSet) -> (r: Self)
        ensures
            r.planetary_data == planetary_data,
            spks_equiv(r.spk_data@, self.spk_data@),
            bpcs_equiv(r.bpc_data@, self.bpc_data@),
            r.spacecraft_data.view_parts() == self.spacecraft_data.view_parts(),
            r.euler_param_data.view_parts() == self.euler_param_data.view_parts(),
    {
        let mut me = self.clone();
        me.planetary_data = planetary_data;
        me
    }

    /// Adds an SPK file to a clone of this Almanac, in the first empty
    /// slot; a full table is a clean failure.
    pub fn with_spk(&self, spk: SPK) -> (r: Result<Self, AniseError>)
        ensures
            self.spk_data@.len() >= MAX_LOADED_SPKS ==> r == Err::<Almanac, AniseError>(
                AniseError::CapacityExceeded,
            ),
            self.spk_data@.len() < MAX_LOADED_SPKS ==> (r matches Ok(a) && {
                &&& a.spk_data@.len() == self.spk_data@.len() + 1
                &&& spks_equiv(a.spk_data@.subrange(0, self.spk_data@.len() as int), self.spk_data@)
                &&& a.spk_data@.last() == spk
                &&& bpcs_equiv(a.bpc_data@, self.bpc_data@)
                &&& a.planetary_data.view_parts() == self.planetary_data.view_parts()
                &&& a.spacecraft_data.view_parts() == self.spacecraft_data.view_parts()
                &&& a.euler_param_data.view_parts() == self.euler_param_data.view_parts()
            }),
    {
        if self.spk_data.len() >= MAX_LOADED_SPKS {
            return Err(AniseError::CapacityExceeded);
        }
        let mut me = self.clone();
        me.spk_data.push(spk);
        proof {
            assert(me.spk_data@.subrange(0, self.spk_data@.len() as int) =~= me.spk_data@.subrange(
                0,
                me.spk_data@.len() - 1,
            ));
        }
        Ok(me)
    }

    /// Adds a BPC file to a clone of this Almanac, in the first empty
    /// slot; a full table is a clean failure.
    pub fn with_bpc(&self, bpc: BPC) -> (r: Result<Self, AniseError>)
        ensures
            self.bpc_data@.len() >= MAX_LOADED_BPCS ==> r == Err::<Almanac, AniseError>(
                AniseError::CapacityExceeded,
            ),
            self.bpc_data@.len() < MAX_LOADED_BPCS ==> (r matches Ok(a) && {
                &&& a.bpc_data@.len() == self.bpc_data@.len() + 1
                &&& bpcs_equiv(a.bpc_data@.subrange(0, self.bpc_data@.len() as int), self.bpc_data@)
                &&& a.bpc_data@.last() == bpc
                &&& spks_equiv(a.spk_data@, self.spk_data@)
                &&& a.planetary_data.view_parts() == self.planetary_data.view_parts()
                &&& a.spacecraft_data.view_parts() == self.spacecraft_data.view_parts()
                &&& a.euler_param_data.view_parts() == self.euler_param_data.view_parts()
            }),
    {
        if self.bpc_data.len() >= MAX_LOADED_BPCS {
            return Err(AniseError::CapacityExceeded);
        }
        let mut me = self.clone();
        me.bpc_data.push(bpc);
        proof {
            assert(me.bpc_data@.subrange(0, self.bpc_data@.len() as int) =~= me.bpc_data@.subrange(
                0,
                me.bpc_data@.len() - 1,
            ));
        }
        Ok(me)
    }

    /// Loads whatever the provided bytes hold, guessing the kind: a
    /// DAF (SPK or PCK) first, then a self-describing constants
    /// dataset; bytes that are neither are rejected with a generic
    /// error.
    pub fn load_from_bytes(&self, bytes: Bytes) -> (r: Result<Self, AlmanacError>)
        ensures
            spec_is_daf_of(bytes_seq(bytes), spk_bytes()) ==> ((r matches Ok(a)
                && a.spk_data@.len() == self.spk_data@.len() + 1 && bytes_seq(
                a.spk_data@.last().bytes,
            ) == bytes_seq(bytes) && spks_equiv(
                a.spk_data@.subrange(0, self.spk_data@.len() as int),
                self.spk_data@,
            )) || (r matches Err(e) && e matches AlmanacError::Ephemeris(_))),
            spec_is_daf_of(bytes_seq(bytes), pck_bytes()) ==> ((r matches Ok(a)
                && a.bpc_data@.len() == self.bpc_data@.len() + 1 && bytes_seq(
                a.bpc_data@.last().bytes,
            ) == bytes_seq(bytes) && bpcs_equiv(
                a.bpc_data@.subrange(0, self.bpc_data@.len() as int),
                self.bpc_data@,
            )) || (r matches Err(e) && e matches AlmanacError::Orientation(_))),
            ({
                let b = bytes_seq(bytes);
                &&& (spec_dataset_from(b, DataSetType::SpacecraftData) matches Ok(m) ==> (!(
                spec_is_daf_of(b, spk_bytes()) || spec_is_daf_of(b, pck_bytes())) ==> (
                r matches Ok(a) && a.spacecraft_data.metadata == m && bytes_seq(
                    a.spacecraft_data.bytes,
                ) == b)))
                &&& (spec_dataset_from(b, DataSetType::PlanetaryData) matches Ok(m) ==> (!(
                spec_is_daf_of(b, spk_bytes()) || spec_is_daf_of(b, pck_bytes())) ==> (
                r matches Ok(a) && a.planetary_data.metadata == m && bytes_seq(
                    a.planetary_data.bytes,
                ) == b)))
                &&& (spec_dataset_from(b, DataSetType::EulerParameterData) matches Ok(m) ==> (!(
                spec_is_daf_of(b, spk_bytes()) || spec_is_daf_of(b, pck_bytes())) ==> (
                r matches Ok(a) && a.euler_param_data.metadata == m && bytes_seq(
                    a.euler_param_data.bytes,
                ) == b)))
                &&& (!(spec_is_daf_of(b, spk_bytes()) || spec_is_daf_of(b, pck_bytes()))
                    && !(spec_decode_header(b) matches Ok(m)
                    && m.dataset_type != DataSetType::NotApplicable) ==> r == Err::<
                    Almanac,
                    AlmanacError,
                >(AlmanacError::GenericError))
            }),
    {
        let is_spk: bool;
        let is_pck: bool;
        {
            let slice = bytes_as_slice(&bytes);
            let native = host_endian();
            match DAFFileRecord::read_from(slice, native) {
                Some(fr) => {
                    match fr.identification() {
                        Ok(_) => {
                            let idw = fr.locidw.as_slice();
                            let sub = crate::recordtypes::trim_slice(&idw[4..8]);
                            let spk: [u8; 3] = [83, 80, 75];
                            proof {
                                assert(spk@ =~= spk_bytes());
                                assert(bytes_seq(bytes).subrange(0, 8).subrange(4, 8)
                                    =~= bytes_seq(bytes).subrange(4, 8));
                            }
                            is_spk = crate::recordtypes::eq_bytes(sub, spk.as_slice());
                            is_pck = !is_spk;
                        },
                        Err(_) => {
                            is_spk = false;
                            is_pck = false;
                        },
                    }
                },
                None => {
                    is_spk = false;
                    is_pck = false;
                },
            }
        }
        if is_spk {
            match SPK::parse(bytes) {
                Ok(spk) => match self.with_spk(spk) {
                    Ok(a) => Ok(a),
                    Err(e) => Err(AlmanacError::Ephemeris(e)),
                },
                Err(e) => Err(AlmanacError::Ephemeris(e)),
            }
        } else if is_pck {
            match BPC::parse(bytes) {
                Ok(bpc) => match self.with_bpc(bpc) {
                    Ok(a) => Ok(a),
                    Err(e) => Err(AlmanacError::Orientation(e)),
                },
                Err(e) => Err(AlmanacError::Orientation(e)),
            }
        } else {
            let metadata = match Metadata::decode_header(bytes_as_slice(&bytes)) {
                Ok(m) => m,
                Err(_) => {
                    return Err(AlmanacError::GenericError);
                },
            };
            match metadata.dataset_type {
                DataSetType::NotApplicable => Err(AlmanacError::GenericError),
                DataSetType::SpacecraftData => {
                    match SpacecraftDataSet::try_from_bytes(bytes) {
                        Ok(dataset) => Ok(self.with_spacecraft_data(dataset)),
                        Err(e) => Err(AlmanacError::TLDataSet(e)),
                    }
                },
                DataSetType::PlanetaryData => {
                    match PlanetaryDataSet::try_from_bytes(bytes) {
                        Ok(dataset) => Ok(self.with_planetary_data(dataset)),
                        Err(e) => Err(AlmanacError::TLDataSet(e)),
                    }
                },
                DataSetType::EulerParameterData => {
                    match EulerParameterDataSet::try_from_bytes(bytes) {
                        Ok(dataset) => Ok(self.with_euler_parameters(dataset)),
                        Err(e) => Err(AlmanacError::TLDataSet(e)),
                    }
                },
            }
        }
    }
}

} // verus!

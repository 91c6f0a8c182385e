//! The fixed-layout records of the DAF file family: the file record,
//! the summary-record headers, and the name records.

use vstd::prelude::*;
use vstd::array::ArrayAdditionalExecFns;
use vstd::utf8::valid_utf8;
use vstd::string::StringSliceAdditionalSpecFns;
use crate::errors::{AniseError, ParseIssue};
use crate::fbits::spec_pos_floor32;
use crate::DBL_SIZE;

verus! {

/// Length in bytes of one DAF record.
pub const RCRD_LEN: usize = 1024;

/// Endianness of the doubles and integers of a DAF file, or of the
/// host.
#[derive(Clone, Copy, Debug, PartialEq, Eq, Structural)]
pub enum Endian {
    Little,
    Big,
}

/// Relies on `u32::from_ne_bytes`: reading the bytes `[1, 0, 0, 0]` in
/// native order yields 1 on a little-endian host and 2^24 on a
/// big-endian one; no other value can come back.
#[verifier::external_body]
fn native_probe() -> (r: u32)
    ensures
        r == 1 || r == 0x1000000,
{
    u32::from_ne_bytes([1, 0, 0, 0])
}

/// The endianness of the host this process runs on. Which variant comes
/// back depends on the machine alone, so nothing more can be promised
/// of it.
pub fn host_endian() -> Endian {
    if native_probe() == 1 {
        Endian::Little
    } else {
        Endian::Big
    }
}

/// Relies on `core::str::from_utf8`: it succeeds exactly on well-formed
/// UTF-8 and returns the text whose encoding is the input bytes.
#[verifier::external_body]
fn utf8_str(b: &[u8]) -> (r: Option<&str>)
    ensures
        r is Some <==> valid_utf8(b@),
        r matches Some(s) ==> s.spec_bytes() == b@,
{
    core::str::from_utf8(b).ok()
}

/// The four bytes at `off` read as a 32-bit integer of the given
/// endianness.
pub open spec fn spec_u32_at(b: Seq<u8>, off: int, e: Endian) -> u32 {
    match e {
        Endian::Little => (b[off] + b[off + 1] * 0x100 + b[off + 2] * 0x10000 + b[off + 3]
            * 0x1000000) as u32,
        Endian::Big => (b[off + 3] + b[off + 2] * 0x100 + b[off + 1] * 0x10000 + b[off]
            * 0x1000000) as u32,
    }
}

/// Reads a 32-bit integer of the given endianness.
fn u32_at(b: &[u8], off: usize, e: Endian) -> (r: u32)
    requires
        off + 4 <= b@.len(),
    ensures
        r == spec_u32_at(b@, off as int, e),
{
    let n = b.len();
    match e {
        Endian::Little => b[off] as u32 + b[off + 1] as u32 * 0x100 + b[off + 2] as u32 * 0x10000
            + b[off + 3] as u32 * 0x1000000,
        Endian::Big => b[off + 3] as u32 + b[off + 2] as u32 * 0x100 + b[off + 1] as u32 * 0x10000
            + b[off] as u32 * 0x1000000,
    }
}

/// The eight bytes at `off` read as a 64-bit integer of the given
/// endianness: how a stored double's bits are picked up from the file.
pub open spec fn spec_u64_at(b: Seq<u8>, off: int, e: Endian) -> u64 {
    match e {
        Endian::Little => (b[off] + b[off + 1] * 0x100 + b[off + 2] * 0x10000 + b[off + 3]
            * 0x1000000 + b[off + 4] * 0x100000000 + b[off + 5] * 0x10000000000 + b[off + 6]
            * 0x1000000000000 + b[off + 7] * 0x100000000000000) as u64,
        Endian::Big => (b[off + 7] + b[off + 6] * 0x100 + b[off + 5] * 0x10000 + b[off + 4]
            * 0x1000000 + b[off + 3] * 0x100000000 + b[off + 2] * 0x10000000000 + b[off + 1]
            * 0x1000000000000 + b[off] * 0x100000000000000) as u64,
    }
}

/// Reads a 64-bit integer of the given endianness.
pub(crate) fn u64_at(b: &[u8], off: usize, e: Endian) -> (r: u64)
    requires
        off + 8 <= b@.len(),
    ensures
        r == spec_u64_at(b@, off as int, e),
{
    let n = b.len();
    match e {
        Endian::Little => b[off] as u64 + b[off + 1] as u64 * 0x100 + b[off + 2] as u64 * 0x10000
            + b[off + 3] as u64 * 0x1000000 + b[off + 4] as u64 * 0x100000000 + b[off + 5] as u64
            * 0x10000000000 + b[off + 6] as u64 * 0x1000000000000 + b[off + 7] as u64
            * 0x100000000000000,
        Endian::Big => b[off + 7] as u64 + b[off + 6] as u64 * 0x100 + b[off + 5] as u64 * 0x10000
            + b[off + 4] as u64 * 0x1000000 + b[off + 3] as u64 * 0x100000000 + b[off + 2] as u64
            * 0x10000000000 + b[off + 1] as u64 * 0x1000000000000 + b[off] as u64
            * 0x100000000000000,
    }
}

/// Copies `N` bytes starting at `off` into an owned array.
pub(crate) fn bytes_array<const N: usize>(b: &[u8], off: usize) -> (r: [u8; N])
    requires
        off + N <= b@.len(),
    ensures
        r@ == b@.subrange(off as int, off as int + N as int),
{
    let mut a: [u8; N] = vstd::array::array_fill_for_copy_types(0u8);
    let blen = b.len();
    let mut i: usize = 0;
    while i < N
        invariant
            i <= N,
            blen == b@.len(),
            off + N <= blen,
            a@.len() == N,
            forall|j: int| 0 <= j < i ==> a@[j] == b@[off + j],
        decreases N - i,
    {
        a.set(i, b[off + i]);
        i = i + 1;
    }
    proof {
        assert(a@ =~= b@.subrange(off as int, off as int + N as int));
    }
    a
}

/// True of the ASCII whitespace bytes (space, tab, line feed, vertical
/// tab, form feed, carriage return).
pub open spec fn is_ascii_ws(b: u8) -> bool {
    b == 0x20 || (0x09 <= b && b <= 0x0d)
}

/// The first position at or after `i` holding a non-whitespace byte,
/// or the length.
pub open spec fn ws_prefix_end(s: Seq<u8>, i: int) -> int
    decreases s.len() - i,
{
    if i < 0 || i >= s.len() {
        s.len() as int
    } else if is_ascii_ws(s[i]) {
        ws_prefix_end(s, i + 1)
    } else {
        i
    }
}

/// The position after the last non-whitespace byte before `j`, or 0.
pub open spec fn ws_suffix_start(s: Seq<u8>, j: int) -> int
    decreases j,
{
    if j <= 0 || j > s.len() {
        0
    } else if is_ascii_ws(s[j - 1]) {
        ws_suffix_start(s, j - 1)
    } else {
        j
    }
}

/// The bytes with ASCII whitespace stripped from both ends.
pub open spec fn ascii_trim(s: Seq<u8>) -> Seq<u8> {
    let a = ws_prefix_end(s, 0);
    let b = ws_suffix_start(s, s.len() as int);
    if a < b {
        s.subrange(a, b)
    } else {
        Seq::empty()
    }
}

/// Strips ASCII whitespace from both ends of a byte slice.
pub(crate) fn trim_slice(b: &[u8]) -> (r: &[u8])
    ensures
        r@ == ascii_trim(b@),
{
    let n = b.len();
    let mut a: usize = 0;
    while a < n && (b[a] == 0x20 || (0x09 <= b[a] && b[a] <= 0x0d))
        invariant
            a <= n,
            n == b@.len(),
            ws_prefix_end(b@, 0) == ws_prefix_end(b@, a as int),
        decreases n - a,
    {
        a = a + 1;
    }
    let mut e: usize = n;
    while e > a && (b[e - 1] == 0x20 || (0x09 <= b[e - 1] && b[e - 1] <= 0x0d))
        invariant
            a <= e <= n,
            n == b@.len(),
            ws_prefix_end(b@, 0) == a as int,
            ws_suffix_start(b@, n as int) == ws_suffix_start(b@, e as int),
        decreases e,
    {
        e = e - 1;
    }
    proof {
        if e > a {
            assert(ws_suffix_start(b@, e as int) == e as int);
        } else {
            // Everything was whitespace: the trimmed range is empty.
            assert(ws_suffix_start(b@, e as int) <= e as int) by {
                lemma_ws_suffix_start_le(b@, e as int);
            }
            assert(ascii_trim(b@) =~= Seq::<u8>::empty());
        }
    }
    let r = &b[a..e];
    proof {
        if e > a {
            assert(r@ =~= ascii_trim(b@));
        } else {
            assert(r@ =~= Seq::<u8>::empty());
        }
    }
    r
}

/// The suffix-start position never exceeds its bound.
proof fn lemma_ws_suffix_start_le(s: Seq<u8>, j: int)
    ensures
        ws_suffix_start(s, j) <= j || j < 0,
    decreases j,
{
    if j > 0 && j <= s.len() && is_ascii_ws(s[j - 1]) {
        lemma_ws_suffix_start_le(s, j - 1);
    }
}

/// The bytes of the ASCII word `SPK`.
pub open spec fn spk_bytes() -> Seq<u8> {
    seq![83u8, 80u8, 75u8]
}

/// The bytes of the ASCII word `PCK`.
pub open spec fn pck_bytes() -> Seq<u8> {
    seq![80u8, 67u8, 75u8]
}

/// The bytes of the ASCII marker `LTL-IEEE`.
pub open spec fn ltl_ieee_bytes() -> Seq<u8> {
    seq![76u8, 84u8, 76u8, 45u8, 73u8, 69u8, 69u8, 69u8]
}

/// The bytes of the ASCII marker `BIG-IEEE`.
pub open spec fn big_ieee_bytes() -> Seq<u8> {
    seq![66u8, 73u8, 71u8, 45u8, 73u8, 69u8, 69u8, 69u8]
}

/// True when an identifier word begins with the ASCII bytes `DAF/`.
pub open spec fn spec_is_daf(id: Seq<u8>) -> bool {
    id.len() == 8 && id[0] == 68 && id[1] == 65 && id[2] == 70 && id[3] == 47
}

/// The DAF file record: the first 1024 bytes of the file.
#[derive(Clone, Copy, Debug)]
pub struct DAFFileRecord {
    pub locidw: [u8; 8],
    pub nd: u32,
    pub ni: u32,
    pub locifn: [u8; 60],
    pub forward: u32,
    pub backward: u32,
    pub free_addr: u32,
    pub locfmt: [u8; 8],
    pub prenul: [u8; 603],
    pub ftpstr: [u8; 28],
    pub pstnul: [u8; 297],
}

impl Default for DAFFileRecord {
    /// The all-zero file record.
    fn default() -> (r: Self)
        ensures
            r.locidw@ == Seq::new(8, |i: int| 0u8),
            r.nd == 0,
            r.ni == 0,
            r.locifn@ == Seq::new(60, |i: int| 0u8),
            r.forward == 0,
            r.backward == 0,
            r.free_addr == 0,
            r.locfmt@ == Seq::new(8, |i: int| 0u8),
            r.prenul@ == Seq::new(603, |i: int| 0u8),
            r.ftpstr@ == Seq::new(28, |i: int| 0u8),
            r.pstnul@ == Seq::new(297, |i: int| 0u8),
    {
        let r = DAFFileRecord {
            locidw: vstd::array::array_fill_for_copy_types(0u8),
            nd: 0,
            ni: 0,
            locifn: vstd::array::array_fill_for_copy_types(0u8),
            forward: 0,
            backward: 0,
            free_addr: 0,
            locfmt: vstd::array::array_fill_for_copy_types(0u8),
            prenul: vstd::array::array_fill_for_copy_types(0u8),
            ftpstr: vstd::array::array_fill_for_copy_types(0u8),
            pstnul: vstd::array::array_fill_for_copy_types(0u8),
        };
        proof {
            assert(r.locidw@ =~= Seq::new(8, |i: int| 0u8));
            assert(r.locifn@ =~= Seq::new(60, |i: int| 0u8));
            assert(r.locfmt@ =~= Seq::new(8, |i: int| 0u8));
            assert(r.prenul@ =~= Seq::new(603, |i: int| 0u8));
            assert(r.ftpstr@ =~= Seq::new(28, |i: int| 0u8));
            assert(r.pstnul@ =~= Seq::new(297, |i: int| 0u8));
        }
        r
    }
}

impl DAFFileRecord {
    /// Reads the file record from the head of a byte buffer, given the
    /// endianness in which the host reads the integer fields. A buffer
    /// shorter than one record cannot be read.
    pub fn read_from(bytes: &[u8], native: Endian) -> (r: Option<DAFFileRecord>)
        ensures
            r is Some <==> bytes@.len() >= RCRD_LEN,
            r matches Some(fr) ==> {
                &&& fr.locidw@ == bytes@.subrange(0, 8)
                &&& fr.nd == spec_u32_at(bytes@, 8, native)
                &&& fr.ni == spec_u32_at(bytes@, 12, native)
                &&& fr.locifn@ == bytes@.subrange(16, 76)
                &&& fr.forward == spec_u32_at(bytes@, 76, native)
                &&& fr.backward == spec_u32_at(bytes@, 80, native)
                &&& fr.free_addr == spec_u32_at(bytes@, 84, native)
                &&& fr.locfmt@ == bytes@.subrange(88, 96)
                &&& fr.prenul@ == bytes@.subrange(96, 699)
                &&& fr.ftpstr@ == bytes@.subrange(699, 727)
                &&& fr.pstnul@ == bytes@.subrange(727, 1024)
            },
    {
        if bytes.len() < RCRD_LEN {
            return None;
        }
        Some(
            DAFFileRecord {
                locidw: bytes_array::<8>(bytes, 0),
                nd: u32_at(bytes, 8, native),
                ni: u32_at(bytes, 12, native),
                locifn: bytes_array::<60>(bytes, 16),
                forward: u32_at(bytes, 76, native),
                backward: u32_at(bytes, 80, native),
                free_addr: u32_at(bytes, 84, native),
                locfmt: bytes_array::<8>(bytes, 88),
                prenul: bytes_array::<603>(bytes, 96),
                ftpstr: bytes_array::<28>(bytes, 699),
                pstnul: bytes_array::<297>(bytes, 727),
            },
        )
    }

    /// The number of integer components of each array summary.
    pub fn ni(&self) -> (r: usize)
        ensures
            r == self.ni as usize,
    {
        self.ni as usize
    }

    /// The number of double components of each array summary.
    pub fn nd(&self) -> (r: usize)
        ensures
            r == self.nd as usize,
    {
        self.nd as usize
    }

    /// The record number of the first summary record.
    pub fn fwrd_idx(&self) -> (r: usize)
        ensures
            r == self.forward as usize,
    {
        self.forward as usize
    }

    /// The size of each summary in doubles: the doubles, plus the
    /// integers packed two per double.
    pub fn summary_size(&self) -> (r: usize)
        requires
            self.nd + (self.ni + 1) / 2 <= usize::MAX,
        ensures
            r == self.nd + (self.ni + 1) / 2,
    {
        (self.nd as u64 + (self.ni as u64 + 1) / 2) as usize
    }

    /// The file's kind: `SPK` or `PCK`, read from the identifier word
    /// `DAF/<subtype>`; any other word is a parse failure.
    pub fn identification(&self) -> (r: Result<&str, AniseError>)
        ensures
            !valid_utf8(self.locidw@) ==> r == Err::<&str, AniseError>(
                AniseError::DAFParserError(ParseIssue::InvalidUtf8),
            ),
            valid_utf8(self.locidw@) && !spec_is_daf(self.locidw@) ==> r == Err::<
                &str,
                AniseError,
            >(AniseError::DAFParserError(ParseIssue::NotDaf)),
            ({
                let sub = ascii_trim(self.locidw@.subrange(4, 8));
                &&& (valid_utf8(self.locidw@) && spec_is_daf(self.locidw@) && sub == spk_bytes()
                    ==> (r matches Ok(s) && s@ == "SPK"@))
                &&& (valid_utf8(self.locidw@) && spec_is_daf(self.locidw@) && sub == pck_bytes()
                    ==> (r matches Ok(s) && s@ == "PCK"@))
                &&& (valid_utf8(self.locidw@) && spec_is_daf(self.locidw@) && sub != spk_bytes()
                    && sub != pck_bytes() ==> r == Err::<&str, AniseError>(
                    AniseError::DAFParserError(ParseIssue::UnsupportedSubtype),
                ))
            }),
    {
        let id = self.locidw.as_slice();
        if let None = utf8_str(id) {
            return Err(AniseError::DAFParserError(ParseIssue::InvalidUtf8));
        }
        if !(self.locidw[0] == 68 && self.locidw[1] == 65 && self.locidw[2] == 70
            && self.locidw[3] == 47) {
            return Err(AniseError::DAFParserError(ParseIssue::NotDaf));
        }
        let sub = trim_slice(&id[4..8]);
        let spk: [u8; 3] = [83, 80, 75];
        let pck: [u8; 3] = [80, 67, 75];
        proof {
            assert(spk@ =~= spk_bytes());
            assert(pck@ =~= pck_bytes());
        }
        if eq_bytes(sub, spk.as_slice()) {
            Ok("SPK")
        } else if eq_bytes(sub, pck.as_slice()) {
            Ok("PCK")
        } else {
            Err(AniseError::DAFParserError(ParseIssue::UnsupportedSubtype))
        }
    }

    /// The endianness the file declares, accepted only when it is the
    /// given host endianness: a file of the other endianness cannot be
    /// decoded in place.
    pub fn endianness_with(&self, native: Endian) -> (r: Result<Endian, AniseError>)
        ensures
            !valid_utf8(self.locfmt@) ==> r == Err::<Endian, AniseError>(
                AniseError::DAFParserError(ParseIssue::InvalidUtf8),
            ),
            valid_utf8(self.locfmt@) && self.locfmt@ == ltl_ieee_bytes() ==> r == (
            if native == Endian::Little {
                Ok::<Endian, AniseError>(Endian::Little)
            } else {
                Err::<Endian, AniseError>(
                    AniseError::DAFParserError(ParseIssue::ForeignEndianness),
                )
            }),
            valid_utf8(self.locfmt@) && self.locfmt@ == big_ieee_bytes() ==> r == (
            if native == Endian::Big {
                Ok::<Endian, AniseError>(Endian::Big)
            } else {
                Err::<Endian, AniseError>(
                    AniseError::DAFParserError(ParseIssue::ForeignEndianness),
                )
            }),
            valid_utf8(self.locfmt@) && self.locfmt@ != ltl_ieee_bytes() && self.locfmt@
                != big_ieee_bytes() ==> r == Err::<Endian, AniseError>(
                AniseError::DAFParserError(ParseIssue::UnknownEndianness),
            ),
    {
        let fmt = self.locfmt.as_slice();
        if let None = utf8_str(fmt) {
            return Err(AniseError::DAFParserError(ParseIssue::InvalidUtf8));
        }
        let ltl: [u8; 8] = [76, 84, 76, 45, 73, 69, 69, 69];
        let big: [u8; 8] = [66, 73, 71, 45, 73, 69, 69, 69];
        proof {
            assert(ltl@ =~= ltl_ieee_bytes());
            assert(big@ =~= big_ieee_bytes());
        }
        let file_endian: Endian = if eq_bytes(fmt, ltl.as_slice()) {
            Endian::Little
        } else if eq_bytes(fmt, big.as_slice()) {
            Endian::Big
        } else {
            return Err(AniseError::DAFParserError(ParseIssue::UnknownEndianness));
        };
        if file_endian != native {
            Err(AniseError::DAFParserError(ParseIssue::ForeignEndianness))
        } else {
            Ok(file_endian)
        }
    }

    /// The endianness the file declares, accepted only when it is the
    /// endianness of the host this process runs on. Which well-formed
    /// marker is accepted depends on the machine, so the contract
    /// promises the machine-independent part alone.
    pub fn endianness(&self) -> (r: Result<Endian, AniseError>)
        ensures
            !valid_utf8(self.locfmt@) ==> r == Err::<Endian, AniseError>(
                AniseError::DAFParserError(ParseIssue::InvalidUtf8),
            ),
            valid_utf8(self.locfmt@) && self.locfmt@ != ltl_ieee_bytes() && self.locfmt@
                != big_ieee_bytes() ==> r == Err::<Endian, AniseError>(
                AniseError::DAFParserError(ParseIssue::UnknownEndianness),
            ),
            valid_utf8(self.locfmt@) && self.locfmt@ == ltl_ieee_bytes() ==> (r == Ok::<
                Endian,
                AniseError,
            >(Endian::Little) || r == Err::<Endian, AniseError>(
                AniseError::DAFParserError(ParseIssue::ForeignEndianness),
            )),
            valid_utf8(self.locfmt@) && self.locfmt@ == big_ieee_bytes() ==> (r == Ok::<
                Endian,
                AniseError,
            >(Endian::Big) || r == Err::<Endian, AniseError>(
                AniseError::DAFParserError(ParseIssue::ForeignEndianness),
            )),
    {
        let native = host_endian();
        self.endianness_with(native)
    }

    /// The informal file name stored in the record, with surrounding
    /// whitespace stripped.
    pub fn internal_filename(&self) -> (r: Result<&str, AniseError>)
        ensures
            ({
                let t = ascii_trim(self.locifn@);
                &&& (valid_utf8(t) ==> (r matches Ok(s) && s.spec_bytes() == t))
                &&& (!valid_utf8(t) ==> r == Err::<&str, AniseError>(
                    AniseError::DAFParserError(ParseIssue::InvalidUtf8),
                ))
            }),
    {
        let t = trim_slice(self.locifn.as_slice());
        match utf8_str(t) {
            Some(s) => Ok(s),
            None => Err(AniseError::DAFParserError(ParseIssue::InvalidUtf8)),
        }
    }
}

/// The three-double header of a summary record: the next and previous
/// record numbers and the number of summaries, each stored as a whole
/// number in double-precision encoding.
#[derive(Clone, Copy, Debug, PartialEq, Eq, Structural)]
pub struct DAFSummaryRecord {
    pub next_record_bits: u64,
    pub prev_record_bits: u64,
    pub num_summaries_bits: u64,
}

impl DAFSummaryRecord {
    /// The record number of the next summary record, zero on the last;
    /// read by flooring the stored double (negative or non-numeric
    /// values read as zero).
    pub fn next_record(&self) -> (r: usize)
        ensures
            r == spec_pos_floor32(self.next_record_bits) as usize,
    {
        crate::fbits::f64_pos_floor32(self.next_record_bits) as usize
    }

    /// The record number of the previous summary record.
    pub fn prev_record(&self) -> (r: usize)
        ensures
            r == spec_pos_floor32(self.prev_record_bits) as usize,
    {
        crate::fbits::f64_pos_floor32(self.prev_record_bits) as usize
    }

    /// How many summaries this record holds.
    pub fn num_summaries(&self) -> (r: usize)
        ensures
            r == spec_pos_floor32(self.num_summaries_bits) as usize,
    {
        crate::fbits::f64_pos_floor32(self.num_summaries_bits) as usize
    }

    /// True on the last summary record of the chain.
    pub fn is_final_record(&self) -> (r: bool)
        ensures
            r == (spec_pos_floor32(self.next_record_bits) == 0),
    {
        proof {
            crate::fbits::lemma_pos_floor32_bound(self.next_record_bits);
        }
        self.next_record() == 0
    }
}

/// A name record: one 1024-byte block of fixed-width ASCII names, one
/// name per summary of the preceding summary record.
#[derive(Clone, Debug)]
pub struct NameRecord {
    pub raw_names: [u8; RCRD_LEN],
}

impl Default for NameRecord {
    /// The all-zero name record.
    fn default() -> (r: Self)
        ensures
            r.raw_names@ == Seq::new(RCRD_LEN as nat, |i: int| 0u8),
    {
        let r = NameRecord { raw_names: vstd::array::array_fill_for_copy_types(0u8) };
        proof {
            assert(r.raw_names@ =~= Seq::new(RCRD_LEN as nat, |i: int| 0u8));
        }
        r
    }
}

impl NameRecord {
    /// The name field of entry `n`: `summary_size` doubles' worth of
    /// bytes.
    pub open spec fn spec_name_field(&self, n: int, summary_size: int) -> Seq<u8> {
        self.raw_names@.subrange(
            n * summary_size * DBL_SIZE,
            (n + 1) * summary_size * DBL_SIZE,
        )
    }

    /// True when entry `n` reads as exactly these name bytes: its
    /// trimmed field when that is well-formed text, the placeholder
    /// `UNNAMED OBJECT` otherwise.
    pub open spec fn spec_name_match(&self, n: int, summary_size: int, name_bytes: Seq<u8>) -> bool {
        let t = ascii_trim(self.spec_name_field(n, summary_size));
        if valid_utf8(t) {
            name_bytes == t
        } else {
            name_bytes == vstd::utf8::encode_utf8("UNNAMED OBJECT"@)
        }
    }

    /// The first entry index at or after `i` (below `count`) that reads
    /// as these name bytes, or -1.
    pub open spec fn spec_first_matching(
        &self,
        summary_size: int,
        name_bytes: Seq<u8>,
        i: int,
        count: int,
    ) -> int
        decreases count - i,
    {
        if i < 0 || i >= count {
            -1
        } else if self.spec_name_match(i, summary_size, name_bytes) {
            i
        } else {
            self.spec_first_matching(summary_size, name_bytes, i + 1, count)
        }
    }

    /// Returns the number of names this record can hold: one name per
    /// `summary_size` doubles.
    pub fn num_entries(&self, summary_size: usize) -> (r: usize)
        requires
            1 <= summary_size <= 0xffff,
        ensures
            r == RCRD_LEN as int / (summary_size * DBL_SIZE as int),
    {
        RCRD_LEN / (summary_size * DBL_SIZE)
    }

    /// Returns the `n`-th name, with surrounding whitespace stripped; a
    /// field whose text is malformed is surfaced as `UNNAMED OBJECT` so
    /// that iteration goes on.
    pub fn nth_name(&self, n: usize, summary_size: usize) -> (r: &str)
        requires
            1 <= summary_size,
            (n + 1) * summary_size * DBL_SIZE <= RCRD_LEN,
        ensures
            ({
                let t = ascii_trim(self.spec_name_field(n as int, summary_size as int));
                &&& (valid_utf8(t) ==> r.spec_bytes() == t)
                &&& (!valid_utf8(t) ==> r@ == "UNNAMED OBJECT"@)
            }),
    {
        proof {
            vstd::arithmetic::mul::lemma_mul_is_associative(
                n as int + 1,
                summary_size as int,
                DBL_SIZE as int,
            );
            vstd::arithmetic::mul::lemma_mul_inequality(
                1,
                n as int + 1,
                summary_size as int * DBL_SIZE as int,
            );
            assert(summary_size as int * DBL_SIZE as int <= RCRD_LEN);
        }
        let step = summary_size * DBL_SIZE;
        proof {
            vstd::arithmetic::mul::lemma_mul_is_associative(
                n as int + 1,
                summary_size as int,
                DBL_SIZE as int,
            );
            vstd::arithmetic::mul::lemma_mul_is_associative(
                n as int,
                summary_size as int,
                DBL_SIZE as int,
            );
            vstd::arithmetic::mul::lemma_mul_is_distributive_add_other_way(
                step as int,
                n as int,
                1,
            );
            vstd::arithmetic::mul::lemma_mul_nonnegative(n as int, step as int);
        }
        let start = n * step;
        let this_name = &self.raw_names.as_slice()[start..start + step];
        let t = trim_slice(this_name);
        proof {
            assert(this_name@ == self.spec_name_field(n as int, summary_size as int));
        }
        match utf8_str(t) {
            Some(name) => name,
            None => "UNNAMED OBJECT",
        }
    }

    /// Searches the name record for the provided name and returns the
    /// first entry bearing it, or an item-not-found error.
    ///
    /// **Warning:** this performs a linear search.
    pub fn index_from_name(&self, name: &str, summary_size: usize) -> (r: Result<
        usize,
        AniseError,
    >)
        requires
            1 <= summary_size <= 0xffff,
        ensures
            ({
                let count = RCRD_LEN as int / (summary_size * DBL_SIZE as int);
                let m = self.spec_first_matching(
                    summary_size as int,
                    name.spec_bytes(),
                    0,
                    count,
                );
                if m < 0 {
                    r == Err::<usize, AniseError>(AniseError::ItemNotFound)
                } else {
                    r == Ok::<usize, AniseError>(m as usize)
                }
            }),
    {
        let count = self.num_entries(summary_size);
        let ghost nb = name.spec_bytes();
        proof {
            vstd::arithmetic::div_mod::lemma_fundamental_div_mod(
                RCRD_LEN as int,
                summary_size as int * DBL_SIZE as int,
            );
            vstd::arithmetic::mul::lemma_mul_nonnegative(
                count as int,
                summary_size as int * DBL_SIZE as int,
            );
        }
        let mut i: usize = 0;
        while i < count
            invariant
                i <= count,
                1 <= summary_size <= 0xffff,
                count == RCRD_LEN as int / (summary_size * DBL_SIZE as int),
                count * (summary_size * DBL_SIZE as int) <= RCRD_LEN,
                nb == name.spec_bytes(),
                self.spec_first_matching(summary_size as int, nb, 0, count as int)
                    == self.spec_first_matching(summary_size as int, nb, i as int, count as int),
            decreases count - i,
        {
            proof {
                vstd::arithmetic::mul::lemma_mul_inequality(
                    i as int + 1,
                    count as int,
                    summary_size as int * DBL_SIZE as int,
                );
                vstd::arithmetic::mul::lemma_mul_is_associative(
                    i as int + 1,
                    summary_size as int,
                    DBL_SIZE as int,
                );
            }
            let entry = self.nth_name(i, summary_size);
            if eq_bytes(entry.as_bytes(), name.as_bytes()) {
                return Ok(i);
            }
            i = i + 1;
        }
        Err(AniseError::ItemNotFound)
    }
}

/// Compares two byte slices for equality.
pub(crate) fn eq_bytes(x: &[u8], y: &[u8]) -> (r: bool)
    ensures
        r <==> x@ == y@,
{
    let n = x.len();
    if n != y.len() {
        proof {
            assert(x@.len() != y@.len());
        }
        return false;
    }
    let mut i: usize = 0;
    while i < n
        invariant
            i <= n,
            n == x@.len(),
            n == y@.len(),
            forall|j: int| 0 <= j < i ==> x@[j] == y@[j],
        decreases n - i,
    {
        if x[i] != y[i] {
            proof {
                assert(x@ != y@) by {
                    assert(x@[i as int] != y@[i as int]);
                }
            }
            return false;
        }
        i = i + 1;
    }
    proof {
        assert(x@ =~= y@);
    }
    true
}

} // verus!

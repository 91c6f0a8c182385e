//! DAF summary-chain traversal: starting from the file record's
//! forward pointer, read one summary record at a time, pair it with
//! the name record immediately following, and follow its next pointer
//! until it is zero. The walk is iterative and bounded by the number
//! of records the buffer holds, so a looping chain is rejected rather
//! than followed forever.

use vstd::prelude::*;
use crate::errors::{AniseError, ParseIssue};
use crate::fbits::spec_pos_floor32;
use crate::recordtypes::{
    bytes_array, spec_u64_at, u64_at, DAFSummaryRecord, Endian, NameRecord, RCRD_LEN,
};

verus! {

/// The three-double header of 1-based record `rec`, read with the
/// given endianness.
pub open spec fn spec_summary_header(b: Seq<u8>, rec: int, e: Endian) -> DAFSummaryRecord {
    let base = (rec - 1) * RCRD_LEN;
    DAFSummaryRecord {
        next_record_bits: spec_u64_at(b, base, e),
        prev_record_bits: spec_u64_at(b, base + 8, e),
        num_summaries_bits: spec_u64_at(b, base + 16, e),
    }
}

/// The bytes of the name record paired with 1-based record `rec`: the
/// record immediately following it.
pub open spec fn spec_name_record_bytes(b: Seq<u8>, rec: int) -> Seq<u8> {
    b.subrange(rec * RCRD_LEN, (rec + 1) * RCRD_LEN)
}

/// The chain of (summary header, name-record bytes) pairs starting at
/// 1-based record `rec`: a pointer past the buffer is the truncation
/// error, and a chain longer than the buffer's record count must
/// revisit a record and is rejected as cyclic.
pub open spec fn spec_chain_from(b: Seq<u8>, rec: int, e: Endian, fuel: nat) -> Result<
    Seq<(DAFSummaryRecord, Seq<u8>)>,
    AniseError,
>
    decreases fuel,
{
    if fuel == 0 {
        Err(AniseError::DAFParserError(ParseIssue::CyclicSummaryChain))
    } else if rec < 1 || (rec + 1) * RCRD_LEN > b.len() {
        Err(AniseError::DAFParserError(ParseIssue::Truncated))
    } else {
        let header = spec_summary_header(b, rec, e);
        let pair = (header, spec_name_record_bytes(b, rec));
        let nxt = spec_pos_floor32(header.next_record_bits) as int;
        if nxt == 0 {
            Ok(seq![pair])
        } else {
            match spec_chain_from(b, nxt, e, (fuel - 1) as nat) {
                Err(err) => Err(err),
                Ok(rest) => Ok(seq![pair] + rest),
            }
        }
    }
}

/// True when the walk's runtime result carries exactly the pairs of
/// the specified chain.
pub open spec fn chain_matches(
    r: Result<Vec<(DAFSummaryRecord, NameRecord)>, AniseError>,
    sp: Result<Seq<(DAFSummaryRecord, Seq<u8>)>, AniseError>,
) -> bool {
    match (r, sp) {
        (Ok(v), Ok(s)) => v@.len() == s.len() && forall|i: int|
            0 <= i < s.len() ==> (#[trigger] v@[i]).0 == s[i].0 && v@[i].1.raw_names@ == s[i].1,
        (Err(a), Err(b2)) => a == b2,
        _ => false,
    }
}

/// Walks the summary-record chain of a DAF buffer from the 1-based
/// record `start`, pairing each summary record with the name record
/// that follows it.
pub fn summary_chain(bytes: &[u8], start: usize, e: Endian) -> (r: Result<
    Vec<(DAFSummaryRecord, NameRecord)>,
    AniseError,
>)
    ensures
        chain_matches(r, spec_chain_from(bytes@, start as int, e, (bytes@.len() as int / RCRD_LEN as int) as nat)),
{
    let blen = bytes.len();
    let nrec = blen / RCRD_LEN;
    let mut out: Vec<(DAFSummaryRecord, NameRecord)> = Vec::new();
    let ghost mut prefix: Seq<(DAFSummaryRecord, Seq<u8>)> = Seq::empty();
    let mut rec: usize = start;
    let mut it: usize = 0;
    while it < nrec
        invariant
            it <= nrec,
            blen == bytes@.len(),
            nrec == blen / RCRD_LEN,
            out@.len() == it,
            prefix.len() == it,
            forall|i: int|
                0 <= i < it ==> (#[trigger] out@[i]).0 == prefix[i].0 && out@[i].1.raw_names@
                    == prefix[i].1,
            ({
                let full = spec_chain_from(bytes@, start as int, e, nrec as nat);
                match spec_chain_from(bytes@, rec as int, e, (nrec - it) as nat) {
                    Ok(s) => full == Ok::<Seq<(DAFSummaryRecord, Seq<u8>)>, AniseError>(
                        prefix + s,
                    ),
                    Err(err) => full == Err::<Seq<(DAFSummaryRecord, Seq<u8>)>, AniseError>(err),
                }
            }),
        decreases nrec - it,
    {
        if rec < 1 || (rec as u128 + 1) * (RCRD_LEN as u128) > blen as u128 {
            return Err(AniseError::DAFParserError(ParseIssue::Truncated));
        }
        let base: usize = (rec - 1) * RCRD_LEN;
        let header = DAFSummaryRecord {
            next_record_bits: u64_at(bytes, base, e),
            prev_record_bits: u64_at(bytes, base + 8, e),
            num_summaries_bits: u64_at(bytes, base + 16, e),
        };
        let names = NameRecord { raw_names: bytes_array::<1024>(bytes, base + RCRD_LEN) };
        let ghost prefix_old = prefix;
        out.push((header, names));
        proof {
            prefix = prefix.push((header, spec_name_record_bytes(bytes@, rec as int)));
            assert(names.raw_names@ =~= spec_name_record_bytes(bytes@, rec as int));
            assert(prefix_old + seq![
                (header, spec_name_record_bytes(bytes@, rec as int)),
            ] =~= prefix);
        }
        let nxt = header.next_record();
        proof {
            crate::fbits::lemma_pos_floor32_bound(header.next_record_bits);
        }
        if nxt == 0 {
            return Ok(out);
        }
        proof {
            let rest = spec_chain_from(bytes@, nxt as int, e, (nrec - it - 1) as nat);
            match rest {
                Ok(s) => {
                    assert(prefix_old + (seq![
                        (header, spec_name_record_bytes(bytes@, rec as int)),
                    ] + s) =~= prefix + s);
                },
                Err(_) => {},
            }
        }
        rec = nxt;
        it = it + 1;
    }
    Err(AniseError::DAFParserError(ParseIssue::CyclicSummaryChain))
}

} // verus!

use anise::almanac::{Almanac, BPC, SPK, MAX_LOADED_SPKS};
use anise::dataset::{DataSetType, Metadata, SpacecraftDataSet};
use anise::errors::{AlmanacError, AniseError, ParseIssue};
use anise::recordtypes::{DAFFileRecord, DAFSummaryRecord, Endian, NameRecord, RCRD_LEN};
use bytes::Bytes;

/// A minimal well-formed little-endian DAF header of the given
/// subtype.
fn daf_bytes(subtype: &str) -> Vec<u8> {
    let mut buf = vec![0u8; 2048];
    let id = format!("DAF/{subtype}");
    let mut idw = [b' '; 8];
    idw[..id.len()].copy_from_slice(id.as_bytes());
    buf[0..8].copy_from_slice(&idw);
    // nd = 2, ni = 6 as in SPK files, native (little-endian) order.
    buf[8..12].copy_from_slice(&2u32.to_le_bytes());
    buf[12..16].copy_from_slice(&6u32.to_le_bytes());
    let mut name = [b' '; 60];
    name[..9].copy_from_slice(b"test file");
    buf[16..76].copy_from_slice(&name);
    buf[76..80].copy_from_slice(&2u32.to_le_bytes());
    buf[88..96].copy_from_slice(b"LTL-IEEE");
    buf
}

fn parsed_record(buf: &[u8]) -> DAFFileRecord {
    DAFFileRecord::read_from(buf, Endian::Little).unwrap()
}

#[test]
fn file_record_reads_fields() {
    let buf = daf_bytes("SPK");
    let fr = parsed_record(&buf);
    assert_eq!(fr.nd(), 2);
    assert_eq!(fr.ni(), 6);
    assert_eq!(fr.fwrd_idx(), 2);
    assert_eq!(fr.summary_size(), 2 + (6 + 1) / 2);
    assert_eq!(fr.identification().unwrap(), "SPK");
    assert_eq!(fr.internal_filename().unwrap(), "test file");
}

#[test]
fn file_record_too_short_is_rejected() {
    assert!(DAFFileRecord::read_from(&[0u8; 100], Endian::Little).is_none());
}

#[test]
fn identification_rejects_non_daf() {
    let fr = DAFFileRecord::default();
    assert_eq!(
        fr.identification().unwrap_err(),
        AniseError::DAFParserError(ParseIssue::NotDaf)
    );
    let mut buf = daf_bytes("XYZ");
    let fr2 = parsed_record(&buf);
    assert_eq!(
        fr2.identification().unwrap_err(),
        AniseError::DAFParserError(ParseIssue::UnsupportedSubtype)
    );
    buf[0..8].copy_from_slice(&[0x44, 0x41, 0x46, 0x2f, 0xff, 0xfe, 0x20, 0x20]);
    let fr3 = parsed_record(&buf);
    assert_eq!(
        fr3.identification().unwrap_err(),
        AniseError::DAFParserError(ParseIssue::InvalidUtf8)
    );
}

#[test]
fn endianness_accepts_native_marker_only() {
    let buf = daf_bytes("SPK");
    let fr = parsed_record(&buf);
    // This toolkit refuses files of the other endianness, so on every
    // host exactly one of the two markers is accepted.
    match fr.endianness() {
        Ok(e) => assert_eq!(e, Endian::Little),
        Err(e) => assert_eq!(e, AniseError::DAFParserError(ParseIssue::ForeignEndianness)),
    }
    let mut bad = daf_bytes("SPK");
    bad[88..96].copy_from_slice(b"PDP-11!!");
    let fr2 = parsed_record(&bad);
    assert_eq!(
        fr2.endianness().unwrap_err(),
        AniseError::DAFParserError(ParseIssue::UnknownEndianness)
    );
}

#[test]
fn name_record_reads_and_finds_names() {
    let mut raw = [b' '; RCRD_LEN];
    let ss = 5usize; // summary size in doubles -> 40-byte names
    raw[0..5].copy_from_slice(b"VENUS");
    raw[40..45].copy_from_slice(b"EARTH");
    raw[80..87].copy_from_slice(b"JUPITER");
    let rec = NameRecord { raw_names: raw };
    assert_eq!(rec.num_entries(ss), RCRD_LEN / (ss * 8));
    assert_eq!(rec.nth_name(0, ss), "VENUS");
    assert_eq!(rec.nth_name(1, ss), "EARTH");
    assert_eq!(rec.nth_name(2, ss), "JUPITER");
    assert_eq!(rec.index_from_name("EARTH", ss).unwrap(), 1);
    assert_eq!(
        rec.index_from_name("PLUTO", ss).unwrap_err(),
        AniseError::ItemNotFound
    );
}

#[test]
fn malformed_name_is_surfaced_as_placeholder() {
    let mut raw = [b' '; RCRD_LEN];
    raw[0] = 0xff;
    raw[1] = 0xfe;
    let rec = NameRecord { raw_names: raw };
    assert_eq!(rec.nth_name(0, 5), "UNNAMED OBJECT");
    assert_eq!(rec.index_from_name("UNNAMED OBJECT", 5).unwrap(), 0);
}

#[test]
fn summary_record_reads_whole_doubles() {
    let rec = DAFSummaryRecord {
        next_record_bits: 3.0f64.to_bits(),
        prev_record_bits: 0.0f64.to_bits(),
        num_summaries_bits: 25.0f64.to_bits(),
    };
    assert_eq!(rec.next_record(), 3);
    assert_eq!(rec.prev_record(), 0);
    assert_eq!(rec.num_summaries(), 25);
    assert!(!rec.is_final_record());
    let last = DAFSummaryRecord {
        next_record_bits: 0.0f64.to_bits(),
        prev_record_bits: 2.0f64.to_bits(),
        num_summaries_bits: 1.0f64.to_bits(),
    };
    assert!(last.is_final_record());
}

#[test]
fn zero_buffer_is_not_an_spk() {
    // A buffer of zeroes has an identifier word that does not begin
    // with `DAF/`.
    let zeros = Bytes::from_static(&[0u8; 2048]);
    let err = SPK::parse(zeros).unwrap_err();
    assert_eq!(err, AniseError::DAFParserError(ParseIssue::NotDaf));
}

#[test]
fn spk_and_bpc_parse_their_own_subtypes() {
    let spk_buf = Bytes::copy_from_slice(&daf_bytes("SPK"));
    let bpc_buf = Bytes::copy_from_slice(&daf_bytes("PCK"));
    match SPK::parse(spk_buf.clone()) {
        Ok(spk) => assert_eq!(spk.file_record.nd(), 2),
        Err(e) => assert_eq!(e, AniseError::DAFParserError(ParseIssue::ForeignEndianness)),
    }
    assert_eq!(
        SPK::parse(bpc_buf.clone()).unwrap_err(),
        AniseError::DAFParserError(ParseIssue::UnsupportedSubtype)
    );
    match BPC::parse(bpc_buf) {
        Ok(bpc) => assert_eq!(bpc.file_record.nd(), 2),
        Err(e) => assert_eq!(e, AniseError::DAFParserError(ParseIssue::ForeignEndianness)),
    }
}

#[test]
fn dataset_header_decodes() {
    let mut buf = vec![0u8; 64];
    buf[0..5].copy_from_slice(b"ANISE");
    buf[5] = 1;
    buf[6] = 2;
    buf[7] = 3;
    buf[8] = 2;
    let m = Metadata::decode_header(&buf).unwrap();
    assert_eq!(m.version_major, 1);
    assert_eq!(m.version_minor, 2);
    assert_eq!(m.version_patch, 3);
    assert_eq!(m.dataset_type, DataSetType::PlanetaryData);
    buf[8] = 9;
    assert_eq!(
        Metadata::decode_header(&buf).unwrap_err(),
        AniseError::DAFParserError(ParseIssue::UnknownDatasetType)
    );
    buf[0] = b'X';
    assert_eq!(
        Metadata::decode_header(&buf).unwrap_err(),
        AniseError::DAFParserError(ParseIssue::WrongMagic)
    );
    assert_eq!(
        Metadata::decode_header(&buf[0..4]).unwrap_err(),
        AniseError::DAFParserError(ParseIssue::Truncated)
    );
}

fn dataset_bytes(tag: u8) -> Vec<u8> {
    let mut buf = vec![0u8; 32];
    buf[0..5].copy_from_slice(b"ANISE");
    buf[8] = tag;
    buf
}

#[test]
fn almanac_loads_datasets_from_bytes() {
    let almanac = Almanac::default();
    let loaded = almanac
        .load_from_bytes(Bytes::copy_from_slice(&dataset_bytes(2)))
        .unwrap();
    assert_eq!(loaded.planetary_data.metadata.dataset_type, DataSetType::PlanetaryData);
    let loaded2 = loaded
        .load_from_bytes(Bytes::copy_from_slice(&dataset_bytes(1)))
        .unwrap();
    assert_eq!(
        loaded2.spacecraft_data.metadata.dataset_type,
        DataSetType::SpacecraftData
    );
    assert_eq!(
        loaded2.planetary_data.metadata.dataset_type,
        DataSetType::PlanetaryData
    );
    let loaded3 = loaded2
        .load_from_bytes(Bytes::copy_from_slice(&dataset_bytes(3)))
        .unwrap();
    assert_eq!(
        loaded3.euler_param_data.metadata.dataset_type,
        DataSetType::EulerParameterData
    );
}

#[test]
fn almanac_rejects_unrecognised_bytes() {
    let almanac = Almanac::default();
    assert_eq!(
        almanac
            .load_from_bytes(Bytes::from_static(b"what is this"))
            .unwrap_err(),
        AlmanacError::GenericError
    );
    assert_eq!(
        almanac
            .load_from_bytes(Bytes::copy_from_slice(&dataset_bytes(0)))
            .unwrap_err(),
        AlmanacError::GenericError
    );
}

#[test]
fn almanac_with_setters_replace_one_slot() {
    let almanac = Almanac::default();
    let ds = SpacecraftDataSet::try_from_bytes(Bytes::copy_from_slice(&dataset_bytes(1))).unwrap();
    let with_sc = almanac.with_spacecraft_data(ds);
    assert_eq!(
        with_sc.spacecraft_data.metadata.dataset_type,
        DataSetType::SpacecraftData
    );
    assert_eq!(
        with_sc.planetary_data.metadata.dataset_type,
        DataSetType::NotApplicable
    );
}

#[test]
fn spk_capacity_is_bounded() {
    // Loading is only possible on a host whose endianness matches the
    // file; this test file is little-endian.
    let buf = Bytes::copy_from_slice(&daf_bytes("SPK"));
    let spk = match SPK::parse(buf) {
        Ok(spk) => spk,
        Err(_) => return,
    };
    let mut almanac = Almanac::default();
    for _ in 0..MAX_LOADED_SPKS {
        almanac = almanac.with_spk(spk.clone()).unwrap();
    }
    assert_eq!(almanac.spk_data.len(), MAX_LOADED_SPKS);
    assert_eq!(
        almanac.with_spk(spk).unwrap_err(),
        AniseError::CapacityExceeded
    );
}

#[test]
fn summary_chain_walks_records_in_order() {
    // Record 1 is the file record; summary records sit at 2 and 4,
    // each followed by its name record.
    let mut buf = vec![0u8; 5 * RCRD_LEN];
    let r2 = RCRD_LEN;
    buf[r2..r2 + 8].copy_from_slice(&4.0f64.to_le_bytes());
    buf[r2 + 8..r2 + 16].copy_from_slice(&0.0f64.to_le_bytes());
    buf[r2 + 16..r2 + 24].copy_from_slice(&2.0f64.to_le_bytes());
    let r3 = 2 * RCRD_LEN;
    for b in buf[r3..r3 + RCRD_LEN].iter_mut() {
        *b = b' ';
    }
    buf[r3..r3 + 5].copy_from_slice(b"VENUS");
    let r4 = 3 * RCRD_LEN;
    buf[r4..r4 + 8].copy_from_slice(&0.0f64.to_le_bytes());
    buf[r4 + 8..r4 + 16].copy_from_slice(&2.0f64.to_le_bytes());
    buf[r4 + 16..r4 + 24].copy_from_slice(&1.0f64.to_le_bytes());
    let r5 = 4 * RCRD_LEN;
    for b in buf[r5..r5 + RCRD_LEN].iter_mut() {
        *b = b' ';
    }
    buf[r5..r5 + 5].copy_from_slice(b"EARTH");

    let chain = anise::daf::summary_chain(&buf, 2, Endian::Little).unwrap();
    assert_eq!(chain.len(), 2);
    assert_eq!(chain[0].0.next_record(), 4);
    assert_eq!(chain[0].0.num_summaries(), 2);
    assert_eq!(chain[0].1.nth_name(0, 5), "VENUS");
    assert!(chain[1].0.is_final_record());
    assert_eq!(chain[1].0.prev_record(), 2);
    assert_eq!(chain[1].1.nth_name(0, 5), "EARTH");
}

#[test]
fn summary_chain_rejects_bad_pointers() {
    let buf = vec![0u8; 3 * RCRD_LEN];
    assert_eq!(
        anise::daf::summary_chain(&buf, 9, Endian::Little).unwrap_err(),
        AniseError::DAFParserError(ParseIssue::Truncated)
    );
    // A record whose next pointer is itself loops forever and is
    // rejected rather than followed.
    let mut cyc = vec![0u8; 3 * RCRD_LEN];
    cyc[RCRD_LEN..RCRD_LEN + 8].copy_from_slice(&2.0f64.to_le_bytes());
    assert_eq!(
        anise::daf::summary_chain(&cyc, 2, Endian::Little).unwrap_err(),
        AniseError::DAFParserError(ParseIssue::CyclicSummaryChain)
    );
}

#[test]
fn dataset_of_the_wrong_type_is_rejected() {
    // Planetary-tagged bytes do not load as spacecraft data.
    let err =
        SpacecraftDataSet::try_from_bytes(Bytes::copy_from_slice(&dataset_bytes(2))).unwrap_err();
    assert_eq!(err, AniseError::DAFParserError(ParseIssue::WrongDatasetType));
}

#[test]
fn foreign_endianness_is_rejected_on_the_other_host() {
    let mut buf = daf_bytes("SPK");
    buf[88..96].copy_from_slice(b"BIG-IEEE");
    // Exactly one of the two markers matches any given host: a
    // big-endian file is refused on a little-endian machine and
    // accepted on a big-endian one.
    match SPK::parse(Bytes::copy_from_slice(&buf)) {
        Err(e) => assert_eq!(e, AniseError::DAFParserError(ParseIssue::ForeignEndianness)),
        Ok(spk) => assert_eq!(spk.file_record.identification().unwrap(), "SPK"),
    }
}

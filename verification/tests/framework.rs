use anise::almanac::Almanac;

#[test]
fn demo() {}

#[test]
fn default_almanac_is_empty() {
    let almanac = Almanac::default();
    assert_eq!(almanac.spk_data.len(), 0);
    assert_eq!(almanac.bpc_data.len(), 0);
}

use nes_core::common::NesRegion;

#[test]
fn regions_list_in_fixed_order() {
    let regions = NesRegion::as_slice();
    assert_eq!(
        regions,
        vec![NesRegion::Ntsc, NesRegion::Pal, NesRegion::Dendy]
    );
}

#[test]
fn region_names_round_trip() {
    for region in NesRegion::as_slice() {
        assert_eq!(NesRegion::from_name(&region.name()), Some(region));
    }
    assert_eq!(NesRegion::from_name("NTSC"), Some(NesRegion::Ntsc));
    assert_eq!(NesRegion::from_name("PAL"), Some(NesRegion::Pal));
    assert_eq!(NesRegion::from_name("Dendy"), Some(NesRegion::Dendy));
    assert_eq!(NesRegion::from_name("SECAM"), None);
    assert_eq!(NesRegion::from_name(""), None);
    assert_eq!(NesRegion::from_name("ntsc"), None);
}

#[test]
fn region_indices_select_pal_and_dendy() {
    assert_eq!(NesRegion::from_index(0), NesRegion::Ntsc);
    assert_eq!(NesRegion::from_index(1), NesRegion::Pal);
    assert_eq!(NesRegion::from_index(2), NesRegion::Dendy);
    assert_eq!(NesRegion::from_index(3), NesRegion::Ntsc);
}

#[test]
fn region_timing_constants() {
    assert_eq!(NesRegion::Ntsc.clock_rate_hz(), 1_789_773);
    assert_eq!(NesRegion::Pal.clock_rate_hz(), 1_662_607);
    assert_eq!(NesRegion::Dendy.clock_rate_hz(), 1_773_448);
    assert_eq!(NesRegion::Ntsc.scanlines_per_frame(), 262);
    assert_eq!(NesRegion::Pal.scanlines_per_frame(), 312);
    assert_eq!(NesRegion::Dendy.scanlines_per_frame(), 312);
    assert_eq!(NesRegion::default(), NesRegion::Ntsc);
}

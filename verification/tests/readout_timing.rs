use gmsl_picam_rs::readout_timing::{center_of_integration_ns, center_of_integration_row_ns};

#[test]
fn end_of_readout_coi_subtracts_half_exposure() {
    assert_eq!(center_of_integration_ns(1_000_000_000, 8_000), 996_000_000);
}

#[test]
fn top_row_is_one_readout_before_end_referenced_coi() {
    // readout = 33_333_000 - 8_000_000 = 25_333_000 ns
    assert_eq!(
        center_of_integration_row_ns(1_000_000_000, 8_000, 33_333, 0, 720),
        996_000_000 - 25_333_000
    );
}

#[test]
fn bottom_row_adds_its_share_of_the_readout() {
    // 719 * 25_333_000 / 720 = 25_297_815 (rounded down)
    assert_eq!(
        center_of_integration_row_ns(1_000_000_000, 8_000, 33_333, 719, 720),
        970_667_000 + 25_297_815
    );
}

#[test]
fn rows_lie_within_one_readout_of_the_frame_coi() {
    let end = center_of_integration_ns(2_000_000, 4_000);
    let mut previous = i64::MIN;
    for row in 0..100 {
        let coi = center_of_integration_row_ns(2_000_000, 4_000, 10_000, row, 100);
        assert!(coi >= end - 6_000_000);
        assert!(coi <= end);
        assert!(coi >= previous);
        previous = coi;
    }
}

#[test]
fn middle_row_is_frame_centre() {
    // readout = 33_333_000 - 8_000_000 = 25_333_000 ns, half of it 12_666_500
    assert_eq!(
        center_of_integration_row_ns(1_000_000_000, 8_000, 33_333, 360, 720),
        1_000_000_000 - 4_000_000 - 12_666_500
    );
}

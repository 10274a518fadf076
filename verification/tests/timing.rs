use gmsl_picam_rs::timing::{
    center_of_integration_frame_center_ns, center_of_integration_ns, center_of_integration_row_ns,
    TimingError,
};

#[test]
fn frame_center_adds_half_exposure_and_half_frame_duration() {
    let coi = center_of_integration_frame_center_ns(1_000_000_000, 8_000, 33_333)
        .expect("valid timing");
    assert_eq!(coi, 1_020_666_500);
}

#[test]
fn row_zero_is_first_row_center_of_integration() {
    let coi = center_of_integration_row_ns(1_000_000_000, 8_000, 33_333, 0, 720)
        .expect("valid timing");
    assert_eq!(coi, 1_004_000_000);
}

#[test]
fn bottom_row_is_later_than_top_row() {
    let top = center_of_integration_row_ns(1_000_000_000, 8_000, 33_333, 0, 720)
        .expect("valid timing");
    let bottom = center_of_integration_row_ns(1_000_000_000, 8_000, 33_333, 719, 720)
        .expect("valid timing");
    assert_eq!(bottom, 1_037_286_704);
    assert!(bottom > top);
}

#[test]
fn rejects_zero_frame_height() {
    assert_eq!(
        center_of_integration_row_ns(1_000_000_000, 8_000, 33_333, 0, 0),
        Err(TimingError::InvalidFrameHeight)
    );
}

#[test]
fn rejects_row_at_frame_height() {
    assert_eq!(
        center_of_integration_row_ns(1_000_000_000, 8_000, 33_333, 720, 720),
        Err(TimingError::InvalidRow)
    );
}

#[test]
fn rejects_exposure_longer_than_frame() {
    assert_eq!(
        center_of_integration_frame_center_ns(1_000_000_000, 40_000, 33_333),
        Err(TimingError::ExposureLongerThanFrame)
    );
}

#[test]
fn compatibility_helper_returns_first_row_center_of_integration() {
    assert_eq!(
        center_of_integration_ns(1_000_000_000, 8_000),
        1_004_000_000
    );
}

#[test]
fn row_rejects_exposure_longer_than_frame() {
    assert_eq!(
        center_of_integration_row_ns(1_000_000_000, 40_000, 33_333, 10, 720),
        Err(TimingError::ExposureLongerThanFrame)
    );
}

#[test]
fn zero_height_is_reported_before_row_and_exposure() {
    assert_eq!(
        center_of_integration_row_ns(1_000_000_000, 40_000, 33_333, 5, 0),
        Err(TimingError::InvalidFrameHeight)
    );
    assert_eq!(
        center_of_integration_row_ns(1_000_000_000, 40_000, 33_333, 900, 720),
        Err(TimingError::InvalidRow)
    );
}

#[test]
fn negative_exposure_halves_toward_zero() {
    // -3 us is -3000 ns; half of it rounds toward zero to -1500 ns.
    assert_eq!(center_of_integration_ns(0, -3), -1_500);
    // odd microsecond counts give exact halves in nanoseconds
    assert_eq!(center_of_integration_ns(10, 1), 510);
}

#[test]
fn exposure_equal_to_frame_is_accepted() {
    assert_eq!(
        center_of_integration_frame_center_ns(0, 1_000, 1_000),
        Ok(1_000_000)
    );
}

#[test]
fn rows_never_go_backwards_within_a_frame() {
    let mut previous = center_of_integration_ns(5_000, 2_000);
    for row in 0..480 {
        let coi = center_of_integration_row_ns(5_000, 2_000, 16_666, row, 480).expect("valid");
        assert!(coi >= previous);
        assert!(coi <= center_of_integration_ns(5_000, 2_000) + 16_666_000);
        previous = coi;
    }
}

#[test]
fn frame_center_is_the_middle_row() {
    assert_eq!(
        center_of_integration_frame_center_ns(1_000_000_000, 8_000, 33_333),
        center_of_integration_row_ns(1_000_000_000, 8_000, 33_333, 360, 720)
    );
}

use gmsl_picam_rs::camera::{
    camera_inventory_summary, captured_at_unix_ms, manual_frame_duration_limits_us,
    metadata_from_values, record_frame_event, saturating_unix_ms, select_camera, unix_ms_from_elapsed,
    CameraConfig,
    CameraSelectError, CompletedFrame, FrameEvent, UNIT_GAIN_BITS,
};
use gmsl_picam_rs::frame_store::{CameraState, FrameStore};

#[test]
fn default_config_matches_poc_defaults() {
    let config = CameraConfig::default();
    assert_eq!(config.camera_index, 0);
    assert_eq!(config.width, 1_280);
    assert_eq!(config.height, 720);
    assert_eq!(config.fps, 30);
    assert_eq!(config.jpeg_quality, 85);
}

#[test]
fn frame_duration_uses_fps() {
    assert_eq!(CameraConfig::default().frame_duration_us(), 33_333);
}

#[test]
fn metadata_computes_coi_from_frame_center() {
    let metadata = metadata_from_values(0, 1_000_000_000, 8_000, 1.0f32.to_bits(), 1_280, 720, 33_333);
    assert_eq!(metadata.coi_ns, 1_020_666_500);
}

#[test]
fn camera_inventory_summary_formats_indices_and_ids() {
    let summary = camera_inventory_summary(&[(0, "cam-a"), (1, "cam-b")]);
    assert_eq!(summary, "0: cam-a, 1: cam-b");
}

#[test]
fn inventory_summary_of_no_cameras_is_empty() {
    assert_eq!(camera_inventory_summary(&[]), "");
    assert_eq!(camera_inventory_summary(&[(12, "x")]), "12: x");
}

#[test]
fn zero_fps_counts_as_one_frame_per_second() {
    let config = CameraConfig { fps: 0, ..CameraConfig::default() };
    assert_eq!(config.frame_duration_us(), 1_000_000);
    let config = CameraConfig { fps: 60, ..CameraConfig::default() };
    assert_eq!(config.frame_duration_us(), 16_666);
}

#[test]
fn metadata_falls_back_to_first_row_coi_for_long_exposure() {
    let metadata = metadata_from_values(4, 1_000_000_000, 40_000, 2.0f32.to_bits(), 640, 480, 33_333);
    assert_eq!(metadata.coi_ns, 1_020_000_000);
    assert_eq!(metadata.frame_index, 4);
    assert_eq!(metadata.analogue_gain_bits, 2.0f32.to_bits());
    assert_eq!(metadata.width, 640);
    assert_eq!(metadata.height, 480);
    assert_eq!(metadata.pixel_format, "NV12");
}

#[test]
fn capture_time_is_after_2020() {
    assert!(captured_at_unix_ms() > 1_577_836_800_000);
}

#[test]
fn unix_ms_saturates() {
    assert_eq!(saturating_unix_ms(17), 17);
    assert_eq!(saturating_unix_ms(u64::MAX as u128), u64::MAX);
    assert_eq!(saturating_unix_ms(u64::MAX as u128 + 1), u64::MAX);
}

#[test]
fn manual_exposure_sets_frame_limits_two_ms_longer() {
    assert_eq!(manual_frame_duration_limits_us(8_000), (10_000, 10_000));
}

#[test]
fn selecting_from_no_cameras_marks_store_failed() {
    let mut store = FrameStore::new(CameraState::Starting, 1_280, 720, "NV12");
    assert_eq!(select_camera(&mut store, 0, 0), Err(CameraSelectError::NoCameras));
    let status = store.status();
    assert_eq!(status.camera_state, CameraState::Failed);
    assert_eq!(
        status.last_error.as_deref(),
        Some("No cameras found. Try: /usr/local/bin/cam --list")
    );
}

#[test]
fn selecting_a_missing_index_leaves_store_alone() {
    let mut store = FrameStore::new(CameraState::Starting, 1_280, 720, "NV12");
    assert_eq!(select_camera(&mut store, 2, 2), Err(CameraSelectError::IndexMissing));
    assert_eq!(select_camera(&mut store, 2, 1), Ok(1));
    let status = store.status();
    assert_eq!(status.camera_state, CameraState::Starting);
    assert!(status.last_error.is_none());
}

#[test]
fn timeout_degrades_camera_with_message() {
    let mut store = FrameStore::new(CameraState::Running, 2, 2, "NV12");
    let config = CameraConfig::default();
    let next = record_frame_event(&mut store, &config, 2, 2, 5, FrameEvent::TimedOut("timed out"));
    assert_eq!(next, 5);
    let status = store.status();
    assert_eq!(status.camera_state, CameraState::Degraded);
    assert_eq!(status.last_error.as_deref(), Some("Timed out waiting for frame: timed out"));
}

#[test]
fn missing_planes_degrade_camera() {
    let mut store = FrameStore::new(CameraState::Running, 2, 2, "NV12");
    let config = CameraConfig::default();
    record_frame_event(&mut store, &config, 2, 2, 0, FrameEvent::MissingLumaPlane);
    assert_eq!(store.status().last_error.as_deref(), Some("completed frame had no plane data"));
    record_frame_event(&mut store, &config, 2, 2, 0, FrameEvent::MissingChromaPlane);
    let status = store.status();
    assert_eq!(status.camera_state, CameraState::Degraded);
    assert_eq!(
        status.last_error.as_deref(),
        Some("completed frame was missing NV12 chroma data")
    );
}

#[test]
fn completed_frame_is_encoded_and_stored() {
    let mut store = FrameStore::new(CameraState::Degraded, 2, 2, "NV12");
    store.set_last_error("earlier failure");
    let config = CameraConfig { exposure_us: Some(8_000), ..CameraConfig::default() };
    let frame = CompletedFrame {
        sensor_ts_ns: Some(1_000_000_000),
        exposure_us: None,
        analogue_gain_bits: None,
        luma: &[235, 235, 235, 235],
        chroma: &[128, 128],
    };
    let next = record_frame_event(&mut store, &config, 2, 2, 7, FrameEvent::Completed(frame));
    assert_eq!(next, 8);
    let status = store.status();
    assert_eq!(status.camera_state, CameraState::Running);
    assert_eq!(status.frame_count, 1);
    assert!(status.last_error.is_none());
    let latest = store.latest_frame().expect("frame");
    assert_eq!(latest.metadata.frame_index, 7);
    assert_eq!(latest.metadata.exposure_us, 8_000);
    assert_eq!(latest.metadata.analogue_gain_bits, UNIT_GAIN_BITS);
    assert_eq!(f32::from_bits(UNIT_GAIN_BITS), 1.0);
    assert_eq!(latest.metadata.coi_ns, 1_020_666_500);
    assert_eq!(&latest.jpeg[..2], &[0xFF, 0xD8]);
}

#[test]
fn frame_that_cannot_be_encoded_keeps_capture_running_with_error() {
    let mut store = FrameStore::new(CameraState::Running, 2, 2, "NV12");
    let config = CameraConfig::default();
    let frame = CompletedFrame {
        sensor_ts_ns: None,
        exposure_us: None,
        analogue_gain_bits: None,
        luma: &[1, 2, 3],
        chroma: &[],
    };
    let next = record_frame_event(&mut store, &config, 2, 2, 3, FrameEvent::Completed(frame));
    assert_eq!(next, 3);
    let status = store.status();
    assert_eq!(status.camera_state, CameraState::Degraded);
    assert_eq!(status.frame_count, 0);
    assert_eq!(status.last_error.as_deref(), Some("JPEG encode failed: InvalidBufferLength"));
}

#[test]
fn clock_before_epoch_gives_zero_and_large_counts_saturate() {
    assert_eq!(unix_ms_from_elapsed(None), 0);
    assert_eq!(unix_ms_from_elapsed(Some(1_700_000_000_000)), 1_700_000_000_000);
    assert_eq!(unix_ms_from_elapsed(Some(u128::MAX)), u64::MAX);
}

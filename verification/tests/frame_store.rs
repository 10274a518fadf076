use gmsl_picam_rs::frame_store::{CameraState, FrameMetadata, FrameStore};

fn sample_metadata(frame_index: u64) -> FrameMetadata {
    FrameMetadata {
        frame_index,
        sensor_ts_ns: 1_000_000_000,
        exposure_us: 8_000,
        analogue_gain_bits: 1.5f32.to_bits(),
        coi_ns: 1_004_000_000,
        width: 1_280,
        height: 720,
        pixel_format: "NV12".to_string(),
        captured_at_unix_ms: 1_700_000_000_000,
    }
}

#[test]
fn empty_store_reports_initial_status() {
    let store = FrameStore::new(CameraState::Starting, 1_280, 720, "NV12");

    let status = store.status();
    assert_eq!(status.camera_state, CameraState::Starting);
    assert_eq!(status.frame_count, 0);
    assert_eq!(status.width, 1_280);
    assert_eq!(status.height, 720);
    assert_eq!(status.pixel_format, "NV12");
    assert!(status.latest_frame.is_none());
    assert!(status.last_error.is_none());
    assert!(store.latest_frame().is_none());
}

#[test]
fn update_frame_stores_latest_frame_and_status() {
    let mut store = FrameStore::new(CameraState::Starting, 1_280, 720, "NV12");
    let jpeg = vec![1, 2, 3, 4];
    let metadata = sample_metadata(7);

    store.update_frame(jpeg.clone(), metadata.clone());

    let status = store.status();
    assert_eq!(status.frame_count, 1);
    assert_eq!(status.camera_state, CameraState::Starting);
    assert_eq!(status.width, 1_280);
    assert_eq!(status.height, 720);
    assert_eq!(status.pixel_format, "NV12");
    assert_eq!(status.latest_frame, Some(metadata.clone()));
    assert!(status.last_error.is_none());

    let latest = store.latest_frame().expect("latest frame");
    assert_eq!(&*latest.jpeg, jpeg.as_slice());
    assert_eq!(latest.metadata, metadata);
}

#[test]
fn update_frame_replaces_previous_frame() {
    let mut store = FrameStore::new(CameraState::Starting, 1_280, 720, "NV12");

    store.update_frame(vec![1, 2, 3], sample_metadata(1));
    store.update_frame(vec![9, 8, 7, 6], sample_metadata(2));

    let status = store.status();
    assert_eq!(status.frame_count, 2);
    assert_eq!(status.latest_frame.as_ref().map(|m| m.frame_index), Some(2));

    let latest = store.latest_frame().expect("latest frame");
    assert_eq!(&*latest.jpeg, &[9, 8, 7, 6]);
    assert_eq!(latest.metadata.frame_index, 2);
}

#[test]
fn set_last_error_is_reflected_in_status() {
    let mut store = FrameStore::new(CameraState::Running, 1_280, 720, "NV12");

    store.set_last_error("jpeg encode failed");

    let status = store.status();
    assert_eq!(status.last_error.as_deref(), Some("jpeg encode failed"));
}

#[test]
fn set_camera_state_updates_status() {
    let mut store = FrameStore::new(CameraState::Starting, 1_280, 720, "NV12");

    store.set_camera_state(CameraState::Running);

    assert_eq!(store.status().camera_state, CameraState::Running);
}

#[test]
fn update_frame_clears_last_error_and_takes_frame_size() {
    let mut store = FrameStore::new(CameraState::Degraded, 640, 480, "YUYV");
    store.set_last_error("timeout");
    let mut metadata = sample_metadata(3);
    metadata.width = 320;
    metadata.height = 240;

    store.update_frame(vec![5], metadata.clone());

    let status = store.status();
    assert_eq!(status.last_error, None);
    assert_eq!(status.width, 320);
    assert_eq!(status.height, 240);
    assert_eq!(status.pixel_format, "NV12");
    assert_eq!(status.camera_state, CameraState::Degraded);
    assert_eq!(status.latest_frame, Some(metadata));
}

#[test]
fn state_and_error_changes_keep_the_stored_frame() {
    let mut store = FrameStore::new(CameraState::Starting, 1_280, 720, "NV12");
    store.update_frame(vec![4, 2], sample_metadata(9));

    store.set_camera_state(CameraState::Failed);
    store.set_last_error("boom");

    let status = store.status();
    assert_eq!(status.frame_count, 1);
    assert_eq!(status.camera_state, CameraState::Failed);
    assert_eq!(status.last_error.as_deref(), Some("boom"));
    let latest = store.latest_frame().expect("latest frame");
    assert_eq!(latest.jpeg, vec![4, 2]);
    assert_eq!(Some(latest.metadata), status.latest_frame);
}

#[test]
fn frame_count_is_number_of_updates() {
    let mut store = FrameStore::new(CameraState::Starting, 1_280, 720, "NV12");
    for i in 0..5u64 {
        store.set_camera_state(CameraState::Running);
        store.update_frame(vec![i as u8], sample_metadata(i));
        store.set_last_error("noise");
        let status = store.status();
        assert_eq!(status.frame_count, i + 1);
        assert_eq!(status.latest_frame, store.latest_frame().map(|f| f.metadata));
        assert_eq!(store.status(), status);
    }
}

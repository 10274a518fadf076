use gmsl_picam_rs::frame_store::{CameraState, FrameMetadata, FrameStore};
use gmsl_picam_rs::http::{multipart_chunk, next_stream_part, MJPEG_BOUNDARY};

#[test]
fn multipart_chunk_frames_jpeg_with_boundary_and_length() {
    let chunk = multipart_chunk(&[0xFF, 0xD8, 0xFF, 0xD9]);
    let mut expected =
        b"--iris\r\nContent-Type: image/jpeg\r\nContent-Length: 4\r\n\r\n".to_vec();
    expected.extend_from_slice(&[0xFF, 0xD8, 0xFF, 0xD9]);
    expected.extend_from_slice(b"\r\n");
    assert_eq!(chunk, expected);
}

#[test]
fn multipart_chunk_writes_multi_digit_length() {
    let jpeg = vec![7u8; 1_234];
    let chunk = multipart_chunk(&jpeg);
    let header = b"--iris\r\nContent-Type: image/jpeg\r\nContent-Length: 1234\r\n\r\n";
    assert_eq!(&chunk[..header.len()], &header[..]);
    assert_eq!(chunk.len(), header.len() + 1_234 + 2);
}

#[test]
fn multipart_chunk_of_empty_jpeg_has_zero_length() {
    let chunk = multipart_chunk(&[]);
    assert_eq!(chunk, b"--iris\r\nContent-Type: image/jpeg\r\nContent-Length: 0\r\n\r\n\r\n".to_vec());
}

#[test]
fn boundary_is_iris() {
    assert_eq!(MJPEG_BOUNDARY, "iris");
}

#[test]
fn stream_sends_each_new_frame_once() {

    let mut store = FrameStore::new(CameraState::Running, 2, 2, "NV12");
    assert_eq!(next_stream_part(&store, 0), None);

    let metadata = FrameMetadata {
        frame_index: 0,
        sensor_ts_ns: 0,
        exposure_us: 0,
        analogue_gain_bits: 1.0f32.to_bits(),
        coi_ns: 0,
        width: 2,
        height: 2,
        pixel_format: "NV12".to_string(),
        captured_at_unix_ms: 0,
    };
    store.update_frame(vec![1, 2], metadata.clone());
    let (count, chunk) = next_stream_part(&store, 0).expect("new frame");
    assert_eq!(count, 1);
    assert_eq!(chunk, multipart_chunk(&[1, 2]));
    assert_eq!(next_stream_part(&store, count), None);

    store.update_frame(vec![3], metadata);
    assert_eq!(next_stream_part(&store, count), Some((2, multipart_chunk(&[3]))));
}

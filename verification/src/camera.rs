//! Capture configuration, frame metadata, and the decisions that the capture
//! loop makes around each libcamera request.
//!
//! The loop itself (acquiring the camera, waiting for completed requests and
//! requeueing them) runs outside this crate; it reports what it observed as a
//! [`FrameEvent`] and [`record_frame_event`] decides what the store records.
use vstd::prelude::*;
use std::time::{Duration, SystemTime, SystemTimeError, UNIX_EPOCH};
use crate::frame_store::{CameraState, FrameMetadata, FrameMetadataModel, FrameStore, FrameStoreModel};
use crate::jpeg::{encode_nv12_to_jpeg, jpeg_error_name, nv12_encodable, nv12_jpeg_result};
use crate::timing::{
    center_of_integration_frame_center_ns, div_trunc, exposure_fits_frame, first_row_coi, fits_i64,
    frame_center_coi, us_to_ns,
};
use crate::decimal::{decimal_text, push_decimal};
use vstd::arithmetic::div_mod::lemma_fundamental_div_mod;

verus! {

/// Bit pattern of the `f32` value `1.0`, the analogue gain assumed when
/// neither the frame nor the configuration gives one.
pub const UNIT_GAIN_BITS: u32 = 0x3F80_0000;

/// Settings of the capture.
///
/// `gain_bits` holds the IEEE-754 bit pattern of the requested `f32` analogue
/// gain (`f32::to_bits`), if one was requested.
#[derive(Debug, Clone, PartialEq)]
pub struct CameraConfig {
    pub camera_index: usize,
    pub width: u32,
    pub height: u32,
    pub fps: u32,
    pub exposure_us: Option<i32>,
    pub gain_bits: Option<u32>,
    pub jpeg_quality: u8,
}

impl Default for CameraConfig {
    /// Camera 0 at 1280x720 and 30 fps, automatic exposure and gain, JPEG
    /// quality 85.
    fn default() -> (config: Self)
        ensures
            config.camera_index == 0,
            config.width == 1280,
            config.height == 720,
            config.fps == 30,
            config.exposure_us is None,
            config.gain_bits is None,
            config.jpeg_quality == 85,
    {
        Self {
            camera_index: 0,
            width: 1_280,
            height: 720,
            fps: 30,
            exposure_us: None,
            gain_bits: None,
            jpeg_quality: 85,
        }
    }
}

/// Frame duration in microseconds at `fps` frames per second, a rate of zero
/// counting as one frame per second.
pub open spec fn frame_duration_for_fps(fps: u32) -> int {
    1_000_000int / if fps < 1 { 1int } else { fps as int }
}

impl CameraConfig {
    /// Duration of one frame in microseconds: `1_000_000 / max(fps, 1)`.
    pub fn frame_duration_us(&self) -> (us: i64)
        ensures
            us == frame_duration_for_fps(self.fps),
            0 <= us <= 1_000_000,
    {
        let fps = if self.fps < 1 { 1 } else { self.fps as i64 };
        1_000_000 / fps
    }
}

#[verifier::external_type_specification]
#[verifier::external_body]
pub struct ExSystemTime(SystemTime);

#[verifier::external_type_specification]
#[verifier::external_body]
pub struct ExSystemTimeError(SystemTimeError);

/// `std::time::SystemTime::now`. The wall clock is read; nothing is stated of
/// the value.
#[verifier::external_body]
fn system_now() -> SystemTime {
    SystemTime::now()
}

/// `SystemTime::duration_since(UNIX_EPOCH)`: the time elapsed since the Unix
/// epoch, or an error for a clock set before it. Nothing is stated of which
/// one comes back: it depends on the clock.
#[verifier::external_body]
fn since_unix_epoch(time: &SystemTime) -> Result<Duration, SystemTimeError> {
    time.duration_since(UNIX_EPOCH)
}

/// `Duration::as_millis`: whole milliseconds of a duration. The duration comes
/// from the clock and nothing is stated of it, so nothing is stated of the
/// result.
#[verifier::external_body]
fn whole_millis(duration: &Duration) -> u128 {
    duration.as_millis()
}

/// Milliseconds since the Unix epoch as a `u64`, saturating at `u64::MAX`.
pub fn saturating_unix_ms(elapsed_ms: u128) -> (ms: u64)
    ensures
        ms == if elapsed_ms > u64::MAX {
            u64::MAX as int
        } else {
            elapsed_ms as int
        },
{
    if elapsed_ms > u64::MAX as u128 {
        u64::MAX
    } else {
        elapsed_ms as u64
    }
}

/// Milliseconds since the Unix epoch recorded for a clock reading: the
/// elapsed milliseconds saturated at `u64::MAX`, or 0 when the clock reads
/// before the epoch (`None`).
pub fn unix_ms_from_elapsed(elapsed_ms: Option<u128>) -> (ms: u64)
    ensures
        ms == match elapsed_ms {
            Some(m) => if m > u64::MAX {
                u64::MAX as int
            } else {
                m as int
            },
            None => 0,
        },
{
    match elapsed_ms {
        Some(m) => saturating_unix_ms(m),
        None => 0,
    }
}

/// Wall-clock time in milliseconds since the Unix epoch; 0 when the clock is
/// set before the epoch, `u64::MAX` when the count does not fit (see
/// [`unix_ms_from_elapsed`]).
pub fn captured_at_unix_ms() -> u64 {
    let now = system_now();
    let elapsed_ms = match since_unix_epoch(&now) {
        Ok(elapsed) => Some(whole_millis(&elapsed)),
        Err(_) => None,
    };
    unix_ms_from_elapsed(elapsed_ms)
}

/// Center of integration recorded for a frame: the frame-center value when
/// the exposure fits in the frame, otherwise the first-row value.
pub open spec fn recorded_coi(sensor_ts_ns: int, exposure_us: int, frame_duration_us: int) -> int {
    if exposure_fits_frame(exposure_us, frame_duration_us) {
        frame_center_coi(sensor_ts_ns, exposure_us, frame_duration_us)
    } else {
        first_row_coi(sensor_ts_ns, exposure_us)
    }
}

/// The timestamps computed for a frame fit in an `i64`.
pub open spec fn metadata_timing_fits(sensor_ts_ns: int, exposure_us: int, frame_duration_us: int) -> bool {
    &&& fits_i64(us_to_ns(frame_duration_us))
    &&& fits_i64(first_row_coi(sensor_ts_ns, exposure_us))
    &&& fits_i64(recorded_coi(sensor_ts_ns, exposure_us, frame_duration_us))
}

/// Whether the timestamps computed for a frame fit in an `i64`
/// (see [`metadata_timing_fits`]).
pub fn metadata_timing_in_range(sensor_ts_ns: i64, exposure_us: i32, frame_duration_us: i64) -> (fits: bool)
    ensures
        fits == metadata_timing_fits(sensor_ts_ns as int, exposure_us as int, frame_duration_us as int),
{
    let min = i64::MIN as i128;
    let max = i64::MAX as i128;
    let exposure_ns = exposure_us as i128 * 1_000;
    let frame_duration_ns = frame_duration_us as i128 * 1_000;
    if frame_duration_ns < min || frame_duration_ns > max {
        return false;
    }
    let first_row = sensor_ts_ns as i128 + exposure_ns / 2;
    if first_row < min || first_row > max {
        return false;
    }
    let recorded = if exposure_ns <= frame_duration_ns {
        first_row + frame_duration_ns / 2
    } else {
        first_row
    };
    min <= recorded && recorded <= max
}

/// `m` is the metadata of an NV12 frame with the given values; the capture
/// time is not constrained.
pub open spec fn is_frame_metadata(
    m: FrameMetadataModel,
    frame_index: u64,
    sensor_ts_ns: i64,
    exposure_us: i32,
    analogue_gain_bits: u32,
    width: u32,
    height: u32,
    frame_duration_us: int,
) -> bool {
    &&& m.frame_index == frame_index
    &&& m.sensor_ts_ns == sensor_ts_ns
    &&& m.exposure_us == exposure_us
    &&& m.analogue_gain_bits == analogue_gain_bits
    &&& m.coi_ns == recorded_coi(sensor_ts_ns as int, exposure_us as int, frame_duration_us)
    &&& m.width == width
    &&& m.height == height
    &&& m.pixel_format == "NV12"@
}

/// Metadata of a captured NV12 frame, with its center of integration and the
/// current wall-clock time.
pub fn metadata_from_values(
    frame_index: u64,
    sensor_ts_ns: i64,
    exposure_us: i32,
    analogue_gain_bits: u32,
    width: u32,
    height: u32,
    frame_duration_us: i64,
) -> (m: FrameMetadata)
    requires
        metadata_timing_fits(sensor_ts_ns as int, exposure_us as int, frame_duration_us as int),
    ensures
        is_frame_metadata(
            m@,
            frame_index,
            sensor_ts_ns,
            exposure_us,
            analogue_gain_bits,
            width,
            height,
            frame_duration_us as int,
        ),
{
    let coi_ns = match center_of_integration_frame_center_ns(sensor_ts_ns, exposure_us, frame_duration_us) {
        Ok(coi) => coi,
        Err(_) => sensor_ts_ns + (exposure_us as i64 * 1_000 / 2),
    };

    FrameMetadata {
        frame_index,
        sensor_ts_ns,
        exposure_us,
        analogue_gain_bits,
        coi_ns,
        width,
        height,
        pixel_format: String::from_str("NV12"),
        captured_at_unix_ms: captured_at_unix_ms(),
    }
}

/// One camera of the inventory: its index, `": "`, and its id.
pub open spec fn inventory_entry(index: usize, id: Seq<char>) -> Seq<char> {
    decimal_text(index as nat) + ": "@ + id
}

/// The inventory entries of `cameras`, separated by `", "`.
pub open spec fn inventory_summary(cameras: Seq<(usize, &str)>) -> Seq<char>
    decreases cameras.len(),
{
    if cameras.len() == 0 {
        Seq::empty()
    } else if cameras.len() == 1 {
        inventory_entry(cameras[0].0, cameras[0].1@)
    } else {
        inventory_summary(cameras.drop_last()) + ", "@ + inventory_entry(
            cameras.last().0,
            cameras.last().1@,
        )
    }
}

/// One line listing the cameras: `"<index>: <id>"` for each, joined by `", "`.
pub fn camera_inventory_summary(cameras: &[(usize, &str)]) -> (summary: String)
    ensures
        summary@ == inventory_summary(cameras@),
{
    let mut summary = String::new();
    let mut i: usize = 0;
    while i < cameras.len()
        invariant
            0 <= i <= cameras@.len(),
            summary@ == inventory_summary(cameras@.subrange(0, i as int)),
        decreases cameras.len() - i,
    {
        let ghost before = summary@;
        if i != 0 {
            summary.append(", ");
        }
        let (index, id) = cameras[i];
        push_decimal(&mut summary, index);
        summary.append(": ");
        summary.append(id);
        proof {
            let done = cameras@.subrange(0, i + 1);
            assert(done.drop_last() =~= cameras@.subrange(0, i as int));
            assert(done.last() == cameras@[i as int]);
            if i == 0 {
                assert(before =~= Seq::<char>::empty());
            }
        }
        i = i + 1;
    }
    assert(cameras@.subrange(0, cameras@.len() as int) =~= cameras@);
    summary
}

/// A frame that libcamera completed: the metadata controls that were present
/// and the two NV12 planes.
pub struct CompletedFrame<'a> {
    pub sensor_ts_ns: Option<i64>,
    pub exposure_us: Option<i32>,
    pub analogue_gain_bits: Option<u32>,
    pub luma: &'a [u8],
    pub chroma: &'a [u8],
}

/// What the capture loop observed while waiting for one request.
pub enum FrameEvent<'a> {
    /// No request completed in time; the text describes the wait's error.
    TimedOut(&'a str),
    /// The completed request held no plane data.
    MissingLumaPlane,
    /// The completed request held no NV12 chroma plane.
    MissingChromaPlane,
    /// A frame was captured.
    Completed(CompletedFrame<'a>),
}

/// Sensor timestamp of a frame, 0 when the frame has none.
pub open spec fn frame_sensor_ts(frame: CompletedFrame) -> i64 {
    match frame.sensor_ts_ns {
        Some(ts) => ts,
        None => 0,
    }
}

/// Exposure of a frame: the frame's own, else the configured one, else 0.
pub open spec fn frame_exposure_us(frame: CompletedFrame, config: CameraConfig) -> i32 {
    match frame.exposure_us {
        Some(e) => e,
        None => match config.exposure_us {
            Some(e) => e,
            None => 0,
        },
    }
}

/// Analogue gain of a frame: the frame's own, else the configured one, else 1.0.
pub open spec fn frame_gain_bits(frame: CompletedFrame, config: CameraConfig) -> u32 {
    match frame.analogue_gain_bits {
        Some(g) => g,
        None => match config.gain_bits {
            Some(g) => g,
            None => UNIT_GAIN_BITS,
        },
    }
}

/// The NV12 bytes of a frame: the luma plane followed by the chroma plane.
pub open spec fn frame_nv12(frame: CompletedFrame) -> Seq<u8> {
    frame.luma@ + frame.chroma@
}

/// The store after a failure: the camera is degraded and `message` is the
/// last error.
pub open spec fn degraded_with(store: FrameStoreModel, message: Seq<char>) -> FrameStoreModel {
    store.with_camera_state(CameraState::Degraded).with_last_error(message)
}

/// What [`record_frame_event`] asks of its inputs: the NV12 frame fits in
/// memory, and when the frame encodes, the counters do not overflow and its
/// timestamps fit in an `i64`.
pub open spec fn frame_event_in_range(
    store: FrameStoreModel,
    config: CameraConfig,
    width: u32,
    height: u32,
    frame_index: u64,
    event: FrameEvent,
) -> bool {
    match event {
        FrameEvent::Completed(frame) => {
            &&& frame.luma@.len() + frame.chroma@.len() <= isize::MAX
            &&& nv12_jpeg_result(frame_nv12(frame), width, height, config.jpeg_quality) is Ok ==> {
                &&& store.status.frame_count < u64::MAX
                &&& frame_index < u64::MAX
                &&& metadata_timing_fits(
                    frame_sensor_ts(frame) as int,
                    frame_exposure_us(frame, config) as int,
                    frame_duration_for_fps(config.fps),
                )
            }
        },
        _ => true,
    }
}

/// Whether [`record_frame_event`] accepts these inputs (see
/// [`frame_event_in_range`]); the capture loop checks this first.
pub fn frame_event_fits(
    store: &FrameStore,
    config: &CameraConfig,
    width: u32,
    height: u32,
    frame_index: u64,
    event: &FrameEvent,
) -> (fits: bool)
    ensures
        fits == frame_event_in_range(store@, *config, width, height, frame_index, *event),
{
    match event {
        FrameEvent::Completed(frame) => {
            let luma_len = frame.luma.len();
            let chroma_len = frame.chroma.len();
            let limit = isize::MAX as usize;
            if luma_len > limit || chroma_len > limit - luma_len {
                return false;
            }
            if !nv12_encodable(width, height, luma_len + chroma_len) {
                return true;
            }
            let frame_count = store.status().frame_count;
            if frame_count == u64::MAX || frame_index == u64::MAX {
                return false;
            }
            let sensor_ts_ns = match frame.sensor_ts_ns {
                Some(ts) => ts,
                None => 0,
            };
            let exposure_us = match frame.exposure_us {
                Some(e) => e,
                None => match config.exposure_us {
                    Some(e) => e,
                    None => 0,
                },
            };
            metadata_timing_in_range(sensor_ts_ns, exposure_us, config.frame_duration_us())
        },
        _ => true,
    }
}

/// Records in `store` what the capture loop observed for one request and
/// returns the index of the next frame.
///
/// A timeout or a frame without its planes leaves the camera degraded with a
/// message; a frame is converted to JPEG and stored with its metadata (the
/// camera is then running and the index advances), or, when it cannot be
/// encoded, the camera is degraded with the encoding error.
pub fn record_frame_event(
    store: &mut FrameStore,
    config: &CameraConfig,
    width: u32,
    height: u32,
    frame_index: u64,
    event: FrameEvent,
) -> (next_index: u64)
    requires
        frame_event_in_range(old(store)@, *config, width, height, frame_index, event),
    ensures
        final(store)@.consistent(),
        match event {
            FrameEvent::TimedOut(detail) => {
                &&& final(store)@ == degraded_with(
                    old(store)@,
                    "Timed out waiting for frame: "@ + detail@,
                )
                &&& next_index == frame_index
            },
            FrameEvent::MissingLumaPlane => {
                &&& final(store)@ == degraded_with(old(store)@, "completed frame had no plane data"@)
                &&& next_index == frame_index
            },
            FrameEvent::MissingChromaPlane => {
                &&& final(store)@ == degraded_with(
                    old(store)@,
                    "completed frame was missing NV12 chroma data"@,
                )
                &&& next_index == frame_index
            },
            FrameEvent::Completed(frame) => match nv12_jpeg_result(
                frame_nv12(frame),
                width,
                height,
                config.jpeg_quality,
            ) {
                Ok(jpeg) => {
                    &&& final(store)@.latest matches Some(latest)
                    &&& final(store)@ == old(store)@.with_frame(jpeg, latest.metadata).with_camera_state(
                        CameraState::Running,
                    )
                    &&& is_frame_metadata(
                        latest.metadata,
                        frame_index,
                        frame_sensor_ts(frame),
                        frame_exposure_us(frame, *config),
                        frame_gain_bits(frame, *config),
                        width,
                        height,
                        frame_duration_for_fps(config.fps),
                    )
                    &&& next_index == frame_index + 1
                },
                Err(err) => {
                    &&& final(store)@ == degraded_with(
                        old(store)@,
                        "JPEG encode failed: "@ + jpeg_error_name(err),
                    )
                    &&& next_index == frame_index
                },
            },
        },
{
    match event {
        FrameEvent::TimedOut(detail) => {
            let mut message = String::from_str("Timed out waiting for frame: ");
            message.append(detail);
            store.set_camera_state(CameraState::Degraded);
            store.set_last_error(message.as_str());
            frame_index
        },
        FrameEvent::MissingLumaPlane => {
            store.set_camera_state(CameraState::Degraded);
            store.set_last_error("completed frame had no plane data");
            frame_index
        },
        FrameEvent::MissingChromaPlane => {
            store.set_camera_state(CameraState::Degraded);
            store.set_last_error("completed frame was missing NV12 chroma data");
            frame_index
        },
        FrameEvent::Completed(frame) => {
            let mut nv12 = Vec::with_capacity(frame.luma.len() + frame.chroma.len());
            nv12.extend_from_slice(frame.luma);
            nv12.extend_from_slice(frame.chroma);
            assert(nv12@ =~= frame_nv12(frame));
            match encode_nv12_to_jpeg(width, height, nv12.as_slice(), config.jpeg_quality) {
                Ok(jpeg) => {
                    let sensor_ts_ns = match frame.sensor_ts_ns {
                        Some(ts) => ts,
                        None => 0,
                    };
                    let exposure_us = match frame.exposure_us {
                        Some(e) => e,
                        None => match config.exposure_us {
                            Some(e) => e,
                            None => 0,
                        },
                    };
                    let analogue_gain_bits = match frame.analogue_gain_bits {
                        Some(g) => g,
                        None => match config.gain_bits {
                            Some(g) => g,
                            None => UNIT_GAIN_BITS,
                        },
                    };
                    let metadata = metadata_from_values(
                        frame_index,
                        sensor_ts_ns,
                        exposure_us,
                        analogue_gain_bits,
                        width,
                        height,
                        config.frame_duration_us(),
                    );
                    store.update_frame(jpeg, metadata);
                    store.set_camera_state(CameraState::Running);
                    frame_index + 1
                },
                Err(err) => {
                    let mut message = String::from_str("JPEG encode failed: ");
                    message.append(err.debug_name());
                    store.set_camera_state(CameraState::Degraded);
                    store.set_last_error(message.as_str());
                    frame_index
                },
            }
        },
    }
}

/// The frame duration at `fps` frames per second is one second divided by
/// the rate and rounded down: for a rate of at least one, `us * fps` does not
/// exceed one second while `(us + 1) * fps` does; a rate of zero gives one
/// second.
pub proof fn lemma_frame_duration_is_floor(fps: u32)
    ensures
        fps == 0 ==> frame_duration_for_fps(fps) == 1_000_000,
        fps >= 1 ==> frame_duration_for_fps(fps) * fps <= 1_000_000,
        fps >= 1 ==> 1_000_000 < (frame_duration_for_fps(fps) + 1) * fps,
{
    if fps >= 1 {
        let f = fps as int;
        let q = 1_000_000int / f;
        let r = 1_000_000int % f;
        lemma_fundamental_div_mod(1_000_000, f);
        assert(q * f <= 1_000_000 && 1_000_000 < (q + 1) * f) by (nonlinear_arith)
            requires
                1_000_000 == f * q + r,
                0 <= r < f,
        ;
    }
}

/// The values recorded for a completed frame come from the frame first: its
/// own sensor timestamp, exposure and gain are used whatever the
/// configuration says; the configured exposure and gain stand in only for a
/// frame that lacks them, and a timestamp of 0, an exposure of 0 and a gain
/// of 1.0 only when neither gives one.
pub proof fn lemma_frame_values_come_first(frame: CompletedFrame, config: CameraConfig)
    ensures
        frame.sensor_ts_ns matches Some(ts) ==> frame_sensor_ts(frame) == ts,
        frame.sensor_ts_ns is None ==> frame_sensor_ts(frame) == 0,
        frame.exposure_us matches Some(e) ==> frame_exposure_us(frame, config) == e,
        frame.exposure_us is None ==> (config.exposure_us matches Some(e) ==> frame_exposure_us(
            frame,
            config,
        ) == e),
        frame.exposure_us is None && config.exposure_us is None ==> frame_exposure_us(frame, config) == 0,
        frame.analogue_gain_bits matches Some(g) ==> frame_gain_bits(frame, config) == g,
        frame.analogue_gain_bits is None ==> (config.gain_bits matches Some(g) ==> frame_gain_bits(
            frame,
            config,
        ) == g),
        frame.analogue_gain_bits is None && config.gain_bits is None ==> frame_gain_bits(frame, config)
            == 0x3F80_0000u32,
{
}

/// When a completed frame reports its own exposure `e`, the metadata that
/// `record_frame_event` stores for it records `e` and a center of
/// integration computed from `e`, whatever exposure the configuration asks
/// for.
pub proof fn lemma_stored_exposure_is_the_frames(
    stored: FrameMetadataModel,
    frame: CompletedFrame,
    config: CameraConfig,
    frame_index: u64,
    width: u32,
    height: u32,
    e: i32,
)
    requires
        frame.exposure_us == Some(e),
        is_frame_metadata(
            stored,
            frame_index,
            frame_sensor_ts(frame),
            frame_exposure_us(frame, config),
            frame_gain_bits(frame, config),
            width,
            height,
            frame_duration_for_fps(config.fps),
        ),
    ensures
        stored.exposure_us == e,
        stored.coi_ns == recorded_coi(
            frame_sensor_ts(frame) as int,
            e as int,
            frame_duration_for_fps(config.fps),
        ),
        exposure_fits_frame(e as int, frame_duration_for_fps(config.fps)) ==> stored.coi_ns
            == first_row_coi(frame_sensor_ts(frame) as int, e as int) + div_trunc(
            us_to_ns(frame_duration_for_fps(config.fps)),
            2,
        ),
{
    lemma_frame_values_come_first(frame, config);
}

/// Why capture could not start with the requested camera.
#[derive(Debug, Clone, Copy, PartialEq, Eq, Structural)]
pub enum CameraSelectError {
    /// libcamera found no camera at all.
    NoCameras,
    /// The requested index is not below the number of cameras.
    IndexMissing,
}

/// Message recorded when no camera is found.
pub open spec fn no_cameras_message() -> Seq<char> {
    "No cameras found. Try: /usr/local/bin/cam --list"@
}

/// Chooses the camera to capture from among `camera_count` cameras. With no
/// camera at all the store records the failure.
pub fn select_camera(store: &mut FrameStore, camera_count: usize, camera_index: usize) -> (res: Result<
    usize,
    CameraSelectError,
>)
    ensures
        final(store)@.consistent(),
        camera_count == 0 ==> {
            &&& res == Err::<usize, CameraSelectError>(CameraSelectError::NoCameras)
            &&& final(store)@ == old(store)@.with_camera_state(CameraState::Failed).with_last_error(
                no_cameras_message(),
            )
        },
        camera_count != 0 && camera_index >= camera_count ==> {
            &&& res == Err::<usize, CameraSelectError>(CameraSelectError::IndexMissing)
            &&& final(store)@ == old(store)@
        },
        camera_count != 0 && camera_index < camera_count ==> {
            &&& res == Ok::<usize, CameraSelectError>(camera_index)
            &&& final(store)@ == old(store)@
        },
{
    proof {
        use_type_invariant(&*store);
    }
    if camera_count == 0 {
        store.set_camera_state(CameraState::Failed);
        store.set_last_error("No cameras found. Try: /usr/local/bin/cam --list");
        return Err(CameraSelectError::NoCameras);
    }
    if camera_index >= camera_count {
        return Err(CameraSelectError::IndexMissing);
    }
    Ok(camera_index)
}

/// Frame-duration limits (minimum and maximum, in microseconds) requested
/// with a manual exposure: the exposure plus 2 ms, for both.
pub fn manual_frame_duration_limits_us(exposure_us: i32) -> (limits: (i64, i64))
    ensures
        limits.0 == exposure_us + 2_000,
        limits.1 == exposure_us + 2_000,
{
    let min_frame_us = exposure_us as i64 + 2_000;
    (min_frame_us, min_frame_us)
}

} // verus!

//! Center-of-integration timestamps for frames whose sensor timestamp marks
//! the end of the readout of the last row.
//!
//! The exposure midpoint lies half an exposure before the timestamp; on a
//! rolling-shutter sensor row `r` of `h` rows additionally starts
//! `readout_ns - r * readout_ns / h` earlier than the last row, where
//! `readout_ns = frame_duration_ns - exposure_ns`.
use vstd::prelude::*;
use crate::timing::{div_trunc, fits_i64, us_to_ns, lemma_row_offset_bounds};
use vstd::arithmetic::div_mod::{lemma_div_denominator, lemma_div_multiples_vanish};

verus! {

/// Rolling readout time of the frame: frame duration minus exposure.
pub open spec fn readout_ns(exposure_us: int, frame_duration_us: int) -> int {
    us_to_ns(frame_duration_us) - us_to_ns(exposure_us)
}

/// Exposure midpoint relative to an end-of-readout timestamp.
pub open spec fn end_referenced_coi(sensor_ts_ns: int, exposure_us: int) -> int {
    sensor_ts_ns - div_trunc(us_to_ns(exposure_us), 2)
}

/// Exposure midpoint of row `row` of `frame_height` rows.
pub open spec fn end_referenced_row_coi(
    sensor_ts_ns: int,
    exposure_us: int,
    frame_duration_us: int,
    row: int,
    frame_height: int,
) -> int {
    end_referenced_coi(sensor_ts_ns, exposure_us) - readout_ns(exposure_us, frame_duration_us)
        + div_trunc(row * readout_ns(exposure_us, frame_duration_us), frame_height)
}

/// Center-of-integration timestamp from an end-of-readout `sensor_ts_ns` and
/// the exposure time in microseconds: the timestamp minus half the exposure.
pub fn center_of_integration_ns(sensor_ts_ns: i64, exposure_us: i32) -> (coi: i64)
    requires
        fits_i64(end_referenced_coi(sensor_ts_ns as int, exposure_us as int)),
    ensures
        coi == end_referenced_coi(sensor_ts_ns as int, exposure_us as int),
{
    sensor_ts_ns - (exposure_us as i64 * 1_000 / 2)
}

/// Per-row center of integration for rolling-shutter correction, from an
/// end-of-readout `sensor_ts_ns`, the exposure and frame duration in
/// microseconds, the row (0 is the top row) and the frame height.
pub fn center_of_integration_row_ns(
    sensor_ts_ns: i64,
    exposure_us: i32,
    frame_duration_us: i64,
    row: u32,
    frame_height: u32,
) -> (coi: i64)
    requires
        frame_height > 0,
        fits_i64(us_to_ns(frame_duration_us as int)),
        fits_i64(readout_ns(exposure_us as int, frame_duration_us as int)),
        fits_i64(row * readout_ns(exposure_us as int, frame_duration_us as int)),
        fits_i64(end_referenced_coi(sensor_ts_ns as int, exposure_us as int)),
        fits_i64(
            end_referenced_coi(sensor_ts_ns as int, exposure_us as int) - readout_ns(
                exposure_us as int,
                frame_duration_us as int,
            ),
        ),
        fits_i64(
            end_referenced_row_coi(
                sensor_ts_ns as int,
                exposure_us as int,
                frame_duration_us as int,
                row as int,
                frame_height as int,
            ),
        ),
    ensures
        coi == end_referenced_row_coi(
            sensor_ts_ns as int,
            exposure_us as int,
            frame_duration_us as int,
            row as int,
            frame_height as int,
        ),
{
    let exposure_ns = exposure_us as i64 * 1_000;
    let frame_duration_ns = frame_duration_us * 1_000;
    let readout_ns = frame_duration_ns - exposure_ns;
    let row_offset_ns = row as i64 * readout_ns / frame_height as i64;
    sensor_ts_ns - exposure_ns / 2 - readout_ns + row_offset_ns
}

/// When the readout time is not negative, every row of the frame has its
/// center of integration within one readout time before the value that
/// `center_of_integration_ns` gives for the same timestamp and exposure, and
/// rows further down come no earlier than rows above them.
pub proof fn lemma_rows_within_readout(
    sensor_ts_ns: i64,
    exposure_us: i32,
    frame_duration_us: i64,
    upper_row: u32,
    row: u32,
    frame_height: u32,
)
    requires
        upper_row <= row < frame_height,
        readout_ns(exposure_us as int, frame_duration_us as int) >= 0,
    ensures
        end_referenced_coi(sensor_ts_ns as int, exposure_us as int) - readout_ns(
            exposure_us as int,
            frame_duration_us as int,
        ) <= end_referenced_row_coi(
            sensor_ts_ns as int,
            exposure_us as int,
            frame_duration_us as int,
            upper_row as int,
            frame_height as int,
        ),
        end_referenced_row_coi(
            sensor_ts_ns as int,
            exposure_us as int,
            frame_duration_us as int,
            upper_row as int,
            frame_height as int,
        ) <= end_referenced_row_coi(
            sensor_ts_ns as int,
            exposure_us as int,
            frame_duration_us as int,
            row as int,
            frame_height as int,
        ),
        end_referenced_row_coi(
            sensor_ts_ns as int,
            exposure_us as int,
            frame_duration_us as int,
            row as int,
            frame_height as int,
        ) <= end_referenced_coi(sensor_ts_ns as int, exposure_us as int),
{
    let r = readout_ns(exposure_us as int, frame_duration_us as int);
    lemma_row_offset_bounds(r, upper_row as int, row as int, frame_height as int);
}

/// For a frame of even height and a readout time that is not negative, the
/// middle row `h / 2` has the frame-centre center of integration
/// `sensor_ts - exposure / 2 - readout / 2`, the half readout rounded up:
/// `center_of_integration_ns(ts, exposure) - readout + readout / 2`, which for
/// an even readout is `center_of_integration_ns(ts, exposure) - readout / 2`.
pub proof fn lemma_middle_row_is_frame_centre(
    sensor_ts_ns: i64,
    exposure_us: i32,
    frame_duration_us: i64,
    frame_height: u32,
)
    requires
        frame_height > 0,
        frame_height % 2 == 0,
        readout_ns(exposure_us as int, frame_duration_us as int) >= 0,
    ensures
        end_referenced_row_coi(
            sensor_ts_ns as int,
            exposure_us as int,
            frame_duration_us as int,
            (frame_height / 2) as int,
            frame_height as int,
        ) == end_referenced_coi(sensor_ts_ns as int, exposure_us as int) - readout_ns(
            exposure_us as int,
            frame_duration_us as int,
        ) + readout_ns(exposure_us as int, frame_duration_us as int) / 2,
        readout_ns(exposure_us as int, frame_duration_us as int) % 2 == 0 ==> end_referenced_row_coi(
            sensor_ts_ns as int,
            exposure_us as int,
            frame_duration_us as int,
            (frame_height / 2) as int,
            frame_height as int,
        ) == end_referenced_coi(sensor_ts_ns as int, exposure_us as int) - readout_ns(
            exposure_us as int,
            frame_duration_us as int,
        ) / 2,
{
    let r = readout_ns(exposure_us as int, frame_duration_us as int);
    let k = (frame_height / 2) as int;
    assert(k * r >= 0) by (nonlinear_arith)
        requires
            k >= 0,
            r >= 0,
    ;
    lemma_div_multiples_vanish(r, k);
    assert(k * r == r * k) by (nonlinear_arith);
    lemma_div_denominator(k * r, k, 2);
    assert(k * 2 == frame_height);
}

} // verus!

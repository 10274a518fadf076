//! Center-of-integration timestamps for frames whose sensor timestamp marks
//! the moment the first row of the active array starts its exposure.
//!
//! A first-row center of integration is `sensor_ts_ns + exposure_ns / 2`; the
//! frame center also adds half the frame duration, and row `r` of `h` rows adds
//! `r * frame_duration_ns / h`.
use vstd::prelude::*;
use vstd::arithmetic::div_mod::{
    lemma_div_denominator, lemma_div_is_ordered, lemma_div_multiples_vanish, lemma_div_pos_is_pos,
};
use vstd::arithmetic::mul::{lemma_mul_inequality, lemma_mul_nonnegative};

verus! {

/// Why a center-of-integration timestamp could not be computed.
#[derive(Debug, Clone, Copy, PartialEq, Eq, Structural)]
pub enum TimingError {
    InvalidFrameHeight,
    InvalidRow,
    ExposureLongerThanFrame,
}

/// The quotient of `a` by `b` rounded toward zero, which is what Rust's `/`
/// computes on integers (`b` is positive wherever it is used here).
pub open spec fn div_trunc(a: int, b: int) -> int {
    if a >= 0 {
        a / b
    } else {
        -((-a) / b)
    }
}

/// `x` is representable as an `i64`.
pub open spec fn fits_i64(x: int) -> bool {
    i64::MIN <= x <= i64::MAX
}

/// A duration given in microseconds, in nanoseconds.
pub open spec fn us_to_ns(us: int) -> int {
    us * 1000
}

/// Midpoint of the exposure of the first row.
pub open spec fn first_row_coi(sensor_ts_ns: int, exposure_us: int) -> int {
    sensor_ts_ns + div_trunc(us_to_ns(exposure_us), 2)
}

/// Midpoint of the exposure of the frame's center: the first-row value plus
/// half the frame duration.
pub open spec fn frame_center_coi(sensor_ts_ns: int, exposure_us: int, frame_duration_us: int) -> int {
    first_row_coi(sensor_ts_ns, exposure_us) + div_trunc(us_to_ns(frame_duration_us), 2)
}

/// Offset of row `row` of `frame_height` rows from the first row.
pub open spec fn row_offset_ns(frame_duration_us: int, row: int, frame_height: int) -> int {
    div_trunc(row * us_to_ns(frame_duration_us), frame_height)
}

/// Midpoint of the exposure of row `row` of `frame_height` rows.
pub open spec fn row_coi(
    sensor_ts_ns: int,
    exposure_us: int,
    frame_duration_us: int,
    row: int,
    frame_height: int,
) -> int {
    first_row_coi(sensor_ts_ns, exposure_us) + row_offset_ns(frame_duration_us, row, frame_height)
}

/// The exposure does not last longer than the frame.
pub open spec fn exposure_fits_frame(exposure_us: int, frame_duration_us: int) -> bool {
    us_to_ns(exposure_us) <= us_to_ns(frame_duration_us)
}

/// What `center_of_integration_frame_center_ns` returns.
pub open spec fn frame_center_result(
    sensor_ts_ns: int,
    exposure_us: int,
    frame_duration_us: int,
) -> Result<i64, TimingError> {
    if !exposure_fits_frame(exposure_us, frame_duration_us) {
        Err(TimingError::ExposureLongerThanFrame)
    } else {
        Ok(frame_center_coi(sensor_ts_ns, exposure_us, frame_duration_us) as i64)
    }
}

/// What `center_of_integration_row_ns` returns.
pub open spec fn row_result(
    sensor_ts_ns: int,
    exposure_us: int,
    frame_duration_us: int,
    row: int,
    frame_height: int,
) -> Result<i64, TimingError> {
    if frame_height == 0 {
        Err(TimingError::InvalidFrameHeight)
    } else if row >= frame_height {
        Err(TimingError::InvalidRow)
    } else if !exposure_fits_frame(exposure_us, frame_duration_us) {
        Err(TimingError::ExposureLongerThanFrame)
    } else {
        Ok(row_coi(sensor_ts_ns, exposure_us, frame_duration_us, row, frame_height) as i64)
    }
}

/// Center-of-integration timestamp for the first image row.
///
/// `sensor_ts_ns` is the time when the first row of the sensor's active array
/// is exposed; the result is the midpoint of that first row's exposure.
pub fn center_of_integration_ns(sensor_ts_ns: i64, exposure_us: i32) -> (coi: i64)
    requires
        fits_i64(first_row_coi(sensor_ts_ns as int, exposure_us as int)),
    ensures
        coi == first_row_coi(sensor_ts_ns as int, exposure_us as int),
{
    sensor_ts_ns + (exposure_us as i64 * 1_000 / 2)
}

/// Center-of-integration timestamp for the center of the frame: the first-row
/// value plus half the frame duration. Fails when the exposure is longer than
/// the frame.
pub fn center_of_integration_frame_center_ns(
    sensor_ts_ns: i64,
    exposure_us: i32,
    frame_duration_us: i64,
) -> (res: Result<i64, TimingError>)
    requires
        fits_i64(us_to_ns(frame_duration_us as int)),
        exposure_fits_frame(exposure_us as int, frame_duration_us as int) ==> {
            &&& fits_i64(first_row_coi(sensor_ts_ns as int, exposure_us as int))
            &&& fits_i64(frame_center_coi(sensor_ts_ns as int, exposure_us as int, frame_duration_us as int))
        },
    ensures
        res == frame_center_result(sensor_ts_ns as int, exposure_us as int, frame_duration_us as int),
{
    let exposure_ns = exposure_us as i64 * 1_000;
    let frame_duration_ns = frame_duration_us * 1_000;
    ensure_valid_duration(exposure_ns, frame_duration_ns)?;

    Ok(sensor_ts_ns + exposure_ns / 2 + frame_duration_ns / 2)
}

/// Center-of-integration timestamp for row `row` (0 is the top row) of a
/// rolling-shutter frame of `frame_height` rows: the first-row value plus
/// `row * frame_duration_ns / frame_height`.
pub fn center_of_integration_row_ns(
    sensor_ts_ns: i64,
    exposure_us: i32,
    frame_duration_us: i64,
    row: u32,
    frame_height: u32,
) -> (res: Result<i64, TimingError>)
    requires
        frame_height != 0 && row < frame_height ==> fits_i64(us_to_ns(frame_duration_us as int)),
        frame_height != 0 && row < frame_height && exposure_fits_frame(
            exposure_us as int,
            frame_duration_us as int,
        ) ==> {
            &&& fits_i64(row * us_to_ns(frame_duration_us as int))
            &&& fits_i64(first_row_coi(sensor_ts_ns as int, exposure_us as int))
            &&& fits_i64(
                row_coi(
                    sensor_ts_ns as int,
                    exposure_us as int,
                    frame_duration_us as int,
                    row as int,
                    frame_height as int,
                ),
            )
        },
    ensures
        res == row_result(
            sensor_ts_ns as int,
            exposure_us as int,
            frame_duration_us as int,
            row as int,
            frame_height as int,
        ),
{
    if frame_height == 0 {
        return Err(TimingError::InvalidFrameHeight);
    }
    if row >= frame_height {
        return Err(TimingError::InvalidRow);
    }

    let exposure_ns = exposure_us as i64 * 1_000;
    let frame_duration_ns = frame_duration_us * 1_000;
    ensure_valid_duration(exposure_ns, frame_duration_ns)?;
    let row_offset_ns = row as i64 * frame_duration_ns / frame_height as i64;

    Ok(sensor_ts_ns + exposure_ns / 2 + row_offset_ns)
}

/// Refuses an exposure longer than the frame.
fn ensure_valid_duration(exposure_ns: i64, frame_duration_ns: i64) -> (res: Result<(), TimingError>)
    ensures
        res == (if exposure_ns > frame_duration_ns {
            Err(TimingError::ExposureLongerThanFrame)
        } else {
            Ok(())
        }),
{
    if exposure_ns > frame_duration_ns {
        return Err(TimingError::ExposureLongerThanFrame);
    }

    Ok(())
}

/// Row 0 of any frame has the first-row center of integration: whenever
/// `center_of_integration_row_ns` succeeds for row 0, it returns what
/// `center_of_integration_ns` returns.
pub proof fn lemma_top_row_is_first_row(
    sensor_ts_ns: i64,
    exposure_us: i32,
    frame_duration_us: i64,
    frame_height: u32,
)
    requires
        frame_height != 0,
        exposure_fits_frame(exposure_us as int, frame_duration_us as int),
    ensures
        row_result(sensor_ts_ns as int, exposure_us as int, frame_duration_us as int, 0, frame_height as int)
            == Ok::<i64, TimingError>(first_row_coi(sensor_ts_ns as int, exposure_us as int) as i64),
{
}

/// With a frame duration that is not negative, the center of integration of
/// a row never comes before that of an earlier row, and lies within one frame
/// duration after the first row's: `first <= coi(row) <= first + frame_ns`.
pub proof fn lemma_rows_are_ordered(
    sensor_ts_ns: i64,
    exposure_us: i32,
    frame_duration_us: i64,
    earlier_row: u32,
    row: u32,
    frame_height: u32,
)
    requires
        earlier_row <= row < frame_height,
        frame_duration_us >= 0,
    ensures
        first_row_coi(sensor_ts_ns as int, exposure_us as int) <= row_coi(
            sensor_ts_ns as int,
            exposure_us as int,
            frame_duration_us as int,
            earlier_row as int,
            frame_height as int,
        ),
        row_coi(
            sensor_ts_ns as int,
            exposure_us as int,
            frame_duration_us as int,
            earlier_row as int,
            frame_height as int,
        ) <= row_coi(
            sensor_ts_ns as int,
            exposure_us as int,
            frame_duration_us as int,
            row as int,
            frame_height as int,
        ),
        row_coi(
            sensor_ts_ns as int,
            exposure_us as int,
            frame_duration_us as int,
            row as int,
            frame_height as int,
        ) <= first_row_coi(sensor_ts_ns as int, exposure_us as int) + us_to_ns(frame_duration_us as int),
{
    let f = us_to_ns(frame_duration_us as int);
    let h = frame_height as int;
    lemma_row_offset_bounds(f, earlier_row as int, row as int, h);
}

/// For a frame of even height and a frame duration that is not negative, the
/// frame-center center of integration is that of the middle row `h / 2`:
/// whenever both succeed, `center_of_integration_frame_center_ns` and
/// `center_of_integration_row_ns` for row `h / 2` return the same value.
pub proof fn lemma_frame_center_is_middle_row(
    sensor_ts_ns: i64,
    exposure_us: i32,
    frame_duration_us: i64,
    frame_height: u32,
)
    requires
        frame_height > 0,
        frame_height % 2 == 0,
        frame_duration_us >= 0,
    ensures
        row_coi(
            sensor_ts_ns as int,
            exposure_us as int,
            frame_duration_us as int,
            (frame_height / 2) as int,
            frame_height as int,
        ) == frame_center_coi(sensor_ts_ns as int, exposure_us as int, frame_duration_us as int),
        row_result(
            sensor_ts_ns as int,
            exposure_us as int,
            frame_duration_us as int,
            (frame_height / 2) as int,
            frame_height as int,
        ) == frame_center_result(sensor_ts_ns as int, exposure_us as int, frame_duration_us as int),
{
    let f = us_to_ns(frame_duration_us as int);
    let k = (frame_height / 2) as int;
    assert(k * f >= 0) by (nonlinear_arith)
        requires
            k >= 0,
            f >= 0,
    ;
    lemma_div_multiples_vanish(f, k);
    assert(k * f == f * k) by (nonlinear_arith);
    lemma_div_denominator(k * f, k, 2);
    assert(k * 2 == frame_height);
}

/// For `0 <= r1 <= r2 < h` and `f >= 0`: `0 <= r1*f/h <= r2*f/h <= f`.
pub(crate) proof fn lemma_row_offset_bounds(f: int, r1: int, r2: int, h: int)
    requires
        0 <= r1 <= r2 < h,
        f >= 0,
    ensures
        0 <= (r1 * f) / h,
        (r1 * f) / h <= (r2 * f) / h,
        (r2 * f) / h <= f,
{
    lemma_mul_nonnegative(r1, f);
    lemma_mul_inequality(r1, r2, f);
    lemma_mul_inequality(r2, h, f);
    lemma_div_pos_is_pos(r1 * f, h);
    lemma_div_is_ordered(r1 * f, r2 * f, h);
    lemma_div_is_ordered(r2 * f, h * f, h);
    assert((h * f) / h == f) by (nonlinear_arith)
        requires
            h > 0,
    ;
}

} // verus!

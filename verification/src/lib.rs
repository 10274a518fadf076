//! Verified core of the iris camera service: center-of-integration timing,
//! the latest-frame store, NV12 to JPEG conversion, MJPEG framing and the
//! decisions of the capture loop.
pub mod camera;
pub mod decimal;
pub mod frame_store;
pub mod http;
pub mod jpeg;
pub mod readout_timing;
pub mod timing;

# gmsl-picam-rs

Library and service for the GMSL IMX477 camera on a Raspberry Pi 5, with the
library verified by Verus.

- `src/` is the library: center-of-integration timestamps for sensors that
  stamp the start of the first row (`timing`) or the end of the readout
  (`readout_timing`), the latest-frame store behind the HTTP endpoints
  (`frame_store`), NV12 to JPEG conversion (`jpeg`), MJPEG framing (`http`),
  decimal notation (`decimal`) and the decisions of the capture loop
  (`camera`).
- `app/` is the `iris` binary: argument parsing, the libcamera capture loop,
  and the axum server for `/status`, `/frame.jpg` and `/stream.mjpg`.
- `tests/` exercises the library on concrete values.

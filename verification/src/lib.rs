//! Handle logic of a C interface to USB3 Vision cameras.
//!
//! The device itself is reached through the `cameleon` crate. This library
//! holds what the interface decides and computes: the status codes, the
//! camera and capture handles with the operations on them, the retry
//! sequence that opens a device, the capture worker, and the conversion of
//! streamed payloads into frames. A device value is carried as a type
//! parameter: the handles own it and hand it on, and only the caller talks
//! to it.

pub mod camera;
pub mod capture;
pub mod cstr;
pub mod frame;
pub mod laws;
pub mod session;
pub mod status;

pub use camera::{
    cmln_camera_close, cmln_camera_destroy, cmln_camera_info, cmln_camera_load_context,
    cmln_camera_open, cmln_enumerate, cmln_free_enum, CmlnCamera,
};
pub use capture::{
    cmln_capture_async, cmln_capture_block, cmln_capture_destroy, cmln_capture_free_frame,
    cmln_capture_start, cmln_capture_stop, CmlnCapture,
};
pub use status::{
    CMLN_ERR, CMLN_ERR_ALREADY_OPENED, CMLN_ERR_CAPTURE_STOPPED, CMLN_ERR_NOT_OPENED,
    CMLN_ERR_NULL_HANDLE, CMLN_OK,
};

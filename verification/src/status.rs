//! Status codes of the C interface.

use vstd::prelude::*;

verus! {

/// Success. A grab that found no frame returns it too.
pub const CMLN_OK: i32 = 0;

/// Generic error: the device refused the operation.
pub const CMLN_ERR: i32 = -1;

/// A null pointer argument, or a handle whose camera a capture has taken.
pub const CMLN_ERR_NULL_HANDLE: i32 = -2;

/// The camera is already opened.
pub const CMLN_ERR_ALREADY_OPENED: i32 = -3;

/// The operation requires an opened camera.
pub const CMLN_ERR_NOT_OPENED: i32 = -4;

/// The capture was stopped.
pub const CMLN_ERR_CAPTURE_STOPPED: i32 = -5;

/// A grab delivered a frame.
pub const CMLN_FRAME_READY: i32 = 1;

/// Whether a status is in the published code table.
pub open spec fn is_published(status: i32) -> bool {
    ||| status == CMLN_OK
    ||| status == CMLN_ERR
    ||| status == CMLN_ERR_NULL_HANDLE
    ||| status == CMLN_ERR_ALREADY_OPENED
    ||| status == CMLN_ERR_NOT_OPENED
    ||| status == CMLN_ERR_CAPTURE_STOPPED
}

/// The status of a device operation, by whether the device carried it out.
pub open spec fn device_status_spec(ok: bool) -> i32 {
    if ok {
        CMLN_OK
    } else {
        CMLN_ERR
    }
}

/// Maps the outcome of a device operation to its status code.
pub fn device_status(ok: bool) -> (status: i32)
    ensures
        status == device_status_spec(ok),
        status == CMLN_OK <==> ok,
        status == CMLN_ERR <==> !ok,
{
    if ok {
        CMLN_OK
    } else {
        CMLN_ERR
    }
}

} // verus!

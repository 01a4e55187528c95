use cameleon::CameraInfo;
use cameleon_ffi::camera::{
    close_done, enumerate_begin, open_next, CamInfo, CloseStep, EnumerateStep, FoundCamera, LoadContextStep,
    OpenStep,
};
use cameleon_ffi::cstr::{copy_cstr, written_len};
use cameleon_ffi::status::device_status;
use cameleon_ffi::{
    cmln_camera_close, cmln_camera_destroy, cmln_camera_info, cmln_camera_load_context,
    cmln_camera_open, cmln_capture_start, cmln_enumerate, cmln_free_enum, CmlnCamera, CMLN_ERR,
    CMLN_ERR_ALREADY_OPENED, CMLN_ERR_CAPTURE_STOPPED, CMLN_ERR_NOT_OPENED, CMLN_ERR_NULL_HANDLE,
    CMLN_OK,
};

fn found(vendor: &str, model: &str, serial: &str, camera: u32) -> FoundCamera<u32> {
    FoundCamera {
        info: CamInfo {
            vendor_name: vendor.to_string(),
            model_name: model.to_string(),
            serial_number: serial.to_string(),
        },
        camera,
    }
}

fn handle(camera: u32) -> CmlnCamera<u32> {
    CmlnCamera::new(found("TOOLSTAR", "SVA-030c", "0042", camera))
}

#[test]
fn status_codes_have_their_published_values() {
    assert_eq!(CMLN_OK, 0);
    assert_eq!(CMLN_ERR, -1);
    assert_eq!(CMLN_ERR_NULL_HANDLE, -2);
    assert_eq!(CMLN_ERR_ALREADY_OPENED, -3);
    assert_eq!(CMLN_ERR_NOT_OPENED, -4);
    assert_eq!(CMLN_ERR_CAPTURE_STOPPED, -5);
}

#[test]
fn device_outcome_becomes_a_status() {
    assert_eq!(device_status(true), CMLN_OK);
    assert_eq!(device_status(false), CMLN_ERR);
}

#[test]
fn copy_leaves_the_rest_of_the_buffer() {
    let mut buf = [9u8; 6];
    copy_cstr("abc", Some(&mut buf));
    assert_eq!(buf, [b'a', b'b', b'c', 0, 9, 9]);
}

#[test]
fn copy_is_cut_to_the_buffer() {
    let mut buf = [9u8; 4];
    copy_cstr("abcd", Some(&mut buf));
    assert_eq!(buf, [b'a', b'b', b'c', 0]);
    let mut exact = [9u8; 5];
    copy_cstr("abcd", Some(&mut exact));
    assert_eq!(exact, [b'a', b'b', b'c', b'd', 0]);
}

#[test]
fn copy_cuts_between_bytes() {
    let mut buf = [9u8; 2];
    copy_cstr("\u{e9}", Some(&mut buf));
    assert_eq!(buf, [0xc3, 0]);
}

#[test]
fn copy_into_one_byte_terminates() {
    let mut buf = [9u8; 1];
    copy_cstr("abc", Some(&mut buf));
    assert_eq!(buf, [0]);
}

#[test]
fn copy_of_an_empty_string_terminates() {
    let mut buf = [9u8; 2];
    copy_cstr("", Some(&mut buf));
    assert_eq!(buf, [0, 9]);
}

#[test]
fn copy_without_room_does_nothing() {
    let mut buf: [u8; 0] = [];
    copy_cstr("abc", Some(&mut buf));
    copy_cstr("abc", None);
    assert_eq!(buf.len(), 0);
}

#[test]
fn snapshot_takes_each_name() {
    let info = CameraInfo {
        vendor_name: "TOOLSTAR".to_string(),
        model_name: "SVA-030c".to_string(),
        serial_number: "0042".to_string(),
    };
    let snapshot = CamInfo::snapshot(&info);
    assert_eq!(snapshot.vendor_name, "TOOLSTAR");
    assert_eq!(snapshot.model_name, "SVA-030c");
    assert_eq!(snapshot.serial_number, "0042");
    let copy = snapshot.clone();
    assert_eq!(copy.serial_number, "0042");
}

#[test]
fn enumeration_needs_both_outputs() {
    assert_eq!(enumerate_begin(true, true), EnumerateStep::ScanAndClose);
    let refused = EnumerateStep::Return(CMLN_ERR_NULL_HANDLE);
    assert_eq!(enumerate_begin(false, true), refused);
    assert_eq!(enumerate_begin(true, false), refused);
    assert_eq!(enumerate_begin(false, false), refused);
}

#[test]
fn enumeration_gives_handles_in_order() {
    let scan: Result<Vec<FoundCamera<u32>>, ()> =
        Ok(vec![found("a", "b", "c", 1), found("d", "e", "f", 2)]);
    let res = cmln_enumerate(scan);
    assert_eq!(res.status, CMLN_OK);
    assert_eq!(res.count, 2);
    let mut handles = res.handles.unwrap();
    assert_eq!(handles.len(), 2);
    let mut vendor = [9u8; 2];
    cmln_camera_info(Some(&handles[1]), Some(&mut vendor), None, None);
    assert_eq!(vendor, [b'd', 0]);
    assert_eq!(cmln_camera_destroy(handles.pop()), Some(2));
    assert_eq!(cmln_camera_destroy(handles.pop()), Some(1));
}

#[test]
fn enumeration_without_cameras_has_no_array() {
    let scan: Result<Vec<FoundCamera<u32>>, ()> = Ok(Vec::new());
    let res = cmln_enumerate(scan);
    assert_eq!(res.status, CMLN_OK);
    assert_eq!(res.count, 0);
    assert!(res.handles.is_none());
}

#[test]
fn failed_scan_is_an_error() {
    let scan: Result<Vec<FoundCamera<u32>>, &str> = Err("no bus");
    let res = cmln_enumerate(scan);
    assert_eq!(res.status, CMLN_ERR);
    assert_eq!(res.count, 0);
    assert!(res.handles.is_none());
}

#[test]
fn enumeration_is_released_whole() {
    let scan: Result<Vec<FoundCamera<u32>>, ()> =
        Ok(vec![found("a", "b", "c", 1), found("d", "e", "f", 2)]);
    let res = cmln_enumerate(scan);
    assert_eq!(cmln_free_enum(res.handles.is_some(), res.count), Some(2));
    assert_eq!(cmln_free_enum(true, 0), None);
    assert_eq!(cmln_free_enum(false, 2), None);
}

#[test]
fn info_fills_the_buffers_that_there_are() {
    let cam = handle(1);
    let mut vendor = [9u8; 12];
    let mut serial = [9u8; 3];
    let status = cmln_camera_info(Some(&cam), Some(&mut vendor), None, Some(&mut serial));
    assert_eq!(status, CMLN_OK);
    assert_eq!(&vendor, b"TOOLSTAR\0\x09\x09\x09");
    assert_eq!(&serial, b"00\0");
    let mut model = [9u8; 16];
    assert_eq!(cmln_camera_info(Some(&cam), None, Some(&mut model), None), CMLN_OK);
    assert_eq!(&model[..9], b"SVA-030c\0");
}

#[test]
fn info_of_a_null_handle_writes_nothing() {
    let mut vendor = [9u8; 4];
    let status = cmln_camera_info::<u32>(None, Some(&mut vendor), None, None);
    assert_eq!(status, CMLN_ERR_NULL_HANDLE);
    assert_eq!(vendor, [9u8; 4]);
}

/// Opens with a device that accepts the attempt `accepted`; returns the
/// status, the number of attempts and the milliseconds paused.
fn open_with(accepted: Option<u32>, close_ok: bool) -> (i32, u32, u64) {
    open_handle(&mut handle(1), accepted, close_ok)
}

fn open_handle(
    cam: &mut CmlnCamera<u32>,
    accepted: Option<u32>,
    close_ok: bool,
) -> (i32, u32, u64) {
    let mut step = cmln_camera_open(Some(cam));
    assert_eq!(step, OpenStep::Close);
    let mut attempts = 0;
    let mut paused = 0;
    loop {
        let ok = match step {
            OpenStep::Return(status) => return (status, attempts, paused),
            OpenStep::Close => close_ok,
            OpenStep::Open { attempt } => {
                assert_eq!(attempt, attempts);
                attempts += 1;
                accepted == Some(attempt)
            }
            OpenStep::Wait { millis, .. } => {
                paused += millis;
                true
            }
        };
        step = open_next(cam, step, ok);
    }
}

#[test]
fn open_succeeds_at_the_first_accepted_attempt() {
    assert_eq!(open_with(Some(0), true), (CMLN_OK, 1, 0));
    assert_eq!(open_with(Some(2), true), (CMLN_OK, 3, 200));
    assert_eq!(open_with(Some(4), true), (CMLN_OK, 5, 400));
}

#[test]
fn open_fails_after_five_refusals() {
    assert_eq!(open_with(None, true), (CMLN_ERR, 5, 400));
    assert_eq!(open_with(Some(5), true), (CMLN_ERR, 5, 400));
}

#[test]
fn open_does_not_mind_a_failed_close() {
    assert_eq!(open_with(Some(1), false), (CMLN_OK, 2, 100));
}

#[test]
fn finished_open_stays_finished() {
    let done = OpenStep::Return(CMLN_OK);
    let mut cam = handle(1);
    assert_eq!(open_next(&mut cam, done, false), done);
    assert_eq!(open_next(&mut cam, done, true), done);
    assert_eq!(cmln_camera_open(Some(&cam)), OpenStep::Close);
}

#[test]
fn null_camera_is_refused() {
    let refused = CMLN_ERR_NULL_HANDLE;
    assert_eq!(cmln_camera_open::<u32>(None), OpenStep::Return(refused));
    assert_eq!(cmln_camera_close::<u32>(None), CloseStep::Return(refused));
    assert_eq!(cmln_camera_load_context::<u32>(None), LoadContextStep::Return(refused));
    assert_eq!(cmln_camera_destroy::<u32>(None), None);
    assert!(cmln_capture_start::<u32>(None).is_none());
}

#[test]
fn camera_in_its_handle_is_operated() {
    let mut cam = handle(7);
    assert_eq!(open_handle(&mut cam, Some(0), true).0, CMLN_OK);
    assert_eq!(cmln_camera_close(Some(&cam)), CloseStep::Close);
    assert_eq!(cmln_camera_load_context(Some(&cam)), LoadContextStep::Load);
    *cam.camera_mut().unwrap() += 1;
    assert_eq!(cmln_camera_destroy(Some(cam)), Some(8));
}

#[test]
fn taken_camera_is_gone_from_its_handle() {
    let mut cam = handle(7);
    assert_eq!(open_handle(&mut cam, Some(0), true).0, CMLN_OK);
    assert!(cmln_capture_start(Some(&mut cam)).is_some());
    let refused = CMLN_ERR_NULL_HANDLE;
    assert_eq!(cmln_camera_open(Some(&cam)), OpenStep::Return(refused));
    assert_eq!(cmln_camera_load_context(Some(&cam)), LoadContextStep::Return(refused));
    assert_eq!(cmln_camera_close(Some(&cam)), CloseStep::Return(CMLN_OK));
    assert!(cmln_capture_start(Some(&mut cam)).is_none());
    assert!(cam.camera_mut().is_none());
    let mut serial = [9u8; 5];
    assert_eq!(cmln_camera_info(Some(&cam), None, None, Some(&mut serial)), CMLN_OK);
    assert_eq!(&serial, b"0042\0");
    assert_eq!(cmln_camera_destroy(Some(cam)), None);
}

#[test]
fn opened_camera_is_not_opened_again() {
    let mut cam = handle(1);
    assert_eq!(open_handle(&mut cam, Some(1), true), (CMLN_OK, 2, 100));
    let refused = OpenStep::Return(CMLN_ERR_ALREADY_OPENED);
    assert_eq!(cmln_camera_open(Some(&cam)), refused);
    assert_eq!(cmln_camera_open(Some(&cam)), refused);
}

#[test]
fn failed_open_may_be_retried() {
    let mut cam = handle(1);
    assert_eq!(open_handle(&mut cam, None, true).0, CMLN_ERR);
    assert_eq!(open_handle(&mut cam, Some(3), true), (CMLN_OK, 4, 300));
}

#[test]
fn closed_camera_may_be_opened_again() {
    let mut cam = handle(1);
    assert_eq!(open_handle(&mut cam, Some(0), true).0, CMLN_OK);
    assert_eq!(close_done(&mut cam, true), CMLN_OK);
    assert_eq!(open_handle(&mut cam, Some(0), true).0, CMLN_OK);
}

#[test]
fn refused_close_leaves_the_camera_opened() {
    let mut cam = handle(1);
    assert_eq!(open_handle(&mut cam, Some(0), true).0, CMLN_OK);
    assert_eq!(close_done(&mut cam, false), CMLN_ERR);
    assert_eq!(cmln_camera_open(Some(&cam)), OpenStep::Return(CMLN_ERR_ALREADY_OPENED));
    assert_eq!(cmln_camera_load_context(Some(&cam)), LoadContextStep::Load);
}

#[test]
fn context_needs_an_opened_camera() {
    let mut cam = handle(1);
    let refused = LoadContextStep::Return(CMLN_ERR_NOT_OPENED);
    assert_eq!(cmln_camera_load_context(Some(&cam)), refused);
    assert_eq!(open_handle(&mut cam, None, true).0, CMLN_ERR);
    assert_eq!(cmln_camera_load_context(Some(&cam)), refused);
    assert_eq!(open_handle(&mut cam, Some(0), true).0, CMLN_OK);
    assert_eq!(cmln_camera_load_context(Some(&cam)), LoadContextStep::Load);
    assert_eq!(close_done(&mut cam, true), CMLN_OK);
    assert_eq!(cmln_camera_load_context(Some(&cam)), refused);
}

#[test]
fn lending_the_device_keeps_it_opened() {
    let mut cam = handle(1);
    assert_eq!(open_handle(&mut cam, Some(0), true).0, CMLN_OK);
    *cam.camera_mut().unwrap() = 9;
    assert_eq!(cmln_camera_open(Some(&cam)), OpenStep::Return(CMLN_ERR_ALREADY_OPENED));
}

#[test]
fn copy_writes_as_many_bytes_as_it_says() {
    assert_eq!(written_len("abc", 0), 0);
    assert_eq!(written_len("abc", 3), 3);
    assert_eq!(written_len("abc", 4), 4);
    assert_eq!(written_len("abc", 9), 4);
    let mut whole = [9u8; 9];
    copy_cstr("abc", Some(&mut whole));
    let mut part = [1u8; 4];
    copy_cstr("abc", Some(&mut part));
    assert_eq!(whole[..4], part);
    assert_eq!(whole[4..], [9u8; 5]);
}

#[test]
fn handle_lends_out_its_identity() {
    let cam = handle(1);
    assert_eq!(cam.info().vendor_name, "TOOLSTAR");
    assert_eq!(cam.info().model_name, "SVA-030c");
    assert_eq!(cam.info().serial_number, "0042");
}

use cameleon_ffi::camera::{CamInfo, FoundCamera};
use cameleon_ffi::capture::{
    BlockStep, DestroyStep, WorkerStart, WorkerStep, POLL_PAUSE_MICROS, STREAM_CAPACITY,
};
use cameleon_ffi::frame::{frame_from_payload, to_u32, StreamPayload};
use cameleon_ffi::status::CMLN_FRAME_READY;
use cameleon_ffi::{
    cmln_capture_async, cmln_capture_block, cmln_capture_destroy, cmln_capture_free_frame,
    cmln_capture_start, cmln_capture_stop, CmlnCamera, CmlnCapture, CMLN_ERR_CAPTURE_STOPPED,
    CMLN_ERR_NULL_HANDLE, CMLN_OK,
};

fn started() -> CmlnCapture<u32> {
    let mut cam = CmlnCamera::new(FoundCamera {
        info: CamInfo {
            vendor_name: "v".to_string(),
            model_name: "m".to_string(),
            serial_number: "s".to_string(),
        },
        camera: 7u32,
    });
    cmln_capture_start(Some(&mut cam)).unwrap()
}

/// A capture whose worker is streaming.
fn streaming() -> CmlnCapture<u32> {
    let mut cap = started();
    assert!(matches!(cap.worker_begin(), WorkerStart::Stream { camera: 7, capacity: 3 }));
    assert!(cap.worker_started(true));
    cap
}

fn payload(id: u64, bytes: Vec<u8>) -> StreamPayload {
    StreamPayload {
        id,
        timestamp_ns: (1000 + id as u128) * 1000 + 999,
        image: Some(bytes),
        dimensions: Some((640, 480)),
    }
}

fn grab(cap: &mut CmlnCapture<u32>) -> (i32, u64) {
    let mut id = 0;
    let status = cmln_capture_async(Some(cap), None, None, None, None, Some(&mut id));
    (status, id)
}

fn wait(cap: &mut CmlnCapture<u32>) -> (BlockStep, u64) {
    let mut id = 0;
    let step = cmln_capture_block(Some(cap), None, None, None, None, Some(&mut id));
    (step, id)
}

#[test]
fn image_is_passed_on_raw() {
    let mut bytes = vec![0u8; 614400];
    bytes[1] = 0x80;
    bytes[614399] = 0x7f;
    let mut cap = streaming();
    assert_eq!(cap.worker_received(Some(payload(5, bytes.clone()))), None);
    let (mut w, mut h, mut n) = (0u32, 0u32, 0u32);
    let (mut ts, mut id) = (0u64, 0u64);
    let status = cmln_capture_async(
        Some(&mut cap),
        Some(&mut w),
        Some(&mut h),
        Some(&mut n),
        Some(&mut ts),
        Some(&mut id),
    );
    assert_eq!(status, 1);
    assert_eq!((w, h, n, ts, id), (640, 480, 614400, 1005, 5));
    assert_eq!(cap.frame_data(), Some(bytes.as_slice()));
}

#[test]
fn payload_without_image_is_an_empty_frame() {
    let frame = frame_from_payload(StreamPayload {
        id: 3,
        timestamp_ns: 4000,
        image: None,
        dimensions: None,
    });
    assert_eq!((frame.id, frame.width, frame.height, frame.timestamp_us), (3, 0, 0, 4));
    assert!(frame.data.is_empty());
}

#[test]
fn wide_values_keep_their_low_bits() {
    let frame = frame_from_payload(StreamPayload {
        id: 1,
        timestamp_ns: ((1u128 << 64) + 5) * 1000 + 1,
        image: Some(vec![1]),
        dimensions: Some(((1usize << 32) + 2, 3)),
    });
    assert_eq!(frame.timestamp_us, 5);
    assert_eq!((frame.width, frame.height), (2, 3));
    assert_eq!(to_u32(0xffff_ffff), 0xffff_ffff);
    assert_eq!(to_u32(0x1_0000_0000), 0);
}

#[test]
fn frames_come_in_order_and_once() {
    let mut cap = streaming();
    for id in 1..4 {
        assert_eq!(cap.worker_received(Some(payload(id, vec![id as u8]))), None);
    }
    assert_eq!(grab(&mut cap), (CMLN_FRAME_READY, 1));
    assert_eq!(wait(&mut cap), (BlockStep::Return(CMLN_FRAME_READY), 2));
    assert_eq!(grab(&mut cap), (CMLN_FRAME_READY, 3));
    assert_eq!(cap.frame_data(), Some(&[3u8][..]));
    assert_eq!(grab(&mut cap), (CMLN_OK, 0));
}

#[test]
fn empty_grab_keeps_outputs_and_held_frame() {
    let mut cap = streaming();
    cap.worker_received(Some(payload(9, vec![1, 2])));
    assert_eq!(grab(&mut cap), (CMLN_FRAME_READY, 9));
    let mut w = 77u32;
    let status = cmln_capture_async(Some(&mut cap), Some(&mut w), None, None, None, None);
    assert_eq!(status, CMLN_OK);
    assert_eq!(w, 77);
    assert_eq!(cap.frame_data(), Some(&[1u8, 2][..]));
}

#[test]
fn freed_frame_is_gone() {
    let mut cap = streaming();
    assert!(cap.frame_data().is_none());
    cap.worker_received(Some(payload(9, vec![1, 2])));
    grab(&mut cap);
    cmln_capture_free_frame(Some(&mut cap));
    assert!(cap.frame_data().is_none());
    cmln_capture_free_frame(Some(&mut cap));
    assert!(cap.frame_data().is_none());
    cmln_capture_free_frame::<u32>(None);
}

#[test]
fn worker_pauses_without_payload() {
    let mut cap = streaming();
    assert_eq!(cap.worker_received(None), Some(200));
    assert_eq!(POLL_PAUSE_MICROS, 200);
    assert_eq!(STREAM_CAPACITY, 3);
    assert_eq!(grab(&mut cap), (CMLN_OK, 0));
}

#[test]
fn waiting_grab_waits_while_frames_may_come() {
    let mut cap = started();
    assert_eq!(wait(&mut cap).0, BlockStep::Wait);
    let mut cap = streaming();
    assert_eq!(wait(&mut cap).0, BlockStep::Wait);
}

#[test]
fn failed_stream_ends_the_wait() {
    let mut cap = started();
    cap.worker_begin();
    assert!(!cap.worker_started(false));
    assert_eq!(wait(&mut cap).0, BlockStep::Return(CMLN_OK));
    assert_eq!(grab(&mut cap), (CMLN_OK, 0));
}

#[test]
fn lost_worker_ends_the_wait() {
    let mut cap = streaming();
    cap.worker_received(Some(payload(4, vec![])));
    cap.worker_lost();
    assert_eq!(wait(&mut cap), (BlockStep::Return(CMLN_FRAME_READY), 4));
    assert_eq!(wait(&mut cap).0, BlockStep::Return(CMLN_OK));
}

#[test]
fn stop_reaches_the_worker() {
    let mut cap = streaming();
    assert_eq!(cap.worker_poll(), WorkerStep::Receive);
    cmln_capture_stop(Some(&mut cap));
    assert_eq!(cap.worker_poll(), WorkerStep::Finish);
    cmln_capture_stop(Some(&mut cap));
    assert_eq!(cap.worker_poll(), WorkerStep::Finish);
    cmln_capture_stop::<u32>(None);
}

#[test]
fn stopped_capture_refuses_both_grabs() {
    let mut cap = streaming();
    cap.worker_received(Some(payload(1, vec![7])));
    cap.worker_received(Some(payload(2, vec![8])));
    assert_eq!(grab(&mut cap), (CMLN_FRAME_READY, 1));
    cmln_capture_stop(Some(&mut cap));
    assert_eq!(grab(&mut cap), (CMLN_ERR_CAPTURE_STOPPED, 0));
    let refused = BlockStep::Return(CMLN_ERR_CAPTURE_STOPPED);
    assert_eq!(wait(&mut cap), (refused, 0));
    let mut w = 77u32;
    assert_eq!(cmln_capture_block(Some(&mut cap), Some(&mut w), None, None, None, None), refused);
    assert_eq!(w, 77);
    cap.worker_finish(7);
    assert_eq!(wait(&mut cap), (refused, 0));
    assert_eq!(cap.frame_data(), Some(&[7u8][..]));
}

#[test]
fn stop_ends_the_wait() {
    let mut cap = streaming();
    assert_eq!(wait(&mut cap).0, BlockStep::Wait);
    cmln_capture_stop(Some(&mut cap));
    assert_eq!(wait(&mut cap).0, BlockStep::Return(CMLN_ERR_CAPTURE_STOPPED));
}

#[test]
fn time_below_a_microsecond_is_dropped() {
    let frame = frame_from_payload(StreamPayload {
        id: 0,
        timestamp_ns: 1_999,
        image: None,
        dimensions: None,
    });
    assert_eq!(frame.timestamp_us, 1);
}

#[test]
fn device_goes_to_the_worker_and_back() {
    let mut cap = streaming();
    assert!(matches!(cap.worker_begin(), WorkerStart::Exit));
    cmln_capture_stop(Some(&mut cap));
    cap.worker_finish(7);
    assert!(matches!(cap.worker_begin(), WorkerStart::Stream { camera: 7, .. }));
}

#[test]
fn worker_without_device_ends_the_wait() {
    let mut cap = started();
    cap.worker_begin();
    assert!(matches!(cap.worker_begin(), WorkerStart::Exit));
    assert_eq!(wait(&mut cap).0, BlockStep::Return(CMLN_OK));
}

#[test]
fn destroy_stops_and_waits_for_release() {
    let mut cap = streaming();
    let step = cmln_capture_destroy(Some(&mut cap));
    assert_eq!(step, DestroyStep::Release { millis: 300 });
    assert_eq!(cap.worker_poll(), WorkerStep::Finish);
    assert_eq!(cmln_capture_destroy::<u32>(None), DestroyStep::Return);
}

#[test]
fn null_capture_is_refused() {
    let mut w = 5u32;
    let status = cmln_capture_async::<u32>(None, Some(&mut w), None, None, None, None);
    assert_eq!(status, CMLN_ERR_NULL_HANDLE);
    let step = cmln_capture_block::<u32>(None, Some(&mut w), None, None, None, None);
    assert_eq!(step, BlockStep::Return(CMLN_ERR_NULL_HANDLE));
    assert_eq!(w, 5);
}

#[test]
fn both_grabs_take_the_same_frame() {
    let mut a = streaming();
    let mut b = streaming();
    for id in [8, 9] {
        a.worker_received(Some(payload(id, vec![1, id as u8])));
        b.worker_received(Some(payload(id, vec![1, id as u8])));
    }
    assert_eq!(grab(&mut a), (CMLN_FRAME_READY, 8));
    assert_eq!(wait(&mut b), (BlockStep::Return(CMLN_FRAME_READY), 8));
    assert_eq!(a.frame_data(), b.frame_data());
}

#[test]
fn worker_that_begins_after_a_stop_hands_the_device_back() {
    let mut cap = started();
    cmln_capture_stop(Some(&mut cap));
    assert!(matches!(cap.worker_begin(), WorkerStart::Stream { camera: 7, .. }));
    assert!(cap.worker_started(true));
    assert_eq!(cap.worker_poll(), WorkerStep::Finish);
    cap.worker_finish(7);
    assert_eq!(wait(&mut cap).0, BlockStep::Return(CMLN_ERR_CAPTURE_STOPPED));
    assert!(matches!(cap.worker_begin(), WorkerStart::Stream { camera: 7, .. }));
}

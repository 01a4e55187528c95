//! What holds across the operations on one handle or buffer.

use crate::camera::{
    camera_info_view, close_first, handle_of, handle_view, info_model_name, info_serial_number,
    info_vendor_name, load_context_first, open_after, open_first, opening_after, released_camera,
    released_slots, CamInfo, CameraView, CloseStep, CmlnCamera, FoundCamera, LoadContextStep,
    OpenStep, OPEN_ATTEMPTS, OPEN_RETRY_MILLIS,
};
use crate::capture::{
    async_status, block_step, capture_from, data_len_out, frame_id_out, frame_views, grab_frame,
    height_out, timestamp_us_out, width_out, BlockStep, CaptureView, WorkerStep,
    POLL_PAUSE_MICROS, RELEASE_MILLIS, STREAM_CAPACITY,
};
use crate::cstr::{copied_len, cstr_read, cstr_written, written_len_spec};
use crate::frame::{
    frame_of, low32, low64, payload_dimensions, payload_id, payload_image, payload_timestamp_ns,
    payload_view, CmlnFrameData, FrameView, PayloadView, StreamPayload,
};
use crate::status::{
    device_status_spec, is_published, CMLN_ERR, CMLN_ERR_ALREADY_OPENED,
    CMLN_ERR_CAPTURE_STOPPED, CMLN_ERR_NOT_OPENED, CMLN_ERR_NULL_HANDLE, CMLN_FRAME_READY,
    CMLN_OK,
};
use cameleon::payload::Payload;
use cameleon::CameraInfo;
use vstd::prelude::*;

verus! {

// ---------------------------------------------------------------------------
// Numbers of the interface
// ---------------------------------------------------------------------------

/// The status codes and the times and limits of the interface are the
/// published ones. A status is published exactly if it is one of the six codes
/// from success down to a stopped capture.
pub proof fn law_published_numbers(status: i32)
    ensures
        is_published(status) <==> -5 <= status <= 0,
        CMLN_OK == 0,
        CMLN_ERR == -1,
        CMLN_ERR_NULL_HANDLE == -2,
        CMLN_ERR_ALREADY_OPENED == -3,
        CMLN_ERR_NOT_OPENED == -4,
        CMLN_ERR_CAPTURE_STOPPED == -5,
        CMLN_FRAME_READY == 1,
        OPEN_ATTEMPTS == 5,
        OPEN_RETRY_MILLIS == 100,
        STREAM_CAPACITY == 3,
        POLL_PAUSE_MICROS == 200,
        RELEASE_MILLIS == 300,
{
}

/// A device operation succeeds exactly if the device carried it out, and gives
/// the generic error otherwise.
pub proof fn law_device_status_is_the_outcome(ok: bool)
    ensures
        device_status_spec(ok) == 0 <==> ok,
        device_status_spec(ok) == -1 <==> !ok,
{
}

/// A number that fits its field is kept as it is, and one that does not loses
/// a multiple of the field's range.
pub proof fn law_fields_keep_low_bits(n: int)
    requires
        n >= 0,
    ensures
        n < 0x1_0000_0000 ==> low32(n) == n,
        n < 0x1_0000_0000_0000_0000 ==> low64(n) == n,
        (n - low32(n)) % 0x1_0000_0000 == 0,
        (n - low64(n)) % 0x1_0000_0000_0000_0000 == 0,
{
}

// ---------------------------------------------------------------------------
// C strings
// ---------------------------------------------------------------------------

/// A copy byte by byte: the string as far as there is room for the terminator
/// behind it, the terminator right after that, and every later byte as it was.
/// The bytes written are those up to and with the terminator.
pub proof fn law_copy_byte_by_byte(src: Seq<u8>, dst: Seq<u8>)
    ensures
        cstr_written(src, dst).len() == dst.len(),
        written_len_spec(src.len(), dst.len()) <= dst.len(),
        dst.len() > src.len() ==> copied_len(src.len(), dst.len()) == src.len(),
        0 < dst.len() <= src.len() ==> copied_len(src.len(), dst.len()) == dst.len() - 1,
        dst.len() == 0 ==> written_len_spec(src.len(), dst.len()) == 0,
        dst.len() > 0 ==> written_len_spec(src.len(), dst.len()) == copied_len(
            src.len(),
            dst.len(),
        ) + 1,
        forall|i: int|
            0 <= i < src.len() && i < dst.len() - 1 ==> #[trigger] cstr_written(src, dst)[i]
                == src[i],
        src.len() < dst.len() ==> cstr_written(src, dst)[src.len() as int] == 0,
        0 < dst.len() <= src.len() ==> cstr_written(src, dst)[dst.len() - 1] == 0,
        forall|i: int| src.len() < i < dst.len() ==> #[trigger] cstr_written(src, dst)[i] == dst[i],
{
}

/// Reading a buffer gives its bytes up to the first zero, or all of them where
/// there is none.
pub proof fn law_read_stops_at_first_zero(buf: Seq<u8>)
    ensures
        cstr_read(buf).len() <= buf.len(),
        forall|i: int|
            0 <= i < cstr_read(buf).len() ==> #[trigger] cstr_read(buf)[i] == buf[i] && buf[i] != 0,
        cstr_read(buf).len() < buf.len() ==> buf[cstr_read(buf).len() as int] == 0,
    decreases buf.len(),
{
    if buf.len() > 0 && buf[0] != 0 {
        let tail = buf.drop_first();
        law_read_stops_at_first_zero(tail);
        assert forall|i: int| 0 <= i < cstr_read(buf).len() implies #[trigger] cstr_read(buf)[i]
            == buf[i] && buf[i] != 0 by {
            if i > 0 {
                assert(cstr_read(buf)[i] == cstr_read(tail)[i - 1]);
                assert(tail[i - 1] == buf[i]);
            }
        }
        if cstr_read(buf).len() < buf.len() {
            assert(tail[cstr_read(tail).len() as int] == buf[cstr_read(buf).len() as int]);
        }
    }
}

proof fn lemma_read_terminated(src: Seq<u8>, rest: Seq<u8>)
    ensures
        cstr_read(src + seq![0u8] + rest) == cstr_read(src),
    decreases src.len(),
{
    let buf = src + seq![0u8] + rest;
    if src.len() > 0 {
        lemma_read_terminated(src.drop_first(), rest);
        assert(buf.drop_first() =~= src.drop_first() + seq![0u8] + rest);
        assert(buf[0] == src[0]);
    } else {
        assert(buf[0] == 0);
    }
}

proof fn lemma_read_without_zero(src: Seq<u8>)
    requires
        !src.contains(0u8),
    ensures
        cstr_read(src) == src,
    decreases src.len(),
{
    if src.len() > 0 {
        assert(src.contains(src[0]));
        assert forall|b: u8| src.drop_first().contains(b) implies src.contains(b) by {
            let i = choose|i: int| 0 <= i < src.drop_first().len() && src.drop_first()[i] == b;
            assert(src[i + 1] == b);
        }
        lemma_read_without_zero(src.drop_first());
        assert(seq![src[0]] + src.drop_first() =~= src);
    }
}

/// C code reads out of a buffer what it would read of the part of the string
/// that was copied: the copy is terminated within the buffer, whose length
/// does not change.
pub proof fn law_copy_reads_back(src: Seq<u8>, dst: Seq<u8>)
    requires
        dst.len() > 0,
    ensures
        cstr_written(src, dst).len() == dst.len(),
        cstr_written(src, dst)[copied_len(src.len(), dst.len()) as int] == 0,
        cstr_read(cstr_written(src, dst)) == cstr_read(
            src.take(copied_len(src.len(), dst.len()) as int),
        ),
{
    let n = copied_len(src.len(), dst.len()) as int;
    lemma_read_terminated(src.take(n), dst.skip(n + 1));
}

/// A string without zero bytes that leaves room for the terminator is read
/// back whole.
pub proof fn law_short_string_reads_back_whole(src: Seq<u8>, dst: Seq<u8>)
    requires
        src.len() < dst.len(),
        !src.contains(0u8),
    ensures
        cstr_read(cstr_written(src, dst)) == src,
{
    law_copy_reads_back(src, dst);
    assert(src.take(src.len() as int) =~= src);
    lemma_read_without_zero(src);
}

/// A copy depends on and changes no more of a buffer than the bytes that it
/// writes: copying into just those gives them, and the rest stays.
pub proof fn law_copy_touches_only_what_it_writes(src: Seq<u8>, dst: Seq<u8>)
    ensures
        ({
            let n = written_len_spec(src.len(), dst.len()) as int;
            &&& n <= dst.len()
            &&& cstr_written(src, dst) == cstr_written(src, dst.take(n)) + dst.skip(n)
            &&& forall|other: Seq<u8>| #[trigger]
                other.len() == n ==> cstr_written(src, other) == cstr_written(src, dst.take(n))
        }),
{
    let n = written_len_spec(src.len(), dst.len()) as int;
    assert(cstr_written(src, dst) =~= cstr_written(src, dst.take(n)) + dst.skip(n));
    assert forall|other: Seq<u8>| #[trigger] other.len() == n implies cstr_written(src, other)
        == cstr_written(src, dst.take(n)) by {
        assert(cstr_written(src, other) =~= cstr_written(src, dst.take(n)));
    }
}

// ---------------------------------------------------------------------------
// Enumeration
// ---------------------------------------------------------------------------

/// The handle array of an enumeration is released whole: the count that was
/// reported is the number of its slots. An enumeration without handles leaves
/// nothing to release.
pub proof fn law_enumeration_is_released_whole(found: usize)
    requires
        found <= u32::MAX,
    ensures
        released_slots(found > 0, low32(found as int)) == if found > 0 {
            Some(found)
        } else {
            None
        },
{
}

/// The array is there exactly if slots are released, and as many are released
/// as were counted.
pub proof fn law_released_slots_are_counted(handles: bool, count: u32)
    ensures
        released_slots(handles, count) is Some <==> handles && count > 0,
        released_slots(handles, count) matches Some(n) ==> n == count,
{
}

/// A found camera's handle has its identity and its device, and starts out not
/// opened.
pub proof fn law_found_camera_is_in_its_handle<D>(found: FoundCamera<D>)
    ensures
        handle_of(found).camera == Some(found.camera),
        handle_of(found).info.vendor_name == found.info.vendor_name@,
        handle_of(found).info.model_name == found.info.model_name@,
        handle_of(found).info.serial_number == found.info.serial_number@,
        !handle_of(found).opened,
        released_camera(Some(handle_of(found))) == Some(found.camera),
{
}

/// The identity of a camera is name by name what the device's description
/// says, and a snapshot shows the names that it holds.
pub proof fn law_identity_name_by_name(info: CameraInfo, snapshot: CamInfo)
    ensures
        camera_info_view(info).vendor_name == info_vendor_name(info),
        camera_info_view(info).model_name == info_model_name(info),
        camera_info_view(info).serial_number == info_serial_number(info),
        snapshot@.vendor_name == snapshot.vendor_name@,
        snapshot@.model_name == snapshot.model_name@,
        snapshot@.serial_number == snapshot.serial_number@,
{
}

// ---------------------------------------------------------------------------
// Opening
// ---------------------------------------------------------------------------

/// What opening does next, step by step: after the close, whatever came of it,
/// the first attempt; after an accepted attempt, success; after a refused one,
/// a pause before the next as long as fewer than five were made, and the
/// generic error after that; after a pause, the attempt that it was for. A
/// finished opening stays finished.
pub proof fn law_opening_step_by_step(step: OpenStep, ok: bool)
    ensures
        step is Close ==> open_after(step, ok) == (OpenStep::Open { attempt: 0 }),
        step matches OpenStep::Open { attempt } ==> {
            &&& ok ==> open_after(step, ok) == OpenStep::Return(0i32)
            &&& !ok && attempt < 4 ==> open_after(step, ok) == (OpenStep::Wait {
                attempt: (attempt + 1) as u32,
                millis: 100,
            })
            &&& !ok && attempt >= 4 ==> open_after(step, ok) == OpenStep::Return(-1i32)
        },
        step matches OpenStep::Wait { attempt, millis } ==> open_after(step, ok) == (
        OpenStep::Open { attempt }),
        step is Return ==> open_after(step, ok) == step,
{
}

/// A step of opening changes of the handle only whether it is opened, and that
/// only when the device accepts an attempt.
pub proof fn law_only_an_accepted_attempt_opens<D>(cam: CameraView<D>, step: OpenStep, ok: bool)
    ensures
        opening_after(cam, step, ok).opened <==> cam.opened || step is Open && ok,
        opening_after(cam, step, ok).camera == cam.camera,
        opening_after(cam, step, ok).info == cam.info,
        step is Open ==> opening_after(cam, step, ok) == cam.open_tried(ok),
{
}

/// How opening ends.
#[verifier::ext_equal]
pub struct OpenRun<D> {
    /// The status that is returned.
    pub status: i32,
    /// What the handle holds in the end.
    pub cam: CameraView<D>,
    /// How often the device was closed.
    pub closes: nat,
    /// How often opening the device was tried.
    pub opens: nat,
    /// How long the pauses were in all, in milliseconds.
    pub paused: nat,
}

/// How many steps opening takes at most from `step` on.
pub open spec fn steps_left(step: OpenStep) -> int {
    match step {
        OpenStep::Return(_) => 0,
        OpenStep::Close => 2 * OPEN_ATTEMPTS + 1,
        OpenStep::Open { attempt } => if attempt < OPEN_ATTEMPTS {
            2 * (OPEN_ATTEMPTS - attempt)
        } else {
            1
        },
        OpenStep::Wait { attempt, .. } => if attempt < OPEN_ATTEMPTS {
            2 * (OPEN_ATTEMPTS - attempt) + 1
        } else {
            2
        },
    }
}

/// Carries out the steps of opening from `step` on, on a device that answers
/// the close with `close_ok` and the attempt `i` with `opens_ok(i)`.
pub open spec fn open_run<D>(
    cam: CameraView<D>,
    step: OpenStep,
    close_ok: bool,
    opens_ok: spec_fn(u32) -> bool,
) -> OpenRun<D>
    decreases steps_left(step),
{
    let ok = match step {
        OpenStep::Close => close_ok,
        OpenStep::Open { attempt } => opens_ok(attempt),
        _ => true,
    };
    let after = opening_after(cam, step, ok);
    match step {
        OpenStep::Return(status) => OpenRun { status, cam, closes: 0, opens: 0, paused: 0 },
        OpenStep::Close => {
            let rest = open_run(after, open_after(step, ok), close_ok, opens_ok);
            OpenRun { closes: rest.closes + 1, ..rest }
        },
        OpenStep::Open { attempt } => {
            let rest = open_run(after, open_after(step, ok), close_ok, opens_ok);
            OpenRun { opens: rest.opens + 1, ..rest }
        },
        OpenStep::Wait { attempt, millis } => {
            let rest = open_run(after, open_after(step, ok), close_ok, opens_ok);
            OpenRun { paused: rest.paused + millis as nat, ..rest }
        },
    }
}

proof fn lemma_open_run_from<D>(
    cam: CameraView<D>,
    attempt: u32,
    last: u32,
    close_ok: bool,
    opens_ok: spec_fn(u32) -> bool,
)
    requires
        attempt <= last < OPEN_ATTEMPTS,
        forall|i: u32| attempt <= i < last ==> !#[trigger] opens_ok(i),
        opens_ok(last) || last == OPEN_ATTEMPTS - 1,
    ensures
        open_run(cam, OpenStep::Open { attempt }, close_ok, opens_ok) == (OpenRun {
            status: if opens_ok(last) {
                CMLN_OK
            } else {
                CMLN_ERR
            },
            cam: cam.open_tried(opens_ok(last)),
            closes: 0,
            opens: (last - attempt + 1) as nat,
            paused: ((last - attempt) * OPEN_RETRY_MILLIS) as nat,
        }),
    decreases last - attempt,
{
    reveal_with_fuel(open_run, 3);
    if attempt < last {
        let next = (attempt + 1) as u32;
        lemma_open_run_from(cam, next, last, close_ok, opens_ok);
        assert(!opens_ok(attempt));
        let wait = OpenStep::Wait { attempt: next, millis: OPEN_RETRY_MILLIS };
        assert(open_after(OpenStep::Open { attempt }, opens_ok(attempt)) == wait);
        assert(open_after(wait, true) == OpenStep::Open { attempt: next });
        assert((last - next) * OPEN_RETRY_MILLIS + OPEN_RETRY_MILLIS == (last - attempt)
            * OPEN_RETRY_MILLIS) by (nonlinear_arith)
            requires
                next == attempt + 1,
        ;
    } else {
        assert((last - attempt) * OPEN_RETRY_MILLIS == 0) by (nonlinear_arith)
            requires
                last == attempt,
        ;
    }
}

/// Opening a camera succeeds at the first attempt that the device accepts: it
/// closes the device once, whatever comes of that, tries one time more than
/// the device refused, and pauses once per refusal. The camera is opened then:
/// its context can be loaded, and opening it again is refused at once.
pub proof fn law_open_succeeds_at_first_accepted<D>(
    cam: CameraView<D>,
    first: u32,
    close_ok: bool,
    opens_ok: spec_fn(u32) -> bool,
)
    requires
        cam.camera is Some,
        !cam.opened,
        first < OPEN_ATTEMPTS,
        opens_ok(first),
        forall|i: u32| i < first ==> !#[trigger] opens_ok(i),
    ensures
        ({
            let run = open_run(cam, open_first(Some(cam)), close_ok, opens_ok);
            &&& run == (OpenRun {
                status: CMLN_OK,
                cam: CameraView { opened: true, ..cam },
                closes: 1,
                opens: (first + 1) as nat,
                paused: (first * OPEN_RETRY_MILLIS) as nat,
            })
            &&& load_context_first(Some(run.cam)) == LoadContextStep::Load
            &&& open_first(Some(run.cam)) == OpenStep::Return(CMLN_ERR_ALREADY_OPENED)
        }),
{
    lemma_open_run_from(cam, 0, first, close_ok, opens_ok);
}

/// Opening a camera fails if the device refuses every attempt: all attempts
/// were made then, with a pause between any two. The handle is as it was, and
/// opening may be tried again.
pub proof fn law_open_fails_when_all_refused<D>(
    cam: CameraView<D>,
    close_ok: bool,
    opens_ok: spec_fn(u32) -> bool,
)
    requires
        cam.camera is Some,
        !cam.opened,
        forall|i: u32| i < OPEN_ATTEMPTS ==> !#[trigger] opens_ok(i),
    ensures
        ({
            let run = open_run(cam, open_first(Some(cam)), close_ok, opens_ok);
            &&& run == (OpenRun {
                status: CMLN_ERR,
                cam,
                closes: 1,
                opens: OPEN_ATTEMPTS as nat,
                paused: ((OPEN_ATTEMPTS - 1) * OPEN_RETRY_MILLIS) as nat,
            })
            &&& open_first(Some(run.cam)) == OpenStep::Close
        }),
{
    let last = (OPEN_ATTEMPTS - 1) as u32;
    lemma_open_run_from(cam, 0, last, close_ok, opens_ok);
}

/// Opening an opened camera is refused at once: no step touches the device,
/// and the handle stays as it is.
pub proof fn law_second_open_is_refused<D>(
    cam: CameraView<D>,
    close_ok: bool,
    opens_ok: spec_fn(u32) -> bool,
)
    requires
        cam.camera is Some,
        cam.opened,
    ensures
        open_run(cam, open_first(Some(cam)), close_ok, opens_ok) == (OpenRun {
            status: CMLN_ERR_ALREADY_OPENED,
            cam,
            closes: 0,
            opens: 0,
            paused: 0,
        }),
{
}

/// A camera that the device closed may be opened again, and until then its
/// context is not loaded. A close that the device refused leaves the handle as
/// it was.
pub proof fn law_closed_camera_reopens<D>(cam: CameraView<D>)
    requires
        cam.camera is Some,
    ensures
        open_first(Some(cam.close_tried(true))) == OpenStep::Close,
        load_context_first(Some(cam.close_tried(true))) == LoadContextStep::Return(
            CMLN_ERR_NOT_OPENED,
        ),
        cam.close_tried(false) == cam,
{
}

// ---------------------------------------------------------------------------
// Handles
// ---------------------------------------------------------------------------

/// Once a capture took the camera of a handle, the handle neither opens,
/// loads a context nor starts another capture, closing it is a success
/// without effect, and destroying it releases no device. Its identity stays.
pub proof fn law_taken_camera<D>(cam: CameraView<D>)
    ensures
        open_first(Some(cam.taken())) == OpenStep::Return(CMLN_ERR_NULL_HANDLE),
        load_context_first(Some(cam.taken())) == LoadContextStep::Return(CMLN_ERR_NULL_HANDLE),
        close_first(Some(cam.taken())) == CloseStep::Return(CMLN_OK),
        capture_from(Some(cam.taken())) is None,
        released_camera(Some(cam.taken())) is None,
        cam.taken().info == cam.info,
        cam.taken().taken() == cam.taken(),
{
}

/// What the operations on a camera handle do to it: an accepted attempt opens
/// it and an accepted close closes it, either leaving identity and device
/// alone; taking the device leaves the identity alone, and no device and
/// nothing opened behind.
pub proof fn law_camera_handle_changes<D>(cam: CameraView<D>, ok: bool)
    ensures
        cam.open_tried(ok).opened <==> cam.opened || ok,
        cam.open_tried(ok).camera == cam.camera,
        cam.open_tried(ok).info == cam.info,
        cam.close_tried(ok).opened <==> cam.opened && !ok,
        cam.close_tried(ok).camera == cam.camera,
        cam.close_tried(ok).info == cam.info,
        cam.taken().camera is None,
        !cam.taken().opened,
        cam.taken().info == cam.info,
        released_camera(Some(cam)) == cam.camera,
{
}

/// Of a handle with its device: opening begins exactly if it is not opened and
/// is refused as already opened exactly if it is; its context loads exactly if
/// it is opened and is refused as not opened exactly if it is not; closing
/// always goes to the device. Without the device opening and loading are
/// refused as for a null handle, and closing succeeds.
pub proof fn law_camera_requests<D>(cam: CameraView<D>)
    ensures
        open_first(Some(cam)) is Close <==> cam.camera is Some && !cam.opened,
        open_first(Some(cam)) == OpenStep::Return(-3i32) <==> cam.camera is Some && cam.opened,
        open_first(Some(cam)) == OpenStep::Return(-2i32) <==> cam.camera is None,
        load_context_first(Some(cam)) is Load <==> cam.camera is Some && cam.opened,
        load_context_first(Some(cam)) == LoadContextStep::Return(-4i32) <==> cam.camera is Some
            && !cam.opened,
        load_context_first(Some(cam)) == LoadContextStep::Return(-2i32) <==> cam.camera is None,
        close_first(Some(cam)) is Close <==> cam.camera is Some,
        close_first(Some(cam)) == CloseStep::Return(0i32) <==> cam.camera is None,
{
}

/// A handle that is there is seen as what it holds, whatever that is, and only
/// a null one as none.
pub proof fn law_handle_is_seen<D>(cam: Option<&CmlnCamera<D>>)
    ensures
        handle_view(cam) is Some <==> cam is Some,
        cam matches Some(c) ==> handle_view(cam) == Some(c@),
{
}

/// A null handle gives the null handle status, or no capture and no device,
/// in every operation.
pub proof fn law_null_handle<D>()
    ensures
        open_first(None::<CameraView<D>>) == OpenStep::Return(CMLN_ERR_NULL_HANDLE),
        close_first(None::<CameraView<D>>) == CloseStep::Return(CMLN_ERR_NULL_HANDLE),
        load_context_first(None::<CameraView<D>>) == LoadContextStep::Return(CMLN_ERR_NULL_HANDLE),
        capture_from(None::<CameraView<D>>) is None,
        released_camera(None::<CameraView<D>>) is None,
        async_status(None::<CaptureView<D>>) == CMLN_ERR_NULL_HANDLE,
        block_step(None::<CaptureView<D>>) == BlockStep::Return(CMLN_ERR_NULL_HANDLE),
{
}

/// Every status that an operation returns is in the published table, but for
/// the one that says that a grab delivered a frame.
pub proof fn law_statuses_are_published<D>(
    cam: Option<CameraView<D>>,
    cap: Option<CaptureView<D>>,
    step: OpenStep,
    ok: bool,
)
    ensures
        is_published(device_status_spec(ok)),
        open_first(cam) matches OpenStep::Return(s) ==> is_published(s),
        close_first(cam) matches CloseStep::Return(s) ==> is_published(s),
        load_context_first(cam) matches LoadContextStep::Return(s) ==> is_published(s),
        !(step is Return) ==> (open_after(step, ok) matches OpenStep::Return(s) ==> is_published(
            s,
        )),
        is_published(async_status(cap)) || async_status(cap) == CMLN_FRAME_READY,
        block_step(cap) matches BlockStep::Return(s) ==> is_published(s) || s == CMLN_FRAME_READY,
{
}

/// A capture starts exactly from a handle that has its device, opened or not,
/// and every capture that starts is running and connected, on that device,
/// with no frame held or queued: its worker is told to receive, and both grabs
/// find it running without a frame.
pub proof fn law_capture_starts_running<D>(cam: CameraView<D>)
    ensures
        capture_from(Some(cam)) is Some <==> cam.camera is Some,
        capture_from(None::<CameraView<D>>) is None,
        capture_from(Some(cam)) matches Some(cap) ==> {
            &&& cap.running
            &&& cap.connected
            &&& cap.frame is None
            &&& cap.queue.len() == 0
            &&& cap.camera == cam.camera
            &&& cap.worker_step() == WorkerStep::Receive
            &&& async_status(Some(cap)) == CMLN_OK
            &&& block_step(Some(cap)) == BlockStep::Wait
        },
{
}

/// The worker is told to finish exactly if the capture was stopped. A running
/// capture's worker goes on, whatever frames are held or queued and wherever
/// the device is.
pub proof fn law_worker_goes_on_until_stopped<D>(cap: CaptureView<D>, other: CaptureView<D>)
    ensures
        cap.worker_step() == WorkerStep::Finish <==> !cap.running,
        cap.worker_step() == WorkerStep::Receive <==> cap.running,
        cap.running == other.running ==> cap.worker_step() == other.worker_step(),
{
}

/// The worker's calls leave the held frame and whether the capture is running
/// alone. Only a received payload touches the queue, which it extends by one
/// at the end. The worker disconnects exactly when it has no device, could not
/// start the stream, broke off or finished, and never connects again. It takes
/// the device when it begins and puts back what it hands in when it finishes.
pub proof fn law_worker_changes<D>(
    cap: CaptureView<D>,
    ok: bool,
    frame: FrameView,
    camera: D,
)
    ensures
        cap.worker_began().frame == cap.frame,
        cap.worker_began().running == cap.running,
        cap.worker_began().queue == cap.queue,
        cap.worker_began().connected <==> cap.connected && cap.camera is Some,
        cap.worker_began().camera is None,
        cap.stream_started(ok).frame == cap.frame,
        cap.stream_started(ok).running == cap.running,
        cap.stream_started(ok).queue == cap.queue,
        cap.stream_started(ok).connected <==> cap.connected && ok,
        cap.stream_started(ok).camera == cap.camera,
        cap.worker_lost().frame == cap.frame,
        cap.worker_lost().running == cap.running,
        cap.worker_lost().queue == cap.queue,
        !cap.worker_lost().connected,
        cap.worker_lost().camera == cap.camera,
        cap.queued(frame).frame == cap.frame,
        cap.queued(frame).running == cap.running,
        cap.queued(frame).queue.len() == cap.queue.len() + 1,
        cap.queued(frame).queue.last() == frame,
        forall|i: int|
            0 <= i < cap.queue.len() ==> #[trigger] cap.queued(frame).queue[i] == cap.queue[i],
        cap.queued(frame).connected == cap.connected,
        cap.queued(frame).camera == cap.camera,
        cap.worker_finished(camera).frame == cap.frame,
        cap.worker_finished(camera).running == cap.running,
        cap.worker_finished(camera).queue == cap.queue,
        !cap.worker_finished(camera).connected,
        cap.worker_finished(camera).camera == Some(camera),
{
}

/// A stop and a free change one thing each: a stop ends the running and
/// nothing else, a free lets go of the held frame and nothing else.
pub proof fn law_stop_and_free_change_one_thing<D>(cap: CaptureView<D>)
    ensures
        !cap.stopped().running,
        cap.stopped().frame == cap.frame,
        cap.stopped().queue == cap.queue,
        cap.stopped().connected == cap.connected,
        cap.stopped().camera == cap.camera,
        cap.frame_freed().frame is None,
        cap.frame_freed().running == cap.running,
        cap.frame_freed().queue == cap.queue,
        cap.frame_freed().connected == cap.connected,
        cap.frame_freed().camera == cap.camera,
{
}

/// Freeing the held frame, or holding another one, makes no difference to what
/// comes: both grabs give the same status and the same frame, leave the same
/// capture behind when they deliver, and the worker does the same.
pub proof fn law_held_frame_makes_no_difference<D>(cap: CaptureView<D>, held: Option<FrameView>)
    ensures
        ({
            let other = CaptureView { frame: held, ..cap };
            &&& grab_frame(Some(other)) == grab_frame(Some(cap))
            &&& async_status(Some(other)) == async_status(Some(cap))
            &&& block_step(Some(other)) == block_step(Some(cap))
            &&& other.worker_step() == cap.worker_step()
            &&& grab_frame(Some(cap)) is Some ==> other.grabbed(grab_frame(Some(other)))
                == cap.grabbed(grab_frame(Some(cap)))
            &&& cap.frame_freed() == CaptureView { frame: None, ..cap }
        }),
{
}

/// A grab delivers exactly if the capture is running and a frame is queued,
/// and then the first of the queue. That frame becomes the held one and leaves
/// the queue, in which every other frame moves up by one; nothing else
/// changes. A grab that delivers nothing changes nothing.
pub proof fn law_grab_takes_the_oldest<D>(cap: CaptureView<D>)
    ensures
        ({
            let frame = grab_frame(Some(cap));
            let after = cap.grabbed(frame);
            &&& frame is Some <==> cap.running && cap.queue.len() > 0
            &&& frame matches Some(f) ==> {
                &&& f == cap.queue[0]
                &&& after.frame == Some(f)
                &&& after.queue.len() == cap.queue.len() - 1
                &&& forall|i: int|
                    0 <= i < after.queue.len() ==> #[trigger] after.queue[i] == cap.queue[i + 1]
            }
            &&& frame is None ==> after == cap
            &&& after.running == cap.running
            &&& after.connected == cap.connected
            &&& after.camera == cap.camera
            &&& cap.oldest() is Some <==> cap.queue.len() > 0
            &&& cap.oldest() matches Some(f) ==> f == cap.queue[0]
        }),
        grab_frame(None::<CaptureView<D>>) is None,
{
}

/// What both grabs say of a capture: stopped exactly if it was stopped; a
/// frame exactly if it is running and one is queued; without one the waiting
/// grab waits exactly if the worker is connected, and otherwise both say that
/// there is none.
pub proof fn law_grabs_say_what_is_there<D>(cap: CaptureView<D>)
    ensures
        async_status(Some(cap)) == -5 <==> !cap.running,
        async_status(Some(cap)) == 1 <==> cap.running && cap.queue.len() > 0,
        async_status(Some(cap)) == 0 <==> cap.running && cap.queue.len() == 0,
        async_status(None::<CaptureView<D>>) == -2,
        block_step(Some(cap)) == BlockStep::Return(-5i32) <==> !cap.running,
        block_step(Some(cap)) == BlockStep::Return(1i32) <==> cap.running && cap.queue.len() > 0,
        block_step(Some(cap)) == BlockStep::Wait <==> cap.running && cap.queue.len() == 0
            && cap.connected,
        block_step(Some(cap)) == BlockStep::Return(0i32) <==> cap.running && cap.queue.len() == 0
            && !cap.connected,
        block_step(None::<CaptureView<D>>) == BlockStep::Return(-2i32),
{
}

/// A frame that comes in does not get ahead of one that is waiting: it changes
/// what the next grab delivers only if nothing was queued.
pub proof fn law_new_frame_waits_its_turn<D>(cap: CaptureView<D>, frame: FrameView)
    requires
        cap.running,
    ensures
        cap.queue.len() > 0 ==> grab_frame(Some(cap.queued(frame))) == grab_frame(Some(cap)),
        cap.queue.len() == 0 ==> grab_frame(Some(cap.queued(frame))) == Some(frame),
{
}

/// Stopping twice and freeing twice are stopping and freeing once, and the
/// two do not disturb each other.
pub proof fn law_stop_and_free_repeat<D>(cap: CaptureView<D>)
    ensures
        cap.stopped().stopped() == cap.stopped(),
        cap.frame_freed().frame_freed() == cap.frame_freed(),
        cap.stopped().frame_freed() == cap.frame_freed().stopped(),
{
}

/// A grab without waiting tells its outcomes apart: the status says that
/// a frame is ready exactly when one is delivered, that the capture was
/// stopped exactly when it was, and success exactly when a running capture
/// has no frame.
pub proof fn law_async_status_tells<D>(cap: CaptureView<D>)
    ensures
        async_status(Some(cap)) == CMLN_FRAME_READY <==> grab_frame(Some(cap)) is Some,
        async_status(Some(cap)) == CMLN_ERR_CAPTURE_STOPPED <==> !cap.running,
        async_status(Some(cap)) == CMLN_OK <==> cap.running && cap.queue.len() == 0,
{
}

/// A waiting grab is told what the other grab is told, but where that finds
/// no frame: there it waits while one may still come.
pub proof fn law_grabs_agree<D>(cap: Option<CaptureView<D>>)
    ensures
        block_step(cap) == match cap {
            Some(c) if c.running && c.queue.len() == 0 && c.connected => BlockStep::Wait,
            _ => BlockStep::Return(async_status(cap)),
        },
{
}

// ---------------------------------------------------------------------------
// Frames
// ---------------------------------------------------------------------------

/// What is read of a payload is part by part what the device reports.
pub proof fn law_payload_is_read_part_by_part(payload: Payload)
    ensures
        payload_view(payload).id == payload_id(payload),
        payload_view(payload).timestamp_ns == payload_timestamp_ns(payload),
        payload_view(payload).image == payload_image(payload),
        payload_view(payload).dimensions == payload_dimensions(payload),
{
}

/// A payload and a frame show the parts that they hold, and a queue of frames
/// shows each of them in its place.
pub proof fn law_parts_are_shown(
    payload: StreamPayload,
    frame: CmlnFrameData,
    frames: Seq<CmlnFrameData>,
)
    ensures
        payload@.id == payload.id,
        payload@.timestamp_ns == payload.timestamp_ns,
        payload@.image is Some <==> payload.image is Some,
        payload.image matches Some(bytes) ==> payload@.image == Some(bytes@),
        payload@.dimensions == payload.dimensions,
        frame@.id == frame.id,
        frame@.width == frame.width,
        frame@.height == frame.height,
        frame@.data == frame.data@,
        frame@.timestamp_us == frame.timestamp_us,
        frame_views(frames).len() == frames.len(),
        forall|i: int| 0 <= i < frames.len() ==> #[trigger] frame_views(frames)[i] == frames[i]@,
{
}

/// A frame is made of its payload part by part: the same identifier, the same
/// bytes or none without an image, the width and the height in their own
/// fields or zero without dimensions, and the time in whole microseconds. No
/// part depends on another.
pub proof fn law_frame_part_by_part(payload: PayloadView)
    ensures
        frame_of(payload).id == payload.id,
        payload.image matches Some(bytes) ==> frame_of(payload).data == bytes,
        payload.image is None ==> frame_of(payload).data.len() == 0,
        payload.dimensions matches Some(wh) ==> {
            &&& frame_of(payload).width == wh.0 as int % 0x1_0000_0000
            &&& frame_of(payload).height == wh.1 as int % 0x1_0000_0000
        },
        payload.dimensions is None ==> frame_of(payload).width == 0 && frame_of(payload).height
            == 0,
        frame_of(payload).timestamp_us == payload.timestamp_ns as int / 1000
            % 0x1_0000_0000_0000_0000,
{
}

/// What a grab writes is the delivered frame's, whatever stood in the output
/// before, and without a frame every output keeps what stood there.
pub proof fn law_outputs_are_the_frames(frame: FrameView, before32: u32, before64: u64)
    ensures
        width_out(Some(frame), before32) == frame.width,
        height_out(Some(frame), before32) == frame.height,
        data_len_out(Some(frame), before32) == frame.data.len() as int % 0x1_0000_0000,
        timestamp_us_out(Some(frame), before64) == frame.timestamp_us,
        frame_id_out(Some(frame), before64) == frame.id,
        width_out(None, before32) == before32,
        height_out(None, before32) == before32,
        data_len_out(None, before32) == before32,
        timestamp_us_out(None, before64) == before64,
        frame_id_out(None, before64) == before64,
{
}

/// From the device's payload to C code: a payload received by a running
/// capture with nothing queued is what the next grab delivers, and the grab
/// writes the identifier, the width, the height, the length of the image and
/// the time that the device reports, and holds the device's bytes.
pub proof fn law_device_payload_reaches_the_outputs<D>(
    cap: CaptureView<D>,
    payload: Payload,
    before32: u32,
    before64: u64,
)
    requires
        cap.running,
        cap.queue.len() == 0,
    ensures
        ({
            let received = cap.queued(frame_of(payload_view(payload)));
            let frame = grab_frame(Some(received));
            &&& async_status(Some(received)) == CMLN_FRAME_READY
            &&& block_step(Some(received)) == BlockStep::Return(CMLN_FRAME_READY)
            &&& frame is Some
            &&& received.grabbed(frame).frame == frame
            &&& frame_id_out(frame, before64) == payload_id(payload)
            &&& timestamp_us_out(frame, before64) == payload_timestamp_ns(payload) as int / 1000
                % 0x1_0000_0000_0000_0000
            &&& payload_image(payload) matches Some(bytes) ==> frame->0.data == bytes
                && data_len_out(frame, before32) == bytes.len() as int % 0x1_0000_0000
            &&& payload_image(payload) is None ==> frame->0.data.len() == 0 && data_len_out(
                frame,
                before32,
            ) == 0
            &&& payload_dimensions(payload) matches Some(wh) ==> width_out(frame, before32)
                == wh.0 as int % 0x1_0000_0000 && height_out(frame, before32) == wh.1 as int
                % 0x1_0000_0000
            &&& payload_dimensions(payload) is None ==> width_out(frame, before32) == 0
                && height_out(frame, before32) == 0
        }),
{
}

/// A payload reaches C code as the device sent it. What a running capture with
/// nothing queued receives, the next grab delivers: the image byte for byte,
/// with no bytes for a payload without an image, and the dimensions and the
/// length that it has where they fit their fields.
pub proof fn law_payload_is_delivered_raw<D>(cap: CaptureView<D>, payload: PayloadView)
    requires
        cap.running,
        cap.queue.len() == 0,
    ensures
        ({
            let received = cap.queued(frame_of(payload));
            let frame = grab_frame(Some(received));
            let image = match payload.image {
                Some(bytes) => bytes,
                None => Seq::empty(),
            };
            &&& async_status(Some(received)) == CMLN_FRAME_READY
            &&& frame matches Some(f) && f.data == image && f.id == payload.id
            &&& received.grabbed(frame).frame == frame
            &&& received.grabbed(frame).queue.len() == 0
            &&& forall|n: u64| #[trigger] frame_id_out(frame, n) == payload.id
            &&& image.len() <= u32::MAX ==> forall|n: u32| #[trigger]
                data_len_out(frame, n) == image.len()
            &&& payload.timestamp_ns as int / 1000 <= u64::MAX ==> forall|t: u64| #[trigger]
                timestamp_us_out(frame, t) == payload.timestamp_ns as int / 1000
            &&& payload.dimensions matches Some(wh) ==> {
                &&& wh.0 <= u32::MAX ==> forall|w: u32| #[trigger] width_out(frame, w) == wh.0
                &&& wh.1 <= u32::MAX ==> forall|h: u32| #[trigger] height_out(frame, h) == wh.1
            }
        }),
{
}

} // verus!

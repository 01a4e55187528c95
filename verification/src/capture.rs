//! Capture handles: frames on their way from the device to C code.
//!
//! A capture is shared by two parties. Its worker owns the streaming device,
//! turns payloads into frames and queues them; C code grabs frames off the
//! queue and may stop the capture. Each party calls in with the capture
//! locked, and carries out what the call returns.

use crate::camera::{CameraView, CmlnCamera};
use crate::frame::{
    frame_from_payload, frame_of, low32, to_u32, CmlnFrameData, FrameView, StreamPayload,
};
use crate::status::{
    CMLN_ERR_CAPTURE_STOPPED, CMLN_ERR_NULL_HANDLE, CMLN_FRAME_READY, CMLN_OK,
};
use std::collections::VecDeque;
use vstd::prelude::*;

verus! {

/// How many payloads the device may have waiting for the worker.
pub const STREAM_CAPACITY: usize = 3;

/// How long the worker pauses when no payload is waiting, in microseconds.
pub const POLL_PAUSE_MICROS: u64 = 200;

/// How long destroying a capture waits for the device to be released, in
/// milliseconds.
pub const RELEASE_MILLIS: u64 = 300;

/// Handle of a capture.
#[derive(Debug)]
pub struct CmlnCapture<D> {
    /// The frame that was grabbed last and not freed.
    frame: Option<CmlnFrameData>,
    /// Whether the capture goes on. Once false it stays false.
    running: bool,
    /// Frames not grabbed yet, oldest first.
    queue: VecDeque<CmlnFrameData>,
    /// Whether the worker may still queue frames.
    connected: bool,
    /// The device, while the worker does not have it.
    camera: Option<D>,
}

/// What a capture handle holds.
#[verifier::ext_equal]
pub struct CaptureView<D> {
    /// The frame that was grabbed last and not freed.
    pub frame: Option<FrameView>,
    /// Whether the capture goes on.
    pub running: bool,
    /// Frames not grabbed yet, oldest first.
    pub queue: Seq<FrameView>,
    /// Whether the worker may still queue frames.
    pub connected: bool,
    /// The device, while the worker does not have it.
    pub camera: Option<D>,
}

/// Frames in order, with their bytes as sequences.
pub open spec fn frame_views(frames: Seq<CmlnFrameData>) -> Seq<FrameView> {
    frames.map_values(|f: CmlnFrameData| f@)
}

impl<D> View for CmlnCapture<D> {
    type V = CaptureView<D>;

    closed spec fn view(&self) -> CaptureView<D> {
        CaptureView {
            frame: match self.frame {
                Some(f) => Some(f@),
                None => None,
            },
            running: self.running,
            queue: frame_views(self.queue@),
            connected: self.connected,
            camera: self.camera,
        }
    }
}

/// What a handle that may be null holds.
pub open spec fn capture_view<D>(cap: Option<&mut CmlnCapture<D>>) -> Option<CaptureView<D>> {
    match cap {
        Some(c) => Some(c@),
        None => None,
    }
}

// ---------------------------------------------------------------------------
// Start
// ---------------------------------------------------------------------------

/// A capture that just started on a device: running, with no frames, its
/// worker about to pick up the device.
pub open spec fn capture_started<D>(camera: D) -> CaptureView<D> {
    CaptureView {
        frame: None,
        running: true,
        queue: Seq::empty(),
        connected: true,
        camera: Some(camera),
    }
}

/// The capture that starts from a camera handle: one on the handle's device.
/// There is none for a null handle, nor for one whose camera was taken before.
pub open spec fn capture_from<D>(cam: Option<CameraView<D>>) -> Option<CaptureView<D>> {
    match cam {
        Some(c) => match c.camera {
            Some(camera) => Some(capture_started(camera)),
            None => None,
        },
        None => None,
    }
}

/// Starts a capture: moves the device from the camera handle into a new
/// capture, for which the caller runs the worker.
pub fn cmln_capture_start<D>(cam: Option<&mut CmlnCamera<D>>) -> (cap: Option<CmlnCapture<D>>)
    ensures
        match cam {
            Some(c) => {
                &&& final(c)@ == c@.taken()
                &&& match capture_from(Some(c@)) {
                    Some(started) => cap matches Some(p) && p@ == started,
                    None => cap is None,
                }
            },
            None => cap is None,
        },
        cap is Some <==> (cam matches Some(c) && c@.camera is Some),
        cam matches Some(c) ==> final(c)@.camera is None && !final(c)@.opened && final(c)@.info
            == c@.info,
        cap matches Some(p) ==> {
            &&& p@.running
            &&& p@.connected
            &&& p@.frame is None
            &&& p@.queue.len() == 0
            &&& cam matches Some(c) && p@.camera == c@.camera
        },
{
    match cam {
        None => None,
        Some(c) => match c.take_camera() {
            None => None,
            Some(camera) => {
                let cap = CmlnCapture {
                    frame: None,
                    running: true,
                    queue: VecDeque::new(),
                    connected: true,
                    camera: Some(camera),
                };
                assert(cap@ == capture_started(camera));
                Some(cap)
            },
        },
    }
}

// ---------------------------------------------------------------------------
// Worker
// ---------------------------------------------------------------------------

/// How the worker begins.
#[derive(Debug)]
pub enum WorkerStart<D> {
    /// There is no device: end.
    Exit,
    /// Start streaming on this device, with room for this many payloads.
    Stream { camera: D, capacity: usize },
}

/// What the worker does in one round.
#[derive(Clone, Copy, Debug, PartialEq, Eq, Structural)]
pub enum WorkerStep {
    /// Look for a payload and hand in what was there.
    Receive,
    /// End the stream and hand the device back.
    Finish,
}

impl<D> CaptureView<D> {
    /// The worker picked up the device. Without one it has ended.
    pub open spec fn worker_began(self) -> CaptureView<D> {
        CaptureView { camera: None, connected: self.connected && self.camera is Some, ..self }
    }

    /// The worker could or could not start the stream. If not, it has ended.
    pub open spec fn stream_started(self, ok: bool) -> CaptureView<D> {
        CaptureView { connected: self.connected && ok, ..self }
    }

    /// The worker broke off and took the device with it.
    pub open spec fn worker_lost(self) -> CaptureView<D> {
        CaptureView { connected: false, ..self }
    }

    /// What the worker does in its next round: it goes on until the capture is
    /// stopped.
    pub open spec fn worker_step(self) -> WorkerStep {
        if self.running {
            WorkerStep::Receive
        } else {
            WorkerStep::Finish
        }
    }

    /// The worker queued a frame.
    pub open spec fn queued(self, frame: FrameView) -> CaptureView<D> {
        CaptureView { queue: self.queue.push(frame), ..self }
    }

    /// The worker handed the device back and has ended.
    pub open spec fn worker_finished(self, camera: D) -> CaptureView<D> {
        CaptureView { camera: Some(camera), connected: false, ..self }
    }

    /// A grab made `frame`, the oldest one, the held frame, or found none.
    pub open spec fn grabbed(self, frame: Option<FrameView>) -> CaptureView<D> {
        match frame {
            Some(f) => CaptureView { frame: Some(f), queue: self.queue.drop_first(), ..self },
            None => self,
        }
    }

    /// The held frame was freed.
    pub open spec fn frame_freed(self) -> CaptureView<D> {
        CaptureView { frame: None, ..self }
    }

    /// The capture was stopped.
    pub open spec fn stopped(self) -> CaptureView<D> {
        CaptureView { running: false, ..self }
    }

    /// The oldest frame on the queue.
    pub open spec fn oldest(self) -> Option<FrameView> {
        if self.queue.len() > 0 {
            Some(self.queue[0])
        } else {
            None
        }
    }
}

impl<D> CmlnCapture<D> {
    /// The worker begins: it takes the device out of the capture.
    pub fn worker_begin(&mut self) -> (start: WorkerStart<D>)
        ensures
            final(self)@ == old(self)@.worker_began(),
            final(self)@.camera is None,
            final(self)@.connected <==> old(self)@.connected && old(self)@.camera is Some,
            final(self)@.frame == old(self)@.frame,
            final(self)@.running == old(self)@.running,
            final(self)@.queue == old(self)@.queue,
            start == match old(self)@.camera {
                Some(camera) => WorkerStart::Stream { camera, capacity: STREAM_CAPACITY },
                None => WorkerStart::Exit,
            },
    {
        match self.camera.take() {
            Some(camera) => WorkerStart::Stream { camera, capacity: STREAM_CAPACITY },
            None => {
                self.connected = false;
                WorkerStart::Exit
            },
        }
    }

    /// The worker tried to start the stream. Returns whether it goes on; if
    /// not, it drops the device and no more frames come.
    pub fn worker_started(&mut self, ok: bool) -> (goes_on: bool)
        ensures
            final(self)@ == old(self)@.stream_started(ok),
            goes_on == ok,
            final(self)@.connected <==> old(self)@.connected && ok,
            final(self)@.camera == old(self)@.camera,
            final(self)@.frame == old(self)@.frame,
            final(self)@.running == old(self)@.running,
            final(self)@.queue == old(self)@.queue,
    {
        if !ok {
            self.connected = false;
        }
        ok
    }

    /// Tells the worker what to do in its next round.
    pub fn worker_poll(&self) -> (step: WorkerStep)
        ensures
            step == self@.worker_step(),
            step == WorkerStep::Receive <==> self@.running,
            step == WorkerStep::Finish <==> !self@.running,
    {
        if !self.running {
            WorkerStep::Finish
        } else {
            WorkerStep::Receive
        }
    }

    /// The worker looked for a payload. One that was there is queued as a
    /// frame; if there was none, the worker pauses for the microseconds
    /// returned.
    pub fn worker_received(&mut self, payload: Option<StreamPayload>) -> (pause: Option<u64>)
        ensures
            match payload {
                Some(p) => final(self)@ == old(self)@.queued(frame_of(p@)) && pause is None,
                None => final(self)@ == old(self)@ && pause == Some(POLL_PAUSE_MICROS),
            },
            payload matches Some(p) ==> final(self)@.queue == old(self)@.queue.push(
                frame_of(p@),
            ),
            final(self)@.connected == old(self)@.connected,
            final(self)@.camera == old(self)@.camera,
            final(self)@.frame == old(self)@.frame,
            final(self)@.running == old(self)@.running,
    {
        match payload {
            Some(p) => {
                self.queue.push_back(frame_from_payload(p));
                assert(self@ == old(self)@.queued(frame_of(p@)));
                None
            },
            None => Some(POLL_PAUSE_MICROS),
        }
    }

    /// The worker ends after a stop: it puts the device back, and no more
    /// frames come.
    pub fn worker_finish(&mut self, camera: D)
        ensures
            final(self)@ == old(self)@.worker_finished(camera),
            final(self)@.camera == Some(camera),
            !final(self)@.connected,
            final(self)@.frame == old(self)@.frame,
            final(self)@.running == old(self)@.running,
            final(self)@.queue == old(self)@.queue,
    {
        self.camera = Some(camera);
        self.connected = false;
    }

    /// The worker breaks off without handing the device back: no more frames
    /// come. After any other end this changes nothing.
    pub fn worker_lost(&mut self)
        ensures
            final(self)@ == old(self)@.worker_lost(),
            !final(self)@.connected,
            final(self)@.camera == old(self)@.camera,
            final(self)@.frame == old(self)@.frame,
            final(self)@.running == old(self)@.running,
            final(self)@.queue == old(self)@.queue,
    {
        self.connected = false;
    }

    /// The bytes of the held frame. They stay where they are until another
    /// frame is grabbed or this one is freed.
    pub fn frame_data(&self) -> (data: Option<&[u8]>)
        ensures
            match self@.frame {
                Some(f) => data matches Some(d) && d@ == f.data,
                None => data is None,
            },
    {
        match &self.frame {
            Some(f) => Some(f.data.as_slice()),
            None => None,
        }
    }

    /// Moves the oldest frame off the queue, if there is one, makes it the
    /// held frame and writes its fields to those outputs that there are.
    fn grab(
        &mut self,
        out_width: Option<&mut u32>,
        out_height: Option<&mut u32>,
        out_data_len: Option<&mut u32>,
        out_timestamp_us: Option<&mut u64>,
        out_frame_id: Option<&mut u64>,
    ) -> (grabbed: bool)
        ensures
            grabbed == (old(self)@.oldest() is Some),
            final(self)@ == old(self)@.grabbed(old(self)@.oldest()),
            out_width matches Some(o) ==> *final(o) == width_out(old(self)@.oldest(), *o),
            out_height matches Some(o) ==> *final(o) == height_out(old(self)@.oldest(), *o),
            out_data_len matches Some(o) ==> *final(o) == data_len_out(old(self)@.oldest(), *o),
            out_timestamp_us matches Some(o) ==> *final(o) == timestamp_us_out(
                old(self)@.oldest(),
                *o,
            ),
            out_frame_id matches Some(o) ==> *final(o) == frame_id_out(old(self)@.oldest(), *o),
    {
        match self.queue.pop_front() {
            Some(frame) => {
                assert(frame_views(old(self).queue@)[0] == frame@);
                if let Some(o) = out_width {
                    *o = frame.width;
                }
                if let Some(o) = out_height {
                    *o = frame.height;
                }
                if let Some(o) = out_data_len {
                    *o = to_u32(frame.data.len());
                }
                if let Some(o) = out_timestamp_us {
                    *o = frame.timestamp_us;
                }
                if let Some(o) = out_frame_id {
                    *o = frame.id;
                }
                self.frame = Some(frame);
                assert(self@ == old(self)@.grabbed(old(self)@.oldest()));
                true
            },
            None => false,
        }
    }
}

// ---------------------------------------------------------------------------
// Grabbing
// ---------------------------------------------------------------------------

/// The width that a grab writes over `before`: that of the grabbed frame.
/// Without one the output keeps its value.
pub open spec fn width_out(frame: Option<FrameView>, before: u32) -> u32 {
    match frame {
        Some(f) => f.width,
        None => before,
    }
}

/// The height that a grab writes over `before`.
pub open spec fn height_out(frame: Option<FrameView>, before: u32) -> u32 {
    match frame {
        Some(f) => f.height,
        None => before,
    }
}

/// The data length that a grab writes over `before`.
pub open spec fn data_len_out(frame: Option<FrameView>, before: u32) -> u32 {
    match frame {
        Some(f) => low32(f.data.len() as int),
        None => before,
    }
}

/// The timestamp that a grab writes over `before`.
pub open spec fn timestamp_us_out(frame: Option<FrameView>, before: u64) -> u64 {
    match frame {
        Some(f) => f.timestamp_us,
        None => before,
    }
}

/// The frame identifier that a grab writes over `before`.
pub open spec fn frame_id_out(frame: Option<FrameView>, before: u64) -> u64 {
    match frame {
        Some(f) => f.id,
        None => before,
    }
}

/// The frame that a grab takes: the oldest one, while the capture is running.
pub open spec fn grab_frame<D>(cap: Option<CaptureView<D>>) -> Option<FrameView> {
    match cap {
        Some(c) if c.running => c.oldest(),
        _ => None,
    }
}

/// The status of a grab without waiting.
pub open spec fn async_status<D>(cap: Option<CaptureView<D>>) -> i32 {
    match cap {
        None => CMLN_ERR_NULL_HANDLE,
        Some(c) => if !c.running {
            CMLN_ERR_CAPTURE_STOPPED
        } else if c.queue.len() > 0 {
            CMLN_FRAME_READY
        } else {
            CMLN_OK
        },
    }
}

/// Grabs the oldest frame without waiting for one. The grabbed frame becomes
/// the held frame; `frame_data` gives its bytes.
pub fn cmln_capture_async<D>(
    cap: Option<&mut CmlnCapture<D>>,
    out_width: Option<&mut u32>,
    out_height: Option<&mut u32>,
    out_data_len: Option<&mut u32>,
    out_timestamp_us: Option<&mut u64>,
    out_frame_id: Option<&mut u64>,
) -> (status: i32)
    ensures
        status == async_status(capture_view(cap)),
        cap matches Some(c) ==> final(c)@ == c@.grabbed(grab_frame(capture_view(cap))),
        out_width matches Some(o) ==> *final(o) == width_out(grab_frame(capture_view(cap)), *o),
        out_height matches Some(o) ==> *final(o) == height_out(
            grab_frame(capture_view(cap)),
            *o,
        ),
        out_data_len matches Some(o) ==> *final(o) == data_len_out(
            grab_frame(capture_view(cap)),
            *o,
        ),
        out_timestamp_us matches Some(o) ==> *final(o) == timestamp_us_out(
            grab_frame(capture_view(cap)),
            *o,
        ),
        out_frame_id matches Some(o) ==> *final(o) == frame_id_out(
            grab_frame(capture_view(cap)),
            *o,
        ),
        cap is None ==> status == CMLN_ERR_NULL_HANDLE,
        cap matches Some(c) ==> status == if !c@.running {
            CMLN_ERR_CAPTURE_STOPPED
        } else if c@.queue.len() > 0 {
            CMLN_FRAME_READY
        } else {
            CMLN_OK
        },
        cap matches Some(c) ==> {
            &&& final(c)@.running == c@.running
            &&& final(c)@.connected == c@.connected
            &&& final(c)@.camera == c@.camera
            &&& if c@.running && c@.queue.len() > 0 {
                &&& final(c)@.frame == Some(c@.queue[0])
                &&& final(c)@.queue == c@.queue.skip(1)
            } else {
                &&& final(c)@.frame == c@.frame
                &&& final(c)@.queue == c@.queue
            }
        },
        out_width matches Some(o) ==> *final(o) == match cap {
            Some(c) if c@.running && c@.queue.len() > 0 => c@.queue[0].width,
            _ => *o,
        },
        out_height matches Some(o) ==> *final(o) == match cap {
            Some(c) if c@.running && c@.queue.len() > 0 => c@.queue[0].height,
            _ => *o,
        },
        out_timestamp_us matches Some(o) ==> *final(o) == match cap {
            Some(c) if c@.running && c@.queue.len() > 0 => c@.queue[0].timestamp_us,
            _ => *o,
        },
        out_frame_id matches Some(o) ==> *final(o) == match cap {
            Some(c) if c@.running && c@.queue.len() > 0 => c@.queue[0].id,
            _ => *o,
        },
        out_data_len matches Some(o) ==> *final(o) as int == match cap {
            Some(c) if c@.running && c@.queue.len() > 0 => c@.queue[0].data.len() as int
                % 0x1_0000_0000,
            _ => *o as int,
        },
{
    match cap {
        None => CMLN_ERR_NULL_HANDLE,
        Some(c) => {
            if !c.running {
                return CMLN_ERR_CAPTURE_STOPPED;
            }
            if c.grab(out_width, out_height, out_data_len, out_timestamp_us, out_frame_id) {
                CMLN_FRAME_READY
            } else {
                CMLN_OK
            }
        },
    }
}

/// What a waiting grab does next.
#[derive(Clone, Copy, Debug, PartialEq, Eq, Structural)]
pub enum BlockStep {
    /// Return this status.
    Return(i32),
    /// Wait until the capture has changed, and try again.
    Wait,
}

/// What a waiting grab does: of a running capture it waits as long as there
/// is no frame and one may still come.
pub open spec fn block_step<D>(cap: Option<CaptureView<D>>) -> BlockStep {
    match cap {
        None => BlockStep::Return(CMLN_ERR_NULL_HANDLE),
        Some(c) => if !c.running {
            BlockStep::Return(CMLN_ERR_CAPTURE_STOPPED)
        } else if c.queue.len() > 0 {
            BlockStep::Return(CMLN_FRAME_READY)
        } else if c.connected {
            BlockStep::Wait
        } else {
            BlockStep::Return(CMLN_OK)
        },
    }
}

/// Grabs the oldest frame, or says whether to wait for one. The grabbed frame
/// becomes the held frame; `frame_data` gives its bytes.
pub fn cmln_capture_block<D>(
    cap: Option<&mut CmlnCapture<D>>,
    out_width: Option<&mut u32>,
    out_height: Option<&mut u32>,
    out_data_len: Option<&mut u32>,
    out_timestamp_us: Option<&mut u64>,
    out_frame_id: Option<&mut u64>,
) -> (step: BlockStep)
    ensures
        step == block_step(capture_view(cap)),
        cap matches Some(c) ==> final(c)@ == c@.grabbed(grab_frame(capture_view(cap))),
        out_width matches Some(o) ==> *final(o) == width_out(grab_frame(capture_view(cap)), *o),
        out_height matches Some(o) ==> *final(o) == height_out(
            grab_frame(capture_view(cap)),
            *o,
        ),
        out_data_len matches Some(o) ==> *final(o) == data_len_out(
            grab_frame(capture_view(cap)),
            *o,
        ),
        out_timestamp_us matches Some(o) ==> *final(o) == timestamp_us_out(
            grab_frame(capture_view(cap)),
            *o,
        ),
        out_frame_id matches Some(o) ==> *final(o) == frame_id_out(
            grab_frame(capture_view(cap)),
            *o,
        ),
        cap is None ==> step == BlockStep::Return(CMLN_ERR_NULL_HANDLE),
        cap matches Some(c) ==> step == if !c@.running {
            BlockStep::Return(CMLN_ERR_CAPTURE_STOPPED)
        } else if c@.queue.len() > 0 {
            BlockStep::Return(CMLN_FRAME_READY)
        } else if c@.connected {
            BlockStep::Wait
        } else {
            BlockStep::Return(CMLN_OK)
        },
        cap matches Some(c) ==> {
            &&& final(c)@.running == c@.running
            &&& final(c)@.connected == c@.connected
            &&& final(c)@.camera == c@.camera
            &&& if c@.running && c@.queue.len() > 0 {
                &&& final(c)@.frame == Some(c@.queue[0])
                &&& final(c)@.queue == c@.queue.skip(1)
            } else {
                &&& final(c)@.frame == c@.frame
                &&& final(c)@.queue == c@.queue
            }
        },
        out_width matches Some(o) ==> *final(o) == match cap {
            Some(c) if c@.running && c@.queue.len() > 0 => c@.queue[0].width,
            _ => *o,
        },
        out_height matches Some(o) ==> *final(o) == match cap {
            Some(c) if c@.running && c@.queue.len() > 0 => c@.queue[0].height,
            _ => *o,
        },
        out_timestamp_us matches Some(o) ==> *final(o) == match cap {
            Some(c) if c@.running && c@.queue.len() > 0 => c@.queue[0].timestamp_us,
            _ => *o,
        },
        out_frame_id matches Some(o) ==> *final(o) == match cap {
            Some(c) if c@.running && c@.queue.len() > 0 => c@.queue[0].id,
            _ => *o,
        },
        out_data_len matches Some(o) ==> *final(o) as int == match cap {
            Some(c) if c@.running && c@.queue.len() > 0 => c@.queue[0].data.len() as int
                % 0x1_0000_0000,
            _ => *o as int,
        },
{
    match cap {
        None => BlockStep::Return(CMLN_ERR_NULL_HANDLE),
        Some(c) => {
            if !c.running {
                return BlockStep::Return(CMLN_ERR_CAPTURE_STOPPED);
            }
            if c.grab(out_width, out_height, out_data_len, out_timestamp_us, out_frame_id) {
                BlockStep::Return(CMLN_FRAME_READY)
            } else if c.connected {
                BlockStep::Wait
            } else {
                BlockStep::Return(CMLN_OK)
            }
        },
    }
}

/// Frees the held frame.
pub fn cmln_capture_free_frame<D>(cap: Option<&mut CmlnCapture<D>>)
    ensures
        cap matches Some(c) ==> final(c)@ == c@.frame_freed(),
        cap matches Some(c) ==> {
            &&& final(c)@.frame is None
            &&& final(c)@.running == c@.running
            &&& final(c)@.queue == c@.queue
            &&& final(c)@.connected == c@.connected
            &&& final(c)@.camera == c@.camera
        },
{
    if let Some(c) = cap {
        c.frame = None;
    }
}

// ---------------------------------------------------------------------------
// Stop and destroy
// ---------------------------------------------------------------------------

/// Stops a capture. The worker sees this in its next round, and a grab that
/// waits sees it when it tries again.
pub fn cmln_capture_stop<D>(cap: Option<&mut CmlnCapture<D>>)
    ensures
        cap matches Some(c) ==> final(c)@ == c@.stopped(),
        cap matches Some(c) ==> {
            &&& !final(c)@.running
            &&& final(c)@.frame == c@.frame
            &&& final(c)@.queue == c@.queue
            &&& final(c)@.connected == c@.connected
            &&& final(c)@.camera == c@.camera
        },
{
    if let Some(c) = cap {
        c.running = false;
    }
}

/// What destroying a capture does.
#[derive(Clone, Copy, Debug, PartialEq, Eq, Structural)]
pub enum DestroyStep {
    /// Nothing.
    Return,
    /// Let the worker end, drop the capture with what it holds, and wait for
    /// the device to be released.
    Release { millis: u64 },
}

/// Destroys a capture: stops it, and says what is left to do.
pub fn cmln_capture_destroy<D>(cap: Option<&mut CmlnCapture<D>>) -> (step: DestroyStep)
    ensures
        match cap {
            Some(c) => {
                &&& final(c)@ == c@.stopped()
                &&& step == (DestroyStep::Release { millis: RELEASE_MILLIS })
            },
            None => step == DestroyStep::Return,
        },
        cap matches Some(c) ==> {
            &&& !final(c)@.running
            &&& final(c)@.frame == c@.frame
            &&& final(c)@.queue == c@.queue
            &&& final(c)@.connected == c@.connected
            &&& final(c)@.camera == c@.camera
        },
{
    match cap {
        None => DestroyStep::Return,
        Some(c) => {
            c.running = false;
            DestroyStep::Release { millis: RELEASE_MILLIS }
        },
    }
}

} // verus!

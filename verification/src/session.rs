//! One camera's session, from its handle through a capture to the end of the
//! capture's worker: the state that the operations act on together, and what
//! holds in every such state.

use crate::camera::{
    load_context_first, open_first, CamInfoView, CameraView, LoadContextStep, OpenStep,
};
use crate::capture::{
    async_status, block_step, capture_from, grab_frame, BlockStep, CaptureView, WorkerStep,
};
use crate::frame::{frame_of, FrameView, PayloadView};
use crate::status::{
    CMLN_ERR_ALREADY_OPENED, CMLN_ERR_CAPTURE_STOPPED, CMLN_ERR_NOT_OPENED, CMLN_OK,
};
use vstd::calc;
use vstd::prelude::*;

verus! {

/// Where the capture's worker is.
pub enum Worker<D> {
    /// It has not begun.
    Absent,
    /// It has the device and is starting the stream.
    Starting(D),
    /// It has the device and the stream is on.
    Streaming(D),
    /// It has ended; `failed` if it could not start the stream or broke off.
    Ended { failed: bool },
}

/// A camera handle, the capture started from it, and the capture's worker.
#[verifier::ext_equal]
pub struct Session<D> {
    pub cam: CameraView<D>,
    pub cap: Option<CaptureView<D>>,
    pub worker: Worker<D>,
}

/// What can happen in a session.
pub enum Event {
    /// An attempt to open the device, handed to `open_next`.
    OpenTried(bool),
    /// The device's answer to a close, handed to `close_done`.
    CloseTried(bool),
    /// `cmln_capture_start` on the camera handle.
    Start,
    /// The worker's `worker_begin`.
    WorkerBegin,
    /// The worker's `worker_started`.
    StreamStarted(bool),
    /// The worker's `worker_received`.
    Received(Option<PayloadView>),
    /// The worker's `worker_finish`, which follows when `worker_poll` says so.
    WorkerFinish,
    /// The worker's `worker_lost`.
    WorkerLost,
    /// `cmln_capture_async`.
    Async,
    /// `cmln_capture_block`.
    Block,
    /// `cmln_capture_free_frame`.
    FreeFrame,
    /// `cmln_capture_stop`, or the stop in `cmln_capture_destroy`.
    Stop,
}

impl<D> Session<D> {
    /// A session with a fresh camera handle.
    pub open spec fn new(info: CamInfoView, camera: D) -> Session<D> {
        Session {
            cam: CameraView { info, camera: Some(camera), opened: false },
            cap: None,
            worker: Worker::Absent,
        }
    }

    /// The session after an event. One that cannot happen in this state
    /// changes nothing.
    pub open spec fn step(self, event: Event) -> Session<D> {
        match (event, self.cap) {
            (Event::OpenTried(ok), _) => if open_first(Some(self.cam)) is Close {
                Session { cam: self.cam.open_tried(ok), ..self }
            } else {
                self
            },
            (Event::CloseTried(ok), _) => if self.cam.camera is Some {
                Session { cam: self.cam.close_tried(ok), ..self }
            } else {
                self
            },
            (Event::Start, _) => match capture_from(Some(self.cam)) {
                Some(started) => Session {
                    cam: self.cam.taken(),
                    cap: Some(started),
                    worker: Worker::Absent,
                },
                None => Session { cam: self.cam.taken(), ..self },
            },
            (_, None) => self,
            (Event::WorkerBegin, Some(cap)) => if self.worker is Absent {
                Session {
                    cap: Some(cap.worker_began()),
                    worker: match cap.camera {
                        Some(camera) => Worker::Starting(camera),
                        None => Worker::Ended { failed: true },
                    },
                    ..self
                }
            } else {
                self
            },
            (Event::StreamStarted(ok), Some(cap)) => match self.worker {
                Worker::Starting(camera) => Session {
                    cap: Some(cap.stream_started(ok)),
                    worker: if ok {
                        Worker::Streaming(camera)
                    } else {
                        Worker::Ended { failed: true }
                    },
                    ..self
                },
                _ => self,
            },
            (Event::Received(payload), Some(cap)) => match payload {
                Some(p) if self.worker is Streaming => Session {
                    cap: Some(cap.queued(frame_of(p))),
                    ..self
                },
                _ => self,
            },
            (Event::WorkerFinish, Some(cap)) => match self.worker {
                Worker::Streaming(camera) if cap.worker_step() is Finish => Session {
                    cap: Some(cap.worker_finished(camera)),
                    worker: Worker::Ended { failed: false },
                    ..self
                },
                _ => self,
            },
            (Event::WorkerLost, Some(cap)) => if self.worker_camera() is Some {
                Session {
                    cap: Some(cap.worker_lost()),
                    worker: Worker::Ended { failed: true },
                    ..self
                }
            } else {
                self
            },
            (Event::Async, Some(cap)) => Session {
                cap: Some(cap.grabbed(grab_frame(Some(cap)))),
                ..self
            },
            (Event::Block, Some(cap)) => Session {
                cap: Some(cap.grabbed(grab_frame(Some(cap)))),
                ..self
            },
            (Event::FreeFrame, Some(cap)) => Session { cap: Some(cap.frame_freed()), ..self },
            (Event::Stop, Some(cap)) => Session { cap: Some(cap.stopped()), ..self },
        }
    }

    /// The session after a sequence of events.
    pub open spec fn run(self, events: Seq<Event>) -> Session<D>
        decreases events.len(),
    {
        if events.len() == 0 {
            self
        } else {
            self.run(events.drop_last()).step(events.last())
        }
    }

    /// The frame that an event puts on the queue.
    pub open spec fn frame_in(self, event: Event) -> Option<FrameView> {
        match event {
            Event::Received(Some(p)) if self.cap is Some && self.worker is Streaming => Some(
                frame_of(p),
            ),
            _ => None,
        }
    }

    /// The frame that an event delivers.
    pub open spec fn frame_out(self, event: Event) -> Option<FrameView> {
        match event {
            Event::Async => grab_frame(self.cap),
            Event::Block => grab_frame(self.cap),
            _ => None,
        }
    }

    /// All frames that were put on the queue, in order.
    pub open spec fn frames_in(self, events: Seq<Event>) -> Seq<FrameView>
        decreases events.len(),
    {
        if events.len() == 0 {
            Seq::empty()
        } else {
            self.frames_in(events.drop_last()) + as_seq(
                self.run(events.drop_last()).frame_in(events.last()),
            )
        }
    }

    /// All frames that were delivered, in order.
    pub open spec fn frames_out(self, events: Seq<Event>) -> Seq<FrameView>
        decreases events.len(),
    {
        if events.len() == 0 {
            Seq::empty()
        } else {
            self.frames_out(events.drop_last()) + as_seq(
                self.run(events.drop_last()).frame_out(events.last()),
            )
        }
    }

    /// The frames still on the queue.
    pub open spec fn queue(self) -> Seq<FrameView> {
        match self.cap {
            Some(cap) => cap.queue,
            None => Seq::empty(),
        }
    }

    /// The device that the worker has.
    pub open spec fn worker_camera(self) -> Option<D> {
        match self.worker {
            Worker::Starting(camera) => Some(camera),
            Worker::Streaming(camera) => Some(camera),
            _ => None,
        }
    }

    /// The device that the capture has.
    pub open spec fn capture_camera(self) -> Option<D> {
        match self.cap {
            Some(cap) => cap.camera,
            None => None,
        }
    }

    /// Who has the device, and whether the worker may still queue frames, by
    /// where the session is.
    spec fn consistent(self, camera: D) -> bool {
        match self.cap {
            None => self.cam.camera == Some(camera) && self.worker is Absent,
            Some(cap) => {
                &&& self.cam.camera is None
                &&& !self.cam.opened
                &&& cap.connected == !(self.worker is Ended)
                &&& match self.worker {
                    Worker::Absent => cap.camera == Some(camera),
                    Worker::Starting(c) => c == camera && cap.camera is None,
                    Worker::Streaming(c) => c == camera && cap.camera is None,
                    Worker::Ended { failed } => cap.camera == if failed {
                        None
                    } else {
                        Some(camera)
                    },
                }
            },
        }
    }
}

/// The sequence of the one item, or of none.
pub open spec fn as_seq<T>(item: Option<T>) -> Seq<T> {
    match item {
        Some(t) => seq![t],
        None => Seq::empty(),
    }
}

proof fn lemma_consistent<D>(info: CamInfoView, camera: D, events: Seq<Event>)
    ensures
        Session::new(info, camera).run(events).consistent(camera),
        Session::new(info, camera).run(events).cam.info == info,
    decreases events.len(),
{
    if events.len() > 0 {
        lemma_consistent(info, camera, events.drop_last());
    }
}

/// In every state of a session the device that the handle was made with is in
/// exactly one hand: the camera handle's before a capture starts, then the
/// capture's, the worker's, and the capture's again. It is gone only when the
/// worker could not start the stream or broke off. The camera's identity never
/// changes.
pub proof fn law_device_in_one_hand<D>(info: CamInfoView, camera: D, events: Seq<Event>)
    ensures
        ({
            let s = Session::new(info, camera).run(events);
            let in_handle = s.cam.camera == Some(camera);
            let in_capture = s.capture_camera() == Some(camera);
            let in_worker = s.worker_camera() == Some(camera);
            &&& s.cam.info == info
            &&& s.cam.camera is Some ==> in_handle
            &&& s.capture_camera() is Some ==> in_capture
            &&& s.worker_camera() is Some ==> in_worker
            &&& !(in_handle && in_capture)
            &&& !(in_handle && in_worker)
            &&& !(in_capture && in_worker)
            &&& in_handle <==> s.cap is None
            &&& in_worker <==> s.worker is Starting || s.worker is Streaming
            &&& in_capture <==> s.cap is Some && (s.worker is Absent || s.worker == (Worker::<
                D,
            >::Ended { failed: false }))
            &&& s.worker == (Worker::<D>::Ended { failed: true }) <==> !in_handle && !in_capture
                && !in_worker
        }),
{
    lemma_consistent(info, camera, events);
}

/// While a capture is running and has no frame, a waiting grab waits exactly
/// until the worker has ended: it never waits for a frame that cannot come,
/// and it gives up only when none can.
pub proof fn law_wait_is_for_a_live_worker<D>(info: CamInfoView, camera: D, events: Seq<Event>)
    ensures
        ({
            let s = Session::new(info, camera).run(events);
            &&& block_step(s.cap) == BlockStep::Wait ==> !(s.worker is Ended)
            &&& block_step(s.cap) == BlockStep::Return(CMLN_OK) ==> s.worker is Ended
            &&& s.cap matches Some(cap) ==> cap.running && cap.queue.len() == 0 ==> (block_step(
                s.cap,
            ) == BlockStep::Wait <==> !(s.worker is Ended))
        }),
{
    lemma_consistent(info, camera, events);
}

/// In every state a camera that is still in its handle can be opened exactly
/// if it is not opened, and its context can be loaded exactly if it is; the
/// other request is answered by the status for that. A handle without its
/// device is not opened.
pub proof fn law_opened_or_not<D>(info: CamInfoView, camera: D, events: Seq<Event>)
    ensures
        ({
            let cam = Session::new(info, camera).run(events).cam;
            &&& cam.opened ==> cam.camera is Some
            &&& cam.camera is Some && cam.opened ==> {
                &&& open_first(Some(cam)) == OpenStep::Return(CMLN_ERR_ALREADY_OPENED)
                &&& load_context_first(Some(cam)) == LoadContextStep::Load
            }
            &&& cam.camera is Some && !cam.opened ==> {
                &&& open_first(Some(cam)) == OpenStep::Close
                &&& load_context_first(Some(cam)) == LoadContextStep::Return(CMLN_ERR_NOT_OPENED)
            }
        }),
{
    lemma_consistent(info, camera, events);
}

/// Only opening, closing and starting a capture change whether a camera is
/// opened, and opening and closing only when the device carries them out.
pub proof fn law_opened_changes_by_device<D>(s: Session<D>, event: Event)
    ensures
        s.step(event).cam.opened && !s.cam.opened ==> event == Event::OpenTried(true),
        !s.step(event).cam.opened && s.cam.opened ==> event == Event::CloseTried(true) || event
            == Event::Start,
{
}

/// Frames are delivered in the order in which they were received, each once
/// and none left out: those delivered, followed by those still on the queue,
/// are those received.
pub proof fn law_frames_in_order<D>(info: CamInfoView, camera: D, events: Seq<Event>)
    ensures
        ({
            let s = Session::new(info, camera);
            s.frames_out(events) + s.run(events).queue() == s.frames_in(events)
        }),
    decreases events.len(),
{
    let s = Session::new(info, camera);
    if events.len() > 0 {
        law_frames_in_order(info, camera, events.drop_last());
        lemma_consistent(info, camera, events.drop_last());
        let before = s.run(events.drop_last());
        let after = s.run(events);
        let event = events.last();
        assert(after == before.step(event));
        lemma_queue_step(before, event);
        let out = s.frames_out(events.drop_last());
        calc! {
            (==)
            s.frames_out(events) + after.queue(); {}
            (out + as_seq(before.frame_out(event))) + after.queue(); {
                assert((out + as_seq(before.frame_out(event))) + after.queue() =~= out + (as_seq(
                    before.frame_out(event),
                ) + after.queue()));
            }
            out + (as_seq(before.frame_out(event)) + after.queue()); {}
            out + (before.queue() + as_seq(before.frame_in(event))); {
                assert(out + (before.queue() + as_seq(before.frame_in(event))) =~= (out
                    + before.queue()) + as_seq(before.frame_in(event)));
            }
            (out + before.queue()) + as_seq(before.frame_in(event)); {}
            s.frames_in(events);
        }
    } else {
        assert(s.frames_out(events) + s.run(events).queue() =~= s.frames_in(events));
    }
}

/// One event: what it delivers and leaves on the queue is what was on the
/// queue and what it adds.
proof fn lemma_queue_step<D>(s: Session<D>, event: Event)
    requires
        s.cap is Some ==> s.cam.camera is None,
    ensures
        as_seq(s.frame_out(event)) + s.step(event).queue() == s.queue() + as_seq(
            s.frame_in(event),
        ),
{
    let left = as_seq(s.frame_out(event)) + s.step(event).queue();
    let right = s.queue() + as_seq(s.frame_in(event));
    assert(left =~= right);
}

/// Only a stop ends a capture: whatever else happens, a running capture goes
/// on running and its worker is told to receive.
pub proof fn law_only_stop_ends_a_capture<D>(s: Session<D>, event: Event)
    requires
        s.cap matches Some(cap) && cap.running,
        !(event is Stop),
    ensures
        s.step(event).cap matches Some(cap) && cap.running && cap.worker_step()
            == WorkerStep::Receive,
{
}

/// In a session in which nobody stopped anything, the capture is running, if
/// there is one: no grab is answered that it was stopped.
pub proof fn law_capture_runs_until_stopped<D>(info: CamInfoView, camera: D, events: Seq<Event>)
    requires
        forall|i: int| 0 <= i < events.len() ==> !(#[trigger] events[i] is Stop),
    ensures
        ({
            let s = Session::new(info, camera).run(events);
            &&& s.cap matches Some(cap) ==> cap.running && cap.worker_step() == WorkerStep::Receive
            &&& async_status(s.cap) != CMLN_ERR_CAPTURE_STOPPED
            &&& block_step(s.cap) != BlockStep::Return(CMLN_ERR_CAPTURE_STOPPED)
        }),
    decreases events.len(),
{
    if events.len() > 0 {
        let before = events.drop_last();
        assert forall|i: int| 0 <= i < before.len() implies !(#[trigger] before[i] is Stop) by {
            assert(before[i] == events[i]);
        }
        law_capture_runs_until_stopped(info, camera, before);
        assert(events.last() == events[events.len() - 1]);
    }
}

/// A stream ends only by a stop or by the loss of its worker: whatever else
/// happens, the worker of a running capture keeps streaming on its device, and
/// every payload that it receives is queued.
pub proof fn law_stream_goes_on<D>(s: Session<D>, event: Event)
    requires
        s.cap matches Some(cap) && cap.running,
        s.cam.camera is None,
        s.worker is Streaming,
        !(event is Stop) && !(event is WorkerLost),
    ensures
        s.step(event).worker == s.worker,
        event matches Event::Received(Some(p)) ==> s.step(event).queue() == s.queue().push(
            frame_of(p),
        ),
{
}

/// A capture of an opened camera delivers: from opening over the start to a
/// streaming worker, the next payload received is the frame that a grab
/// takes, whether or not the camera was opened before the start.
pub proof fn law_started_capture_delivers<D>(
    info: CamInfoView,
    camera: D,
    opened: bool,
    payload: PayloadView,
)
    ensures
        ({
            let s = Session::new(info, camera).step(Event::OpenTried(opened)).step(
                Event::Start,
            ).step(Event::WorkerBegin).step(Event::StreamStarted(true)).step(
                Event::Received(Some(payload)),
            );
            &&& s.frame_out(Event::Async) == Some(frame_of(payload))
            &&& s.frame_out(Event::Block) == Some(frame_of(payload))
            &&& s.worker == Worker::Streaming(camera)
        }),
{
}

/// Freeing the held frame between two grabs changes nothing of what the second
/// one delivers, nor of what is queued.
pub proof fn law_free_between_grabs<D>(s: Session<D>)
    requires
        s.cap is Some,
    ensures
        ({
            let freed = s.step(Event::FreeFrame);
            &&& freed.frame_out(Event::Async) == s.frame_out(Event::Async)
            &&& freed.frame_out(Event::Block) == s.frame_out(Event::Block)
            &&& async_status(freed.cap) == async_status(s.cap)
            &&& block_step(freed.cap) == block_step(s.cap)
            &&& freed.queue() == s.queue()
            &&& freed.worker == s.worker
            &&& freed.capture_camera() == s.capture_camera()
            &&& freed.cap->0.frame is None
        }),
{
}

/// A stopped capture stays stopped, whatever happens: no grab ever gives a
/// frame of it again or waits for one, and its worker is told to finish in
/// every round.
pub proof fn law_stop_is_final<D>(s: Session<D>, events: Seq<Event>)
    requires
        s.cam.camera is None,
        s.cap matches Some(cap) && !cap.running,
    ensures
        s.run(events).cam.camera is None,
        s.run(events).cap matches Some(cap) && !cap.running,
        async_status(s.run(events).cap) == CMLN_ERR_CAPTURE_STOPPED,
        block_step(s.run(events).cap) == BlockStep::Return(CMLN_ERR_CAPTURE_STOPPED),
        s.run(events).cap->0.worker_step() == WorkerStep::Finish,
        grab_frame(s.run(events).cap) is None,
    decreases events.len(),
{
    if events.len() > 0 {
        law_stop_is_final(s, events.drop_last());
    }
}

/// Once a capture is stopped its worker ends, wherever it is: it begins if it
/// has not, it starts the stream or fails to, and it finishes in its next
/// round. The device is back in the capture then, unless the stream could not
/// be started or the worker had failed before. The frames stay where they are,
/// and a waiting grab is refused without waiting.
pub proof fn law_worker_ends_after_stop<D>(s: Session<D>, ok: bool)
    requires
        s.cap is Some,
    ensures
        ({
            let e = s.step(Event::Stop).step(Event::WorkerBegin).step(
                Event::StreamStarted(ok),
            ).step(Event::WorkerFinish);
            &&& e.cap is Some
            &&& e.queue() == s.queue()
            &&& block_step(e.cap) == BlockStep::Return(CMLN_ERR_CAPTURE_STOPPED)
            &&& match s.worker {
                Worker::Absent => e.worker == (Worker::<D>::Ended {
                    failed: !(ok && s.capture_camera() is Some),
                }) && e.capture_camera() == if ok {
                    s.capture_camera()
                } else {
                    None
                },
                Worker::Starting(camera) => e.worker == (Worker::<D>::Ended { failed: !ok })
                    && e.capture_camera() == if ok {
                    Some(camera)
                } else {
                    s.capture_camera()
                },
                Worker::Streaming(camera) => e.worker == (Worker::<D>::Ended { failed: false })
                    && e.capture_camera() == Some(camera),
                Worker::Ended { failed } => e.worker == s.worker && e.capture_camera()
                    == s.capture_camera(),
            }
        }),
{
}

/// The held frame changes only when a grab delivers another one, when it is
/// freed, or when a capture starts.
pub proof fn law_held_frame_is_stable<D>(s: Session<D>, event: Event)
    requires
        s.cap is Some,
        !(event is FreeFrame) && !(event is Start),
        s.frame_out(event) is None,
    ensures
        s.step(event).cap is Some,
        s.step(event).cap->0.frame == s.cap->0.frame,
{
}

/// A grab that delivers a frame makes that frame the held one.
pub proof fn law_grabbed_frame_is_held<D>(s: Session<D>, event: Event)
    requires
        s.frame_out(event) is Some,
    ensures
        s.step(event).cap is Some,
        s.step(event).cap->0.frame == s.frame_out(event),
{
}

} // verus!

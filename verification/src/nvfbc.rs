//! The driver around the vendor's capture interface: the consumer counts
//! its requests, each becomes one command, and a worker polls the interface
//! once for each command and hands over what the consumer's callback makes
//! of the frame.

use vstd::prelude::*;
use crate::capture::Inbox;
use crate::capture::ProducerStep;
use crate::capture::SendOutcome;
use crate::frame::DrmFormat;
use crate::frame::FrameFormat;
use crate::frame::MemPtrFrame;
use crate::frame::WlxFrame;
use crate::frame::DRM_FORMAT_ARGB8888;
use crate::WlxCapture;

verus! {

/// The frame that a poll of the capture interface gives: the image at
/// `ptr`, `size` bytes long and `width` by `height` pixels, four bytes to a
/// pixel with alpha.
pub open spec fn polled_frame(width: u32, height: u32, ptr: usize, size: usize) -> MemPtrFrame {
    MemPtrFrame {
        format: FrameFormat { width, height, fourcc: DRM_FORMAT_ARGB8888, modifier: 0 },
        ptr,
        size,
        mouse: None,
    }
}

/// Makes the frame of a poll. See `polled_frame`.
pub fn captured_frame(width: u32, height: u32, ptr: usize, size: usize) -> (frame: WlxFrame)
    ensures
        frame == WlxFrame::MemPtr(polled_frame(width, height, ptr, size)),
{
    WlxFrame::MemPtr(
        MemPtrFrame {
            format: FrameFormat { width, height, fourcc: DRM_FORMAT_ARGB8888, modifier: 0 },
            ptr,
            size,
            mouse: None,
        },
    )
}

/// The consumer's side of the driver. `U` is the data that the consumer's
/// callback works with, `R` what the callback makes of a frame.
pub struct NVFBCCapture<U, R> {
    started: bool,
    failed: bool,
    requests: usize,
    inbox: Inbox<R>,
    _dummy: Option<Box<U>>,
}

/// What an `NVFBCCapture` holds, as contracts see it.
pub struct NVFBCCaptureState<R> {
    /// `init` has been called.
    pub started: bool,
    /// The worker could not start or has ended.
    pub failed: bool,
    /// The number of commands that the caller has to send the worker, one
    /// for each request.
    pub requests: nat,
    /// What has arrived and was not received, oldest first.
    pub arrived: Seq<R>,
}

impl<U, R> View for NVFBCCapture<U, R> {
    type V = NVFBCCaptureState<R>;

    closed spec fn view(&self) -> NVFBCCaptureState<R> {
        NVFBCCaptureState {
            started: self.started,
            failed: self.failed,
            requests: self.requests as nat,
            arrived: self.inbox@,
        }
    }
}

impl<R> NVFBCCaptureState<R> {
    /// The view after a frame was requested: one more command is owed.
    /// Before `init` there is no worker to command. The count stays where
    /// the machine cannot count further.
    pub open spec fn requested(self) -> NVFBCCaptureState<R> {
        if self.started && self.requests < usize::MAX {
            NVFBCCaptureState { requests: self.requests + 1, ..self }
        } else {
            self
        }
    }

    /// The view with everything that has arrived dropped.
    pub open spec fn cleared(self) -> NVFBCCaptureState<R> {
        NVFBCCaptureState { arrived: Seq::empty(), ..self }
    }
}

/// Each request makes one command: after two requests two more commands
/// are owed than before.
pub proof fn nvfbc_requests_are_counted<R>(view: NVFBCCaptureState<R>)
    requires
        view.started,
        view.requests + 2 <= usize::MAX,
    ensures
        view.requested().requests == view.requests + 1,
        view.requested().requested().requests == view.requests + 2,
{
}

impl<U, R> NVFBCCapture<U, R> {
    /// A driver that is not ready before `init`.
    pub fn new() -> (capture: Self)
        ensures
            capture@ == (NVFBCCaptureState::<R> {
                started: false,
                failed: false,
                requests: 0,
                arrived: Seq::empty(),
            }),
            !(capture@.started && !capture@.failed),
    {
        NVFBCCapture {
            started: false,
            failed: false,
            requests: 0,
            inbox: Inbox::new(),
            _dummy: None,
        }
    }

    /// Starts the driver anew: what arrived after an earlier start, and a
    /// request of then, are dropped.
    pub fn start(&mut self)
        ensures
            final(self)@ == (NVFBCCaptureState::<R> {
                started: true,
                failed: false,
                requests: 0,
                arrived: Seq::empty(),
            }),
    {
        let _ = self.inbox.take_latest();
        self.requests = 0;
        self.started = true;
        self.failed = false;
    }

    /// Whether the driver was started and its worker has not failed.
    pub fn is_started(&self) -> (ready: bool)
        ensures
            ready == (self@.started && !self@.failed),
    {
        self.started && !self.failed
    }

    pub fn supports_dmbuf(&self) -> (supported: bool)
        ensures
            !supported,
    {
        false
    }

    /// Takes in what the worker has handed over.
    pub fn deliver(&mut self, item: R)
        ensures
            final(self)@ == (NVFBCCaptureState { arrived: old(self)@.arrived.push(item), ..old(self)@ }),
    {
        self.inbox.deliver(item);
    }

    /// Takes up that the worker could not start or has ended: the driver is
    /// not ready any more.
    pub fn producer_failed(&mut self)
        ensures
            final(self)@ == (NVFBCCaptureState { failed: true, ..old(self)@ }),
            !(final(self)@.started && !final(self)@.failed),
    {
        self.failed = true;
    }

    /// Hands out what arrived last and drops what arrived before it.
    pub fn take_latest(&mut self) -> (latest: Option<R>)
        ensures
            final(self)@ == old(self)@.cleared(),
            old(self)@.arrived.len() == 0 ==> latest is None,
            old(self)@.arrived.len() > 0 ==> latest == Some(old(self)@.arrived.last()),
    {
        let (latest, _) = self.inbox.take_latest();
        latest
    }

    /// Drops everything that has arrived, tells how much it was, and
    /// requests a frame.
    pub fn restart(&mut self) -> (dropped: usize)
        ensures
            dropped == old(self)@.arrived.len(),
            final(self)@ == old(self)@.cleared().requested(),
    {
        let dropped = self.inbox.len();
        let _ = self.inbox.take_latest();
        self.request();
        dropped
    }

    /// Asks for one poll of the capture interface.
    pub fn request(&mut self)
        ensures
            final(self)@ == old(self)@.requested(),
    {
        if self.started && self.requests < usize::MAX {
            self.requests = self.requests + 1;
        }
    }

    /// Tells the caller how many commands it has to send the worker: one
    /// for each request since it last asked.
    pub fn take_requests(&mut self) -> (requests: usize)
        ensures
            requests == old(self)@.requests,
            final(self)@ == (NVFBCCaptureState { requests: 0, ..old(self)@ }),
    {
        let requests = self.requests;
        self.requests = 0;
        requests
    }
}

/// What a poll of the capture interface reported of a frame.
#[derive(Clone, Copy, PartialEq, Eq, Structural, Debug)]
pub struct Polled {
    pub width: u32,
    pub height: u32,
    pub ptr: usize,
    pub size: usize,
}

/// The producer's side of the driver: whether its loop is still to run.
pub struct NvfbcWorker {
    pub running: bool,
}

impl NvfbcWorker {
    /// The worker after the wait for a command ended: with a command or,
    /// where the consumer is gone, without one, which stops the worker.
    pub open spec fn after_command(self, arrived: bool) -> NvfbcWorker {
        NvfbcWorker { running: self.running && arrived }
    }

    /// Whether the worker polls after the wait for a command ended: once
    /// for the command, if it is running.
    pub open spec fn polls_on(self, arrived: bool) -> bool {
        self.running && arrived
    }

    pub fn new() -> (worker: NvfbcWorker)
        ensures
            worker.running,
    {
        NvfbcWorker { running: true }
    }

    /// Takes up how the wait for a command ended, and tells whether to poll
    /// the capture interface: once for each command.
    pub fn command(&mut self, arrived: bool) -> (poll: bool)
        ensures
            poll == old(self).polls_on(arrived),
            *final(self) == old(self).after_command(arrived),
    {
        if !arrived {
            self.running = false;
        }
        self.running
    }

    /// Takes up what the one poll for a command gave: a frame where it
    /// succeeded. A poll that failed gives nothing and is not tried again.
    pub fn polled(&self, result: Option<Polled>) -> (frame: Option<WlxFrame>)
        ensures
            result is None ==> frame is None,
            result matches Some(info) ==> frame == Some(
                WlxFrame::MemPtr(polled_frame(info.width, info.height, info.ptr, info.size)),
            ),
    {
        match result {
            Some(info) => Some(captured_frame(info.width, info.height, info.ptr, info.size)),
            None => None,
        }
    }

    /// Takes up what became of what the callback made and the worker tried
    /// to hand over without blocking. A full channel drops it; a consumer
    /// that is gone drops it and stops the worker for good. What was dropped
    /// is returned.
    pub fn sent<R>(&mut self, outcome: SendOutcome<R>) -> (next: (ProducerStep, Option<R>))
        ensures
            next.0 == ProducerStep::Stop <==> outcome is Disconnected,
            next.1 == (match outcome {
                SendOutcome::Sent => None,
                SendOutcome::Full(item) => Some(item),
                SendOutcome::Disconnected(item) => Some(item),
            }),
            final(self).running == (old(self).running && !(outcome is Disconnected)),
    {
        match outcome {
            SendOutcome::Sent => (ProducerStep::Continue, None),
            SendOutcome::Full(item) => (ProducerStep::Continue, Some(item)),
            SendOutcome::Disconnected(item) => {
                self.running = false;
                (ProducerStep::Stop, Some(item))
            },
        }
    }
}

/// The number of polls that a worker makes over a run of waits for a
/// command, each of which ended with a command or without one.
pub open spec fn polls_over(worker: NvfbcWorker, waits: Seq<bool>) -> nat
    decreases waits.len(),
{
    if waits.len() == 0 {
        0
    } else {
        polls_over(worker, waits.drop_last()) + (if worker_after(
            worker,
            waits.drop_last(),
        ).polls_on(waits.last()) {
            1nat
        } else {
            0nat
        })
    }
}

/// The worker after a run of waits for a command.
pub open spec fn worker_after(worker: NvfbcWorker, waits: Seq<bool>) -> NvfbcWorker
    decreases waits.len(),
{
    if waits.len() == 0 {
        worker
    } else {
        worker_after(worker, waits.drop_last()).after_command(waits.last())
    }
}

/// A running worker polls exactly once for each command: over a run of
/// waits that each ended with a command it makes as many polls as there
/// were commands, and is still running.
pub proof fn one_poll_for_each_command(worker: NvfbcWorker, waits: Seq<bool>)
    requires
        worker.running,
        forall|i: int| 0 <= i < waits.len() ==> waits[i],
    ensures
        polls_over(worker, waits) == waits.len(),
        worker_after(worker, waits).running,
    decreases waits.len(),
{
    if waits.len() > 0 {
        one_poll_for_each_command(worker, waits.drop_last());
    }
}

/// A worker that has stopped polls no more.
pub proof fn stopped_worker_polls_no_more(worker: NvfbcWorker, waits: Seq<bool>)
    requires
        !worker.running,
    ensures
        polls_over(worker, waits) == 0,
        !worker_after(worker, waits).running,
    decreases waits.len(),
{
    if waits.len() > 0 {
        stopped_worker_polls_no_more(worker, waits.drop_last());
    }
}

impl<U> WlxCapture for NVFBCCapture<U, WlxFrame> {
    open spec fn ready(&self) -> bool {
        self@.started && !self@.failed
    }

    open spec fn buffered(&self) -> Seq<WlxFrame> {
        self@.arrived
    }

    fn init(&mut self, dmabuf_formats: &[DrmFormat])
        ensures
            final(self)@ == (NVFBCCaptureState::<WlxFrame> {
                started: true,
                failed: false,
                requests: 0,
                arrived: Seq::empty(),
            }),
            final(self).ready(),
    {
        self.start();
    }

    fn is_ready(&self) -> (ready: bool) {
        self.is_started()
    }

    fn receive(&mut self) -> (frame: Option<WlxFrame>)
        ensures
            final(self)@ == old(self)@.cleared(),
    {
        self.take_latest()
    }

    /// The driver polls on command only: there is nothing to pause.
    fn pause(&mut self)
        ensures
            final(self)@ == old(self)@,
    {
    }

    /// Drops what has arrived and requests a frame.
    fn resume(&mut self)
        ensures
            final(self)@ == old(self)@.cleared().requested(),
    {
        let _ = self.restart();
    }

    fn request_new_frame(&mut self)
        ensures
            final(self)@ == old(self)@.requested(),
    {
        self.request();
    }
}

} // verus!

//! The one-shot driver that has the compositor copy a frame into a
//! shared-memory buffer of the client: which buffer to allocate, the events of
//! one capture, the small pool of finished buffers, and the order in which a
//! buffer is released.

use std::collections::VecDeque;
use vstd::prelude::*;
use crate::capture::Inbox;
use crate::capture::WorkerState;
use crate::frame::DrmFormat;
use crate::frame::FourCC;
use crate::frame::FrameFormat;
use crate::frame::FramePlane;
use crate::frame::MemFdFrame;
use crate::frame::WlxFrame;
use crate::frame::DRM_FORMAT_ARGB8888;
use crate::frame::DRM_FORMAT_XRGB8888;
use crate::wayland::WlxClient;
use crate::WlxCapture;

verus! {

pub const WL_SHM_FORMAT_ARGB8888: u32 = 0;

pub const WL_SHM_FORMAT_XRGB8888: u32 = 1;

pub const WL_SHM_FORMAT_ABGR8888: u32 = 0x34324241;

pub const WL_SHM_FORMAT_XBGR8888: u32 = 0x34324258;

/// The pixel code under which the driver hands out frames of the
/// shared-memory format `shm_format`, for the formats it supports.
pub open spec fn fourcc_of_wlshm(shm_format: u32) -> Option<FourCC> {
    if shm_format == WL_SHM_FORMAT_ARGB8888 || shm_format == WL_SHM_FORMAT_ABGR8888 {
        Some(DRM_FORMAT_ARGB8888)
    } else if shm_format == WL_SHM_FORMAT_XRGB8888 || shm_format == WL_SHM_FORMAT_XBGR8888 {
        Some(DRM_FORMAT_XRGB8888)
    } else {
        None
    }
}

pub fn fourcc_from_wlshm(shm_format: u32) -> (fourcc: Option<FourCC>)
    ensures
        fourcc == fourcc_of_wlshm(shm_format),
{
    if shm_format == WL_SHM_FORMAT_ARGB8888 || shm_format == WL_SHM_FORMAT_ABGR8888 {
        Some(DRM_FORMAT_ARGB8888)
    } else if shm_format == WL_SHM_FORMAT_XRGB8888 || shm_format == WL_SHM_FORMAT_XBGR8888 {
        Some(DRM_FORMAT_XRGB8888)
    } else {
        None
    }
}

/// A buffer into which the compositor copies: the compositor's buffer
/// object and pool object, by their protocol ids, and the descriptor of the
/// shared memory. The three are released together, once.
#[derive(Debug, PartialEq, Eq, Structural)]
pub struct BufData {
    pub wl_buffer: u32,
    pub wl_pool: u32,
    pub fd: i32,
}

/// One step of the release of a buffer.
#[derive(Clone, Copy, PartialEq, Eq, Structural, Debug)]
pub enum ReleaseStep {
    DestroyBuffer(u32),
    DestroyPool(u32),
    CloseFd(i32),
}

impl BufData {
    /// The release of the buffer: the buffer object is destroyed, then the
    /// pool object, then the descriptor is closed.
    pub open spec fn release_steps(self) -> Seq<ReleaseStep> {
        seq![
            ReleaseStep::DestroyBuffer(self.wl_buffer),
            ReleaseStep::DestroyPool(self.wl_pool),
            ReleaseStep::CloseFd(self.fd),
        ]
    }

    /// Gives the buffer up: returns the steps of its release, in order, for
    /// the caller to take.
    pub fn release(self) -> (steps: Vec<ReleaseStep>)
        ensures
            steps@ == self.release_steps(),
    {
        let mut steps: Vec<ReleaseStep> = Vec::new();
        steps.push(ReleaseStep::DestroyBuffer(self.wl_buffer));
        steps.push(ReleaseStep::DestroyPool(self.wl_pool));
        steps.push(ReleaseStep::CloseFd(self.fd));
        assert(steps@ =~= self.release_steps());
        steps
    }
}

/// The release of a run of buffers, buffer by buffer.
pub open spec fn release_steps_of(buffers: Seq<BufData>) -> Seq<ReleaseStep>
    decreases buffers.len(),
{
    if buffers.len() == 0 {
        Seq::empty()
    } else {
        release_steps_of(buffers.drop_last()) + buffers.last().release_steps()
    }
}

/// Every buffer of a run is released in three steps.
pub proof fn release_takes_three_steps(buffers: Seq<BufData>)
    ensures
        release_steps_of(buffers).len() == 3 * buffers.len(),
    decreases buffers.len(),
{
    if buffers.len() > 0 {
        release_takes_three_steps(buffers.drop_last());
    }
}

/// What the compositor reports of a copy.
#[derive(Debug, Clone, Copy, PartialEq, Eq, Structural)]
pub enum ScreencopyFrameEvent {
    /// The format, in the numbering of shared-memory formats, and the
    /// geometry of the buffer that the compositor wants.
    Buffer { format: u32, width: u32, height: u32, stride: u32 },
    /// The copy is done.
    Ready,
    /// The copy failed.
    Failed,
    Other,
}

/// What the driver does on an event of a copy.
#[derive(Clone, Copy, PartialEq, Eq, Structural, Debug)]
pub enum ScreencopyAction {
    /// Allocate a shared-memory segment of `size` bytes, wrap it as a buffer
    /// of the format `shm_format`, and ask for the copy into it.
    Allocate { fourcc: FourCC, shm_format: u32, width: u32, height: u32, stride: u32, size: i32 },
    /// The filled buffer can be handed over.
    Complete,
    /// The request has failed.
    Fail,
    Ignore,
}

/// The action for `event`. A buffer is allocated with `stride * height`
/// bytes. The request fails fast where the server asks for a format that the
/// driver does not support, or for a buffer whose size the protocol cannot
/// express.
pub open spec fn screencopy_action_for(event: ScreencopyFrameEvent) -> ScreencopyAction {
    match event {
        ScreencopyFrameEvent::Buffer { format, width, height, stride } => match fourcc_of_wlshm(
            format,
        ) {
            Some(fourcc) => if stride * height <= i32::MAX {
                ScreencopyAction::Allocate {
                    fourcc,
                    shm_format: format,
                    width,
                    height,
                    stride,
                    size: (stride * height) as i32,
                }
            } else {
                ScreencopyAction::Fail
            },
            None => ScreencopyAction::Fail,
        },
        ScreencopyFrameEvent::Ready => ScreencopyAction::Complete,
        ScreencopyFrameEvent::Failed => ScreencopyAction::Fail,
        ScreencopyFrameEvent::Other => ScreencopyAction::Ignore,
    }
}

pub fn screencopy_action(event: ScreencopyFrameEvent) -> (action: ScreencopyAction)
    ensures
        action == screencopy_action_for(event),
{
    match event {
        ScreencopyFrameEvent::Buffer { format, width, height, stride } => {
            let Some(fourcc) = fourcc_from_wlshm(format) else {
                return ScreencopyAction::Fail;
            };
            assert(0 <= stride * height <= 0xFFFF_FFFF * 0xFFFF_FFFF) by (nonlinear_arith)
                requires
                    0 <= stride <= 0xFFFF_FFFF,
                    0 <= height <= 0xFFFF_FFFF,
            ;
            let size: u64 = stride as u64 * height as u64;
            if size <= i32::MAX as u64 {
                ScreencopyAction::Allocate {
                    fourcc,
                    shm_format: format,
                    width,
                    height,
                    stride,
                    size: size as i32,
                }
            } else {
                ScreencopyAction::Fail
            }
        },
        ScreencopyFrameEvent::Ready => ScreencopyAction::Complete,
        ScreencopyFrameEvent::Failed => ScreencopyAction::Fail,
        ScreencopyFrameEvent::Other => ScreencopyAction::Ignore,
    }
}

/// What reaches the worker of a capture.
pub enum ScreenCopyEvent {
    /// The buffer was allocated and the copy into it is under way.
    Buffer { data: BufData, fourcc: FourCC, width: u32, height: u32, stride: u32 },
    Ready,
    Failed,
}

/// The frame that lies in a buffer: it has no modifier, starts at offset
/// zero, and is held by the buffer's descriptor.
pub open spec fn frame_in_buffer(
    data: BufData,
    fourcc: FourCC,
    width: u32,
    height: u32,
    stride: u32,
) -> MemFdFrame {
    MemFdFrame {
        format: FrameFormat { width, height, fourcc, modifier: 0 },
        plane: FramePlane { fd: Some(data.fd), offset: 0, stride: stride as i32 },
    }
}

/// What one event does to a capture.
pub struct ScreencopyStep {
    /// The buffer that is being filled, with its frame.
    pub pending: Option<(MemFdFrame, BufData)>,
    /// The frame and buffer that the event completed.
    pub delivered: Option<(MemFdFrame, BufData)>,
    /// The buffers that the event gave up.
    pub released: Seq<ReleaseStep>,
    /// The capture has ended.
    pub finished: bool,
}

/// The release of the buffer that is being filled.
pub open spec fn pending_release(pending: Option<(MemFdFrame, BufData)>) -> Seq<ReleaseStep> {
    match pending {
        Some(pair) => pair.1.release_steps(),
        None => Seq::empty(),
    }
}

/// What `event` does to a capture with `pending` under way. A buffer takes
/// the place of one that was under way, and the capture goes on; `Ready`
/// ends the capture and hands over what was under way; `Failed` ends it and
/// gives up what was under way.
pub open spec fn screencopy_step(
    pending: Option<(MemFdFrame, BufData)>,
    event: ScreenCopyEvent,
) -> ScreencopyStep {
    match event {
        ScreenCopyEvent::Buffer { data, fourcc, width, height, stride } => ScreencopyStep {
            pending: Some((frame_in_buffer(data, fourcc, width, height, stride), data)),
            delivered: None,
            released: pending_release(pending),
            finished: false,
        },
        ScreenCopyEvent::Ready => ScreencopyStep {
            pending: None,
            delivered: pending,
            released: Seq::empty(),
            finished: true,
        },
        ScreenCopyEvent::Failed => ScreencopyStep {
            pending: None,
            delivered: None,
            released: pending_release(pending),
            finished: true,
        },
    }
}

/// One capture in flight: the buffer that is being filled, with its frame.
pub struct ScreencopyCapture {
    pub frame_buffer: Option<(MemFdFrame, BufData)>,
}

/// What an event gave: the frame and buffer that it completed, the steps for
/// the caller to take, and whether the capture has ended. While it has not,
/// the caller dispatches again.
pub struct ScreencopyProgress {
    pub delivered: Option<(MemFdFrame, BufData)>,
    pub released: Vec<ReleaseStep>,
    pub finished: bool,
}

impl ScreencopyCapture {
    /// A capture of which nothing has arrived.
    pub fn new() -> (capture: ScreencopyCapture)
        ensures
            capture.frame_buffer is None,
    {
        ScreencopyCapture { frame_buffer: None }
    }

    /// Takes up one event of the capture. See `screencopy_step`.
    pub fn advance(&mut self, event: ScreenCopyEvent) -> (progress: ScreencopyProgress)
        ensures
            final(self).frame_buffer == screencopy_step(old(self).frame_buffer, event).pending,
            progress.delivered == screencopy_step(old(self).frame_buffer, event).delivered,
            progress.released@ == screencopy_step(old(self).frame_buffer, event).released,
            progress.finished == screencopy_step(old(self).frame_buffer, event).finished,
    {
        match event {
            ScreenCopyEvent::Buffer { data, fourcc, width, height, stride } => {
                let released = self.abandon();
                let frame = MemFdFrame {
                    format: FrameFormat { width, height, fourcc, modifier: 0 },
                    plane: FramePlane { fd: Some(data.fd), offset: 0, stride: stride as i32 },
                };
                self.frame_buffer = Some((frame, data));
                ScreencopyProgress { delivered: None, released, finished: false }
            },
            ScreenCopyEvent::Ready => {
                let delivered = self.frame_buffer.take();
                ScreencopyProgress { delivered, released: Vec::new(), finished: true }
            },
            ScreenCopyEvent::Failed => {
                let released = self.abandon();
                ScreencopyProgress { delivered: None, released, finished: true }
            },
        }
    }

    /// Gives up the buffer that is being filled: returns the steps of its
    /// release.
    pub fn abandon(&mut self) -> (released: Vec<ReleaseStep>)
        ensures
            final(self).frame_buffer is None,
            released@ == pending_release(old(self).frame_buffer),
    {
        match self.frame_buffer.take() {
            Some(pair) => pair.1.release(),
            None => Vec::new(),
        }
    }
}

/// Whether a copy of output `output_id` can be requested at all: the display
/// server offers screencopy and the registry tracks the output.
pub fn can_request_screencopy_frame(client: &WlxClient, output_id: u32) -> (possible: bool)
    ensures
        possible == (client@.screencopy_manager && client@.outputs.contains_key(output_id)),
{
    client.has_screencopy_manager() && client.output(output_id).is_some()
}


/// The frames of a run of frames with their buffers.
pub open spec fn frames_of(pairs: Seq<(WlxFrame, BufData)>) -> Seq<WlxFrame> {
    Seq::new(pairs.len(), |i: int| pairs[i].0)
}

/// The buffers of a run of frames with their buffers.
pub open spec fn buffers_of(pairs: Seq<(WlxFrame, BufData)>) -> Seq<BufData> {
    Seq::new(pairs.len(), |i: int| pairs[i].1)
}

/// Gives up the buffers of a run of frames: returns the steps of their
/// release, buffer by buffer.
pub fn release_buffers(pairs: Vec<(WlxFrame, BufData)>) -> (steps: Vec<ReleaseStep>)
    ensures
        steps@ == release_steps_of(buffers_of(pairs@)),
{
    let mut rest = pairs;
    let mut steps: Vec<ReleaseStep> = Vec::new();
    let ghost all = buffers_of(pairs@);
    let ghost mut done: int = 0;
    assert(all.take(0) == Seq::<BufData>::empty());
    while rest.len() > 0
        invariant
            0 <= done <= all.len(),
            buffers_of(rest@) == all.skip(done),
            steps@ == release_steps_of(all.take(done)),
        decreases rest.len(),
    {
        let ghost before = rest@;
        assert(buffers_of(before).len() == all.skip(done).len());
        let pair = rest.remove(0);
        let mut given_up = pair.1.release();
        steps.append(&mut given_up);
        proof {
            assert(buffers_of(before)[0] == all.skip(done)[0]);
            assert(all.take(done + 1).drop_last() == all.take(done));
            assert(all.take(done + 1).last() == pair.1);
            assert(buffers_of(rest@) =~= all.skip(done + 1)) by {
                assert forall|i: int| 0 <= i < rest@.len() implies buffers_of(rest@)[i] == all.skip(
                    done + 1,
                )[i] by {
                    assert(rest@[i] == before[i + 1]);
                    assert(buffers_of(before)[i + 1] == all.skip(done)[i + 1]);
                }
            }
            done = done + 1;
        }
    }
    assert(all.take(done) == all);
    steps
}

/// The consumer's side of the screencopy driver for one output.
pub struct WlrScreencopyCapture {
    output_id: u32,
    started: bool,
    failed: bool,
    worker: WorkerState,
    spawn: bool,
    inbox: Inbox<(WlxFrame, BufData)>,
    buffers: VecDeque<BufData>,
    released: Vec<ReleaseStep>,
}

/// What a `WlrScreencopyCapture` holds, as contracts see it.
pub struct WlrScreencopyCaptureState {
    pub output_id: u32,
    /// `init` has been called.
    pub started: bool,
    /// The worker could not do its work.
    pub failed: bool,
    /// Whether a capture is in flight.
    pub worker: WorkerState,
    /// The caller has to start a worker.
    pub spawn: bool,
    /// The frames that have arrived and were not received, each with its
    /// buffer, oldest first.
    pub arrived: Seq<(WlxFrame, BufData)>,
    /// The buffers of the frames that were handed out last, oldest first.
    pub buffers: Seq<BufData>,
    /// The steps of release that the caller has to take, in order.
    pub released: Seq<ReleaseStep>,
}

impl View for WlrScreencopyCapture {
    type V = WlrScreencopyCaptureState;

    closed spec fn view(&self) -> WlrScreencopyCaptureState {
        WlrScreencopyCaptureState {
            output_id: self.output_id,
            started: self.started,
            failed: self.failed,
            worker: self.worker,
            spawn: self.spawn,
            arrived: self.inbox@,
            buffers: self.buffers@,
            released: self.released@,
        }
    }
}

impl WlrScreencopyCaptureState {
    /// The view after a frame was requested. A request before `init`, or
    /// while a capture is in flight, changes nothing; otherwise the worker
    /// becomes busy and the caller has to start it.
    pub open spec fn requested(self) -> WlrScreencopyCaptureState {
        if self.started && self.worker == WorkerState::Idle {
            WlrScreencopyCaptureState { worker: WorkerState::Busy, spawn: true, ..self }
        } else {
            self
        }
    }

    /// The view after the freshest frame was received: the buffers of the
    /// frames before it are released, and its own buffer joins the pool, from
    /// which the oldest buffer is released if the pool holds more than one.
    pub open spec fn received(self) -> WlrScreencopyCaptureState {
        if self.arrived.len() == 0 {
            self
        } else if self.buffers.len() > 1 {
            WlrScreencopyCaptureState {
                arrived: Seq::empty(),
                buffers: self.buffers.skip(1).push(self.arrived.last().1),
                released: self.released + release_steps_of(buffers_of(self.arrived.drop_last()))
                    + self.buffers[0].release_steps(),
                ..self
            }
        } else {
            WlrScreencopyCaptureState {
                arrived: Seq::empty(),
                buffers: self.buffers.push(self.arrived.last().1),
                released: self.released + release_steps_of(buffers_of(self.arrived.drop_last())),
                ..self
            }
        }
    }

    /// The view with every buffer of the pool released.
    pub open spec fn drained(self) -> WlrScreencopyCaptureState {
        WlrScreencopyCaptureState {
            buffers: Seq::empty(),
            released: self.released + release_steps_of(self.buffers),
            ..self
        }
    }

    /// The view after a resume. Before `init` a resume changes nothing;
    /// afterwards it discards what has arrived, releases the pool, and
    /// requests a frame.
    pub open spec fn resumed(self) -> WlrScreencopyCaptureState {
        if self.started {
            self.received().drained().requested()
        } else {
            self
        }
    }

    /// The number of captures in flight.
    pub open spec fn in_flight(self) -> nat {
        if self.worker == WorkerState::Busy {
            1
        } else {
            0
        }
    }
}

/// Requests that follow one another with no capture completed in between
/// start one worker, not two: the second request changes nothing.
pub proof fn one_screencopy_capture_in_flight(view: WlrScreencopyCaptureState)
    ensures
        view.requested().requested() == view.requested(),
        view.requested().in_flight() <= 1,
        view.started ==> view.requested().in_flight() == 1,
        view.worker == WorkerState::Busy ==> view.requested() == view,
{
}

/// The pool keeps at most the last two buffers: a pool within that bound
/// stays within it whatever the driver does.
pub proof fn pool_keeps_two_buffers(view: WlrScreencopyCaptureState)
    requires
        view.buffers.len() <= 2,
    ensures
        view.received().buffers.len() <= 2,
        view.drained().buffers.len() == 0,
        view.resumed().buffers.len() <= 2,
        view.requested().buffers.len() <= 2,
        view.arrived.len() > 0 ==> view.received().buffers.len() >= 1
            && view.received().buffers.last() == view.arrived.last().1,
{
}

impl WlrScreencopyCapture {
    /// A driver for the output `output_id`. It is not ready before `init`,
    /// no capture is in flight, and the pool is empty.
    pub fn new(output_id: u32) -> (capture: WlrScreencopyCapture)
        ensures
            capture@ == (WlrScreencopyCaptureState {
                output_id,
                started: false,
                failed: false,
                worker: WorkerState::Idle,
                spawn: false,
                arrived: Seq::empty(),
                buffers: Seq::empty(),
                released: Seq::empty(),
            }),
            !capture.ready(),
    {
        WlrScreencopyCapture {
            output_id,
            started: false,
            failed: false,
            worker: WorkerState::Idle,
            spawn: false,
            inbox: Inbox::new(),
            buffers: VecDeque::with_capacity(2),
            released: Vec::new(),
        }
    }

    pub fn output_id(&self) -> (output_id: u32)
        ensures
            output_id == self@.output_id,
    {
        self.output_id
    }

    /// Whether a capture is in flight.
    pub fn worker(&self) -> (worker: WorkerState)
        ensures
            worker == self@.worker,
    {
        self.worker
    }

    pub fn supports_dmbuf(&self) -> (supported: bool)
        ensures
            !supported,
    {
        false
    }

    /// Takes a frame in, with its buffer, that a worker has handed over.
    pub fn deliver(&mut self, frame: WlxFrame, data: BufData)
        ensures
            final(self)@ == (WlrScreencopyCaptureState {
                arrived: old(self)@.arrived.push((frame, data)),
                ..old(self)@
            }),
    {
        self.inbox.deliver((frame, data));
    }

    /// Takes up that the worker has finished and handed the dispatch context
    /// back: the next request starts a capture again.
    pub fn worker_finished(&mut self)
        ensures
            final(self)@ == (WlrScreencopyCaptureState { worker: WorkerState::Idle, ..old(self)@ }),
    {
        self.worker = WorkerState::Idle;
    }

    /// Takes up that the worker could not do its work: the driver is not
    /// ready any more.
    pub fn producer_failed(&mut self)
        ensures
            final(self)@ == (WlrScreencopyCaptureState { failed: true, ..old(self)@ }),
            !final(self).ready(),
    {
        self.failed = true;
    }

    /// Tells the caller whether it has to start a worker, once for each
    /// capture.
    pub fn take_spawn(&mut self) -> (spawn: bool)
        ensures
            spawn == old(self)@.spawn,
            final(self)@ == (WlrScreencopyCaptureState { spawn: false, ..old(self)@ }),
    {
        let spawn = self.spawn;
        self.spawn = false;
        spawn
    }

    /// Hands the pending steps of release to the caller, who takes them in
    /// order.
    pub fn take_released(&mut self) -> (released: Vec<ReleaseStep>)
        ensures
            released@ == old(self)@.released,
            final(self)@ == (WlrScreencopyCaptureState { released: Seq::empty(), ..old(self)@ }),
    {
        let mut released: Vec<ReleaseStep> = Vec::new();
        core::mem::swap(&mut released, &mut self.released);
        released
    }

    /// Releases every buffer of the pool.
    fn drain_pool(&mut self)
        ensures
            final(self)@ == old(self)@.drained(),
    {
        let ghost pool = self.buffers@;
        let ghost mut done: int = 0;
        assert(pool.take(0) == Seq::<BufData>::empty());
        assert(old(self)@.released + Seq::<ReleaseStep>::empty() == old(self)@.released);
        while self.buffers.len() > 0
            invariant
                0 <= done <= pool.len(),
                self.buffers@ == pool.skip(done),
                self.released@ == old(self)@.released + release_steps_of(pool.take(done)),
                self@ == (WlrScreencopyCaptureState {
                    buffers: self.buffers@,
                    released: self.released@,
                    ..old(self)@
                }),
            decreases self.buffers.len(),
        {
            let oldest = self.buffers.pop_front();
            let mut steps = oldest.unwrap().release();
            self.released.append(&mut steps);
            proof {
                assert(pool.take(done + 1).drop_last() == pool.take(done));
                assert(pool.take(done + 1).last() == pool.skip(done)[0]);
                assert(self.buffers@ =~= pool.skip(done + 1));
                assert(self.released@ =~= old(self)@.released + release_steps_of(
                    pool.take(done + 1),
                ));
                done = done + 1;
            }
        }
        assert(pool.take(done) == pool);
        assert(self.buffers@ =~= Seq::<BufData>::empty());
    }
}

impl WlxCapture for WlrScreencopyCapture {
    open spec fn ready(&self) -> bool {
        self@.started && !self@.failed
    }

    open spec fn buffered(&self) -> Seq<WlxFrame> {
        frames_of(self@.arrived)
    }

    /// Starts the driver anew: what arrived after an earlier start is
    /// discarded, and its buffers are released. The pool and a capture that
    /// is in flight stay.
    fn init(&mut self, dmabuf_formats: &[DrmFormat])
        ensures
            final(self)@ == (WlrScreencopyCaptureState {
                started: true,
                failed: false,
                arrived: Seq::empty(),
                released: old(self)@.released + release_steps_of(buffers_of(old(self)@.arrived)),
                ..old(self)@
            }),
            final(self).ready(),
    {
        let (latest, stale) = self.inbox.take_latest();
        let ghost arrived = old(self)@.arrived;
        let mut steps = release_buffers(stale);
        self.released.append(&mut steps);
        match latest {
            Some(pair) => {
                let mut last = pair.1.release();
                self.released.append(&mut last);
                proof {
                    assert(buffers_of(arrived).drop_last() =~= buffers_of(arrived.drop_last()));
                    assert(buffers_of(arrived).last() == pair.1);
                    assert(self.released@ =~= old(self)@.released + release_steps_of(
                        buffers_of(arrived),
                    ));
                }
            },
            None => {
                assert(buffers_of(arrived) =~= Seq::<BufData>::empty());
                assert(self.released@ =~= old(self)@.released + release_steps_of(
                    buffers_of(arrived),
                ));
            },
        }
        self.started = true;
        self.failed = false;
    }

    fn is_ready(&self) -> (ready: bool) {
        self.started && !self.failed
    }

    /// Hands out the freshest frame. Its buffer joins the pool, which keeps
    /// the buffers of the last two frames alive.
    fn receive(&mut self) -> (frame: Option<WlxFrame>)
        ensures
            final(self)@ == old(self)@.received(),
    {
        let (latest, stale) = self.inbox.take_latest();
        match latest {
            Some(pair) => {
                let mut steps = release_buffers(stale);
                self.released.append(&mut steps);
                if self.buffers.len() > 1 {
                    let oldest = self.buffers.pop_front();
                    let mut last = oldest.unwrap().release();
                    self.released.append(&mut last);
                }
                self.buffers.push_back(pair.1);
                proof {
                    assert(self@.buffers =~= old(self)@.received().buffers);
                    assert(self@.released =~= old(self)@.received().released);
                    assert(frames_of(old(self)@.arrived).last() == pair.0);
                }
                Some(pair.0)
            },
            None => {
                assert(frames_of(old(self)@.arrived) =~= Seq::<WlxFrame>::empty());
                assert(self@.arrived =~= old(self)@.arrived);
                None
            },
        }
    }

    /// The driver captures on request only: there is nothing to pause.
    fn pause(&mut self)
        ensures
            final(self)@ == old(self)@,
    {
    }

    /// Discards what has arrived, releases the pool, and requests a frame.
    fn resume(&mut self)
        ensures
            final(self)@ == old(self)@.resumed(),
    {
        if !self.started {
            return ;
        }
        let _ = self.receive();
        self.drain_pool();
        self.request_new_frame();
    }

    /// Starts one capture, unless one is in flight.
    fn request_new_frame(&mut self)
        ensures
            final(self)@ == old(self)@.requested(),
    {
        if self.started && self.worker == WorkerState::Idle {
            self.worker = WorkerState::Busy;
            self.spawn = true;
        }
    }
}

} // verus!

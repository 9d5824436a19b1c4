//! The one-shot driver that has the compositor export a frame as DMA-BUF
//! planes: the events of one capture folded into a frame, and the
//! bookkeeping that keeps at most one capture in flight.

use vstd::prelude::*;
use crate::capture::FrameBuffer;
use crate::capture::WorkerState;
use crate::frame::descriptors_of;
use crate::frame::empty_planes_hold_nothing;
use crate::frame::replaced_plane_exchanges_descriptors;
use crate::frame::DmabufFrame;
use crate::frame::DmabufView;
use crate::frame::DrmFormat;
use crate::frame::FrameFormat;
use crate::frame::FramePlane;
use crate::frame::WlxFrame;
use crate::wayland::WlxClient;
use crate::WlxCapture;

verus! {

/// What the compositor reports of an export.
#[derive(Debug, Clone, Copy, PartialEq, Eq, Structural)]
pub enum DmabufExportEvent {
    /// The metadata of the frame, ahead of its planes.
    Frame { width: u32, height: u32, format: u32, mod_high: u32, mod_low: u32, num_objects: u32 },
    /// One plane. The descriptor passes to the receiver.
    Object { index: u32, fd: i32, offset: u32, stride: u32 },
    /// The frame is complete.
    Ready,
    /// The capture was given up.
    Cancel,
    Other,
}

/// What one event does to a capture.
pub struct DmabufStep {
    /// The frame that is being put together.
    pub pending: Option<DmabufView>,
    /// The frame that the event completed.
    pub completed: Option<DmabufView>,
    /// The descriptors that nothing owns any more, for the caller to close.
    pub released: Seq<i32>,
}

/// The descriptors of the frame that is being put together.
pub open spec fn pending_descriptors(pending: Option<DmabufView>) -> Seq<i32> {
    match pending {
        Some(frame) => frame.descriptors(),
        None => Seq::empty(),
    }
}

/// The frame that a metadata event announces, before any plane has arrived.
pub open spec fn announced_frame(
    width: u32,
    height: u32,
    format: u32,
    mod_high: u32,
    mod_low: u32,
    num_objects: u32,
) -> DmabufView {
    DmabufView {
        format: FrameFormat {
            width,
            height,
            fourcc: format,
            modifier: (mod_high as int * 0x1_0000_0000 + mod_low) as u64,
        },
        num_planes: num_objects as usize,
        planes: Seq::new(4, |i: int| FramePlane { fd: None, offset: 0, stride: 0 }),
    }
}

/// What `event` does to a capture with the frame `pending` under way.
///
/// Metadata starts a frame and gives up one that was under way; metadata of
/// more than four planes starts none. A plane goes into the frame under way
/// at its index and takes the place of a plane that was there; without a
/// frame, or with an index that a frame does not have, the capture fails and
/// the descriptors are given up. `Ready` completes the frame; `Cancel` gives
/// it up.
pub open spec fn dmabuf_step(pending: Option<DmabufView>, event: DmabufExportEvent) -> DmabufStep {
    match event {
        DmabufExportEvent::Frame { width, height, format, mod_high, mod_low, num_objects } => {
            DmabufStep {
                pending: if num_objects <= 4 {
                    Some(announced_frame(width, height, format, mod_high, mod_low, num_objects))
                } else {
                    None
                },
                completed: None,
                released: pending_descriptors(pending),
            }
        },
        DmabufExportEvent::Object { index, fd, offset, stride } => match pending {
            Some(frame) => if index < 4 {
                DmabufStep {
                    pending: Some(
                        DmabufView {
                            planes: frame.planes.update(
                                index as int,
                                FramePlane { fd: Some(fd), offset, stride: stride as i32 },
                            ),
                            ..frame
                        },
                    ),
                    completed: None,
                    released: frame.planes[index as int].descriptors(),
                }
            } else {
                DmabufStep {
                    pending: None,
                    completed: None,
                    released: frame.descriptors().push(fd),
                }
            },
            None => DmabufStep { pending: None, completed: None, released: seq![fd] },
        },
        DmabufExportEvent::Ready => DmabufStep {
            pending: None,
            completed: pending,
            released: Seq::empty(),
        },
        DmabufExportEvent::Cancel => DmabufStep {
            pending: None,
            completed: None,
            released: pending_descriptors(pending),
        },
        DmabufExportEvent::Other => DmabufStep { pending, completed: None, released: Seq::empty() },
    }
}

/// What a run of events does to a capture that starts with nothing under
/// way: the frame still under way after the run, the frames that the run
/// completed, and the descriptors it gave up, each in order.
pub struct DmabufRun {
    pub pending: Option<DmabufView>,
    pub completed: Seq<DmabufView>,
    pub released: Seq<i32>,
}

pub open spec fn dmabuf_run(events: Seq<DmabufExportEvent>) -> DmabufRun
    decreases events.len(),
{
    if events.len() == 0 {
        DmabufRun { pending: None, completed: Seq::empty(), released: Seq::empty() }
    } else {
        let before = dmabuf_run(events.drop_last());
        let step = dmabuf_step(before.pending, events.last());
        DmabufRun {
            pending: step.pending,
            completed: match step.completed {
                Some(frame) => before.completed.push(frame),
                None => before.completed,
            },
            released: before.released + step.released,
        }
    }
}

/// The descriptor that an event hands to the receiver.
pub open spec fn event_descriptors(event: DmabufExportEvent) -> Seq<i32> {
    match event {
        DmabufExportEvent::Object { index, fd, offset, stride } => seq![fd],
        _ => Seq::empty(),
    }
}

/// The descriptors that a run of events hands to the receiver, in order.
pub open spec fn received_descriptors(events: Seq<DmabufExportEvent>) -> Seq<i32>
    decreases events.len(),
{
    if events.len() == 0 {
        Seq::empty()
    } else {
        received_descriptors(events.drop_last()) + event_descriptors(events.last())
    }
}

/// The descriptors that a run of completed frames owns, frame by frame.
pub open spec fn completed_descriptors(frames: Seq<DmabufView>) -> Seq<i32>
    decreases frames.len(),
{
    if frames.len() == 0 {
        Seq::empty()
    } else {
        completed_descriptors(frames.drop_last()) + frames.last().descriptors()
    }
}

/// A frame under way has four planes.
pub open spec fn four_planes(pending: Option<DmabufView>) -> bool {
    pending matches Some(frame) ==> frame.planes.len() == 4
}

/// An event loses no descriptor and doubles none: what the frame under way
/// owned and what the event handed over is, descriptor for descriptor, what
/// the frame under way owns afterwards, what the completed frame owns, and
/// what was given up.
pub proof fn dmabuf_step_conserves_descriptors(pending: Option<DmabufView>, event: DmabufExportEvent)
    requires
        four_planes(pending),
    ensures
        four_planes(dmabuf_step(pending, event).pending),
        four_planes(dmabuf_step(pending, event).completed),
        pending_descriptors(dmabuf_step(pending, event).pending).to_multiset().add(
            pending_descriptors(dmabuf_step(pending, event).completed).to_multiset(),
        ).add(dmabuf_step(pending, event).released.to_multiset()) == pending_descriptors(
            pending,
        ).to_multiset().add(event_descriptors(event).to_multiset()),
{
    broadcast use vstd::multiset::group_multiset_axioms;
    broadcast use vstd::seq_lib::group_to_multiset_ensures;

    let step = dmabuf_step(pending, event);
    let left = pending_descriptors(step.pending).to_multiset().add(
        pending_descriptors(step.completed).to_multiset(),
    ).add(step.released.to_multiset());
    let right = pending_descriptors(pending).to_multiset().add(
        event_descriptors(event).to_multiset(),
    );
    assert(Seq::<i32>::empty().to_multiset() =~= vstd::multiset::Multiset::empty());
    match event {
        DmabufExportEvent::Frame { width, height, format, mod_high, mod_low, num_objects } => {
            if num_objects <= 4 {
                empty_planes_hold_nothing(
                    announced_frame(width, height, format, mod_high, mod_low, num_objects),
                );
            }
            assert(left =~= right);
        },
        DmabufExportEvent::Object { index, fd, offset, stride } => {
            match pending {
                Some(frame) => {
                    if index < 4 {
                        let plane = FramePlane { fd: Some(fd), offset, stride: stride as i32 };
                        replaced_plane_exchanges_descriptors(frame, index as int, plane);
                        assert(plane.descriptors() == seq![fd]);
                        assert(left =~= right);
                    } else {
                        assert(frame.descriptors().push(fd) == frame.descriptors() + seq![fd]);
                        vstd::seq_lib::lemma_multiset_commutative(frame.descriptors(), seq![fd]);
                        assert(left =~= right);
                    }
                },
                None => {
                    assert(left =~= right);
                },
            }
        },
        DmabufExportEvent::Ready => {
            assert(left =~= right);
        },
        DmabufExportEvent::Cancel => {
            assert(left =~= right);
        },
        DmabufExportEvent::Other => {
            assert(left =~= right);
        },
    }
}

/// A capture loses no descriptor and doubles none: every descriptor that the
/// events of a run hand over is owned by one completed frame, or by the
/// frame under way, or was given up.
pub proof fn dmabuf_run_conserves_descriptors(events: Seq<DmabufExportEvent>)
    ensures
        four_planes(dmabuf_run(events).pending),
        received_descriptors(events).to_multiset() == dmabuf_run(events).released.to_multiset().add(
            completed_descriptors(dmabuf_run(events).completed).to_multiset(),
        ).add(pending_descriptors(dmabuf_run(events).pending).to_multiset()),
    decreases events.len(),
{
    broadcast use vstd::multiset::group_multiset_axioms;

    let run = dmabuf_run(events);
    assert(Seq::<i32>::empty().to_multiset() =~= vstd::multiset::Multiset::empty()) by {
        broadcast use vstd::seq_lib::group_to_multiset_ensures;

    }
    if events.len() == 0 {
        assert(received_descriptors(events).to_multiset() =~= run.released.to_multiset().add(
            completed_descriptors(run.completed).to_multiset(),
        ).add(pending_descriptors(run.pending).to_multiset()));
    } else {
        let before = dmabuf_run(events.drop_last());
        let step = dmabuf_step(before.pending, events.last());
        dmabuf_run_conserves_descriptors(events.drop_last());
        dmabuf_step_conserves_descriptors(before.pending, events.last());
        vstd::seq_lib::lemma_multiset_commutative(
            received_descriptors(events.drop_last()),
            event_descriptors(events.last()),
        );
        vstd::seq_lib::lemma_multiset_commutative(before.released, step.released);
        match step.completed {
            Some(frame) => {
                assert(run.completed.drop_last() == before.completed);
                vstd::seq_lib::lemma_multiset_commutative(
                    completed_descriptors(before.completed),
                    frame.descriptors(),
                );
            },
            None => {},
        }
        let received_before = received_descriptors(events.drop_last()).to_multiset();
        let handed = event_descriptors(events.last()).to_multiset();
        let released_before = before.released.to_multiset();
        let completed_before = completed_descriptors(before.completed).to_multiset();
        let pending_before = pending_descriptors(before.pending).to_multiset();
        let pending_after = pending_descriptors(step.pending).to_multiset();
        let completed_now = pending_descriptors(step.completed).to_multiset();
        let released_now = step.released.to_multiset();
        assert forall|fd: i32|
            received_before.count(fd) == released_before.count(fd) + completed_before.count(fd)
                + pending_before.count(fd) by {
            assert(received_before.count(fd) == released_before.add(completed_before).add(
                pending_before,
            ).count(fd));
        }
        assert forall|fd: i32|
            pending_after.count(fd) + completed_now.count(fd) + released_now.count(fd)
                == pending_before.count(fd) + handed.count(fd) by {
            assert(pending_after.add(completed_now).add(released_now).count(fd)
                == pending_before.add(handed).count(fd));
        }
        assert(completed_descriptors(run.completed).to_multiset() =~= completed_before.add(
            completed_now,
        ));
        assert(received_descriptors(events).to_multiset() =~= run.released.to_multiset().add(
            completed_descriptors(run.completed).to_multiset(),
        ).add(pending_descriptors(run.pending).to_multiset()));
    }
}

/// What a capture returns accounts for every descriptor that the export
/// handed over: each is owned by one of the frames or is given up.
pub proof fn dmabuf_capture_accounts_for_descriptors(events: Seq<DmabufExportEvent>)
    ensures
        received_descriptors(events).to_multiset() == (dmabuf_run(events).released
            + pending_descriptors(dmabuf_run(events).pending)).to_multiset().add(
            completed_descriptors(dmabuf_run(events).completed).to_multiset(),
        ),
{
    broadcast use vstd::multiset::group_multiset_axioms;

    dmabuf_run_conserves_descriptors(events);
    let run = dmabuf_run(events);
    vstd::seq_lib::lemma_multiset_commutative(run.released, pending_descriptors(run.pending));
    assert(received_descriptors(events).to_multiset() =~= (run.released + pending_descriptors(
        run.pending,
    )).to_multiset().add(completed_descriptors(run.completed).to_multiset()));
}

/// The view of the frame under way.
pub open spec fn pending_view(pending: Option<DmabufFrame>) -> Option<DmabufView> {
    match pending {
        Some(frame) => Some(frame@),
        None => None,
    }
}

/// The views of a run of frames.
pub open spec fn frame_views(frames: Seq<DmabufFrame>) -> Seq<DmabufView> {
    Seq::new(frames.len(), |i: int| frames[i]@)
}

/// One capture in flight: the frame that is being put together.
pub struct DmabufCapture {
    pub pending: Option<DmabufFrame>,
}

/// What an event gave: the frame that it completed, and the descriptors for
/// the caller to close.
pub struct DmabufProgress {
    pub completed: Option<DmabufFrame>,
    pub released: Vec<i32>,
}

impl DmabufCapture {
    /// A capture of which nothing has arrived.
    pub fn new() -> (capture: DmabufCapture)
        ensures
            capture.pending is None,
    {
        DmabufCapture { pending: None }
    }

    /// Takes up one event of the export. See `dmabuf_step`.
    pub fn advance(&mut self, event: DmabufExportEvent) -> (progress: DmabufProgress)
        ensures
            pending_view(final(self).pending) == dmabuf_step(
                pending_view(old(self).pending),
                event,
            ).pending,
            pending_view(progress.completed) == dmabuf_step(
                pending_view(old(self).pending),
                event,
            ).completed,
            progress.released@ == dmabuf_step(pending_view(old(self).pending), event).released,
    {
        match event {
            DmabufExportEvent::Frame { width, height, format, mod_high, mod_low, num_objects } => {
                let released = self.abandon();
                if num_objects <= 4 {
                    let mut frame = DmabufFrame::default();
                    frame.format.width = width;
                    frame.format.height = height;
                    frame.format.fourcc = format;
                    frame.format.set_mod(mod_high, mod_low);
                    frame.num_planes = num_objects as usize;
                    assert(frame@.planes =~= announced_frame(
                        width,
                        height,
                        format,
                        mod_high,
                        mod_low,
                        num_objects,
                    ).planes);
                    self.pending = Some(frame);
                }
                DmabufProgress { completed: None, released }
            },
            DmabufExportEvent::Object { index, fd, offset, stride } => {
                match self.pending.take() {
                    Some(frame) => {
                        let mut frame = frame;
                        if index < 4 {
                            let mut released: Vec<i32> = Vec::new();
                            if let Some(previous) = frame.planes[index as usize].fd {
                                released.push(previous);
                            }
                            let ghost before = frame@;
                            frame.planes[index as usize] = FramePlane {
                                fd: Some(fd),
                                offset,
                                stride: stride as i32,
                            };
                            assert(frame@.planes =~= before.planes.update(
                                index as int,
                                FramePlane { fd: Some(fd), offset, stride: stride as i32 },
                            ));
                            self.pending = Some(frame);
                            DmabufProgress { completed: None, released }
                        } else {
                            let mut released = frame.close();
                            released.push(fd);
                            DmabufProgress { completed: None, released }
                        }
                    },
                    None => {
                        let mut released: Vec<i32> = Vec::new();
                        released.push(fd);
                        DmabufProgress { completed: None, released }
                    },
                }
            },
            DmabufExportEvent::Ready => {
                let completed = self.pending.take();
                DmabufProgress { completed, released: Vec::new() }
            },
            DmabufExportEvent::Cancel => {
                let released = self.abandon();
                DmabufProgress { completed: None, released }
            },
            DmabufExportEvent::Other => DmabufProgress { completed: None, released: Vec::new() },
        }
    }

    /// Gives up the frame under way, as at the end of a capture: returns its
    /// descriptors for the caller to close.
    pub fn abandon(&mut self) -> (released: Vec<i32>)
        ensures
            final(self).pending is None,
            released@ == pending_descriptors(pending_view(old(self).pending)),
    {
        match self.pending.take() {
            Some(frame) => {
                let mut frame = frame;
                frame.close()
            },
            None => Vec::new(),
        }
    }
}

/// What a capture gave: the frames that it completed, in order, for the
/// caller to hand to the consumer, and the descriptors for the caller to
/// close.
pub struct DmabufCaptured {
    pub frames: Vec<DmabufFrame>,
    pub released: Vec<i32>,
}

/// Whether an export of output `output_id` can be requested at all: the
/// display server offers the export and the registry tracks the output.
pub fn can_request_dmabuf_frame(client: &WlxClient, output_id: u32) -> (possible: bool)
    ensures
        possible == (client@.dmabuf_manager && client@.outputs.contains_key(output_id)),
{
    client.has_dmabuf_manager() && client.output(output_id).is_some()
}

/// Folds the events that one export request brought into frames. A frame
/// that is still under way when the events end is given up.
pub fn request_dmabuf_frame(events: &Vec<DmabufExportEvent>) -> (captured: DmabufCaptured)
    ensures
        frame_views(captured.frames@) == dmabuf_run(events@).completed,
        captured.released@ == dmabuf_run(events@).released + pending_descriptors(
            dmabuf_run(events@).pending,
        ),
{
    let mut capture = DmabufCapture::new();
    let mut frames: Vec<DmabufFrame> = Vec::new();
    let mut released: Vec<i32> = Vec::new();
    let mut i: usize = 0;
    assert(frame_views(frames@) =~= dmabuf_run(events@.take(0)).completed);
    while i < events.len()
        invariant
            i <= events.len(),
            pending_view(capture.pending) == dmabuf_run(events@.take(i as int)).pending,
            frame_views(frames@) == dmabuf_run(events@.take(i as int)).completed,
            released@ == dmabuf_run(events@.take(i as int)).released,
        decreases events.len() - i,
    {
        let ghost before = frame_views(frames@);
        let progress = capture.advance(events[i]);
        let mut given_up = progress.released;
        released.append(&mut given_up);
        if let Some(frame) = progress.completed {
            frames.push(frame);
            assert(frame_views(frames@) =~= before.push(frame@));
        }
        assert(events@.take(i + 1).drop_last() == events@.take(i as int));
        i += 1;
    }
    assert(events@.take(i as int) == events@);
    let mut given_up = capture.abandon();
    released.append(&mut given_up);
    DmabufCaptured { frames, released }
}


/// The consumer's side of the export driver for one output.
pub struct WlrDmabufCapture {
    output_id: u32,
    started: bool,
    failed: bool,
    worker: WorkerState,
    spawn: bool,
    frames: FrameBuffer,
}

/// What a `WlrDmabufCapture` holds, as contracts see it.
pub struct WlrDmabufCaptureState {
    pub output_id: u32,
    /// `init` has been called.
    pub started: bool,
    /// The worker could not do its work.
    pub failed: bool,
    /// Whether a capture is in flight.
    pub worker: WorkerState,
    /// The caller has to start a worker.
    pub spawn: bool,
    /// The frames that have arrived and were not received, oldest first.
    pub frames: Seq<WlxFrame>,
    /// The descriptors of discarded frames that the caller has to close.
    pub released: Seq<i32>,
}

impl View for WlrDmabufCapture {
    type V = WlrDmabufCaptureState;

    closed spec fn view(&self) -> WlrDmabufCaptureState {
        WlrDmabufCaptureState {
            output_id: self.output_id,
            started: self.started,
            failed: self.failed,
            worker: self.worker,
            spawn: self.spawn,
            frames: self.frames@.frames,
            released: self.frames@.released,
        }
    }
}

impl WlrDmabufCaptureState {
    /// The view after a frame was requested. A request before `init`, or
    /// while a capture is in flight, changes nothing; otherwise the worker
    /// becomes busy and the caller has to start it.
    pub open spec fn requested(self) -> WlrDmabufCaptureState {
        if self.started && self.worker == WorkerState::Idle {
            WlrDmabufCaptureState { worker: WorkerState::Busy, spawn: true, ..self }
        } else {
            self
        }
    }

    /// The view with every buffered frame discarded.
    pub open spec fn cleared(self) -> WlrDmabufCaptureState {
        WlrDmabufCaptureState {
            frames: Seq::empty(),
            released: self.released + descriptors_of(self.frames),
            ..self
        }
    }

    /// The number of captures in flight.
    pub open spec fn in_flight(self) -> nat {
        if self.worker == WorkerState::Busy {
            1
        } else {
            0
        }
    }
}

/// Requests that follow one another with no capture completed in between
/// start one worker, not two: the second request changes nothing.
pub proof fn one_dmabuf_capture_in_flight(view: WlrDmabufCaptureState)
    ensures
        view.requested().requested() == view.requested(),
        view.requested().in_flight() <= 1,
        view.started ==> view.requested().in_flight() == 1,
        view.worker == WorkerState::Busy ==> view.requested() == view,
{
}

impl WlrDmabufCapture {
    /// A driver for the output `output_id`. It is not ready before `init`,
    /// and no capture is in flight.
    pub fn new(output_id: u32) -> (capture: WlrDmabufCapture)
        ensures
            capture@ == (WlrDmabufCaptureState {
                output_id,
                started: false,
                failed: false,
                worker: WorkerState::Idle,
                spawn: false,
                frames: Seq::empty(),
                released: Seq::empty(),
            }),
            !capture.ready(),
    {
        WlrDmabufCapture {
            output_id,
            started: false,
            failed: false,
            worker: WorkerState::Idle,
            spawn: false,
            frames: FrameBuffer::new(),
        }
    }

    /// A driver for the output `output_id` of `client`, where the registry
    /// tracks that output.
    pub fn for_output(client: &WlxClient, output_id: u32) -> (capture: Option<WlrDmabufCapture>)
        ensures
            capture is Some <==> client@.outputs.contains_key(output_id),
            capture matches Some(driver) ==> driver@ == (WlrDmabufCaptureState {
                output_id,
                started: false,
                failed: false,
                worker: WorkerState::Idle,
                spawn: false,
                frames: Seq::empty(),
                released: Seq::empty(),
            }),
    {
        if client.output(output_id).is_some() {
            Some(WlrDmabufCapture::new(output_id))
        } else {
            None
        }
    }

    pub fn output_id(&self) -> (output_id: u32)
        ensures
            output_id == self@.output_id,
    {
        self.output_id
    }

    /// Whether a capture is in flight.
    pub fn worker(&self) -> (worker: WorkerState)
        ensures
            worker == self@.worker,
    {
        self.worker
    }

    /// Takes a frame in that a worker has handed over.
    pub fn deliver(&mut self, frame: WlxFrame)
        ensures
            final(self)@ == (WlrDmabufCaptureState {
                frames: old(self)@.frames.push(frame),
                ..old(self)@
            }),
    {
        self.frames.deliver(frame);
    }

    /// Takes up that the worker has finished and handed the dispatch context
    /// back: the next request starts a capture again.
    pub fn worker_finished(&mut self)
        ensures
            final(self)@ == (WlrDmabufCaptureState { worker: WorkerState::Idle, ..old(self)@ }),
    {
        self.worker = WorkerState::Idle;
    }

    /// Takes up that the worker could not do its work: the driver is not
    /// ready any more.
    pub fn producer_failed(&mut self)
        ensures
            final(self)@ == (WlrDmabufCaptureState { failed: true, ..old(self)@ }),
            !final(self).ready(),
    {
        self.failed = true;
    }

    /// Tells the caller whether it has to start a worker, once for each
    /// capture.
    pub fn take_spawn(&mut self) -> (spawn: bool)
        ensures
            spawn == old(self)@.spawn,
            final(self)@ == (WlrDmabufCaptureState { spawn: false, ..old(self)@ }),
    {
        let spawn = self.spawn;
        self.spawn = false;
        spawn
    }

    /// Hands the descriptors of discarded frames to the caller, who closes
    /// them.
    pub fn take_released(&mut self) -> (released: Vec<i32>)
        ensures
            released@ == old(self)@.released,
            final(self)@ == (WlrDmabufCaptureState { released: Seq::empty(), ..old(self)@ }),
    {
        self.frames.take_released()
    }
}

impl WlxCapture for WlrDmabufCapture {
    open spec fn ready(&self) -> bool {
        self@.started && !self@.failed
    }

    open spec fn buffered(&self) -> Seq<WlxFrame> {
        self@.frames
    }

    /// Starts the driver anew: frames of an earlier start are discarded. A
    /// capture that is in flight stays in flight.
    fn init(&mut self, dmabuf_formats: &[DrmFormat])
        ensures
            final(self)@ == (WlrDmabufCaptureState {
                started: true,
                failed: false,
                ..old(self)@.cleared()
            }),
            final(self).ready(),
    {
        self.frames.discard();
        self.started = true;
        self.failed = false;
    }

    fn is_ready(&self) -> (ready: bool) {
        self.started && !self.failed
    }

    fn receive(&mut self) -> (frame: Option<WlxFrame>)
        ensures
            final(self)@ == (WlrDmabufCaptureState {
                frames: Seq::empty(),
                released: if old(self)@.frames.len() > 0 {
                    old(self)@.released + descriptors_of(old(self)@.frames.drop_last())
                } else {
                    old(self)@.released
                },
                ..old(self)@
            }),
    {
        self.frames.receive()
    }

    /// The driver captures on request only: there is nothing to pause.
    fn pause(&mut self)
        ensures
            final(self)@ == old(self)@,
    {
    }

    /// Discards what is buffered.
    fn resume(&mut self)
        ensures
            final(self)@ == old(self)@.cleared(),
    {
        self.frames.discard();
    }

    /// Starts one capture, unless one is in flight.
    fn request_new_frame(&mut self)
        ensures
            final(self)@ == old(self)@.requested(),
    {
        if self.started && self.worker == WorkerState::Idle {
            self.worker = WorkerState::Busy;
            self.spawn = true;
        }
    }
}

} // verus!

//! What every capture driver shares: the buffer between a producer and the
//! consumer, the outcome of handing a frame over, and the bookkeeping of a
//! one-shot worker.

use vstd::prelude::*;
use crate::frame::descriptors_of;
use crate::frame::release_frames;
use crate::frame::WlxFrame;

verus! {

/// What a producer has handed over and the consumer has not yet looked at,
/// oldest first.
pub struct Inbox<T> {
    items: Vec<T>,
}

impl<T> View for Inbox<T> {
    type V = Seq<T>;

    closed spec fn view(&self) -> Seq<T> {
        self.items@
    }
}

impl<T> Inbox<T> {
    pub fn new() -> (inbox: Inbox<T>)
        ensures
            inbox@ == Seq::<T>::empty(),
    {
        Inbox { items: Vec::new() }
    }

    /// Puts `item` behind everything already buffered.
    pub fn deliver(&mut self, item: T)
        ensures
            final(self)@ == old(self)@.push(item),
    {
        self.items.push(item);
    }

    pub fn len(&self) -> (len: usize)
        ensures
            len == self@.len(),
    {
        self.items.len()
    }

    /// Empties the buffer. The freshest item wins: the result holds the one
    /// delivered last, and beside it the stale ones, oldest first.
    pub fn take_latest(&mut self) -> (taken: (Option<T>, Vec<T>))
        ensures
            final(self)@ == Seq::<T>::empty(),
            old(self)@.len() == 0 ==> taken.0 is None && taken.1@ == Seq::<T>::empty(),
            old(self)@.len() > 0 ==> taken.0 == Some(old(self)@.last()),
            old(self)@.len() > 0 ==> taken.1@ == old(self)@.drop_last(),
    {
        let latest = self.items.pop();
        let mut stale: Vec<T> = Vec::new();
        core::mem::swap(&mut stale, &mut self.items);
        (latest, stale)
    }
}

/// What became of a frame that a producer tried to hand over without
/// blocking. A frame that was not taken comes back.
pub enum SendOutcome<T> {
    Sent,
    Full(T),
    Disconnected(T),
}

/// Whether a producer goes on after it tried to hand a frame over.
#[derive(Clone, Copy, PartialEq, Eq, Structural, Debug)]
pub enum ProducerStep {
    Continue,
    Stop,
}

/// The descriptors of the frame that came back from a send, if one did.
pub open spec fn returned_descriptors(outcome: SendOutcome<WlxFrame>) -> Seq<i32> {
    match outcome {
        SendOutcome::Sent => Seq::empty(),
        SendOutcome::Full(frame) => frame.descriptors(),
        SendOutcome::Disconnected(frame) => frame.descriptors(),
    }
}

/// Decides how a producer goes on after a send. A full channel drops the
/// frame and the producer continues; a channel whose consumer is gone drops
/// the frame and stops the producer. The descriptors of a dropped frame are
/// returned for the caller to close.
pub fn after_send(outcome: SendOutcome<WlxFrame>) -> (next: (ProducerStep, Vec<i32>))
    ensures
        next.0 == ProducerStep::Stop <==> outcome is Disconnected,
        next.1@ == returned_descriptors(outcome),
{
    match outcome {
        SendOutcome::Sent => (ProducerStep::Continue, Vec::new()),
        SendOutcome::Full(frame) => (ProducerStep::Continue, frame.release()),
        SendOutcome::Disconnected(frame) => (ProducerStep::Stop, frame.release()),
    }
}

/// The worker of a one-shot driver: at most one capture is in flight.
#[derive(Clone, Copy, PartialEq, Eq, Structural, Debug)]
pub enum WorkerState {
    /// No capture is in flight; the dispatch context is with the driver.
    Idle,
    /// A worker holds the dispatch context.
    Busy,
}

/// The consumer's end of a driver: the frames that have arrived, and the
/// descriptors of discarded frames that the caller still has to close.
pub struct FrameBuffer {
    inbox: Inbox<WlxFrame>,
    released: Vec<i32>,
}

/// What a `FrameBuffer` holds, as contracts see it.
pub struct FrameBufferState {
    /// The frames that have arrived and were not received, oldest first.
    pub frames: Seq<WlxFrame>,
    /// The descriptors that were given up and not yet taken.
    pub released: Seq<i32>,
}

impl View for FrameBuffer {
    type V = FrameBufferState;

    closed spec fn view(&self) -> FrameBufferState {
        FrameBufferState { frames: self.inbox@, released: self.released@ }
    }
}

impl FrameBuffer {
    pub fn new() -> (buffer: FrameBuffer)
        ensures
            buffer@.frames == Seq::<WlxFrame>::empty(),
            buffer@.released == Seq::<i32>::empty(),
    {
        FrameBuffer { inbox: Inbox::new(), released: Vec::new() }
    }

    /// Takes a frame in that the producer has handed over.
    pub fn deliver(&mut self, frame: WlxFrame)
        ensures
            final(self)@.frames == old(self)@.frames.push(frame),
            final(self)@.released == old(self)@.released,
    {
        self.inbox.deliver(frame);
    }

    /// Hands out the frame that arrived last and discards those before it:
    /// their descriptors join the ones to be closed.
    pub fn receive(&mut self) -> (frame: Option<WlxFrame>)
        ensures
            final(self)@.frames == Seq::<WlxFrame>::empty(),
            old(self)@.frames.len() == 0 ==> frame is None,
            old(self)@.frames.len() == 0 ==> final(self)@.released == old(self)@.released,
            old(self)@.frames.len() > 0 ==> frame == Some(old(self)@.frames.last()),
            old(self)@.frames.len() > 0 ==> final(self)@.released == old(self)@.released
                + descriptors_of(old(self)@.frames.drop_last()),
    {
        let (latest, stale) = self.inbox.take_latest();
        let mut given_up = release_frames(stale);
        self.released.append(&mut given_up);
        assert(descriptors_of(Seq::<WlxFrame>::empty()) == Seq::<i32>::empty());
        assert(old(self)@.released + Seq::<i32>::empty() == old(self)@.released);
        latest
    }

    /// Discards every buffered frame: their descriptors join the ones to be
    /// closed.
    pub fn discard(&mut self)
        ensures
            final(self)@.frames == Seq::<WlxFrame>::empty(),
            final(self)@.released == old(self)@.released + descriptors_of(old(self)@.frames),
    {
        let ghost frames = self@.frames;
        let latest = self.receive();
        if let Some(frame) = latest {
            let mut given_up = frame.release();
            let ghost before = self.released@;
            self.released.append(&mut given_up);
            proof {
                descriptors_of_push(frames.drop_last(), frame);
                assert(frames.drop_last().push(frame) == frames);
                assert(self.released@ == old(self)@.released + descriptors_of(frames));
            }
        } else {
            assert(descriptors_of(frames) == Seq::<i32>::empty());
            assert(old(self)@.released + Seq::<i32>::empty() == old(self)@.released);
        }
    }

    /// Hands the descriptors of discarded frames to the caller, who closes
    /// them. Each descriptor is handed out once.
    pub fn take_released(&mut self) -> (released: Vec<i32>)
        ensures
            released@ == old(self)@.released,
            final(self)@.released == Seq::<i32>::empty(),
            final(self)@.frames == old(self)@.frames,
    {
        let mut released: Vec<i32> = Vec::new();
        core::mem::swap(&mut released, &mut self.released);
        released
    }
}

/// The descriptors of a run of frames are those of all but the last frame,
/// followed by those of the last.
pub proof fn descriptors_of_push(frames: Seq<WlxFrame>, frame: WlxFrame)
    ensures
        descriptors_of(frames.push(frame)) == descriptors_of(frames) + frame.descriptors(),
    decreases frames.len(),
{
    let all = frames.push(frame);
    if frames.len() == 0 {
        assert(all.subrange(1, all.len() as int) == Seq::<WlxFrame>::empty());
        assert(descriptors_of(all.subrange(1, all.len() as int)) == Seq::<i32>::empty());
        assert(descriptors_of(all) =~= frame.descriptors());
        assert(descriptors_of(frames) + frame.descriptors() =~= frame.descriptors());
    } else {
        let rest = frames.subrange(1, frames.len() as int);
        descriptors_of_push(rest, frame);
        assert(all.subrange(1, all.len() as int) == rest.push(frame));
        assert(descriptors_of(all) =~= frames[0].descriptors() + (descriptors_of(rest)
            + frame.descriptors()));
        assert(descriptors_of(frames) + frame.descriptors() =~= frames[0].descriptors() + (
            descriptors_of(rest) + frame.descriptors()));
    }
}

/// The producer's side of a driver that captures on command: whether its
/// loop is still to run.
pub struct PullWorker {
    pub running: bool,
}

impl PullWorker {
    pub fn new() -> (worker: PullWorker)
        ensures
            worker.running,
    {
        PullWorker { running: true }
    }

    /// Takes up what the wait on the command channel gave: the number of
    /// commands that were pending, or nothing where the consumer is gone.
    /// Commands are coalesced: however many were pending, the worker
    /// captures once. Without the consumer the worker stops for good.
    pub fn commands(&mut self, pending: Option<usize>) -> (capture: bool)
        ensures
            capture == (old(self).running && pending is Some && pending.unwrap() > 0),
            final(self).running == (old(self).running && pending is Some),
    {
        match pending {
            Some(count) => self.running && count > 0,
            None => {
                self.running = false;
                false
            },
        }
    }

    /// Takes up what became of a frame that was handed over without
    /// blocking. A full channel drops the frame; a consumer that is gone
    /// drops the frame and stops the worker for good. The descriptors of a
    /// dropped frame are returned for the caller to close.
    pub fn sent(&mut self, outcome: SendOutcome<WlxFrame>) -> (next: (ProducerStep, Vec<i32>))
        ensures
            next.0 == ProducerStep::Stop <==> outcome is Disconnected,
            next.1@ == returned_descriptors(outcome),
            final(self).running == (old(self).running && !(outcome is Disconnected)),
    {
        let next = after_send(outcome);
        if next.0 == ProducerStep::Stop {
            self.running = false;
        }
        next
    }
}

} // verus!

//! Backend-agnostic screen frame acquisition: the frame and resource model,
//! the output registry, and the decision logic of every capture driver.

use vstd::prelude::*;
use crate::frame::DrmFormat;
use crate::frame::WlxFrame;

pub mod capture;
pub mod frame;
pub mod nvfbc;
pub mod pipewire;
pub mod wayland;
pub mod wlr_dmabuf;
pub mod wlr_screencopy;
pub mod xshm;

verus! {

/// The contract that every capture driver meets.
pub trait WlxCapture {
    /// The driver has been initialized and its producer has not failed.
    spec fn ready(&self) -> bool;

    /// The frames that the producer has handed over and the consumer has not
    /// yet received, oldest first.
    spec fn buffered(&self) -> Seq<WlxFrame>;

    /// Starts the driver. Whether the start succeeded shows in `is_ready`.
    fn init(&mut self, dmabuf_formats: &[DrmFormat])
        ensures
            final(self).buffered() == Seq::<WlxFrame>::empty(),
    ;

    /// Whether the driver can deliver frames: it was started and its
    /// producer has not failed.
    fn is_ready(&self) -> (ready: bool)
        ensures
            ready == self.ready(),
    ;

    /// Hands out the freshest buffered frame and discards the others.
    fn receive(&mut self) -> (frame: Option<WlxFrame>)
        ensures
            final(self).buffered() == Seq::<WlxFrame>::empty(),
            final(self).ready() == old(self).ready(),
            old(self).buffered().len() == 0 ==> frame is None,
            old(self).buffered().len() > 0 ==> frame == Some(old(self).buffered().last()),
    ;

    /// Stops the delivery of frames where the driver delivers by itself.
    /// What is buffered stays.
    fn pause(&mut self)
        ensures
            final(self).buffered() == old(self).buffered(),
            final(self).ready() == old(self).ready(),
    ;

    /// Restarts the delivery of frames. A driver that is ready discards what
    /// is buffered, so that no stale frame is received.
    fn resume(&mut self)
        ensures
            final(self).ready() == old(self).ready(),
            old(self).ready() ==> final(self).buffered() == Seq::<WlxFrame>::empty(),
    ;

    /// Asks for one capture where the driver captures on request. What is
    /// buffered stays.
    fn request_new_frame(&mut self)
        ensures
            final(self).buffered() == old(self).buffered(),
            final(self).ready() == old(self).ready(),
    ;
}

} // verus!

//! The pull driver that grabs the image of one monitor from the X
//! server: how monitors become capture targets, where the pointer lies in a
//! captured monitor, and the frames that a grab gives.

use std::sync::Arc;
use vstd::prelude::*;
use crate::capture::FrameBuffer;
use crate::frame::descriptors_of;
use crate::frame::DrmFormat;
use crate::frame::FrameFormat;
use crate::frame::MemPtrFrame;
use crate::frame::MouseMeta;
use crate::frame::WlxFrame;
use crate::frame::DRM_FORMAT_XRGB8888;
use crate::WlxCapture;

verus! {

/// A monitor as the X server describes it: its name and its rectangle in the
/// root window.
pub struct Monitor {
    pub name: String,
    pub x: i32,
    pub y: i32,
    pub width: i32,
    pub height: i32,
    pub primary: bool,
}

impl Monitor {
    /// The position of the root-window point `root_pos` relative to the
    /// monitor, where the point lies on the monitor.
    pub open spec fn local_position(self, root_pos: (i32, i32)) -> Option<(i32, i32)> {
        if 0 <= root_pos.0 - self.x <= self.width && 0 <= root_pos.1 - self.y <= self.height {
            Some(((root_pos.0 - self.x) as i32, (root_pos.1 - self.y) as i32))
        } else {
            None
        }
    }

    /// Maps a pointer position in the root window to the position
    /// relative to the monitor.
    pub fn mouse_to_local(&self, root_pos: (i32, i32)) -> (local: Option<(i32, i32)>)
        ensures
            local == self.local_position(root_pos),
            local matches Some(position) ==> 0 <= position.0 <= self.width && 0 <= position.1
                <= self.height,
    {
        let x: i64 = root_pos.0 as i64 - self.x as i64;
        let y: i64 = root_pos.1 as i64 - self.y as i64;
        if x >= 0 && x <= self.width as i64 && y >= 0 && y <= self.height as i64 {
            Some((x as i32, y as i32))
        } else {
            None
        }
    }

    /// A copy of the monitor.
    pub fn duplicate(&self) -> (copy: Monitor)
        ensures
            copy == *self,
    {
        Monitor {
            name: self.name.clone(),
            x: self.x,
            y: self.y,
            width: self.width,
            height: self.height,
            primary: self.primary,
        }
    }
}

/// `text` with every match of `from` replaced by `to`, as `str::replace`
/// gives it.
pub uninterp spec fn replaced(text: Seq<char>, from: Seq<char>, to: Seq<char>) -> Seq<char>;

/// `str::replace`: a new string in which `to` stands for every match of
/// `from` in `text`.
#[verifier::external_body]
fn replace(text: &str, from: &str, to: &str) -> (out: String)
    ensures
        out@ == replaced(text@, from@, to@),
{
    text.replace(from, to)
}

/// A monitor as a capture target, under its short name.
pub struct XshmScreen {
    pub name: String,
    pub monitor: Monitor,
}

impl XshmScreen {
    /// The capture target for `monitor`: its name is the monitor's, with
    /// `DP` for `DisplayPort`.
    pub fn new(monitor: Monitor) -> (screen: XshmScreen)
        ensures
            screen.monitor == monitor,
            screen.name@ == replaced(monitor.name@, "DisplayPort"@, "DP"@),
    {
        let name = replace(monitor.name.as_str(), "DisplayPort", "DP");
        XshmScreen { name, monitor }
    }
}

/// The frame that a grab of `monitor` gives: the image at `ptr`, `size`
/// bytes long and `width` by `height` pixels, four bytes to a pixel without
/// alpha, and the pointer's position in it, where the pointer is known and
/// lies on the monitor.
pub open spec fn grabbed_frame(
    monitor: Monitor,
    width: i32,
    height: i32,
    ptr: usize,
    size: usize,
    root_mouse: Option<(i32, i32)>,
) -> MemPtrFrame {
    MemPtrFrame {
        format: FrameFormat {
            width: width as u32,
            height: height as u32,
            fourcc: DRM_FORMAT_XRGB8888,
            modifier: 0,
        },
        ptr,
        size,
        mouse: match root_mouse {
            Some(root_pos) => match monitor.local_position(root_pos) {
                Some(position) => Some(MouseMeta { x: position.0, y: position.1 }),
                None => None,
            },
            None => None,
        },
    }
}

/// Makes the frame of a grab. See `grabbed_frame`.
pub fn captured_frame(
    monitor: &Monitor,
    width: i32,
    height: i32,
    ptr: usize,
    size: usize,
    root_mouse: Option<(i32, i32)>,
) -> (frame: WlxFrame)
    ensures
        frame == WlxFrame::MemPtr(grabbed_frame(*monitor, width, height, ptr, size, root_mouse)),
        frame matches WlxFrame::MemPtr(grab) && grab.mouse matches Some(mouse) ==> 0 <= mouse.x
            <= monitor.width && 0 <= mouse.y <= monitor.height,
{
    let mouse = match root_mouse {
        Some(root_pos) => match monitor.mouse_to_local(root_pos) {
            Some(position) => Some(MouseMeta { x: position.0, y: position.1 }),
            None => None,
        },
        None => None,
    };
    WlxFrame::MemPtr(
        MemPtrFrame {
            format: FrameFormat {
                width: width as u32,
                height: height as u32,
                fourcc: DRM_FORMAT_XRGB8888,
                modifier: 0,
            },
            ptr,
            size,
            mouse,
        },
    )
}

/// The consumer's side of the driver for one monitor.
pub struct XshmCapture {
    pub screen: Arc<XshmScreen>,
    started: bool,
    failed: bool,
    request: bool,
    frames: FrameBuffer,
}

/// What an `XshmCapture` holds, as contracts see it.
pub struct XshmCaptureState {
    pub screen: Arc<XshmScreen>,
    /// `init` has been called.
    pub started: bool,
    /// The worker could not start or has ended.
    pub failed: bool,
    /// The caller has to ask the worker for a grab.
    pub request: bool,
    /// The frames that have arrived and were not received, oldest first.
    pub frames: Seq<WlxFrame>,
    /// The descriptors of discarded frames that the caller has to close.
    pub released: Seq<i32>,
}

impl View for XshmCapture {
    type V = XshmCaptureState;

    closed spec fn view(&self) -> XshmCaptureState {
        XshmCaptureState {
            screen: self.screen,
            started: self.started,
            failed: self.failed,
            request: self.request,
            frames: self.frames@.frames,
            released: self.frames@.released,
        }
    }
}

impl XshmCaptureState {
    /// The view after a frame was requested. Requests are coalesced: a
    /// request beside a pending one changes nothing. Before `init` there is
    /// no worker to ask.
    pub open spec fn requested(self) -> XshmCaptureState {
        if self.started {
            XshmCaptureState { request: true, ..self }
        } else {
            self
        }
    }

    /// The view with every buffered frame discarded.
    pub open spec fn cleared(self) -> XshmCaptureState {
        XshmCaptureState {
            frames: Seq::empty(),
            released: self.released + descriptors_of(self.frames),
            ..self
        }
    }
}

/// Requests that follow one another before the caller takes them up ask for
/// one grab.
pub proof fn xshm_requests_are_coalesced(view: XshmCaptureState)
    ensures
        view.requested().requested() == view.requested(),
{
}

impl XshmCapture {
    /// A driver for `screen`. It is not ready before `init`.
    pub fn new(screen: Arc<XshmScreen>) -> (capture: XshmCapture)
        ensures
            capture@ == (XshmCaptureState {
                screen,
                started: false,
                failed: false,
                request: false,
                frames: Seq::empty(),
                released: Seq::empty(),
            }),
            !capture.ready(),
    {
        XshmCapture {
            screen,
            started: false,
            failed: false,
            request: false,
            frames: FrameBuffer::new(),
        }
    }

    /// The capture targets for the monitors of a display, in their order.
    pub fn get_monitors(monitors: Vec<Monitor>) -> (screens: Vec<Arc<XshmScreen>>)
        ensures
            screens@.len() == monitors@.len(),
            forall|i: int|
                0 <= i < monitors@.len() ==> (#[trigger] screens@[i]).monitor == monitors@[i]
                    && screens@[i].name@ == replaced(monitors@[i].name@, "DisplayPort"@, "DP"@),
    {
        let mut screens: Vec<Arc<XshmScreen>> = Vec::new();
        let mut i: usize = 0;
        while i < monitors.len()
            invariant
                i <= monitors@.len(),
                screens@.len() == i,
                forall|j: int|
                    0 <= j < i ==> (#[trigger] screens@[j]).monitor == monitors@[j]
                        && screens@[j].name@ == replaced(monitors@[j].name@, "DisplayPort"@, "DP"@),
            decreases monitors@.len() - i,
        {
            screens.push(Arc::new(XshmScreen::new(monitors[i].duplicate())));
            i += 1;
        }
        screens
    }

    pub fn supports_dmbuf(&self) -> (supported: bool)
        ensures
            !supported,
    {
        false
    }

    /// Takes a frame in that the worker has handed over.
    pub fn deliver(&mut self, frame: WlxFrame)
        ensures
            final(self)@ == (XshmCaptureState {
                frames: old(self)@.frames.push(frame),
                ..old(self)@
            }),
    {
        self.frames.deliver(frame);
    }

    /// Takes up that the worker could not start or has ended: the driver is
    /// not ready any more.
    pub fn producer_failed(&mut self)
        ensures
            final(self)@ == (XshmCaptureState { failed: true, ..old(self)@ }),
            !final(self).ready(),
    {
        self.failed = true;
    }

    /// Tells the caller whether it has to ask the worker for a grab, once
    /// for all requests since it last asked.
    pub fn take_request(&mut self) -> (request: bool)
        ensures
            request == old(self)@.request,
            final(self)@ == (XshmCaptureState { request: false, ..old(self)@ }),
    {
        let request = self.request;
        self.request = false;
        request
    }

    /// Hands the descriptors of discarded frames to the caller, who closes
    /// them.
    pub fn take_released(&mut self) -> (released: Vec<i32>)
        ensures
            released@ == old(self)@.released,
            final(self)@ == (XshmCaptureState { released: Seq::empty(), ..old(self)@ }),
    {
        self.frames.take_released()
    }
}

impl WlxCapture for XshmCapture {
    open spec fn ready(&self) -> bool {
        self@.started && !self@.failed
    }

    open spec fn buffered(&self) -> Seq<WlxFrame> {
        self@.frames
    }

    /// Starts the driver anew: frames and a request of an earlier start are
    /// discarded.
    fn init(&mut self, dmabuf_formats: &[DrmFormat])
        ensures
            final(self)@ == (XshmCaptureState {
                started: true,
                failed: false,
                request: false,
                ..old(self)@.cleared()
            }),
            final(self).ready(),
    {
        self.frames.discard();
        self.request = false;
        self.started = true;
        self.failed = false;
    }

    fn is_ready(&self) -> (ready: bool) {
        self.started && !self.failed
    }

    fn receive(&mut self) -> (frame: Option<WlxFrame>)
        ensures
            final(self)@ == (XshmCaptureState {
                frames: Seq::empty(),
                released: if old(self)@.frames.len() > 0 {
                    old(self)@.released + descriptors_of(old(self)@.frames.drop_last())
                } else {
                    old(self)@.released
                },
                ..old(self)@
            }),
    {
        self.frames.receive()
    }

    /// The driver grabs on request only: there is nothing to pause.
    fn pause(&mut self)
        ensures
            final(self)@ == old(self)@,
    {
    }

    /// Discards what is buffered and requests a frame.
    fn resume(&mut self)
        ensures
            final(self)@ == old(self)@.cleared().requested(),
    {
        self.frames.discard();
        self.request_new_frame();
    }

    /// Asks for one grab.
    fn request_new_frame(&mut self)
        ensures
            final(self)@ == old(self)@.requested(),
    {
        if self.started {
            self.request = true;
        }
    }
}

} // verus!

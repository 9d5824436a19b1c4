//! The wire-independent representation of a captured frame and of the raw
//! resources it owns.

use vstd::prelude::*;

verus! {

/// A four-byte code that identifies a pixel memory layout.
pub type FourCC = u32;

pub const DRM_FORMAT_ARGB8888: FourCC = 0x34325241;

pub const DRM_FORMAT_ABGR8888: FourCC = 0x34324241;

pub const DRM_FORMAT_XRGB8888: FourCC = 0x34325258;

pub const DRM_FORMAT_XBGR8888: FourCC = 0x34324258;

pub const EGL_WIDTH: isize = 0x3057;

pub const EGL_HEIGHT: isize = 0x3056;

pub const EGL_LINUX_DRM_FOURCC_EXT: isize = 0x3271;

pub const EGL_NONE: isize = 0x3038;

/// The attribute keys of the four planes of a DMA-BUF image, five to a plane:
/// descriptor, offset, stride, modifier low half, modifier high half.
pub open spec fn egl_dmabuf_plane_attrs() -> Seq<isize> {
    seq![
        0x3272, 0x3273, 0x3274, 0x3443, 0x3444,
        0x3275, 0x3276, 0x3277, 0x3445, 0x3446,
        0x3278, 0x3279, 0x327A, 0x3447, 0x3448,
        0x3440, 0x3441, 0x3442, 0x3449, 0x344A,
    ]
}

fn plane_attr(index: usize) -> (key: isize)
    requires
        index < 20,
    ensures
        key == egl_dmabuf_plane_attrs()[index as int],
{
    let table: [isize; 20] = [
        0x3272, 0x3273, 0x3274, 0x3443, 0x3444,
        0x3275, 0x3276, 0x3277, 0x3445, 0x3446,
        0x3278, 0x3279, 0x327A, 0x3447, 0x3448,
        0x3440, 0x3441, 0x3442, 0x3449, 0x344A,
    ];
    table[index]
}

/// Size, pixel layout and layout modifier of a frame.
#[derive(Debug, Clone, Copy, PartialEq, Eq, Structural)]
pub struct FrameFormat {
    pub width: u32,
    pub height: u32,
    pub fourcc: FourCC,
    pub modifier: u64,
}

impl Default for FrameFormat {
    fn default() -> (format: FrameFormat)
        ensures
            format == (FrameFormat { width: 0, height: 0, fourcc: 0, modifier: 0 }),
    {
        FrameFormat { width: 0, height: 0, fourcc: 0, modifier: 0 }
    }
}

impl FrameFormat {
    /// The upper 32 bits of the modifier.
    pub open spec fn mod_hi(self) -> int {
        self.modifier as int / 0x1_0000_0000
    }

    /// The lower 32 bits of the modifier.
    pub open spec fn mod_lo(self) -> int {
        self.modifier as int % 0x1_0000_0000
    }

    pub fn get_mod_hi(&self) -> (hi: u32)
        ensures
            hi == self.mod_hi(),
    {
        let m: u64 = self.modifier;
        assert((m >> 32) == m / 0x1_0000_0000 && (m >> 32) <= 0xFFFF_FFFF) by (bit_vector);
        (m >> 32) as u32
    }

    pub fn get_mod_lo(&self) -> (lo: u32)
        ensures
            lo == self.mod_lo(),
    {
        let m: u64 = self.modifier;
        assert((m & 0xFFFF_FFFF) == m % 0x1_0000_0000) by (bit_vector);
        (m & 0xFFFFFFFF) as u32
    }

    /// Joins the two halves in which some protocols transmit the modifier.
    pub fn set_mod(&mut self, mod_hi: u32, mod_low: u32)
        ensures
            final(self).modifier == mod_hi as int * 0x1_0000_0000 + mod_low,
            final(self).mod_hi() == mod_hi,
            final(self).mod_lo() == mod_low,
            final(self).width == old(self).width,
            final(self).height == old(self).height,
            final(self).fourcc == old(self).fourcc,
    {
        let hi: u64 = mod_hi as u64;
        assert((hi << 32) == hi * 0x1_0000_0000) by (bit_vector)
            requires
                hi <= 0xFFFF_FFFF,
        ;
        self.modifier = (hi << 32) + mod_low as u64;
    }
}

/// One memory plane of an image. A plane without a descriptor is invalid.
#[derive(Debug, Clone, Copy, PartialEq, Eq, Structural)]
pub struct FramePlane {
    pub fd: Option<i32>,
    pub offset: u32,
    pub stride: i32,
}

impl Default for FramePlane {
    fn default() -> (plane: FramePlane)
        ensures
            plane == (FramePlane { fd: None, offset: 0, stride: 0 }),
    {
        FramePlane { fd: None, offset: 0, stride: 0 }
    }
}

impl FramePlane {
    /// The descriptor of the plane, as the list of descriptors it holds.
    pub open spec fn descriptors(self) -> Seq<i32> {
        match self.fd {
            Some(fd) => seq![fd],
            None => Seq::empty(),
        }
    }

    /// The plane once its descriptor has been given up.
    pub open spec fn closed(self) -> FramePlane {
        FramePlane { fd: None, offset: self.offset, stride: self.stride }
    }
}

/// A pixel layout together with the layout modifiers, in order, that the
/// consumer is able to import.
pub struct DrmFormat {
    pub fourcc: FourCC,
    pub modifiers: Vec<u64>,
}

impl Default for DrmFormat {
    fn default() -> (format: DrmFormat)
        ensures
            format.fourcc == 0,
            format.modifiers@ == Seq::<u64>::empty(),
    {
        DrmFormat { fourcc: 0, modifiers: Vec::new() }
    }
}

/// A frame exported as DMA-BUF planes. The frame owns every descriptor it holds.
pub struct DmabufFrame {
    pub format: FrameFormat,
    pub num_planes: usize,
    pub planes: [FramePlane; 4],
}

/// A `DmabufFrame` as contracts see it: the planes are a sequence of four.
pub struct DmabufView {
    pub format: FrameFormat,
    pub num_planes: usize,
    pub planes: Seq<FramePlane>,
}

impl DmabufView {
    /// The descriptors that the first `n` planes hold, in plane order.
    pub open spec fn descriptors_below(self, n: nat) -> Seq<i32>
        decreases n,
    {
        if n == 0 {
            Seq::empty()
        } else {
            self.descriptors_below((n - 1) as nat) + self.planes[n - 1].descriptors()
        }
    }

    /// Every descriptor that the frame owns, in plane order.
    pub open spec fn descriptors(self) -> Seq<i32> {
        self.descriptors_below(self.planes.len())
    }

    /// The frame with every descriptor given up and nothing else changed.
    pub open spec fn closed(self) -> DmabufView {
        DmabufView {
            planes: Seq::new(self.planes.len(), |i: int| self.planes[i].closed()),
            ..self
        }
    }
}

impl View for DmabufFrame {
    type V = DmabufView;

    open spec fn view(&self) -> DmabufView {
        DmabufView { format: self.format, num_planes: self.num_planes, planes: self.planes@ }
    }
}

impl Default for DmabufFrame {
    fn default() -> (frame: DmabufFrame)
        ensures
            frame.format == (FrameFormat { width: 0, height: 0, fourcc: 0, modifier: 0 }),
            frame.num_planes == 0,
            forall|i: int|
                0 <= i < 4 ==> frame.planes[i] == (FramePlane { fd: None, offset: 0, stride: 0 }),
    {
        let plane = FramePlane { fd: None, offset: 0, stride: 0 };
        DmabufFrame {
            format: FrameFormat { width: 0, height: 0, fourcc: 0, modifier: 0 },
            num_planes: 0,
            planes: [plane, plane, plane, plane],
        }
    }
}

impl DmabufFrame {
    /// The frame can be described to the GPU-import layer: it has at most four
    /// planes and each of them holds a descriptor.
    pub open spec fn importable(&self) -> bool {
        &&& self.num_planes <= 4
        &&& forall|i: int| 0 <= i < self.num_planes ==> (#[trigger] self.planes[i]).fd is Some
    }

    /// Width, height and pixel code, each behind its key.
    pub open spec fn header_attribs(&self) -> Seq<isize> {
        seq![
            EGL_WIDTH,
            self.format.width as isize,
            EGL_HEIGHT,
            self.format.height as isize,
            EGL_LINUX_DRM_FOURCC_EXT,
            self.format.fourcc as isize,
        ]
    }

    /// The five attributes of plane `i`, each behind its key.
    pub open spec fn plane_attribs(&self, i: int) -> Seq<isize> {
        seq![
            egl_dmabuf_plane_attrs()[5 * i],
            self.planes[i].fd.unwrap() as isize,
            egl_dmabuf_plane_attrs()[5 * i + 1],
            self.planes[i].offset as isize,
            egl_dmabuf_plane_attrs()[5 * i + 2],
            self.planes[i].stride as isize,
            egl_dmabuf_plane_attrs()[5 * i + 3],
            self.format.mod_lo() as u32 as isize,
            egl_dmabuf_plane_attrs()[5 * i + 4],
            self.format.mod_hi() as u32 as isize,
        ]
    }

    /// The attributes of the first `n` planes, in plane order.
    pub open spec fn planes_attribs(&self, n: nat) -> Seq<isize>
        decreases n,
    {
        if n == 0 {
            Seq::empty()
        } else {
            self.planes_attribs((n - 1) as nat) + self.plane_attribs(n - 1)
        }
    }

    /// The attribute list from which an importable image is made: the header,
    /// the planes below `num_planes`, and the terminator.
    pub open spec fn egl_image_attribs(&self) -> Seq<isize> {
        self.header_attribs() + self.planes_attribs(self.num_planes as nat) + seq![EGL_NONE]
    }

    /// Every descriptor that the frame owns, in plane order.
    pub open spec fn descriptors(&self) -> Seq<i32> {
        self@.descriptors()
    }

    /// The attribute list that describes the frame to the GPU-import layer.
    /// See `egl_image_attribs`.
    pub fn get_egl_image_attribs(&self) -> (attribs: Vec<isize>)
        requires
            self.importable(),
        ensures
            attribs@ == self.egl_image_attribs(),
    {
        let mut vec: Vec<isize> = Vec::new();
        vec.push(EGL_WIDTH);
        vec.push(self.format.width as isize);
        vec.push(EGL_HEIGHT);
        vec.push(self.format.height as isize);
        vec.push(EGL_LINUX_DRM_FOURCC_EXT);
        vec.push(self.format.fourcc as isize);
        assert(vec@ =~= self.header_attribs());
        let mod_lo: u32 = self.format.get_mod_lo();
        let mod_hi: u32 = self.format.get_mod_hi();
        let mut i: usize = 0;
        while i < self.num_planes
            invariant
                i <= self.num_planes <= 4,
                self.importable(),
                mod_lo == self.format.mod_lo(),
                mod_hi == self.format.mod_hi(),
                vec@ == self.header_attribs() + self.planes_attribs(i as nat),
            decreases self.num_planes - i,
        {
            let a: usize = i * 5;
            let plane: FramePlane = self.planes[i];
            let ghost before = vec@;
            vec.push(plane_attr(a));
            vec.push(plane.fd.unwrap() as isize);
            vec.push(plane_attr(a + 1));
            vec.push(plane.offset as isize);
            vec.push(plane_attr(a + 2));
            vec.push(plane.stride as isize);
            vec.push(plane_attr(a + 3));
            vec.push(mod_lo as isize);
            vec.push(plane_attr(a + 4));
            vec.push(mod_hi as isize);
            assert(vec@ =~= before + self.plane_attribs(i as int));
            i += 1;
        }
        vec.push(EGL_NONE);
        vec
    }

    /// Whether the frame can be used: its first plane holds a descriptor.
    pub fn is_valid(&self) -> (valid: bool)
        ensures
            valid == (self.planes[0].fd is Some),
    {
        self.planes[0].fd.is_some()
    }

    /// Gives up the descriptors of all planes and returns them, in plane
    /// order, for the caller to close. A second call returns nothing.
    pub fn close(&mut self) -> (released: Vec<i32>)
        ensures
            released@ == old(self)@.descriptors(),
            final(self)@ == old(self)@.closed(),
    {
        let mut released: Vec<i32> = Vec::new();
        let mut i: usize = 0;
        while i < 4
            invariant
                i <= 4,
                released@ == old(self)@.descriptors_below(i as nat),
                self.format == old(self).format,
                self.num_planes == old(self).num_planes,
                forall|j: int|
                    0 <= j < i ==> #[trigger] self.planes[j] == old(self).planes[j].closed(),
                forall|j: int| i <= j < 4 ==> #[trigger] self.planes[j] == old(self).planes[j],
            decreases 4 - i,
        {
            let plane: FramePlane = self.planes[i];
            if let Some(fd) = plane.fd {
                released.push(fd);
            }
            self.planes[i] = FramePlane { fd: None, offset: plane.offset, stride: plane.stride };
            i += 1;
        }
        assert(self@.planes =~= old(self)@.closed().planes);
        released
    }
}

/// The attribute list holds three pairs for the header, five pairs for each
/// plane below `num_planes`, and the terminator.
pub proof fn egl_image_attribs_len(frame: DmabufFrame)
    ensures
        frame.egl_image_attribs().len() == 6 + 10 * frame.num_planes + 1,
{
    planes_attribs_len(frame, frame.num_planes as nat);
}

/// Without planes the attribute list holds the six entries of the header
/// and the terminator.
pub proof fn egl_image_attribs_len_without_planes(frame: DmabufFrame)
    requires
        frame.num_planes == 0,
    ensures
        frame.egl_image_attribs().len() == 6 + 5 * frame.num_planes + 1,
{
    egl_image_attribs_len(frame);
}

proof fn planes_attribs_len(frame: DmabufFrame, n: nat)
    ensures
        frame.planes_attribs(n).len() == 10 * n,
    decreases n,
{
    if n > 0 {
        planes_attribs_len(frame, (n - 1) as nat);
    }
}

/// In the attribute list, the pair at `6 + 10 * i + 2 * k` describes field `k`
/// of plane `i`: its first entry is that field's key.
pub proof fn egl_image_attribs_plane(frame: DmabufFrame, i: int, k: int)
    requires
        0 <= i < frame.num_planes,
        0 <= k < 5,
    ensures
        frame.egl_image_attribs()[6 + 10 * i + 2 * k] == egl_dmabuf_plane_attrs()[5 * i + k],
        frame.egl_image_attribs()[6 + 10 * i + 2 * k + 1] == frame.plane_attribs(i)[2 * k + 1],
{
    planes_attribs_index(frame, frame.num_planes as nat, i, 2 * k);
    planes_attribs_index(frame, frame.num_planes as nat, i, 2 * k + 1);
    planes_attribs_len(frame, frame.num_planes as nat);
}

proof fn planes_attribs_index(frame: DmabufFrame, n: nat, i: int, j: int)
    requires
        0 <= i < n,
        0 <= j < 10,
    ensures
        frame.planes_attribs(n)[10 * i + j] == frame.plane_attribs(i)[j],
    decreases n,
{
    planes_attribs_len(frame, (n - 1) as nat);
    if i < n - 1 {
        planes_attribs_index(frame, (n - 1) as nat, i, j);
    }
}

/// Closing is idempotent: a frame that was closed owns no descriptor, and
/// closing it again gives nothing up and leaves it as it is.
pub proof fn close_is_idempotent(frame: DmabufView)
    ensures
        frame.closed().descriptors() == Seq::<i32>::empty(),
        frame.closed().closed() == frame.closed(),
{
    closed_planes_hold_nothing(frame.closed(), frame.planes.len());
    assert(frame.closed().closed().planes =~= frame.closed().planes);
}

proof fn closed_planes_hold_nothing(frame: DmabufView, n: nat)
    requires
        n <= frame.planes.len(),
        forall|i: int| 0 <= i < frame.planes.len() ==> (#[trigger] frame.planes[i]).fd is None,
    ensures
        frame.descriptors_below(n) == Seq::<i32>::empty(),
    decreases n,
{
    if n > 0 {
        closed_planes_hold_nothing(frame, (n - 1) as nat);
        assert(frame.planes[n - 1].fd is None);
    }
}

/// A frame without a descriptor in any plane owns nothing.
pub proof fn empty_planes_hold_nothing(frame: DmabufView)
    requires
        forall|i: int| 0 <= i < frame.planes.len() ==> (#[trigger] frame.planes[i]).fd is None,
    ensures
        frame.descriptors() == Seq::<i32>::empty(),
{
    closed_planes_hold_nothing(frame, frame.planes.len());
}

/// Putting `plane` in the place of plane `i` exchanges the descriptor that
/// the frame held there for the descriptor of `plane`: counted with what was
/// held there, the frame owns what it owned before and what `plane` holds.
pub proof fn replaced_plane_exchanges_descriptors(frame: DmabufView, i: int, plane: FramePlane)
    requires
        0 <= i < frame.planes.len(),
    ensures
        (DmabufView { planes: frame.planes.update(i, plane), ..frame }).descriptors().to_multiset().add(
            frame.planes[i].descriptors().to_multiset(),
        ) == frame.descriptors().to_multiset().add(plane.descriptors().to_multiset()),
{
    replaced_plane_below(frame, i, plane, frame.planes.len());
}

proof fn replaced_plane_below(frame: DmabufView, i: int, plane: FramePlane, n: nat)
    requires
        0 <= i < frame.planes.len(),
        n <= frame.planes.len(),
    ensures
        n <= i ==> (DmabufView {
            planes: frame.planes.update(i, plane),
            ..frame
        }).descriptors_below(n) == frame.descriptors_below(n),
        n > i ==> (DmabufView {
            planes: frame.planes.update(i, plane),
            ..frame
        }).descriptors_below(n).to_multiset().add(frame.planes[i].descriptors().to_multiset())
            == frame.descriptors_below(n).to_multiset().add(plane.descriptors().to_multiset()),
    decreases n,
{
    broadcast use vstd::multiset::group_multiset_axioms;

    let after = DmabufView { planes: frame.planes.update(i, plane), ..frame };
    if n > 0 {
        replaced_plane_below(frame, i, plane, (n - 1) as nat);
        let before_below = frame.descriptors_below((n - 1) as nat);
        let after_below = after.descriptors_below((n - 1) as nat);
        vstd::seq_lib::lemma_multiset_commutative(before_below, frame.planes[n - 1].descriptors());
        vstd::seq_lib::lemma_multiset_commutative(after_below, after.planes[n - 1].descriptors());
        if n - 1 == i {
            assert(after.planes[n - 1] == plane);
            assert(after_below == before_below);
            assert(after.descriptors_below(n).to_multiset().add(
                frame.planes[i].descriptors().to_multiset(),
            ) =~= frame.descriptors_below(n).to_multiset().add(plane.descriptors().to_multiset()));
        } else if n - 1 > i {
            assert(after.planes[n - 1] == frame.planes[n - 1]);
            let held = frame.planes[i].descriptors().to_multiset();
            let put = plane.descriptors().to_multiset();
            assert forall|fd: i32|
                after_below.to_multiset().count(fd) + held.count(fd)
                    == before_below.to_multiset().count(fd) + put.count(fd) by {
                assert(after_below.to_multiset().add(held).count(fd)
                    == before_below.to_multiset().add(put).count(fd));
            }
            assert(after.descriptors_below(n).to_multiset().add(
                frame.planes[i].descriptors().to_multiset(),
            ) =~= frame.descriptors_below(n).to_multiset().add(plane.descriptors().to_multiset()));
        } else {
            assert(after.planes[n - 1] == frame.planes[n - 1]);
        }
    }
}

/// The two halves of a modifier give the modifier back.
pub proof fn modifier_halves(format: FrameFormat)
    ensures
        0 <= format.mod_hi() <= 0xFFFF_FFFF,
        0 <= format.mod_lo() <= 0xFFFF_FFFF,
        format.modifier == format.mod_hi() * 0x1_0000_0000 + format.mod_lo(),
{
}

/// A frame held in one shared-memory segment. The frame owns the descriptor
/// of its plane.
pub struct MemFdFrame {
    pub format: FrameFormat,
    pub plane: FramePlane,
}

impl Default for MemFdFrame {
    fn default() -> (frame: MemFdFrame)
        ensures
            frame.format == (FrameFormat { width: 0, height: 0, fourcc: 0, modifier: 0 }),
            frame.plane == (FramePlane { fd: None, offset: 0, stride: 0 }),
    {
        MemFdFrame {
            format: FrameFormat { width: 0, height: 0, fourcc: 0, modifier: 0 },
            plane: FramePlane { fd: None, offset: 0, stride: 0 },
        }
    }
}

/// The pointer position inside the captured surface, in pixels from its
/// top-left corner. Divided by the frame's width and height it is the
/// normalized position.
#[derive(Debug, Clone, Copy, PartialEq, Eq, Structural)]
pub struct MouseMeta {
    pub x: i32,
    pub y: i32,
}

impl Default for MouseMeta {
    fn default() -> (mouse: MouseMeta)
        ensures
            mouse == (MouseMeta { x: 0, y: 0 }),
    {
        MouseMeta { x: 0, y: 0 }
    }
}

/// A frame that lies at a process-local address. The frame does not own the
/// memory: the address is good until the backend captures again.
pub struct MemPtrFrame {
    pub format: FrameFormat,
    pub ptr: usize,
    pub size: usize,
    pub mouse: Option<MouseMeta>,
}

impl Default for MemPtrFrame {
    fn default() -> (frame: MemPtrFrame)
        ensures
            frame.format == (FrameFormat { width: 0, height: 0, fourcc: 0, modifier: 0 }),
            frame.ptr == 0,
            frame.size == 0,
            frame.mouse is None,
    {
        MemPtrFrame {
            format: FrameFormat { width: 0, height: 0, fourcc: 0, modifier: 0 },
            ptr: 0,
            size: 0,
            mouse: None,
        }
    }
}

/// A captured frame, tagged by the kind of memory that holds it.
pub enum WlxFrame {
    Dmabuf(DmabufFrame),
    MemFd(MemFdFrame),
    MemPtr(MemPtrFrame),
    Mouse(MouseMeta),
}

impl WlxFrame {
    /// Every descriptor that the frame owns, in plane order.
    pub open spec fn descriptors(&self) -> Seq<i32> {
        match self {
            WlxFrame::Dmabuf(frame) => frame.descriptors(),
            WlxFrame::MemFd(frame) => frame.plane.descriptors(),
            WlxFrame::MemPtr(_) => Seq::empty(),
            WlxFrame::Mouse(_) => Seq::empty(),
        }
    }

    /// Gives the frame up: returns the descriptors it owned, for the caller
    /// to close.
    pub fn release(self) -> (released: Vec<i32>)
        ensures
            released@ == self.descriptors(),
    {
        match self {
            WlxFrame::Dmabuf(frame) => {
                let mut frame = frame;
                frame.close()
            },
            WlxFrame::MemFd(frame) => {
                let mut released: Vec<i32> = Vec::new();
                if let Some(fd) = frame.plane.fd {
                    released.push(fd);
                }
                released
            },
            WlxFrame::MemPtr(_) => Vec::new(),
            WlxFrame::Mouse(_) => Vec::new(),
        }
    }
}

/// The descriptors that a run of frames owns, frame by frame.
pub open spec fn descriptors_of(frames: Seq<WlxFrame>) -> Seq<i32>
    decreases frames.len(),
{
    if frames.len() == 0 {
        Seq::empty()
    } else {
        frames[0].descriptors() + descriptors_of(frames.subrange(1, frames.len() as int))
    }
}

/// Gives a run of frames up: returns the descriptors they owned, frame by
/// frame, for the caller to close.
pub fn release_frames(frames: Vec<WlxFrame>) -> (released: Vec<i32>)
    ensures
        released@ == descriptors_of(frames@),
{
    let mut rest = frames;
    let mut released: Vec<i32> = Vec::new();
    while rest.len() > 0
        invariant
            released@ + descriptors_of(rest@) == descriptors_of(frames@),
        decreases rest.len(),
    {
        let ghost before = rest@;
        let frame = rest.remove(0);
        let mut given_up = frame.release();
        assert(rest@ == before.subrange(1, before.len() as int));
        let ghost so_far = released@;
        released.append(&mut given_up);
        assert(released@ + descriptors_of(rest@) =~= so_far + descriptors_of(before));
    }
    assert(descriptors_of(rest@) == Seq::<i32>::empty());
    released
}

} // verus!

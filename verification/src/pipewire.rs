//! The streaming driver: what it asks of the desktop portal, the formats it
//! offers to the video bus, how it turns the buffers it is handed into
//! frames, and how it reacts to control requests and to a consumer that went
//! away.

use vstd::prelude::*;
use crate::capture::after_send;
use crate::capture::returned_descriptors;
use crate::capture::FrameBuffer;
use crate::capture::ProducerStep;
use crate::capture::SendOutcome;
use crate::frame::descriptors_of;
use crate::frame::DmabufFrame;
use crate::frame::DrmFormat;
use crate::frame::FourCC;
use crate::frame::FrameFormat;
use crate::frame::FramePlane;
use crate::frame::MemFdFrame;
use crate::frame::MemPtrFrame;
use crate::frame::WlxFrame;
use crate::frame::DRM_FORMAT_ABGR8888;
use crate::frame::DRM_FORMAT_ARGB8888;
use crate::frame::DRM_FORMAT_XBGR8888;
use crate::frame::DRM_FORMAT_XRGB8888;
use crate::WlxCapture;

verus! {

/// The stream that the portal granted, and the token by which the grant can
/// be restored.
pub struct PipewireSelectScreenResult {
    pub node_id: u32,
    pub restore_token: Option<String>,
}

/// How the portal treats the pointer.
#[derive(Clone, Copy, PartialEq, Eq, Structural, Debug)]
pub enum CursorMode {
    Hidden,
    Embedded,
}

/// How long the portal keeps a grant.
#[derive(Clone, Copy, PartialEq, Eq, Structural, Debug)]
pub enum PersistMode {
    DoNot,
    ExplicitlyRevoked,
}

/// The kinds of source that the user may pick from.
#[derive(Clone, Copy, PartialEq, Eq, Structural, Debug)]
pub struct SourceTypes {
    pub monitor: bool,
    pub window: bool,
    pub virtual_source: bool,
}

/// What the driver asks of the portal when it selects sources.
#[derive(Clone, Copy, PartialEq, Eq, Structural, Debug)]
pub struct SelectSourcesOptions {
    pub cursor_mode: CursorMode,
    pub source_types: SourceTypes,
    pub multiple: bool,
    pub persist_mode: PersistMode,
}

/// The request that the three capture options stand for: the pointer is
/// embedded or hidden, the sources are monitors only or monitors, windows
/// and virtual sources, one source is picked, and the grant persists until
/// revoked or not at all.
pub fn select_sources_options(embed_mouse: bool, screens_only: bool, persist: bool) -> (options:
    SelectSourcesOptions)
    ensures
        options.cursor_mode == (if embed_mouse {
            CursorMode::Embedded
        } else {
            CursorMode::Hidden
        }),
        options.source_types == (SourceTypes {
            monitor: true,
            window: !screens_only,
            virtual_source: !screens_only,
        }),
        !options.multiple,
        options.persist_mode == (if persist {
            PersistMode::ExplicitlyRevoked
        } else {
            PersistMode::DoNot
        }),
{
    let cursor_mode = if embed_mouse {
        CursorMode::Embedded
    } else {
        CursorMode::Hidden
    };
    let source_types = if screens_only {
        SourceTypes { monitor: true, window: false, virtual_source: false }
    } else {
        SourceTypes { monitor: true, window: true, virtual_source: true }
    };
    let persist_mode = if persist {
        PersistMode::ExplicitlyRevoked
    } else {
        PersistMode::DoNot
    };
    SelectSourcesOptions { cursor_mode, source_types, multiple: false, persist_mode }
}

/// Why no screen was selected.
#[derive(Clone, Copy, PartialEq, Eq, Structural, Debug)]
pub enum SelectScreenError {
    /// The portal answered without a stream.
    NoResponse,
}

/// Picks the screen out of the portal's answer: the first of the streams it
/// granted, with the restore token it handed out. An answer without a stream
/// is an error.
pub fn pipewire_select_screen(stream_nodes: &Vec<u32>, restore_token: Option<String>) -> (selected:
    Result<PipewireSelectScreenResult, SelectScreenError>)
    ensures
        selected is Ok <==> stream_nodes@.len() > 0,
        selected matches Ok(screen) ==> screen.node_id == stream_nodes@[0] && screen.restore_token
            == restore_token,
        selected matches Err(error) ==> error == SelectScreenError::NoResponse,
{
    if stream_nodes.len() > 0 {
        Ok(PipewireSelectScreenResult { node_id: stream_nodes[0], restore_token })
    } else {
        Err(SelectScreenError::NoResponse)
    }
}

/// A request of the consumer to the stream's event loop.
#[derive(Clone, Copy, PartialEq, Eq, Structural, Debug)]
pub enum PwChangeRequest {
    Pause,
    Resume,
    Stop,
}

/// The pixel layouts that the driver negotiates, by the names of the video
/// bus.
#[derive(Clone, Copy, PartialEq, Eq, Structural, Debug)]
pub enum VideoFormat {
    RGBx,
    BGRx,
    RGBA,
    BGRA,
}

/// Whether the driver can offer the pixel layout `fourcc` to the video bus.
pub open spec fn offerable_fourcc(fourcc: FourCC) -> bool {
    fourcc == DRM_FORMAT_ARGB8888 || fourcc == DRM_FORMAT_ABGR8888 || fourcc
        == DRM_FORMAT_XRGB8888 || fourcc == DRM_FORMAT_XBGR8888
}

/// The name of the video bus for the pixel layout `fourcc`.
pub open spec fn spa_of_fourcc(fourcc: FourCC) -> VideoFormat {
    if fourcc == DRM_FORMAT_ARGB8888 {
        VideoFormat::BGRA
    } else if fourcc == DRM_FORMAT_ABGR8888 {
        VideoFormat::RGBA
    } else if fourcc == DRM_FORMAT_XRGB8888 {
        VideoFormat::BGRx
    } else {
        VideoFormat::RGBx
    }
}

/// The pixel layout that the video bus calls `spa`.
pub open spec fn fourcc_of_spa(spa: VideoFormat) -> FourCC {
    match spa {
        VideoFormat::BGRA => DRM_FORMAT_ARGB8888,
        VideoFormat::RGBA => DRM_FORMAT_ABGR8888,
        VideoFormat::BGRx => DRM_FORMAT_XRGB8888,
        VideoFormat::RGBx => DRM_FORMAT_XBGR8888,
    }
}

pub fn is_offerable_fourcc(fourcc: FourCC) -> (offerable: bool)
    ensures
        offerable == offerable_fourcc(fourcc),
{
    fourcc == DRM_FORMAT_ARGB8888 || fourcc == DRM_FORMAT_ABGR8888 || fourcc
        == DRM_FORMAT_XRGB8888 || fourcc == DRM_FORMAT_XBGR8888
}

pub fn fourcc_to_spa(fourcc: FourCC) -> (spa: VideoFormat)
    requires
        offerable_fourcc(fourcc),
    ensures
        spa == spa_of_fourcc(fourcc),
{
    if fourcc == DRM_FORMAT_ARGB8888 {
        VideoFormat::BGRA
    } else if fourcc == DRM_FORMAT_ABGR8888 {
        VideoFormat::RGBA
    } else if fourcc == DRM_FORMAT_XRGB8888 {
        VideoFormat::BGRx
    } else {
        VideoFormat::RGBx
    }
}

pub fn spa_to_fourcc(spa: VideoFormat) -> (fourcc: FourCC)
    ensures
        fourcc == fourcc_of_spa(spa),
        offerable_fourcc(fourcc),
{
    match spa {
        VideoFormat::BGRA => DRM_FORMAT_ARGB8888,
        VideoFormat::RGBA => DRM_FORMAT_ABGR8888,
        VideoFormat::BGRx => DRM_FORMAT_XRGB8888,
        VideoFormat::RGBx => DRM_FORMAT_XBGR8888,
    }
}

/// The two names of a pixel layout stand for each other.
pub proof fn video_format_round_trip(fourcc: FourCC, spa: VideoFormat)
    ensures
        spa_of_fourcc(fourcc_of_spa(spa)) == spa,
        offerable_fourcc(fourcc) ==> fourcc_of_spa(spa_of_fourcc(fourcc)) == fourcc,
{
}

/// A width and a height, in pixels.
#[derive(Clone, Copy, PartialEq, Eq, Structural, Debug)]
pub struct Rectangle {
    pub width: u32,
    pub height: u32,
}

/// A frame rate.
#[derive(Clone, Copy, PartialEq, Eq, Structural, Debug)]
pub struct Fraction {
    pub num: u32,
    pub denom: u32,
}

/// The layout modifiers of an offer: the preferred one and all that are
/// acceptable. The choice is mandatory and left to the server.
pub struct ModifierChoice {
    pub default: i64,
    pub alternatives: Vec<i64>,
}

/// One format that the driver offers to the video bus: raw video of a size
/// and a frame rate within a range, in one of some pixel layouts, and, for a
/// DMA-BUF offer, with one of some layout modifiers.
pub struct FormatParams {
    pub size: Rectangle,
    pub min_size: Rectangle,
    pub max_size: Rectangle,
    pub framerate: Fraction,
    pub min_framerate: Fraction,
    pub max_framerate: Fraction,
    pub video_format: VideoFormat,
    pub video_format_alternatives: Vec<VideoFormat>,
    pub modifiers: Option<ModifierChoice>,
}

/// A `FormatParams` as contracts see it.
pub struct FormatOffer {
    pub size: Rectangle,
    pub min_size: Rectangle,
    pub max_size: Rectangle,
    pub framerate: Fraction,
    pub min_framerate: Fraction,
    pub max_framerate: Fraction,
    pub video_format: VideoFormat,
    pub video_format_alternatives: Seq<VideoFormat>,
    pub modifiers: Option<(i64, Seq<i64>)>,
}

impl View for FormatParams {
    type V = FormatOffer;

    open spec fn view(&self) -> FormatOffer {
        FormatOffer {
            size: self.size,
            min_size: self.min_size,
            max_size: self.max_size,
            framerate: self.framerate,
            min_framerate: self.min_framerate,
            max_framerate: self.max_framerate,
            video_format: self.video_format,
            video_format_alternatives: self.video_format_alternatives@,
            modifiers: match self.modifiers {
                Some(choice) => Some((choice.default, choice.alternatives@)),
                None => None,
            },
        }
    }
}

/// Whether the driver can offer `format`: the video bus has a name for its
/// pixel layout, and it lists a modifier.
pub open spec fn offerable(format: DrmFormat) -> bool {
    offerable_fourcc(format.fourcc) && format.modifiers@.len() > 0
}

/// The modifiers of a DRM format as the video bus takes them, signed.
pub open spec fn signed_modifiers(modifiers: Seq<u64>) -> Seq<i64> {
    Seq::new(modifiers.len(), |i: int| modifiers[i] as i64)
}

/// The offer for the DRM format `format`, or, without one, the fallback
/// offer of plain memory in any of the four pixel layouts. Either offer
/// takes sizes from 1x1 to 8192x8192 and rates up to 1000 frames a second,
/// and prefers 256x256 at `fps` frames a second.
pub open spec fn offer_for(format: Option<DrmFormat>, fps: u32) -> FormatOffer {
    FormatOffer {
        size: Rectangle { width: 256, height: 256 },
        min_size: Rectangle { width: 1, height: 1 },
        max_size: Rectangle { width: 8192, height: 8192 },
        framerate: Fraction { num: fps, denom: 1 },
        min_framerate: Fraction { num: 0, denom: 1 },
        max_framerate: Fraction { num: 1000, denom: 1 },
        video_format: match format {
            Some(format) => spa_of_fourcc(format.fourcc),
            None => VideoFormat::RGBA,
        },
        video_format_alternatives: match format {
            Some(format) => seq![spa_of_fourcc(format.fourcc)],
            None => seq![VideoFormat::RGBA, VideoFormat::BGRA, VideoFormat::RGBx, VideoFormat::BGRx],
        },
        modifiers: match format {
            Some(format) => Some(
                (format.modifiers@[0] as i64, signed_modifiers(format.modifiers@)),
            ),
            None => None,
        },
    }
}

pub fn is_offerable(format: &DrmFormat) -> (able: bool)
    ensures
        able == offerable(*format),
{
    is_offerable_fourcc(format.fourcc) && format.modifiers.len() > 0
}

/// Builds one offer to the video bus. See `offer_for`.
pub fn get_format_params(fmt: Option<&DrmFormat>, fps: u32) -> (params: FormatParams)
    requires
        fmt matches Some(format) ==> offerable(*format),
    ensures
        params@ == offer_for(
            match fmt {
                Some(format) => Some(*format),
                None => None,
            },
            fps,
        ),
{
    let mut params = FormatParams {
        size: Rectangle { width: 256, height: 256 },
        min_size: Rectangle { width: 1, height: 1 },
        max_size: Rectangle { width: 8192, height: 8192 },
        framerate: Fraction { num: fps, denom: 1 },
        min_framerate: Fraction { num: 0, denom: 1 },
        max_framerate: Fraction { num: 1000, denom: 1 },
        video_format: VideoFormat::RGBA,
        video_format_alternatives: Vec::new(),
        modifiers: None,
    };
    match fmt {
        Some(format) => {
            let spa_fmt = fourcc_to_spa(format.fourcc);
            params.video_format = spa_fmt;
            params.video_format_alternatives.push(spa_fmt);
            let mut alternatives: Vec<i64> = Vec::new();
            let mut i: usize = 0;
            while i < format.modifiers.len()
                invariant
                    i <= format.modifiers.len(),
                    alternatives@ == signed_modifiers(format.modifiers@.take(i as int)),
                decreases format.modifiers.len() - i,
            {
                alternatives.push(format.modifiers[i] as i64);
                assert(format.modifiers@.take(i + 1) == format.modifiers@.take(i as int).push(
                    format.modifiers@[i as int],
                ));
                i += 1;
                assert(alternatives@ =~= signed_modifiers(format.modifiers@.take(i as int)));
            }
            assert(format.modifiers@.take(i as int) == format.modifiers@);
            params.modifiers = Some(
                ModifierChoice { default: format.modifiers[0] as i64, alternatives },
            );
            assert(params.video_format_alternatives@ =~= seq![spa_of_fourcc(format.fourcc)]);
        },
        None => {
            params.video_format_alternatives.push(VideoFormat::RGBA);
            params.video_format_alternatives.push(VideoFormat::BGRA);
            params.video_format_alternatives.push(VideoFormat::RGBx);
            params.video_format_alternatives.push(VideoFormat::BGRx);
            assert(params.video_format_alternatives@ =~= seq![
                VideoFormat::RGBA,
                VideoFormat::BGRA,
                VideoFormat::RGBx,
                VideoFormat::BGRx,
            ]);
        },
    }
    params
}

/// Whether the driver can offer each of `formats`.
pub open spec fn all_offerable(formats: Seq<DrmFormat>) -> bool {
    forall|i: int| 0 <= i < formats.len() ==> offerable(#[trigger] formats[i])
}

/// The ordered list of offers with which the stream connects: one for each
/// accepted DRM format and the fallback offer at the end. Where one of the
/// accepted formats cannot be offered there is no list.
pub open spec fn stream_offers(formats: Seq<DrmFormat>, fps: u32) -> Option<Seq<FormatOffer>> {
    if all_offerable(formats) {
        Some(
            Seq::new(
                formats.len() + 1,
                |i: int|
                    if i < formats.len() {
                        offer_for(Some(formats[i]), fps)
                    } else {
                        offer_for(None, fps)
                    },
            ),
        )
    } else {
        None
    }
}

/// A list of offers as contracts see it.
pub open spec fn offer_views(offers: Option<Vec<FormatParams>>) -> Option<Seq<FormatOffer>> {
    match offers {
        Some(list) => Some(Seq::new(list@.len(), |i: int| list@[i]@)),
        None => None,
    }
}

/// Builds the list of offers with which the stream connects. See
/// `stream_offers`.
pub fn get_stream_params(dmabuf_formats: &[DrmFormat], fps: u32) -> (offers: Option<
    Vec<FormatParams>,
>)
    ensures
        offer_views(offers) == stream_offers(dmabuf_formats@, fps),
{
    let mut list: Vec<FormatParams> = Vec::new();
    let mut i: usize = 0;
    while i < dmabuf_formats.len()
        invariant
            i <= dmabuf_formats@.len(),
            list@.len() == i,
            forall|j: int| 0 <= j < i ==> offerable(#[trigger] dmabuf_formats@[j]),
            forall|j: int|
                0 <= j < i ==> (#[trigger] list@[j])@ == offer_for(Some(dmabuf_formats@[j]), fps),
        decreases dmabuf_formats@.len() - i,
    {
        if !is_offerable(&dmabuf_formats[i]) {
            return None;
        }
        list.push(get_format_params(Some(&dmabuf_formats[i]), fps));
        i += 1;
    }
    list.push(get_format_params(None, fps));
    assert(offer_views(Some(list)).unwrap() =~= stream_offers(dmabuf_formats@, fps).unwrap());
    Some(list)
}

/// The kind of memory that holds a buffer of the video bus.
#[derive(Clone, Copy, PartialEq, Eq, Structural, Debug)]
pub enum DataType {
    MemPtr,
    MemFd,
    DmaBuf,
}

impl DataType {
    /// The number by which the video bus knows the kind.
    pub open spec fn raw(self) -> u32 {
        match self {
            DataType::MemPtr => 1,
            DataType::MemFd => 2,
            DataType::DmaBuf => 3,
        }
    }

    pub fn as_raw(self) -> (raw: u32)
        ensures
            raw == self.raw(),
    {
        match self {
            DataType::MemPtr => 1,
            DataType::MemFd => 2,
            DataType::DmaBuf => 3,
        }
    }
}

/// The buffers that the driver accepts once a format is negotiated.
#[derive(Clone, Copy, PartialEq, Eq, Structural, Debug)]
pub struct BufferParams {
    /// One bit for each kind of memory that the driver takes, at the
    /// position that is the kind's number.
    pub data_types: i32,
}

/// The driver takes buffers of all three kinds of memory.
pub fn get_buffer_params() -> (params: BufferParams)
    ensures
        params.data_types == 2 + 4 + 8,
{
    let mem_fd: u32 = DataType::MemFd.as_raw();
    let mem_ptr: u32 = DataType::MemPtr.as_raw();
    let dma_buf: u32 = DataType::DmaBuf.as_raw();
    assert((1i32 << 2u32) | (1i32 << 1u32) | (1i32 << 3u32) == 14) by (bit_vector);
    assert(1i32 << 2u32 == 4 && 1i32 << 1u32 == 2 && 1i32 << 3u32 == 8) by (bit_vector);
    let data_types: i32 = (1i32 << mem_fd) | (1i32 << mem_ptr) | (1i32 << dma_buf);
    BufferParams { data_types }
}


/// One block of memory of a buffer that the video bus handed over.
#[derive(Debug, Clone, Copy, PartialEq, Eq, Structural)]
pub struct PwData {
    /// The kind of memory, where the driver knows it.
    pub kind: Option<DataType>,
    pub fd: i64,
    pub offset: u32,
    pub stride: i32,
    pub size: u32,
    pub ptr: usize,
}

impl PwData {
    /// The block as a plane of an image. The descriptor is cut down to the
    /// 32 bits of a descriptor.
    pub open spec fn plane(self) -> FramePlane {
        FramePlane { fd: Some(self.fd as i32), offset: self.offset, stride: self.stride }
    }

    pub fn to_plane(&self) -> (plane: FramePlane)
        ensures
            plane == self.plane(),
    {
        FramePlane { fd: Some(self.fd as i32), offset: self.offset, stride: self.stride }
    }
}

/// A buffer that the video bus handed over: its blocks of memory.
pub struct PwBuffer {
    pub datas: Vec<PwData>,
}

/// Whether `frame` is what the buffer of blocks `datas` holds under the
/// negotiated `format`. The kind of the first block decides: DMA-BUF blocks
/// become the planes of one frame, a shared-memory block or a block at an
/// address becomes a frame of its own. A buffer without blocks, of a kind
/// that the driver does not know, or of more DMA-BUF blocks than a frame has
/// planes, holds no frame.
pub open spec fn is_frame_of(datas: Seq<PwData>, format: FrameFormat, frame: Option<WlxFrame>) -> bool {
    if datas.len() == 0 {
        frame is None
    } else {
        match datas[0].kind {
            Some(DataType::DmaBuf) => if datas.len() > 4 {
                frame is None
            } else {
                &&& frame matches Some(WlxFrame::Dmabuf(dmabuf))
                &&& dmabuf.format == format
                &&& dmabuf.num_planes == datas.len()
                &&& forall|i: int|
                    0 <= i < datas.len() ==> #[trigger] dmabuf.planes[i] == datas[i].plane()
                &&& forall|i: int|
                    datas.len() <= i < 4 ==> #[trigger] dmabuf.planes[i] == (FramePlane {
                        fd: None,
                        offset: 0,
                        stride: 0,
                    })
            },
            Some(DataType::MemFd) => frame matches Some(WlxFrame::MemFd(memfd)) && memfd.format
                == format && memfd.plane == datas[0].plane(),
            Some(DataType::MemPtr) => frame matches Some(WlxFrame::MemPtr(memptr)) && memptr.format
                == format && memptr.ptr == datas[0].ptr && memptr.size == datas[0].size
                && memptr.mouse is None,
            None => frame is None,
        }
    }
}

/// Turns a buffer into the frame it holds. See `is_frame_of`.
pub fn frame_of_buffer(buffer: &PwBuffer, format: &FrameFormat) -> (frame: Option<WlxFrame>)
    ensures
        is_frame_of(buffer.datas@, *format, frame),
{
    let datas = &buffer.datas;
    if datas.len() == 0 {
        return None;
    }
    match datas[0].kind {
        Some(DataType::DmaBuf) => {
            if datas.len() > 4 {
                return None;
            }
            let mut dmabuf = DmabufFrame::default();
            dmabuf.format = *format;
            dmabuf.num_planes = datas.len();
            let mut i: usize = 0;
            while i < datas.len()
                invariant
                    i <= datas.len() <= 4,
                    dmabuf.format == *format,
                    dmabuf.num_planes == datas.len(),
                    forall|j: int| 0 <= j < i ==> #[trigger] dmabuf.planes[j] == datas@[j].plane(),
                    forall|j: int|
                        i <= j < 4 ==> #[trigger] dmabuf.planes[j] == (FramePlane {
                            fd: None,
                            offset: 0,
                            stride: 0,
                        }),
                decreases datas.len() - i,
            {
                dmabuf.planes[i] = datas[i].to_plane();
                i += 1;
            }
            Some(WlxFrame::Dmabuf(dmabuf))
        },
        Some(DataType::MemFd) => Some(
            WlxFrame::MemFd(MemFdFrame { format: *format, plane: datas[0].to_plane() }),
        ),
        Some(DataType::MemPtr) => Some(
            WlxFrame::MemPtr(
                MemPtrFrame {
                    format: *format,
                    ptr: datas[0].ptr,
                    size: datas[0].size as usize,
                    mouse: None,
                },
            ),
        ),
        None => None,
    }
}

/// What the event loop does to the stream on a control request.
#[derive(Clone, Copy, PartialEq, Eq, Structural, Debug)]
pub enum StreamAction {
    /// Stop or restart the delivery of frames.
    SetActive(bool),
    /// Leave the event loop.
    Quit,
}

/// The action that a control request asks for.
pub open spec fn action_of(request: PwChangeRequest) -> StreamAction {
    match request {
        PwChangeRequest::Pause => StreamAction::SetActive(false),
        PwChangeRequest::Resume => StreamAction::SetActive(true),
        PwChangeRequest::Stop => StreamAction::Quit,
    }
}

/// The producer's side of the streaming driver: the format that was
/// negotiated, and whether the event loop is still to run.
pub struct PipewireStream {
    pub format: FrameFormat,
    pub running: bool,
}

impl PipewireStream {
    /// The stream after the server chose a format.
    pub open spec fn after_param_changed(
        self,
        width: u32,
        height: u32,
        spa: VideoFormat,
        modifier: u64,
    ) -> PipewireStream {
        PipewireStream {
            format: FrameFormat { width, height, fourcc: fourcc_of_spa(spa), modifier },
            ..self
        }
    }

    /// The stream after a frame was handed over with `outcome`: a consumer
    /// that is gone stops the stream.
    pub open spec fn after_sent(self, outcome: SendOutcome<WlxFrame>) -> PipewireStream {
        PipewireStream { running: self.running && !(outcome is Disconnected), ..self }
    }

    /// The stream after a control request: `Stop` stops the stream.
    pub open spec fn after_control(self, request: PwChangeRequest) -> PipewireStream {
        PipewireStream { running: self.running && request != PwChangeRequest::Stop, ..self }
    }

    /// A stream before any format is negotiated.
    pub fn new() -> (stream: PipewireStream)
        ensures
            stream.running,
            stream.format == (FrameFormat { width: 0, height: 0, fourcc: 0, modifier: 0 }),
    {
        PipewireStream { format: FrameFormat::default(), running: true }
    }

    /// Takes up the format that the server chose.
    pub fn param_changed(&mut self, width: u32, height: u32, spa: VideoFormat, modifier: u64)
        ensures
            *final(self) == old(self).after_param_changed(width, height, spa, modifier),
    {
        self.format.width = width;
        self.format.height = height;
        self.format.fourcc = spa_to_fourcc(spa);
        self.format.modifier = modifier;
    }

    /// Takes the buffers that the server has queued, oldest first, and turns
    /// the last of them into a frame: the freshest wins. A stream that has
    /// stopped makes no frame.
    pub fn process(&self, dequeued: &Vec<PwBuffer>) -> (frame: Option<WlxFrame>)
        ensures
            !self.running || dequeued@.len() == 0 ==> frame is None,
            self.running && dequeued@.len() > 0 ==> is_frame_of(
                dequeued@.last().datas@,
                self.format,
                frame,
            ),
    {
        if !self.running || dequeued.len() == 0 {
            return None;
        }
        frame_of_buffer(&dequeued[dequeued.len() - 1], &self.format)
    }

    /// Takes up what became of a frame that was handed over without
    /// blocking. A full channel drops the frame; a consumer that is gone
    /// drops the frame and stops the stream for good. The descriptors of a
    /// dropped frame are returned for the caller to close.
    pub fn sent(&mut self, outcome: SendOutcome<WlxFrame>) -> (next: (ProducerStep, Vec<i32>))
        ensures
            next.0 == ProducerStep::Stop <==> outcome is Disconnected,
            next.1@ == returned_descriptors(outcome),
            *final(self) == old(self).after_sent(outcome),
    {
        let next = after_send(outcome);
        if next.0 == ProducerStep::Stop {
            self.running = false;
        }
        next
    }

    /// Takes up a control request of the consumer.
    pub fn control(&mut self, request: PwChangeRequest) -> (action: StreamAction)
        ensures
            action == action_of(request),
            *final(self) == old(self).after_control(request),
    {
        match request {
            PwChangeRequest::Pause => StreamAction::SetActive(false),
            PwChangeRequest::Resume => StreamAction::SetActive(true),
            PwChangeRequest::Stop => {
                self.running = false;
                StreamAction::Quit
            },
        }
    }
}

/// A consumer that is gone ends the stream within the delivery that finds
/// it gone, and a stream that has stopped stays stopped: no format, no
/// outcome of a send and no request starts it again, so it makes no further
/// frame.
pub proof fn stopped_stream_stays_stopped(
    stream: PipewireStream,
    frame: WlxFrame,
    width: u32,
    height: u32,
    spa: VideoFormat,
    modifier: u64,
    outcome: SendOutcome<WlxFrame>,
    request: PwChangeRequest,
)
    ensures
        !stream.after_sent(SendOutcome::Disconnected(frame)).running,
        !stream.after_control(PwChangeRequest::Stop).running,
        !stream.running ==> !stream.after_param_changed(width, height, spa, modifier).running,
        !stream.running ==> !stream.after_sent(outcome).running,
        !stream.running ==> !stream.after_control(request).running,
{
}

/// The consumer's side of the streaming driver.
pub struct PipewireCapture {
    name: String,
    node_id: u32,
    fps: u32,
    started: bool,
    failed: bool,
    frames: FrameBuffer,
    requests: Vec<PwChangeRequest>,
    offers: Option<Vec<FormatParams>>,
}

/// What a `PipewireCapture` holds, as contracts see it.
pub struct PipewireCaptureState {
    pub name: String,
    pub node_id: u32,
    pub fps: u32,
    /// `init` has been called.
    pub started: bool,
    /// The event loop could not start or has ended.
    pub failed: bool,
    /// The frames that have arrived and were not received, oldest first.
    pub frames: Seq<WlxFrame>,
    /// The descriptors of discarded frames that the caller has to close.
    pub released: Seq<i32>,
    /// The control requests that the caller has to pass on to the event
    /// loop, oldest first.
    pub requests: Seq<PwChangeRequest>,
    /// The offers with which the caller has to connect the stream.
    pub offers: Option<Seq<FormatOffer>>,
}

impl View for PipewireCapture {
    type V = PipewireCaptureState;

    closed spec fn view(&self) -> PipewireCaptureState {
        PipewireCaptureState {
            name: self.name,
            node_id: self.node_id,
            fps: self.fps,
            started: self.started,
            failed: self.failed,
            frames: self.frames@.frames,
            released: self.frames@.released,
            requests: self.requests@,
            offers: offer_views(self.offers),
        }
    }
}

impl PipewireCaptureState {
    /// The view with `request` behind the pending ones, if the driver was
    /// started: before that there is no event loop to ask.
    pub open spec fn asked(self, request: PwChangeRequest) -> PipewireCaptureState {
        if self.started {
            PipewireCaptureState { requests: self.requests.push(request), ..self }
        } else {
            self
        }
    }

    /// The view with every buffered frame discarded.
    pub open spec fn cleared(self) -> PipewireCaptureState {
        PipewireCaptureState {
            frames: Seq::empty(),
            released: self.released + descriptors_of(self.frames),
            ..self
        }
    }
}

impl PipewireCapture {
    /// A driver for the stream `node_id`, at `fps` frames a second. It is
    /// not ready before `init`.
    pub fn new(name: String, node_id: u32, fps: u32) -> (capture: PipewireCapture)
        ensures
            capture@ == (PipewireCaptureState {
                name,
                node_id,
                fps,
                started: false,
                failed: false,
                frames: Seq::empty(),
                released: Seq::empty(),
                requests: Seq::empty(),
                offers: None,
            }),
            !capture.ready(),
    {
        PipewireCapture {
            name,
            node_id,
            fps,
            started: false,
            failed: false,
            frames: FrameBuffer::new(),
            requests: Vec::new(),
            offers: None,
        }
    }

    pub fn node_id(&self) -> (node_id: u32)
        ensures
            node_id == self@.node_id,
    {
        self.node_id
    }

    pub fn fps(&self) -> (fps: u32)
        ensures
            fps == self@.fps,
    {
        self.fps
    }

    pub fn name(&self) -> (name: &String)
        ensures
            *name == self@.name,
    {
        &self.name
    }

    pub fn supports_dmbuf(&self) -> (supported: bool)
        ensures
            supported,
    {
        true
    }

    /// Takes a frame in that the event loop has handed over.
    pub fn deliver(&mut self, frame: WlxFrame)
        ensures
            final(self)@ == (PipewireCaptureState {
                frames: old(self)@.frames.push(frame),
                ..old(self)@
            }),
    {
        self.frames.deliver(frame);
    }

    /// Takes up that the event loop could not start or has ended: the
    /// driver is not ready any more.
    pub fn producer_failed(&mut self)
        ensures
            final(self)@ == (PipewireCaptureState { failed: true, ..old(self)@ }),
            !final(self).ready(),
    {
        self.failed = true;
    }

    /// Asks the event loop to end, as the driver does when it is dropped.
    pub fn stop(&mut self)
        ensures
            final(self)@ == old(self)@.asked(PwChangeRequest::Stop),
    {
        if self.started {
            self.requests.push(PwChangeRequest::Stop);
        }
    }

    /// Hands the pending control requests to the caller, who passes them on
    /// to the event loop.
    pub fn take_requests(&mut self) -> (requests: Vec<PwChangeRequest>)
        ensures
            requests@ == old(self)@.requests,
            final(self)@ == (PipewireCaptureState { requests: Seq::empty(), ..old(self)@ }),
    {
        let mut requests: Vec<PwChangeRequest> = Vec::new();
        core::mem::swap(&mut requests, &mut self.requests);
        requests
    }

    /// Hands the descriptors of discarded frames to the caller, who closes
    /// them.
    pub fn take_released(&mut self) -> (released: Vec<i32>)
        ensures
            released@ == old(self)@.released,
            final(self)@ == (PipewireCaptureState { released: Seq::empty(), ..old(self)@ }),
    {
        self.frames.take_released()
    }

    /// Hands the offers to the caller, who connects the stream with them.
    pub fn take_offers(&mut self) -> (offers: Option<Vec<FormatParams>>)
        ensures
            offer_views(offers) == old(self)@.offers,
            final(self)@ == (PipewireCaptureState { offers: None, ..old(self)@ }),
    {
        self.offers.take()
    }
}

impl WlxCapture for PipewireCapture {
    open spec fn ready(&self) -> bool {
        self@.started && !self@.failed
    }

    open spec fn buffered(&self) -> Seq<WlxFrame> {
        self@.frames
    }

    /// Starts the driver anew: frames and requests of an earlier start are
    /// discarded, and the offers for the stream are made from the accepted
    /// formats. Where one of them cannot be offered, the start has failed
    /// and the driver is not ready.
    fn init(&mut self, dmabuf_formats: &[DrmFormat])
        ensures
            final(self)@ == (PipewireCaptureState {
                started: true,
                failed: stream_offers(dmabuf_formats@, old(self)@.fps) is None,
                requests: Seq::empty(),
                offers: stream_offers(dmabuf_formats@, old(self)@.fps),
                ..old(self)@.cleared()
            }),
            final(self).ready() == all_offerable(dmabuf_formats@),
    {
        self.frames.discard();
        self.requests = Vec::new();
        self.started = true;
        self.offers = get_stream_params(dmabuf_formats, self.fps);
        self.failed = self.offers.is_none();
    }

    fn is_ready(&self) -> (ready: bool) {
        self.started && !self.failed
    }

    fn receive(&mut self) -> (frame: Option<WlxFrame>)
        ensures
            final(self)@ == (PipewireCaptureState {
                frames: Seq::empty(),
                released: if old(self)@.frames.len() > 0 {
                    old(self)@.released + descriptors_of(old(self)@.frames.drop_last())
                } else {
                    old(self)@.released
                },
                ..old(self)@
            }),
    {
        self.frames.receive()
    }

    /// Asks the event loop to stop the delivery of frames.
    fn pause(&mut self)
        ensures
            final(self)@ == old(self)@.asked(PwChangeRequest::Pause),
    {
        if self.started {
            self.requests.push(PwChangeRequest::Pause);
        }
    }

    /// Asks the event loop to restart the delivery of frames, and discards
    /// what is buffered.
    fn resume(&mut self)
        ensures
            final(self)@ == old(self)@.asked(PwChangeRequest::Resume).cleared(),
    {
        if self.started {
            self.requests.push(PwChangeRequest::Resume);
        }
        self.frames.discard();
    }

    /// The server pushes frames: there is nothing to request.
    fn request_new_frame(&mut self)
        ensures
            final(self)@ == old(self)@,
    {
    }
}

} // verus!

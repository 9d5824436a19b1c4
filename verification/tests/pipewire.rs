use wlx_capture::capture::ProducerStep;
use wlx_capture::capture::SendOutcome;
use wlx_capture::frame::DmabufFrame;
use wlx_capture::frame::DrmFormat;
use wlx_capture::frame::FrameFormat;
use wlx_capture::frame::FramePlane;
use wlx_capture::frame::WlxFrame;
use wlx_capture::frame::DRM_FORMAT_ABGR8888;
use wlx_capture::frame::DRM_FORMAT_ARGB8888;
use wlx_capture::frame::DRM_FORMAT_XBGR8888;
use wlx_capture::frame::DRM_FORMAT_XRGB8888;
use wlx_capture::pipewire::fourcc_to_spa;
use wlx_capture::pipewire::frame_of_buffer;
use wlx_capture::pipewire::get_buffer_params;
use wlx_capture::pipewire::get_format_params;
use wlx_capture::pipewire::get_stream_params;
use wlx_capture::pipewire::is_offerable;
use wlx_capture::pipewire::is_offerable_fourcc;
use wlx_capture::pipewire::pipewire_select_screen;
use wlx_capture::pipewire::select_sources_options;
use wlx_capture::pipewire::spa_to_fourcc;
use wlx_capture::pipewire::CursorMode;
use wlx_capture::pipewire::DataType;
use wlx_capture::pipewire::Fraction;
use wlx_capture::pipewire::PersistMode;
use wlx_capture::pipewire::PipewireCapture;
use wlx_capture::pipewire::PipewireStream;
use wlx_capture::pipewire::PwBuffer;
use wlx_capture::pipewire::PwChangeRequest;
use wlx_capture::pipewire::PwData;
use wlx_capture::pipewire::Rectangle;
use wlx_capture::pipewire::SelectScreenError;
use wlx_capture::pipewire::SourceTypes;
use wlx_capture::pipewire::StreamAction;
use wlx_capture::pipewire::VideoFormat;
use wlx_capture::WlxCapture;

fn data(kind: Option<DataType>, fd: i64) -> PwData {
    PwData { kind, fd, offset: 16, stride: 7680, size: 8294400, ptr: 0xdead_0000 }
}

fn format() -> FrameFormat {
    FrameFormat { width: 1920, height: 1080, fourcc: DRM_FORMAT_XRGB8888, modifier: 5 }
}

fn dmabuf(width: u32, fds: &[i32]) -> WlxFrame {
    let mut frame = DmabufFrame::default();
    frame.format.width = width;
    frame.num_planes = fds.len();
    for (i, fd) in fds.iter().enumerate() {
        frame.planes[i] = FramePlane { fd: Some(*fd), offset: 0, stride: 0 };
    }
    WlxFrame::Dmabuf(frame)
}

#[test]
fn portal_options_follow_the_capture_options() {
    let options = select_sources_options(true, true, true);
    assert_eq!(options.cursor_mode, CursorMode::Embedded);
    assert_eq!(
        options.source_types,
        SourceTypes { monitor: true, window: false, virtual_source: false }
    );
    assert!(!options.multiple);
    assert_eq!(options.persist_mode, PersistMode::ExplicitlyRevoked);

    let options = select_sources_options(false, false, false);
    assert_eq!(options.cursor_mode, CursorMode::Hidden);
    assert_eq!(
        options.source_types,
        SourceTypes { monitor: true, window: true, virtual_source: true }
    );
    assert!(!options.multiple);
    assert_eq!(options.persist_mode, PersistMode::DoNot);

    let options = select_sources_options(true, false, false);
    assert_eq!(options.cursor_mode, CursorMode::Embedded);
    assert!(options.source_types.window);
    assert_eq!(options.persist_mode, PersistMode::DoNot);
}

#[test]
fn the_first_stream_of_the_portal_is_selected() {
    let selected = pipewire_select_screen(&vec![42, 43], Some("token".to_string())).unwrap();
    assert_eq!(selected.node_id, 42);
    assert_eq!(selected.restore_token.as_deref(), Some("token"));
    let selected = pipewire_select_screen(&vec![7], None).unwrap();
    assert_eq!(selected.node_id, 7);
    assert!(selected.restore_token.is_none());
}

#[test]
fn an_answer_without_a_stream_is_an_error() {
    let selected = pipewire_select_screen(&vec![], Some("token".to_string()));
    assert_eq!(selected.err(), Some(SelectScreenError::NoResponse));
}

#[test]
fn pixel_layouts_have_two_names() {
    assert_eq!(fourcc_to_spa(DRM_FORMAT_ARGB8888), VideoFormat::BGRA);
    assert_eq!(fourcc_to_spa(DRM_FORMAT_ABGR8888), VideoFormat::RGBA);
    assert_eq!(fourcc_to_spa(DRM_FORMAT_XRGB8888), VideoFormat::BGRx);
    assert_eq!(fourcc_to_spa(DRM_FORMAT_XBGR8888), VideoFormat::RGBx);
    assert_eq!(spa_to_fourcc(VideoFormat::BGRA), DRM_FORMAT_ARGB8888);
    assert_eq!(spa_to_fourcc(VideoFormat::RGBA), DRM_FORMAT_ABGR8888);
    assert_eq!(spa_to_fourcc(VideoFormat::BGRx), DRM_FORMAT_XRGB8888);
    assert_eq!(spa_to_fourcc(VideoFormat::RGBx), DRM_FORMAT_XBGR8888);
    for spa in [VideoFormat::BGRA, VideoFormat::RGBA, VideoFormat::BGRx, VideoFormat::RGBx] {
        assert_eq!(fourcc_to_spa(spa_to_fourcc(spa)), spa);
    }
}

#[test]
fn only_four_pixel_layouts_can_be_offered() {
    assert!(is_offerable_fourcc(DRM_FORMAT_ARGB8888));
    assert!(is_offerable_fourcc(DRM_FORMAT_ABGR8888));
    assert!(is_offerable_fourcc(DRM_FORMAT_XRGB8888));
    assert!(is_offerable_fourcc(DRM_FORMAT_XBGR8888));
    assert!(!is_offerable_fourcc(0));
    assert!(!is_offerable_fourcc(0x3231564e));
    assert!(is_offerable(&DrmFormat { fourcc: DRM_FORMAT_ARGB8888, modifiers: vec![0] }));
    assert!(!is_offerable(&DrmFormat { fourcc: DRM_FORMAT_ARGB8888, modifiers: vec![] }));
    assert!(!is_offerable(&DrmFormat { fourcc: 1, modifiers: vec![0] }));
}

#[test]
fn the_offer_for_a_drm_format_lists_its_modifiers() {
    let drm = DrmFormat {
        fourcc: DRM_FORMAT_XRGB8888,
        modifiers: vec![0x0100_0000_0000_0002, 0, u64::MAX],
    };
    let params = get_format_params(Some(&drm), 60);
    assert_eq!(params.size, Rectangle { width: 256, height: 256 });
    assert_eq!(params.min_size, Rectangle { width: 1, height: 1 });
    assert_eq!(params.max_size, Rectangle { width: 8192, height: 8192 });
    assert_eq!(params.framerate, Fraction { num: 60, denom: 1 });
    assert_eq!(params.min_framerate, Fraction { num: 0, denom: 1 });
    assert_eq!(params.max_framerate, Fraction { num: 1000, denom: 1 });
    assert_eq!(params.video_format, VideoFormat::BGRx);
    assert_eq!(params.video_format_alternatives, vec![VideoFormat::BGRx]);
    let modifiers = params.modifiers.unwrap();
    assert_eq!(modifiers.default, 0x0100_0000_0000_0002);
    assert_eq!(modifiers.alternatives, vec![0x0100_0000_0000_0002, 0, -1]);
}

#[test]
fn the_fallback_offer_takes_any_of_the_four_layouts() {
    let params = get_format_params(None, 30);
    assert_eq!(params.size, Rectangle { width: 256, height: 256 });
    assert_eq!(params.framerate, Fraction { num: 30, denom: 1 });
    assert_eq!(params.video_format, VideoFormat::RGBA);
    assert_eq!(
        params.video_format_alternatives,
        vec![VideoFormat::RGBA, VideoFormat::BGRA, VideoFormat::RGBx, VideoFormat::BGRx]
    );
    assert!(params.modifiers.is_none());
}

#[test]
fn the_stream_offers_each_format_and_the_fallback_last() {
    let formats = vec![
        DrmFormat { fourcc: DRM_FORMAT_ARGB8888, modifiers: vec![1, 2] },
        DrmFormat { fourcc: DRM_FORMAT_XBGR8888, modifiers: vec![3] },
    ];
    let offers = get_stream_params(&formats, 90).unwrap();
    assert_eq!(offers.len(), 3);
    assert_eq!(offers[0].video_format, VideoFormat::BGRA);
    assert_eq!(offers[0].modifiers.as_ref().unwrap().alternatives, vec![1, 2]);
    assert_eq!(offers[1].video_format, VideoFormat::RGBx);
    assert_eq!(offers[1].modifiers.as_ref().unwrap().default, 3);
    assert_eq!(offers[2].video_format, VideoFormat::RGBA);
    assert!(offers[2].modifiers.is_none());
    assert_eq!(offers[2].framerate, Fraction { num: 90, denom: 1 });

    let offers = get_stream_params(&[], 90).unwrap();
    assert_eq!(offers.len(), 1);
    assert!(offers[0].modifiers.is_none());
}

#[test]
fn a_format_that_cannot_be_offered_fails_the_start() {
    let formats = vec![
        DrmFormat { fourcc: DRM_FORMAT_ARGB8888, modifiers: vec![1] },
        DrmFormat { fourcc: 0x3231564e, modifiers: vec![1] },
    ];
    assert!(get_stream_params(&formats, 60).is_none());
    let formats = vec![DrmFormat { fourcc: DRM_FORMAT_ARGB8888, modifiers: vec![] }];
    assert!(get_stream_params(&formats, 60).is_none());
}

#[test]
fn the_driver_takes_three_kinds_of_memory() {
    assert_eq!(DataType::MemPtr.as_raw(), 1);
    assert_eq!(DataType::MemFd.as_raw(), 2);
    assert_eq!(DataType::DmaBuf.as_raw(), 3);
    assert_eq!(get_buffer_params().data_types, 14);
}

#[test]
fn dmabuf_blocks_become_the_planes_of_one_frame() {
    let buffer = PwBuffer {
        datas: vec![data(Some(DataType::DmaBuf), 31), data(Some(DataType::MemFd), 32)],
    };
    let Some(WlxFrame::Dmabuf(frame)) = frame_of_buffer(&buffer, &format()) else {
        panic!("no dmabuf frame");
    };
    assert_eq!(frame.format, format());
    assert_eq!(frame.num_planes, 2);
    assert_eq!(frame.planes[0], FramePlane { fd: Some(31), offset: 16, stride: 7680 });
    assert_eq!(frame.planes[1], FramePlane { fd: Some(32), offset: 16, stride: 7680 });
    assert_eq!(frame.planes[2], FramePlane::default());
    assert_eq!(frame.planes[3], FramePlane::default());
}

#[test]
fn a_wide_descriptor_is_cut_down_to_32_bits() {
    let buffer = PwBuffer { datas: vec![data(Some(DataType::MemFd), 0x1_0000_0007)] };
    let Some(WlxFrame::MemFd(frame)) = frame_of_buffer(&buffer, &format()) else {
        panic!("no memfd frame");
    };
    assert_eq!(frame.plane.fd, Some(7));
}

#[test]
fn a_shared_memory_block_becomes_a_frame() {
    let buffer = PwBuffer {
        datas: vec![data(Some(DataType::MemFd), 8), data(Some(DataType::MemFd), 9)],
    };
    let Some(WlxFrame::MemFd(frame)) = frame_of_buffer(&buffer, &format()) else {
        panic!("no memfd frame");
    };
    assert_eq!(frame.format, format());
    assert_eq!(frame.plane, FramePlane { fd: Some(8), offset: 16, stride: 7680 });
}

#[test]
fn a_block_at_an_address_becomes_a_frame() {
    let buffer = PwBuffer { datas: vec![data(Some(DataType::MemPtr), -1)] };
    let Some(WlxFrame::MemPtr(frame)) = frame_of_buffer(&buffer, &format()) else {
        panic!("no memptr frame");
    };
    assert_eq!(frame.format, format());
    assert_eq!(frame.ptr, 0xdead_0000);
    assert_eq!(frame.size, 8294400);
    assert!(frame.mouse.is_none());
}

#[test]
fn a_buffer_of_unexpected_shape_holds_no_frame() {
    assert!(frame_of_buffer(&PwBuffer { datas: vec![] }, &format()).is_none());
    assert!(frame_of_buffer(&PwBuffer { datas: vec![data(None, 3)] }, &format()).is_none());
    let five = PwBuffer { datas: vec![data(Some(DataType::DmaBuf), 3); 5] };
    assert!(frame_of_buffer(&five, &format()).is_none());
    let four = PwBuffer { datas: vec![data(Some(DataType::DmaBuf), 3); 4] };
    assert!(frame_of_buffer(&four, &format()).is_some());
}

#[test]
fn the_stream_takes_up_the_negotiated_format() {
    let mut stream = PipewireStream::new();
    assert!(stream.running);
    assert_eq!(stream.format, FrameFormat::default());
    stream.param_changed(2560, 1440, VideoFormat::RGBA, 9);
    assert_eq!(
        stream.format,
        FrameFormat { width: 2560, height: 1440, fourcc: DRM_FORMAT_ABGR8888, modifier: 9 }
    );
    assert!(stream.running);
}

#[test]
fn the_stream_processes_the_freshest_buffer() {
    let mut stream = PipewireStream::new();
    stream.param_changed(64, 32, VideoFormat::BGRx, 0);
    let dequeued = vec![
        PwBuffer { datas: vec![data(Some(DataType::MemFd), 1)] },
        PwBuffer { datas: vec![data(Some(DataType::MemFd), 2)] },
        PwBuffer { datas: vec![data(Some(DataType::MemFd), 3)] },
    ];
    let Some(WlxFrame::MemFd(frame)) = stream.process(&dequeued) else {
        panic!("no frame");
    };
    assert_eq!(frame.plane.fd, Some(3));
    assert_eq!(frame.format.width, 64);
    assert_eq!(frame.format.fourcc, DRM_FORMAT_XRGB8888);
    assert!(stream.process(&vec![]).is_none());
}

#[test]
fn a_consumer_that_is_gone_stops_the_stream() {
    let mut stream = PipewireStream::new();
    let dequeued = vec![PwBuffer { datas: vec![data(Some(DataType::MemFd), 1)] }];
    assert_eq!(stream.sent(SendOutcome::Sent), (ProducerStep::Continue, vec![]));
    assert_eq!(stream.sent(SendOutcome::Full(dmabuf(1, &[5, 6]))), (ProducerStep::Continue, vec![5, 6]));
    assert!(stream.running);
    assert!(stream.process(&dequeued).is_some());
    assert_eq!(
        stream.sent(SendOutcome::Disconnected(dmabuf(1, &[7]))),
        (ProducerStep::Stop, vec![7])
    );
    assert!(!stream.running);
    assert!(stream.process(&dequeued).is_none());
    assert_eq!(stream.control(PwChangeRequest::Resume), StreamAction::SetActive(true));
    assert!(!stream.running);
    assert!(stream.process(&dequeued).is_none());
}

#[test]
fn control_requests_become_stream_actions() {
    let mut stream = PipewireStream::new();
    assert_eq!(stream.control(PwChangeRequest::Pause), StreamAction::SetActive(false));
    assert_eq!(stream.control(PwChangeRequest::Resume), StreamAction::SetActive(true));
    assert!(stream.running);
    assert_eq!(stream.control(PwChangeRequest::Stop), StreamAction::Quit);
    assert!(!stream.running);
}

#[test]
fn pipewire_is_not_ready_before_init_or_after_a_failure() {
    let mut capture = PipewireCapture::new("screen".to_string(), 42, 60);
    assert_eq!(capture.name(), "screen");
    assert_eq!(capture.node_id(), 42);
    assert_eq!(capture.fps(), 60);
    assert!(capture.supports_dmbuf());
    assert!(!capture.is_ready());
    capture.init(&[]);
    assert!(capture.is_ready());
    capture.producer_failed();
    assert!(!capture.is_ready());
    capture.init(&[]);
    assert!(capture.is_ready());
}

#[test]
fn pipewire_makes_its_offers_at_init() {
    let mut capture = PipewireCapture::new("screen".to_string(), 42, 60);
    assert!(capture.take_offers().is_none());
    let formats = vec![DrmFormat { fourcc: DRM_FORMAT_XRGB8888, modifiers: vec![0, 1] }];
    capture.init(&formats);
    assert!(capture.is_ready());
    let offers = capture.take_offers().unwrap();
    assert_eq!(offers.len(), 2);
    assert_eq!(offers[0].video_format, VideoFormat::BGRx);
    assert_eq!(offers[0].framerate, Fraction { num: 60, denom: 1 });
    assert_eq!(offers[0].modifiers.as_ref().unwrap().alternatives, vec![0, 1]);
    assert!(offers[1].modifiers.is_none());
    assert!(capture.take_offers().is_none());
    assert!(capture.is_ready());
}

#[test]
fn pipewire_is_not_ready_after_a_failed_init() {
    let mut capture = PipewireCapture::new("screen".to_string(), 42, 60);
    capture.init(&[DrmFormat { fourcc: 0x3231564e, modifiers: vec![0] }]);
    assert!(!capture.is_ready());
    assert!(capture.take_offers().is_none());
    capture.init(&[DrmFormat { fourcc: DRM_FORMAT_ARGB8888, modifiers: vec![] }]);
    assert!(!capture.is_ready());
    capture.init(&[]);
    assert!(capture.is_ready());
    assert_eq!(capture.take_offers().unwrap().len(), 1);
}

#[test]
fn pipewire_requests_reach_the_event_loop_in_order() {
    let mut capture = PipewireCapture::new("screen".to_string(), 42, 60);
    capture.pause();
    capture.resume();
    capture.stop();
    assert!(capture.take_requests().is_empty());
    capture.init(&[]);
    capture.pause();
    capture.request_new_frame();
    capture.resume();
    assert_eq!(capture.take_requests(), vec![PwChangeRequest::Pause, PwChangeRequest::Resume]);
    assert!(capture.take_requests().is_empty());
    capture.stop();
    assert_eq!(capture.take_requests(), vec![PwChangeRequest::Stop]);
}

#[test]
fn pipewire_receives_the_freshest_frame() {
    let mut capture = PipewireCapture::new("screen".to_string(), 42, 60);
    capture.init(&[]);
    assert!(capture.receive().is_none());
    capture.deliver(dmabuf(1, &[10]));
    capture.deliver(dmabuf(2, &[11, 12]));
    capture.deliver(dmabuf(3, &[13]));
    capture.pause();
    capture.request_new_frame();
    let Some(WlxFrame::Dmabuf(frame)) = capture.receive() else {
        panic!("no frame");
    };
    assert_eq!(frame.format.width, 3);
    assert_eq!(capture.take_released(), vec![10, 11, 12]);
    assert!(capture.receive().is_none());
    assert!(capture.take_released().is_empty());
}

#[test]
fn pipewire_resume_and_init_discard_what_is_buffered() {
    let mut capture = PipewireCapture::new("screen".to_string(), 42, 60);
    capture.init(&[]);
    capture.deliver(dmabuf(1, &[10]));
    capture.deliver(dmabuf(2, &[11]));
    capture.resume();
    assert!(capture.receive().is_none());
    assert_eq!(capture.take_released(), vec![10, 11]);
    capture.deliver(dmabuf(3, &[12]));
    capture.pause();
    capture.init(&[]);
    assert!(capture.receive().is_none());
    assert_eq!(capture.take_released(), vec![12]);
    assert!(capture.take_requests().is_empty());
}

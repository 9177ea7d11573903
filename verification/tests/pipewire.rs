use scap::frame::VideoFrame;
use scap::linux::error::LinCapError;
use scap::linux::pipewire::{
    begin, get_timestamp, last_word, pipewire_probe, stream_offer, CapturerState, Control, Dequeued,
    ListenerUserData, MediaSubtype, MediaType, Meta, OpenProgress, OpenStep, ParamChange,
    ParamKind, PipeWireCapturer, PipeWireTimestampMapper, ProbeProgress, ProbeStep, RawVideo,
    VideoFormat, WorkerStep,
};
use scap::time::{Duration, SystemTime};

fn after_epoch(span: Duration) -> SystemTime {
    SystemTime::unix_epoch().checked_add(span).unwrap()
}

fn later(time: SystemTime, span: Duration) -> SystemTime {
    time.checked_add(span).unwrap()
}

#[test]
fn pipewire_pts_are_mapped_from_a_monotonic_clock_to_wall_clock() {
    let wall = after_epoch(Duration::from_secs(1_000));
    let mut mapper = PipeWireTimestampMapper { first_pts: None, first_wall_time: None };
    assert_eq!(mapper.timestamp(5_000, wall), wall);
    assert_eq!(
        mapper.timestamp(5_020_000, later(wall, Duration::from_secs(3))),
        later(wall, Duration::from_millis(5)),
    );
}

#[test]
fn later_distances_are_kept_to_the_millisecond_and_earlier_ones_exactly() {
    let wall = after_epoch(Duration::from_secs(1_000));
    let mut mapper = PipeWireTimestampMapper::new();
    assert_eq!(mapper.timestamp(-7_000_000, wall), wall);
    assert_eq!(mapper.timestamp(-6_000_001, wall), wall);
    assert_eq!(mapper.timestamp(-6_000_000, wall), later(wall, Duration::from_millis(1)));
    assert_eq!(
        mapper.timestamp(-7_999_999, wall),
        wall.checked_sub(Duration::from_nanos(999_999)).unwrap()
    );
    assert_eq!(
        mapper.timestamp(-9_500_000, later(wall, Duration::from_secs(9))),
        wall.checked_sub(Duration::from_nanos(2_500_000)).unwrap()
    );
    assert_eq!(mapper.first_pts, Some(-7_000_000));
    assert_eq!(mapper.first_wall_time, Some(wall));
}

#[test]
fn frame_before_the_anchor_keeps_its_nanoseconds() {
    let wall = after_epoch(Duration::from_secs(1_000));
    let mut mapper =
        PipeWireTimestampMapper { first_pts: Some(5_000), first_wall_time: Some(wall) };
    assert_eq!(
        mapper.timestamp(2_000, later(wall, Duration::from_secs(3))),
        after_epoch(Duration::from_nanos(999_999_997_000))
    );
}

#[test]
fn frames_keep_apart() {
    let wall = after_epoch(Duration::from_secs(1_000));
    let mut mapper = PipeWireTimestampMapper::new();
    mapper.timestamp(0, wall);
    let mut at = |pts: i64| {
        let span = mapper.timestamp(pts, wall).since_unix_epoch().unwrap();
        span.as_secs() as i64 * 1_000_000_000 + i64::from(span.subsec_nanos())
    };
    assert_eq!(at(-3_000) - at(-7_500_001), 7_497_001);
    assert_eq!(at(0) - at(-3_000), 3_000);
    assert_eq!(at(2_999_999) - at(1_000_000), 1_000_000);
    assert_eq!(at(3_000_000) - at(1_999_999), 2_000_000);
    assert_eq!(at(1_999_999) - at(-500_000), 1_500_000);
}

#[test]
fn order_is_kept() {
    let wall = after_epoch(Duration::from_secs(1_000));
    let mut mapper = PipeWireTimestampMapper::new();
    mapper.timestamp(0, wall);
    let mut before = Duration::zero();
    for pts in [-5_000_000, -1_500_000, -1, 0, 1, 999_999, 1_000_000, 7_250_000] {
        let now = mapper.timestamp(pts, wall).since_unix_epoch().unwrap();
        assert!((now.as_secs(), now.subsec_nanos()) >= (before.as_secs(), before.subsec_nanos()));
        before = now;
    }
}

#[test]
fn frames_beyond_the_clock_fall_back() {
    let last = after_epoch(Duration::from_secs(i64::MAX as u64));
    let mut mapper = PipeWireTimestampMapper::new();
    assert_eq!(mapper.timestamp(0, last), last);
    assert_eq!(mapper.timestamp(2_000_000_000, last), last);
    let first = SystemTime::unix_epoch()
        .checked_sub(Duration::from_secs(1 << 63))
        .unwrap();
    let mut mapper = PipeWireTimestampMapper::new();
    assert_eq!(mapper.timestamp(0, first), first);
    assert_eq!(mapper.timestamp(-1, first), SystemTime::unix_epoch());
    let mut mapper = PipeWireTimestampMapper::new();
    let wall = SystemTime::unix_epoch();
    mapper.timestamp(i64::MIN, wall);
    assert_eq!(
        mapper.timestamp(i64::MAX, wall),
        after_epoch(Duration::from_millis(18_446_744_073_709))
    );
}

#[test]
fn first_header_gives_the_timestamp() {
    assert_eq!(get_timestamp(&vec![]), 0);
    assert_eq!(get_timestamp(&vec![Meta::Other, Meta::Other]), 0);
    assert_eq!(
        get_timestamp(&vec![Meta::Other, Meta::Header { pts: -3 }, Meta::Header { pts: 4 }]),
        -3
    );
}

#[test]
fn stream_offers_four_formats() {
    let offer = stream_offer(60);
    assert_eq!(
        offer.formats,
        vec![VideoFormat::RGB, VideoFormat::RGBA, VideoFormat::RGBx, VideoFormat::BGRx]
    );
    assert_eq!(offer.default_size, (128, 128));
    assert_eq!(offer.smallest_size, (1, 1));
    assert_eq!(offer.largest_size, (4096, 4096));
    assert_eq!(offer.max_framerate, (60, 1));
}

fn raw_video(video: Option<RawVideo>) -> ParamChange {
    ParamChange {
        param: Some(ParamKind::Format),
        media: Some((MediaType::Video, MediaSubtype::Raw)),
        video,
    }
}

fn hd(format: VideoFormat) -> RawVideo {
    RawVideo { format, width: 1280, height: 720 }
}

#[test]
fn raw_video_sets_the_size() {
    let mut data = ListenerUserData::new();
    let mut capturer = PipeWireCapturer { has_worker: true, width: 0, height: 0 };
    let mut control = Control::new();
    for ignored in [
        ParamChange { param: None, ..raw_video(Some(hd(VideoFormat::RGB))) },
        ParamChange { param: Some(ParamKind::Other), ..raw_video(None) },
        ParamChange { media: None, ..raw_video(None) },
        ParamChange { media: Some((MediaType::Other, MediaSubtype::Raw)), ..raw_video(None) },
        ParamChange { media: Some((MediaType::Video, MediaSubtype::Other)), ..raw_video(None) },
    ] {
        assert!(!ignored.names_raw_video());
        data.param_changed(&mut capturer, &mut control, &ignored);
        assert_eq!(capturer.output_size(), [0, 0]);
        assert!(!control.errored);
    }
    assert!(raw_video(None).names_raw_video());
    data.param_changed(&mut capturer, &mut control, &raw_video(Some(hd(VideoFormat::RGB))));
    assert_eq!(capturer.output_size(), [1280, 720]);
    assert_eq!(data.format, hd(VideoFormat::RGB));
    assert!(!control.errored);
    data.param_changed(&mut capturer, &mut control, &raw_video(None));
    assert_eq!(capturer.output_size(), [1280, 720]);
    assert!(control.errored);
}

fn buffer(pts: i64, data: Option<Vec<u8>>) -> Dequeued {
    Dequeued::Buffer { metas: vec![Meta::Header { pts }], data }
}

#[test]
fn buffers_become_frames_of_the_negotiated_format() {
    let wall = after_epoch(Duration::from_secs(1_000));
    let mut data = ListenerUserData::new();
    let mut control = Control::new();
    data.format = hd(VideoFormat::RGB);
    let processed = data.process(&mut control, buffer(4_000_000, Some(vec![7])), wall);
    assert!(processed.requeue);
    match processed.frame {
        Some(VideoFrame::RGB(frame)) => {
            assert_eq!((frame.width, frame.height), (1280, 720));
            assert_eq!(frame.data, vec![7]);
            assert_eq!(frame.display_time, wall);
        }
        other => panic!("{other:?}"),
    }
    data.format.format = VideoFormat::BGRx;
    let processed = data.process(&mut control, buffer(6_000_000, Some(vec![8])), wall);
    match processed.frame {
        Some(VideoFrame::BGRx(frame)) => {
            assert_eq!(frame.display_time, later(wall, Duration::from_millis(2)))
        }
        other => panic!("{other:?}"),
    }
    data.format.format = VideoFormat::RGBx;
    assert!(matches!(
        data.process(&mut control, buffer(0, Some(vec![])), wall).frame,
        Some(VideoFrame::RGBx(_))
    ));
    data.format.format = VideoFormat::XBGR;
    assert!(matches!(
        data.process(&mut control, buffer(0, Some(vec![])), wall).frame,
        Some(VideoFrame::XBGR(_))
    ));
    assert!(!control.errored);
}

#[test]
fn unsupported_formats_and_empty_buffers_give_no_frame() {
    let wall = after_epoch(Duration::from_secs(1_000));
    let mut data = ListenerUserData::new();
    let mut control = Control::new();
    data.format = hd(VideoFormat::RGB);
    for (dequeued, requeue) in [
        (Dequeued::OutOfBuffers, true),
        (Dequeued::Hollow, true),
        (buffer(9, None), false),
    ] {
        let processed = data.process(&mut control, dequeued, wall);
        assert!(processed.frame.is_none());
        assert_eq!(processed.requeue, requeue);
        assert!(!control.errored);
        assert_eq!(data.timestamp_mapper.first_pts, None);
    }
    for format in [VideoFormat::RGBA, VideoFormat::Other] {
        let mut control = Control::new();
        data.format.format = format;
        let processed = data.process(&mut control, buffer(9, Some(vec![1])), wall);
        assert!(processed.frame.is_none());
        assert!(processed.requeue);
        assert!(control.errored);
    }
}

fn done() -> Option<Result<(), String>> {
    Some(Ok(()))
}

fn failed(text: &str) -> Option<Result<(), String>> {
    Some(Err(text.to_string()))
}

#[test]
fn opening_goes_in_order() {
    let mut progress = OpenProgress { bus: None, cursor: None, stream: None, worker: None };
    let next = |progress: &OpenProgress| PipeWireCapturer::new(true, progress).unwrap();
    assert_eq!(next(&progress), OpenStep::ConnectBus);
    progress.bus = done();
    assert_eq!(next(&progress), OpenStep::ConfigureCursor { show_cursor: true });
    progress.cursor = done();
    assert_eq!(next(&progress), OpenStep::CreateStream);
    progress.stream = Some(Ok(42));
    assert_eq!(
        next(&progress),
        OpenStep::SpawnWorker {
            stream_id: 42,
            capturer: PipeWireCapturer { has_worker: true, width: 0, height: 0 },
        }
    );
    progress.worker = Some(Ok(true));
    assert_eq!(next(&progress), OpenStep::Ready);
}

#[test]
fn failed_opening_says_where() {
    let mut progress =
        OpenProgress { bus: failed("a"), cursor: failed("b"), stream: None, worker: None };
    let message = |progress: &OpenProgress| {
        PipeWireCapturer::new(false, progress)
            .unwrap_err()
            .message()
            .to_string()
    };
    assert_eq!(message(&progress), "PipeWire backend unavailable: no session D-Bus: a");
    progress.bus = done();
    assert_eq!(message(&progress), "PipeWire cursor configuration failed: b");
    progress.cursor = done();
    progress.stream = Some(Err("c".to_string()));
    assert_eq!(message(&progress), "PipeWire portal session failed: c");
    progress.stream = Some(Ok(1));
    progress.worker = Some(Err("d".to_string()));
    assert_eq!(message(&progress), "PipeWire capture worker failed to initialize: d");
    progress.worker = Some(Ok(false));
    assert_eq!(message(&progress), "PipeWire stream setup failed");
}

#[test]
fn probe_goes_in_order() {
    let mut progress =
        ProbeProgress { bus: None, portal: None, main_loop: None, context: None, daemon: None };
    assert_eq!(pipewire_probe(&progress).unwrap(), ProbeStep::ConnectBus);
    progress.bus = done();
    assert_eq!(pipewire_probe(&progress).unwrap(), ProbeStep::ProbePortal);
    progress.portal = done();
    assert_eq!(pipewire_probe(&progress).unwrap(), ProbeStep::MakeLoop);
    progress.main_loop = done();
    assert_eq!(pipewire_probe(&progress).unwrap(), ProbeStep::MakeContext);
    progress.context = done();
    assert_eq!(pipewire_probe(&progress).unwrap(), ProbeStep::ConnectDaemon);
    progress.daemon = done();
    assert_eq!(pipewire_probe(&progress).unwrap(), ProbeStep::Usable);
}

#[test]
fn failed_probe_says_where() {
    let mut progress = ProbeProgress {
        bus: failed("a"),
        portal: failed("b"),
        main_loop: failed("c"),
        context: failed("d"),
        daemon: failed("e"),
    };
    let message =
        |progress: &ProbeProgress| pipewire_probe(progress).unwrap_err().message().to_string();
    assert_eq!(message(&progress), "PipeWire backend unavailable: no session D-Bus: a");
    progress.bus = done();
    assert_eq!(message(&progress), "b");
    progress.portal = done();
    assert_eq!(message(&progress), "PipeWire backend unavailable: c");
    progress.main_loop = done();
    assert_eq!(message(&progress), "PipeWire backend unavailable: d");
    progress.context = done();
    assert_eq!(message(&progress), "PipeWire daemon is unavailable: e");
}

#[test]
fn worker_negotiates_holds_and_runs() {
    let mut control = Control::new();
    let negotiating = match begin() {
        WorkerStep::Negotiate(worker) => worker,
        other => panic!("{other:?}"),
    };
    let negotiating = match negotiating.observed(0, false, false) {
        WorkerStep::TurnAndNegotiate(worker) => worker,
        other => panic!("{other:?}"),
    };
    let judging = match negotiating.observed(640, false, false) {
        WorkerStep::Judge(worker) => worker,
        other => panic!("{other:?}"),
    };
    let announcing = match judging.observed(640) {
        WorkerStep::Announce(worker) => worker,
        other => panic!("{other:?}"),
    };
    assert_eq!(announcing.width, 640);
    let holding = match announcing.announced(Ok(())) {
        WorkerStep::Hold(worker) => worker,
        other => panic!("{other:?}"),
    };
    let holding = match holding.observed(&control) {
        WorkerStep::SleepAndHold(worker) => worker,
        other => panic!("{other:?}"),
    };
    let capturer = PipeWireCapturer { has_worker: true, width: 640, height: 480 };
    capturer.start_capture(&mut control);
    let running = match holding.observed(&control) {
        WorkerStep::Run(worker) => worker,
        other => panic!("{other:?}"),
    };
    let running = match running.observed(&control) {
        WorkerStep::TurnAndRun(worker) => worker,
        other => panic!("{other:?}"),
    };
    control.state_changed(false);
    assert!(!control.errored);
    control.state_changed(true);
    assert!(matches!(running.observed(&control), WorkerStep::Finish));
}

#[test]
fn worker_fails_without_a_size() {
    let judging = |errored: bool, late: bool| match begin() {
        WorkerStep::Negotiate(worker) => match worker.observed(0, errored, late) {
            WorkerStep::Judge(worker) => worker,
            other => panic!("{other:?}"),
        },
        other => panic!("{other:?}"),
    };
    match judging(true, false).observed(0) {
        WorkerStep::Fail(error) => {
            assert_eq!(error.message(), "PipeWire stream did not negotiate a video size")
        }
        other => panic!("{other:?}"),
    }
    match judging(false, true).observed(1) {
        WorkerStep::Announce(worker) => match worker.announced(Err("nobody waits")) {
            WorkerStep::Fail(error) => assert_eq!(error.message(), "nobody waits"),
            other => panic!("{other:?}"),
        },
        other => panic!("{other:?}"),
    }
}

#[test]
fn stop_ends_the_worker_and_makes_the_control_ready() {
    let mut control = Control::new();
    let mut capturer = PipeWireCapturer { has_worker: true, width: 640, height: 480 };
    assert!(capturer.stop_capture(&mut control));
    assert_eq!(control.state, CapturerState::Stopping);
    assert!(!capturer.stop_capture(&mut control));
    assert_eq!(capturer.output_size(), [640, 480]);
    control.state_changed(true);
    control.worker_gone();
    assert_eq!(control.state, CapturerState::Waiting);
    assert!(!control.errored);
}

#[test]
fn frames_have_the_size_that_the_capturer_tells() {
    let wall = after_epoch(Duration::from_secs(1));
    let mut data = ListenerUserData::new();
    let mut capturer = PipeWireCapturer { has_worker: true, width: 0, height: 0 };
    let mut control = Control::new();
    data.param_changed(&mut capturer, &mut control, &raw_video(Some(hd(VideoFormat::BGRx))));
    match data.process(&mut control, buffer(1, Some(vec![])), wall).frame {
        Some(VideoFrame::BGRx(frame)) => {
            assert_eq!([frame.width as u32, frame.height as u32], capturer.output_size())
        }
        other => panic!("{other:?}"),
    }
    data.format.width = u32::MAX;
    match data.process(&mut control, buffer(1, Some(vec![])), wall).frame {
        Some(VideoFrame::BGRx(frame)) => assert_eq!(frame.width, -1),
        other => panic!("{other:?}"),
    }
}

#[test]
fn failed_worker_has_a_last_word() {
    assert_eq!(last_word(&Ok(())), None);
    assert_eq!(last_word(&Err(LinCapError::from_text("gone"))), Some(false));
}

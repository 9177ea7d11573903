use scap::capturer::{Area, Options, Point, Resolution, Size};
use scap::coordinate::Coordinate;
use scap::frame::{FrameType, VideoFrame};
use scap::linux::error::LinCapError;
use scap::linux::x11::capture::{
    begin, check_dimensions, connect_error, display_name, frame_rate, get_image, image_request,
    shared_image, CaptureStep, ImageFailure, ImageRequest, X11Capturer,
};
use scap::linux::x11::layout::{output_size, Depth, ImageLayout, PixmapFormat, Screen, Setup, Visual};
use scap::linux::x11::shared::{self, ShareStep};
use scap::time::{Duration, SystemTime};

fn layout() -> ImageLayout {
    ImageLayout {
        root: 7,
        x: -3,
        y: 4,
        width: 2,
        height: 1,
        depth: 24,
        bits_per_pixel: 32,
        scanline_pad: 32,
        little_endian: true,
        red_mask: 0xff0000,
        green_mask: 0xff00,
        blue_mask: 0xff,
    }
}

fn capture(output: FrameType, shared: bool) -> CaptureStep {
    match begin(&layout(), layout(), output, Duration::from_millis(40)) {
        CaptureStep::ShareMemory { size, next } => {
            assert_eq!(size, 8);
            next.prepared(shared)
        }
        other => panic!("{other:?}"),
    }
}

fn stamped(step: CaptureStep) -> CaptureStep {
    match step {
        CaptureStep::Stamp(worker) => worker.stamped(now()),
        other => panic!("{other:?}"),
    }
}

fn now() -> SystemTime {
    SystemTime::unix_epoch()
}

fn pixels() -> Vec<u8> {
    vec![3, 2, 1, 0, 6, 5, 4, 0]
}

#[test]
fn display_must_be_set() {
    assert_eq!(display_name(Some(":0")).unwrap(), ":0");
    assert_eq!(
        display_name(None).unwrap_err().message(),
        "X11 backend unavailable: DISPLAY is not set"
    );
    assert_eq!(
        connect_error(":9", "refused").message(),
        "X11 backend unavailable: cannot connect to X server at DISPLAY=:9: refused"
    );
}

#[test]
fn whole_pixels_of_the_area_are_requested() {
    assert_eq!(
        image_request(&layout()),
        ImageRequest {
            format: 2,
            drawable: 7,
            x: -3,
            y: 4,
            width: 2,
            height: 1,
            plane_mask: u32::MAX,
        }
    );
}

#[test]
fn short_replies_are_refused() {
    assert_eq!(get_image(Ok(pixels()), &layout()).unwrap(), pixels());
    assert_eq!(
        get_image(Ok(vec![0; 7]), &layout()).unwrap_err().message(),
        "X11 returned 7 image bytes; expected at least 8"
    );
    assert_eq!(
        get_image(Err(ImageFailure::Request("a".to_string())), &layout())
            .unwrap_err()
            .message(),
        "X11 GetImage request failed: a"
    );
    assert_eq!(
        get_image(Err(ImageFailure::Reply("b".to_string())), &layout())
            .unwrap_err()
            .message(),
        "X11 GetImage failed: b"
    );
}

#[test]
fn shared_images_are_taken_as_they_are() {
    assert_eq!(shared_image(Ok(vec![1])).unwrap(), vec![1]);
    assert_eq!(
        shared_image(Err(ImageFailure::Request("a".to_string())))
            .unwrap_err()
            .message(),
        "MIT-SHM request failed: a"
    );
    assert_eq!(
        shared_image(Err(ImageFailure::Reply("b".to_string())))
            .unwrap_err()
            .message(),
        "MIT-SHM capture failed: b"
    );
}

#[test]
fn changed_dimensions_are_refused() {
    assert!(check_dimensions(&layout(), &ImageLayout { x: 0, ..layout() }).is_ok());
    for changed in [
        ImageLayout { width: 3, ..layout() },
        ImageLayout { height: 2, ..layout() },
    ] {
        assert_eq!(
            check_dimensions(&layout(), &changed).unwrap_err().message(),
            "X11 display dimensions changed before capture started"
        );
    }
}

#[test]
fn capture_begins_on_the_announced_size_only() {
    let interval = Duration::from_millis(40);
    let moved = ImageLayout { x: 9, ..layout() };
    match begin(&layout(), moved, FrameType::RGB, interval) {
        CaptureStep::ShareMemory { size, next } => {
            assert_eq!(size, 8);
            assert_eq!(next.capture.layout, moved);
            assert_eq!(next.capture.frame_interval, interval);
        }
        other => panic!("{other:?}"),
    }
    match begin(&layout(), ImageLayout { height: 2, ..layout() }, FrameType::RGB, interval) {
        CaptureStep::Finish(Err(error)) => assert_eq!(
            error.message(),
            "X11 display dimensions changed before capture started"
        ),
        other => panic!("{other:?}"),
    }
}

#[test]
fn frame_rate_is_at_least_one() {
    assert_eq!(frame_rate(0), 1);
    assert_eq!(frame_rate(1), 1);
    assert_eq!(frame_rate(144), 144);
}

fn sent(step: CaptureStep) -> (Vec<u8>, CaptureStep) {
    match step {
        CaptureStep::Send { frame: VideoFrame::RGB(frame), next } => {
            assert_eq!(frame.display_time, now());
            (frame.data, next.sent(true, Duration::from_millis(15)))
        }
        other => panic!("{other:?}"),
    }
}

fn waited(step: CaptureStep, stop: bool) -> CaptureStep {
    match step {
        CaptureStep::Wait { remaining, next } => {
            assert_eq!(remaining, Duration::from_millis(25));
            next.waited(stop)
        }
        other => panic!("{other:?}"),
    }
}

#[test]
fn failed_sharing_is_final() {
    let step = match capture(FrameType::RGB, true) {
        CaptureStep::CaptureShared(worker) => stamped(worker.captured(Ok(pixels()))),
        other => panic!("{other:?}"),
    };
    let (data, step) = sent(step);
    assert_eq!(data, vec![1, 2, 3, 4, 5, 6]);
    let step = match waited(step, false) {
        CaptureStep::CaptureShared(worker) => {
            worker.captured(Err(LinCapError::from_text("gone")))
        }
        other => panic!("{other:?}"),
    };
    let step = match step {
        CaptureStep::GetImage(worker) => stamped(worker.received(Ok(pixels()))),
        other => panic!("{other:?}"),
    };
    let (_, step) = sent(step);
    match waited(step, false) {
        CaptureStep::GetImage(worker) => {
            match worker.received(Err(LinCapError::from_text("gone too"))) {
                CaptureStep::Finish(Err(error)) => assert_eq!(error.message(), "gone too"),
                other => panic!("{other:?}"),
            }
        }
        other => panic!("{other:?}"),
    }
}

#[test]
fn capture_ends_when_told_or_when_nobody_listens() {
    let step = match capture(FrameType::RGB, false) {
        CaptureStep::GetImage(worker) => stamped(worker.received(Ok(pixels()))),
        other => panic!("{other:?}"),
    };
    let (_, step) = sent(step);
    assert!(matches!(waited(step, true), CaptureStep::Finish(Ok(()))));
    let step = match capture(FrameType::BGR0, false) {
        CaptureStep::GetImage(worker) => stamped(worker.received(Ok(pixels()))),
        other => panic!("{other:?}"),
    };
    match step {
        CaptureStep::Send { frame: VideoFrame::BGR0(_), next } => assert!(matches!(
            next.sent(false, Duration::zero()),
            CaptureStep::Finish(Ok(()))
        )),
        other => panic!("{other:?}"),
    }
}

#[test]
fn late_frames_do_not_wait() {
    let step = match capture(FrameType::BGRAFrame, false) {
        CaptureStep::GetImage(worker) => stamped(worker.received(Ok(pixels()))),
        other => panic!("{other:?}"),
    };
    match step {
        CaptureStep::Send { frame: VideoFrame::BGRA(_), next } => {
            match next.sent(true, Duration::from_secs(1)) {
                CaptureStep::Wait { remaining, .. } => assert_eq!(remaining, Duration::zero()),
                other => panic!("{other:?}"),
            }
        }
        other => panic!("{other:?}"),
    }
}

#[test]
fn yuv_ends_the_capture() {
    match capture(FrameType::YUVFrame, false) {
        CaptureStep::GetImage(worker) => match worker.received(Ok(pixels())) {
            CaptureStep::Finish(Err(error)) => assert_eq!(
                error.message(),
                "X11 backend does not support YUV output; use BGRAFrame, BGR0, or RGB"
            ),
            other => panic!("{other:?}"),
        },
        other => panic!("{other:?}"),
    }
}

fn options(output_type: FrameType) -> Options {
    Options {
        fps: 30,
        show_cursor: true,
        show_highlight: false,
        target: None,
        crop_area: None,
        output_type,
        output_resolution: Resolution::Captured,
        excluded_targets: None,
        captures_audio: false,
        exclude_current_process_audio: false,
    }
}

fn setup() -> Setup {
    let visual = Visual { visual_id: 33, red_mask: 0xf800, green_mask: 0x7e0, blue_mask: 0x1f };
    Setup {
        image_byte_order: 0,
        pixmap_formats: vec![PixmapFormat { depth: 16, bits_per_pixel: 16, scanline_pad: 32 }],
        roots: vec![Screen {
            root: 1,
            width_in_pixels: 640,
            height_in_pixels: 480,
            root_depth: 16,
            root_visual: 33,
            allowed_depths: vec![Depth { visuals: vec![visual] }],
        }],
    }
}

#[test]
fn capturer_starts_again_after_a_stop() {
    let mut capturer = X11Capturer::new(&options(FrameType::RGB), &setup(), 0).unwrap();
    assert_eq!(capturer.output_size(), [640, 480]);
    assert!(!capturer.stop_capture());
    assert!(capturer.start_capture());
    assert!(!capturer.start_capture());
    assert!(capturer.stop_capture());
    assert!(capturer.start_capture());
}

#[test]
fn capturer_refuses_what_the_backend_cannot_do() {
    assert_eq!(
        X11Capturer::new(&options(FrameType::YUVFrame), &setup(), 5)
            .unwrap_err()
            .message(),
        "X11 backend does not support YUV output; use BGRAFrame, BGR0, or RGB"
    );
    assert_eq!(
        X11Capturer::new(&options(FrameType::RGB), &setup(), 5)
            .unwrap_err()
            .message(),
        "X11 server has no screen 5"
    );
}

#[test]
fn size_is_foretold() {
    let c = |value: f64| Coordinate::from_bits(value.to_bits());
    let area = |width: f64| {
        Some(Area {
            origin: Point { x: c(10.0), y: c(20.0) },
            size: Size { width: c(width), height: c(40.9) },
        })
    };
    for (crop_area, size) in [(None, [640, 480]), (area(30.5), [30, 40])] {
        let asked = Options { crop_area, ..options(FrameType::RGB) };
        assert_eq!(output_size(&setup(), 0, &asked).unwrap(), size);
        assert_eq!(X11Capturer::new(&asked, &setup(), 0).unwrap().output_size(), size);
    }
    let asked = Options { crop_area: area(700.0), ..options(FrameType::RGB) };
    assert_eq!(
        output_size(&setup(), 0, &asked).unwrap_err().message(),
        X11Capturer::new(&asked, &setup(), 0).unwrap_err().message()
    );
}

fn allocated(shmid: i32) -> ShareStep {
    let step = match shared::begin(4096) {
        ShareStep::QueryVersion(next) => next.answered(Ok(())),
        other => panic!("{other:?}"),
    };
    match step {
        ShareStep::Allocate { size, next } => {
            assert_eq!(size, 4096);
            next.allocated(shmid, "no space")
        }
        other => panic!("{other:?}"),
    }
}

fn mapped(address: isize) -> ShareStep {
    match allocated(11) {
        ShareStep::MapIn { shmid, next } => {
            assert_eq!(shmid, 11);
            next.mapped(address)
        }
        other => panic!("{other:?}"),
    }
}

fn message(step: ShareStep) -> String {
    match step {
        ShareStep::Fail(error) => error.message().to_string(),
        other => panic!("{other:?}"),
    }
}

#[test]
fn memory_is_shared_step_by_step() {
    let step = match mapped(0x1000) {
        ShareStep::DrawNumber(next) => next.named(Ok(99)),
        other => panic!("{other:?}"),
    };
    let step = match step {
        ShareStep::Attach { segment, shmid, next } => {
            assert_eq!((segment, shmid), (99, 11));
            next.attached(Ok(()))
        }
        other => panic!("{other:?}"),
    };
    match step {
        ShareStep::Ready { shmid, image } => {
            assert_eq!(shmid, 11);
            assert_eq!((image.segment, image.address, image.size), (99, 0x1000, 4096));
        }
        other => panic!("{other:?}"),
    }
}

#[test]
fn failed_sharing_gives_everything_back() {
    match shared::begin(1) {
        ShareStep::QueryVersion(next) => {
            assert_eq!(message(next.answered(Err("old"))), "MIT-SHM unavailable: old")
        }
        other => panic!("{other:?}"),
    }
    assert_eq!(message(allocated(-1)), "MIT-SHM allocation failed: no space");
    match mapped(-1) {
        ShareStep::Remove { shmid, next } => {
            assert_eq!(shmid, 11);
            assert_eq!(message(next.removed("denied")), "MIT-SHM attach failed: denied");
        }
        other => panic!("{other:?}"),
    }
    let step = match mapped(0x1000) {
        ShareStep::DrawNumber(next) => next.named(Err("exhausted")),
        other => panic!("{other:?}"),
    };
    match step {
        ShareStep::Release { address, shmid, error } => {
            assert_eq!((address, shmid), (0x1000, 11));
            assert_eq!(error.message(), "MIT-SHM resource allocation failed: exhausted");
        }
        other => panic!("{other:?}"),
    }
    let step = match mapped(0x1000) {
        ShareStep::DrawNumber(next) => match next.named(Ok(99)) {
            ShareStep::Attach { next, .. } => next.attached(Err("remote")),
            other => panic!("{other:?}"),
        },
        other => panic!("{other:?}"),
    };
    match step {
        ShareStep::Release { address, shmid, error } => {
            assert_eq!((address, shmid), (0x1000, 11));
            assert_eq!(error.message(), "MIT-SHM server attach failed: remote");
        }
        other => panic!("{other:?}"),
    }
}

use scap::capturer::{Point, Resolution, Size};
use scap::coordinate::Coordinate;
use scap::frame::{
    AudioFormat, AudioFrame, Frame, FrameType, PixelFrame, PlanarFrame, VideoFrame,
};
use scap::python::{
    audio_format, audio_frame, is_countable, targets, timestamp, video_frame, CaptureOptions, FrameInfo,
    PyCapturer, PyError, PyErrorKind, TargetInfo,
};
use scap::targets::{Display, ScaleFactor, Target, Window};
use scap::time::{Duration, SystemTime};

fn c(value: f64) -> Coordinate {
    Coordinate::from_bits(value.to_bits())
}

fn after_epoch(span: Duration) -> SystemTime {
    SystemTime::unix_epoch().checked_add(span).unwrap()
}

fn before_epoch() -> SystemTime {
    SystemTime::unix_epoch()
        .checked_sub(Duration::from_nanos(1))
        .unwrap()
}

fn is_value_error<T: std::fmt::Debug>(result: Result<T, PyError>, message: &str) {
    let error = result.unwrap_err();
    assert_eq!(error.kind, PyErrorKind::ValueError);
    assert_eq!(error.message, message);
}

fn is_runtime_error<T: std::fmt::Debug>(result: Result<T, PyError>, message: &str) {
    let error = result.unwrap_err();
    assert_eq!(error.kind, PyErrorKind::RuntimeError);
    assert_eq!(error.message, message);
}

#[test]
fn timestamps_count_from_the_epoch() {
    let span = Duration::from_nanos(1_500_000_001);
    assert_eq!(timestamp(after_epoch(span)).unwrap(), span);
    assert_eq!(timestamp(SystemTime::unix_epoch()).unwrap(), Duration::zero());
    is_value_error(timestamp(before_epoch()), "frame timestamp predates the Unix epoch");
}

fn display(title: &str) -> Target {
    Target::Display(Display { id: 3, title: title.to_string() })
}

fn window() -> Target {
    Target::Window(Window {
        id: 12,
        title: "Terminal".to_string(),
        frame: scap::capturer::Area {
            origin: Point { x: c(0.0), y: c(0.0) },
            size: Size { width: c(1.0), height: c(1.0) },
        },
        scale_factor: ScaleFactor { pixels: 1, points: 1 },
    })
}

#[test]
fn targets_are_described_in_order() {
    let infos = targets(vec![display("Main"), window()]);
    let described: Vec<(u32, &str, &str)> = infos
        .iter()
        .map(|info| (info.id, info.title.as_str(), info.kind.as_str()))
        .collect();
    assert_eq!(described, vec![(3, "Main", "display"), (12, "Terminal", "window")]);
    assert!(matches!(infos[1].target, Target::Window(_)));
}

#[test]
fn target_is_printed_with_a_quoted_title() {
    assert_eq!(
        TargetInfo::from_target(display("a \"b\"")).__repr__(),
        "TargetInfo(kind='display', id=3, title=\"a \\\"b\\\"\")"
    );
    assert_eq!(
        TargetInfo::from_target(window()).__repr__(),
        "TargetInfo(kind='window', id=12, title=\"Terminal\")"
    );
}

fn options(fps: u32, output_type: &str, output_resolution: &str) -> Result<CaptureOptions, PyError> {
    CaptureOptions::new(
        fps,
        true,
        false,
        None,
        Some((c(1.0), c(2.0), c(3.0), c(4.0))),
        output_type,
        output_resolution,
        true,
        false,
    )
}

#[test]
fn options_are_read_from_words() {
    let read = options(25, "RGB", "Captured").unwrap().options;
    assert_eq!(read.fps, 25);
    assert!(read.show_cursor && !read.show_highlight);
    assert!(read.captures_audio && !read.exclude_current_process_audio);
    assert!(read.target.is_none() && read.excluded_targets.is_none());
    let area = read.crop_area.unwrap();
    assert_eq!(area.origin, Point { x: c(1.0), y: c(2.0) });
    assert_eq!(area.size, Size { width: c(3.0), height: c(4.0) });
    for (word, frame_type) in [
        ("bgra", FrameType::BGRAFrame),
        ("BGRAFrame", FrameType::BGRAFrame),
        ("bgr0", FrameType::BGRAFrame),
        ("rgb", FrameType::RGB),
        ("YUV", FrameType::YUVFrame),
        ("yuvframe", FrameType::YUVFrame),
    ] {
        assert_eq!(options(1, word, "captured").unwrap().options.output_type, frame_type);
    }
    for (word, resolution) in [
        ("CAPTURED", Resolution::Captured),
        ("480p", Resolution::_480p),
        ("720P", Resolution::_720p),
        ("1080p", Resolution::_1080p),
        ("1440p", Resolution::_1440p),
        ("2160p", Resolution::_2160p),
        ("4320p", Resolution::_4320p),
    ] {
        assert_eq!(options(1, "rgb", word).unwrap().options.output_resolution, resolution);
    }
}

#[test]
fn options_without_sense_are_refused() {
    is_value_error(options(0, "?", "?"), "fps must be greater than zero");
    is_value_error(options(1, "rgba", "?"), "output_type must be 'bgra', 'rgb', or 'yuv'");
    is_value_error(options(1, "rgb", "captured "), "unknown output_resolution");
}

fn image(width: i32, height: i32, bytes: usize, display_time: SystemTime) -> PixelFrame {
    PixelFrame { display_time, width, height, data: vec![7; bytes] }
}

#[test]
fn images_get_their_shape() {
    let time = after_epoch(Duration::from_secs(5));
    for (frame, format, channels) in [
        (VideoFrame::RGB(image(4, 2, 24, time)), "rgb", 3),
        (VideoFrame::RGBx(image(4, 2, 32, time)), "rgbx", 4),
        (VideoFrame::XBGR(image(4, 2, 32, time)), "xbgr", 4),
        (VideoFrame::BGRx(image(4, 2, 32, time)), "bgrx", 4),
        (VideoFrame::BGR0(image(4, 2, 32, time)), "bgr0", 4),
        (VideoFrame::BGRA(image(4, 2, 32, time)), "bgra", 4),
    ] {
        let info = video_frame(frame).unwrap();
        assert_eq!(info.shape, (2, 4, channels));
        assert_eq!((info.width, info.height), (4, 2));
        assert_eq!(info.data.len(), 8 * channels);
        assert_eq!(info.format, format);
        assert_eq!(info.timestamp, Duration::from_secs(5));
    }
}

#[test]
fn images_without_a_shape_are_refused() {
    let time = SystemTime::unix_epoch();
    for frame in [
        image(0, 2, 0, time),
        image(4, 0, 16, time),
        image(4, 2, 33, time),
        image(-1, 1, 4, time),
    ] {
        is_value_error(
            video_frame(VideoFrame::BGRA(frame)),
            "captured frame has invalid dimensions",
        );
    }
    is_value_error(
        video_frame(VideoFrame::BGRA(image(1, 1, 4, before_epoch()))),
        "frame timestamp predates the Unix epoch",
    );
    is_value_error(
        video_frame(VideoFrame::YUVFrame(PlanarFrame {
            display_time: time,
            width: 1,
            height: 1,
            luminance: vec![0],
            chrominance: vec![0],
        })),
        "YUV frames are not supported by the Python binding yet; use output_type='bgra' or 'rgb'",
    );
}

#[test]
fn pixels_beyond_the_machine_are_told() {
    let time = SystemTime::unix_epoch();
    assert!(is_countable(&VideoFrame::RGB(image(4, 2, 24, time))));
    assert!(is_countable(&VideoFrame::BGRA(image(-1, 1, 4, time))));
    assert!(!is_countable(&VideoFrame::BGRA(image(-1, 2, 4, time))));
    assert!(!is_countable(&VideoFrame::RGBx(image(-1, -1, 4, time))));
}

fn sound(time: SystemTime) -> AudioFrame {
    AudioFrame {
        format: AudioFormat::F32,
        channels: 2,
        is_planar: true,
        data: vec![1, 2, 3],
        sample_count: 960,
        rate: 48_000,
        time,
    }
}

#[test]
fn sound_is_handed_out_as_it_is() {
    let info = audio_frame(sound(after_epoch(Duration::from_millis(1)))).unwrap();
    assert_eq!(info.data, vec![1, 2, 3]);
    assert_eq!((info.channels, info.rate, info.sample_count), (2, 48_000, 960));
    assert_eq!(info.format, "float32");
    assert!(info.planar);
    assert_eq!(info.timestamp, Duration::from_millis(1));
    is_value_error(
        audio_frame(sound(before_epoch())),
        "frame timestamp predates the Unix epoch",
    );
}

#[test]
fn sample_formats_have_numpy_names() {
    let names: Vec<&str> = [
        AudioFormat::I8,
        AudioFormat::I16,
        AudioFormat::I32,
        AudioFormat::I64,
        AudioFormat::U8,
        AudioFormat::U16,
        AudioFormat::U32,
        AudioFormat::U64,
        AudioFormat::F32,
        AudioFormat::F64,
    ]
    .into_iter()
    .map(audio_format)
    .collect();
    assert_eq!(
        names,
        vec![
            "int8", "int16", "int32", "int64", "uint8", "uint16", "uint32", "uint64", "float32",
            "float64"
        ]
    );
}

#[test]
fn capturer_starts_and_stops_once() {
    let mut capturer = PyCapturer::new();
    assert!(!capturer.stop());
    is_runtime_error(capturer.check_started(), "capture has not started");
    assert!(capturer.start().is_ok());
    assert!(capturer.check_started().is_ok());
    is_runtime_error(capturer.start(), "capture has already started");
    assert!(capturer.stop());
    assert!(!capturer.stop());
    assert!(capturer.start().is_ok());
    assert_eq!(capturer.output_size([640, 480]), (640, 480));
}

#[test]
fn frames_are_handed_out_while_capturing() {
    let time = after_epoch(Duration::from_secs(1));
    let video = || Ok(Frame::Video(VideoFrame::RGB(image(1, 1, 3, time))));
    let mut capturer = PyCapturer::new();
    is_runtime_error(capturer.next_frame(video()), "capture has not started");
    capturer.start().unwrap();
    match capturer.next_frame(video()) {
        Ok(FrameInfo::Video(info)) => assert_eq!(info.shape, (1, 1, 3)),
        other => panic!("{other:?}"),
    }
    match capturer.next_frame(Ok(Frame::Audio(sound(time)))) {
        Ok(FrameInfo::Audio(info)) => assert_eq!(info.sample_count, 960),
        other => panic!("{other:?}"),
    }
    is_runtime_error(capturer.next_frame(Err("disconnected")), "disconnected");
}

//! What the Python binding checks and hands out.

use crate::capturer::{Area, Options, Point, Resolution, Size};
use crate::coordinate::Coordinate;
use crate::frame::{AudioFormat, AudioFrame, Frame, FrameType, PixelFrame, VideoFrame};
use crate::linux::x11::convert::{channels, converted, law_complete_image_fills_frame};
use crate::linux::x11::layout::ImageLayout;
use crate::targets::Target;
use crate::text::{
    append_decimal, debug_format, debug_text, decimal, lower_ascii, same_text, to_ascii_lowercase,
};
use crate::time::{Duration, SystemTime};
use vstd::arithmetic::div_mod::lemma_fundamental_div_mod;
use vstd::prelude::*;

verus! {

/// The exception that an error is raised as.
#[derive(Clone, Copy, Debug, PartialEq, Eq, Structural)]
pub enum PyErrorKind {
    ValueError,
    RuntimeError,
}

/// An error of the binding.
#[derive(Debug)]
pub struct PyError {
    pub kind: PyErrorKind,
    pub message: String,
}

/// A result with its error as the exception and the message.
pub open spec fn py_outcome<T>(result: Result<T, PyError>) -> Result<T, (PyErrorKind, Seq<char>)> {
    match result {
        Ok(value) => Ok(value),
        Err(error) => Err((error.kind, error.message@)),
    }
}

impl PyError {
    fn value(message: &str) -> (r: PyError)
        ensures
            r.kind == PyErrorKind::ValueError,
            r.message@ == message@,
    {
        PyError { kind: PyErrorKind::ValueError, message: message.to_owned() }
    }

    fn runtime(message: &str) -> (r: PyError)
        ensures
            r.kind == PyErrorKind::RuntimeError,
            r.message@ == message@,
    {
        PyError { kind: PyErrorKind::RuntimeError, message: message.to_owned() }
    }
}

/// The message for a time before the Unix epoch.
pub open spec fn predates_message() -> Seq<char> {
    "frame timestamp predates the Unix epoch"@
}

/// The time of a frame as the span since the Unix epoch.
pub fn timestamp(value: SystemTime) -> (r: Result<Duration, PyError>)
    ensures
        if value@ >= 0 {
            r matches Ok(span) && span@ == value@
        } else {
            r matches Err(error) && error.kind == PyErrorKind::ValueError && error.message@
                == predates_message()
        },
{
    match value.since_unix_epoch() {
        Some(span) => Ok(span),
        None => Err(PyError::value("frame timestamp predates the Unix epoch")),
    }
}

/// A target with what Python sees of it.
#[derive(Debug)]
pub struct TargetInfo {
    pub target: Target,
    pub id: u32,
    pub title: String,
    pub kind: String,
}

/// The number, the title and the kind of a target.
pub open spec fn described(target: Target) -> (u32, Seq<char>, Seq<char>) {
    match target {
        Target::Display(display) => (display.id, display.title@, "display"@),
        Target::Window(window) => (window.id, window.title@, "window"@),
    }
}

impl TargetInfo {
    /// What Python sees of a target.
    pub fn from_target(target: Target) -> (r: TargetInfo)
        ensures
            r.target == target,
            (r.id, r.title@, r.kind@) == described(target),
    {
        let (id, title, kind): (u32, String, &str) = match &target {
            Target::Display(display) => (display.id, display.title.clone(), "display"),
            Target::Window(window) => (window.id, window.title.clone(), "window"),
        };
        TargetInfo { target, id, title, kind: kind.to_owned() }
    }

    /// The representation of the target in Python.
    pub fn __repr__(&self) -> (r: String)
        ensures
            r@ == "TargetInfo(kind='"@ + self.kind@ + "', id="@ + decimal(self.id as nat)
                + ", title="@ + debug_text(self.title@) + ")"@,
    {
        represent(self.kind.as_str(), self.id, debug_format(self.title.as_str()).as_str())
    }
}

/// The representation of a target, from what `{:?}` prints for its title.
pub fn represent(kind: &str, id: u32, printed: &str) -> (r: String)
    ensures
        r@ == "TargetInfo(kind='"@ + kind@ + "', id="@ + decimal(id as nat) + ", title="@ + printed@
            + ")"@,
{
    let mut text: String = "TargetInfo(kind='".to_owned();
    text.append(kind);
    text.append("', id=");
    append_decimal(&mut text, id as u64);
    text.append(", title=");
    text.append(printed);
    text.append(")");
    text
}

/// What Python sees of the targets, in their order.
pub fn targets(all: Vec<Target>) -> (r: Vec<TargetInfo>)
    ensures
        r@.len() == all@.len(),
        forall|i: int|
            0 <= i < all@.len() ==> (#[trigger] r@[i]).target == all@[i] && (
                r@[i].id,
                r@[i].title@,
                r@[i].kind@,
            ) == described(all@[i]),
{
    let mut infos: Vec<TargetInfo> = Vec::new();
    for target in it: all
        invariant
            it.seq() == all@,
            infos@.len() == it.index(),
            forall|i: int|
                0 <= i < infos@.len() ==> (#[trigger] infos@[i]).target == all@[i] && (
                    infos@[i].id,
                    infos@[i].title@,
                    infos@[i].kind@,
                ) == described(all@[i]),
    {
        infos.push(TargetInfo::from_target(target));
    }
    infos
}

/// The options of a capture as Python gives them.
#[derive(Debug)]
pub struct CaptureOptions {
    pub options: Options,
}

/// The frame type that a word stands for, in any case of its letters.
pub open spec fn frame_type_of(word: Seq<char>) -> Option<FrameType> {
    let lower = lower_ascii(word);
    if lower == "bgra"@ || lower == "bgraframe"@ || lower == "bgr0"@ {
        Some(FrameType::BGRAFrame)
    } else if lower == "rgb"@ {
        Some(FrameType::RGB)
    } else if lower == "yuv"@ || lower == "yuvframe"@ {
        Some(FrameType::YUVFrame)
    } else {
        None
    }
}

/// The resolution that a word stands for, in any case of its letters.
pub open spec fn resolution_of(word: Seq<char>) -> Option<Resolution> {
    let lower = lower_ascii(word);
    if lower == "captured"@ {
        Some(Resolution::Captured)
    } else if lower == "480p"@ {
        Some(Resolution::_480p)
    } else if lower == "720p"@ {
        Some(Resolution::_720p)
    } else if lower == "1080p"@ {
        Some(Resolution::_1080p)
    } else if lower == "1440p"@ {
        Some(Resolution::_1440p)
    } else if lower == "2160p"@ {
        Some(Resolution::_2160p)
    } else if lower == "4320p"@ {
        Some(Resolution::_4320p)
    } else {
        None
    }
}

fn parse_frame_type(word: &str) -> (r: Option<FrameType>)
    ensures
        r == frame_type_of(word@),
{
    let lower: String = to_ascii_lowercase(word);
    let lower: &str = lower.as_str();
    if same_text(lower, "bgra") || same_text(lower, "bgraframe") || same_text(lower, "bgr0") {
        Some(FrameType::BGRAFrame)
    } else if same_text(lower, "rgb") {
        Some(FrameType::RGB)
    } else if same_text(lower, "yuv") || same_text(lower, "yuvframe") {
        Some(FrameType::YUVFrame)
    } else {
        None
    }
}

fn parse_resolution(word: &str) -> (r: Option<Resolution>)
    ensures
        r == resolution_of(word@),
{
    let lower: String = to_ascii_lowercase(word);
    let lower: &str = lower.as_str();
    if same_text(lower, "captured") {
        Some(Resolution::Captured)
    } else if same_text(lower, "480p") {
        Some(Resolution::_480p)
    } else if same_text(lower, "720p") {
        Some(Resolution::_720p)
    } else if same_text(lower, "1080p") {
        Some(Resolution::_1080p)
    } else if same_text(lower, "1440p") {
        Some(Resolution::_1440p)
    } else if same_text(lower, "2160p") {
        Some(Resolution::_2160p)
    } else if same_text(lower, "4320p") {
        Some(Resolution::_4320p)
    } else {
        None
    }
}

/// The rectangle with this left and top edge, this width and this height.
pub open spec fn area_of(
    edges: Option<(Coordinate, Coordinate, Coordinate, Coordinate)>,
) -> Option<Area> {
    match edges {
        Some((x, y, width, height)) => Some(
            Area { origin: Point { x, y }, size: Size { width, height } },
        ),
        None => None,
    }
}

/// The options that are asked for in these words, or why there are none.
pub open spec fn options_of(
    fps: u32,
    show_cursor: bool,
    show_highlight: bool,
    target: Option<Target>,
    crop_area: Option<(Coordinate, Coordinate, Coordinate, Coordinate)>,
    output_type: Seq<char>,
    output_resolution: Seq<char>,
    captures_audio: bool,
    exclude_current_process_audio: bool,
) -> Result<CaptureOptions, (PyErrorKind, Seq<char>)> {
    if fps == 0 {
        Err((PyErrorKind::ValueError, "fps must be greater than zero"@))
    } else {
        match (frame_type_of(output_type), resolution_of(output_resolution)) {
            (None, _) => Err(
                (
                    PyErrorKind::ValueError,
                    "output_type must be 'bgra', 'rgb', or 'yuv'"@,
                ),
            ),
            (_, None) => Err((PyErrorKind::ValueError, "unknown output_resolution"@)),
            (Some(frame_type), Some(resolution)) => Ok(
                CaptureOptions {
                    options: Options {
                        fps,
                        show_cursor,
                        show_highlight,
                        target,
                        crop_area: area_of(crop_area),
                        output_type: frame_type,
                        output_resolution: resolution,
                        excluded_targets: None,
                        captures_audio,
                        exclude_current_process_audio,
                    },
                },
            ),
        }
    }
}

impl CaptureOptions {
    /// The options, or why they make none: no frames per second, an unknown frame type, or an
    /// unknown resolution.
    pub fn new(
        fps: u32,
        show_cursor: bool,
        show_highlight: bool,
        target: Option<Target>,
        crop_area: Option<(Coordinate, Coordinate, Coordinate, Coordinate)>,
        output_type: &str,
        output_resolution: &str,
        captures_audio: bool,
        exclude_current_process_audio: bool,
    ) -> (r: Result<CaptureOptions, PyError>)
        ensures
            py_outcome(r) == options_of(
                fps,
                show_cursor,
                show_highlight,
                target,
                crop_area,
                output_type@,
                output_resolution@,
                captures_audio,
                exclude_current_process_audio,
            ),
    {
        if fps == 0 {
            return Err(PyError::value("fps must be greater than zero"));
        }
        let output_type: FrameType = match parse_frame_type(output_type) {
            Some(output_type) => output_type,
            None => {
                return Err(PyError::value("output_type must be 'bgra', 'rgb', or 'yuv'"));
            },
        };
        let output_resolution: Resolution = match parse_resolution(output_resolution) {
            Some(output_resolution) => output_resolution,
            None => {
                return Err(PyError::value("unknown output_resolution"));
            },
        };
        let crop_area: Option<Area> = match crop_area {
            Some((x, y, width, height)) => Some(
                Area { origin: Point { x, y }, size: Size { width, height } },
            ),
            None => None,
        };
        Ok(
            CaptureOptions {
                options: Options {
                    fps,
                    show_cursor,
                    show_highlight,
                    target,
                    crop_area,
                    output_type,
                    output_resolution,
                    excluded_targets: None,
                    captures_audio,
                    exclude_current_process_audio,
                },
            },
        )
    }
}

/// A frame of video as Python sees it: the bytes of an array of this shape.
#[derive(Debug)]
pub struct VideoFrameInfo {
    pub data: Vec<u8>,
    pub shape: (usize, usize, usize),
    pub width: usize,
    pub height: usize,
    pub format: String,
    pub timestamp: Duration,
}

/// A block of audio as Python sees it: the bytes of an array of one dimension.
#[derive(Debug)]
pub struct AudioFrameInfo {
    pub data: Vec<u8>,
    pub channels: usize,
    pub rate: usize,
    pub sample_count: usize,
    pub format: String,
    pub planar: bool,
    pub timestamp: Duration,
}

/// The pixels of a frame and the name of their format, where they are interleaved.
pub open spec fn pixels_of(frame: VideoFrame) -> Option<(PixelFrame, Seq<char>)> {
    match frame {
        VideoFrame::YUVFrame(_) => None,
        VideoFrame::RGB(image) => Some((image, "rgb"@)),
        VideoFrame::RGBx(image) => Some((image, "rgbx"@)),
        VideoFrame::XBGR(image) => Some((image, "xbgr"@)),
        VideoFrame::BGRx(image) => Some((image, "bgrx"@)),
        VideoFrame::BGR0(image) => Some((image, "bgr0"@)),
        VideoFrame::BGRA(image) => Some((image, "bgra"@)),
    }
}

/// An extent as an unsigned number; a negative one wraps around.
pub open spec fn extent(n: i32) -> int {
    if n >= 0 {
        n as int
    } else {
        n + usize::MAX + 1
    }
}

fn unsigned(n: i32) -> (r: usize)
    ensures
        r == extent(n),
{
    if n >= 0 {
        n as usize
    } else {
        usize::MAX - (-(n + 1)) as usize
    }
}

/// How many pixels an image has.
pub open spec fn pixel_count(image: PixelFrame) -> int {
    extent(image.width) * extent(image.height)
}

/// Whether the number of pixels of a frame fits the machine.
pub open spec fn countable(frame: VideoFrame) -> bool {
    pixels_of(frame) matches Some((image, _)) ==> pixel_count(image) <= usize::MAX
}

/// Whether the number of pixels of a frame fits the machine, as [`video_frame`] asks.
pub fn is_countable(frame: &VideoFrame) -> (r: bool)
    ensures
        r == countable(*frame),
{
    let image: &PixelFrame = match frame {
        VideoFrame::YUVFrame(_) => {
            return true;
        },
        VideoFrame::RGB(image) => image,
        VideoFrame::RGBx(image) => image,
        VideoFrame::XBGR(image) => image,
        VideoFrame::BGRx(image) => image,
        VideoFrame::BGR0(image) => image,
        VideoFrame::BGRA(image) => image,
    };
    unsigned(image.width).checked_mul(unsigned(image.height)).is_some()
}

/// Whether `info` is what Python sees of the image: an array of rows of pixels of channels.
pub open spec fn depicts(info: VideoFrameInfo, image: PixelFrame, format: Seq<char>) -> bool {
    &&& info.data == image.data
    &&& info.width == extent(image.width)
    &&& info.height == extent(image.height)
    &&& info.shape == (
        info.height,
        info.width,
        (image.data@.len() as int / pixel_count(image)) as usize,
    )
    &&& info.format@ == format
    &&& info.timestamp@ == image.display_time@
}

/// Whether the bytes of an image are the same number for each of its pixels.
pub open spec fn divides(image: PixelFrame) -> bool {
    pixel_count(image) != 0 && image.data@.len() as int % pixel_count(image) == 0
}

/// Whether `r` is what comes of a frame of video.
pub open spec fn shows_video(r: Result<VideoFrameInfo, PyError>, frame: VideoFrame) -> bool {
    match pixels_of(frame) {
        None => r matches Err(error) && error.kind == PyErrorKind::ValueError && error.message@
            == "YUV frames are not supported by the Python binding yet; use output_type='bgra' or 'rgb'"@,
        Some((image, format)) => if !divides(image) {
            r matches Err(error) && error.kind == PyErrorKind::ValueError && error.message@
                == "captured frame has invalid dimensions"@
        } else if image.display_time@ < 0 {
            r matches Err(error) && error.kind == PyErrorKind::ValueError && error.message@
                == predates_message()
        } else {
            r matches Ok(info) && depicts(info, image, format)
        },
    }
}

/// What Python sees of a frame of video.
pub fn video_frame(frame: VideoFrame) -> (r: Result<VideoFrameInfo, PyError>)
    requires
        countable(frame),
    ensures
        shows_video(r, frame),
{
    let (image, format): (PixelFrame, &str) = match frame {
        VideoFrame::YUVFrame(_) => {
            return Err(
                PyError::value(
                    "YUV frames are not supported by the Python binding yet; use output_type='bgra' or 'rgb'",
                ),
            );
        },
        VideoFrame::RGB(image) => (image, "rgb"),
        VideoFrame::RGBx(image) => (image, "rgbx"),
        VideoFrame::XBGR(image) => (image, "xbgr"),
        VideoFrame::BGRx(image) => (image, "bgrx"),
        VideoFrame::BGR0(image) => (image, "bgr0"),
        VideoFrame::BGRA(image) => (image, "bgra"),
    };
    let width: usize = unsigned(image.width);
    let height: usize = unsigned(image.height);
    proof {
        assert(0 <= width * height) by (nonlinear_arith);
    }
    let pixels: usize = width * height;
    if pixels == 0 || image.data.len() % pixels != 0 {
        return Err(PyError::value("captured frame has invalid dimensions"));
    }
    let channels: usize = image.data.len() / pixels;
    let timestamp: Duration = match timestamp(image.display_time) {
        Ok(timestamp) => timestamp,
        Err(error) => {
            return Err(error);
        },
    };
    Ok(
        VideoFrameInfo {
            data: image.data,
            shape: (height, width, channels),
            width,
            height,
            format: format.to_owned(),
            timestamp,
        },
    )
}

/// The name of a sample type.
pub open spec fn sample_name(format: AudioFormat) -> Seq<char> {
    match format {
        AudioFormat::I8 => "int8"@,
        AudioFormat::I16 => "int16"@,
        AudioFormat::I32 => "int32"@,
        AudioFormat::I64 => "int64"@,
        AudioFormat::U8 => "uint8"@,
        AudioFormat::U16 => "uint16"@,
        AudioFormat::U32 => "uint32"@,
        AudioFormat::U64 => "uint64"@,
        AudioFormat::F32 => "float32"@,
        AudioFormat::F64 => "float64"@,
    }
}

/// The name of a sample type.
pub fn audio_format(format: AudioFormat) -> (r: &'static str)
    ensures
        r@ == sample_name(format),
{
    match format {
        AudioFormat::I8 => "int8",
        AudioFormat::I16 => "int16",
        AudioFormat::I32 => "int32",
        AudioFormat::I64 => "int64",
        AudioFormat::U8 => "uint8",
        AudioFormat::U16 => "uint16",
        AudioFormat::U32 => "uint32",
        AudioFormat::U64 => "uint64",
        AudioFormat::F32 => "float32",
        AudioFormat::F64 => "float64",
    }
}

/// Whether `r` is what comes of a block of audio.
pub open spec fn shows_audio(r: Result<AudioFrameInfo, PyError>, frame: AudioFrame) -> bool {
    if frame.time@ < 0 {
        r matches Err(error) && error.kind == PyErrorKind::ValueError && error.message@
            == predates_message()
    } else {
        r matches Ok(info) && {
            &&& info.data == frame.data
            &&& info.channels == frame.channels
            &&& info.rate == frame.rate
            &&& info.sample_count == frame.sample_count
            &&& info.format@ == sample_name(frame.format)
            &&& info.planar == frame.is_planar
            &&& info.timestamp@ == frame.time@
        }
    }
}

/// What Python sees of a block of audio.
pub fn audio_frame(frame: AudioFrame) -> (r: Result<AudioFrameInfo, PyError>)
    ensures
        shows_audio(r, frame),
{
    let timestamp: Duration = match timestamp(frame.time) {
        Ok(timestamp) => timestamp,
        Err(error) => {
            return Err(error);
        },
    };
    Ok(
        AudioFrameInfo {
            data: frame.data,
            channels: frame.channels as usize,
            rate: frame.rate as usize,
            sample_count: frame.sample_count,
            format: audio_format(frame.format).to_owned(),
            planar: frame.is_planar,
            timestamp,
        },
    )
}

/// A frame of either kind as Python sees it.
#[derive(Debug)]
pub enum FrameInfo {
    Video(VideoFrameInfo),
    Audio(AudioFrameInfo),
}

/// The life of a capturer in Python: whether it was started.
#[derive(Clone, Copy, Debug, PartialEq, Eq, Structural)]
pub struct PyCapturer {
    pub started: bool,
}

impl PyCapturer {
    /// A capturer that has not started.
    pub fn new() -> (r: PyCapturer)
        ensures
            !r.started,
    {
        PyCapturer { started: false }
    }

    /// Starts the capture, unless it has started: then this is an error.
    pub fn start(&mut self) -> (r: Result<(), PyError>)
        ensures
            py_outcome(r) == (if old(self).started {
                Err((PyErrorKind::RuntimeError, "capture has already started"@))
            } else {
                Ok(())
            }),
            final(self).started,
    {
        if self.started {
            return Err(PyError::runtime("capture has already started"));
        }
        self.started = true;
        Ok(())
    }

    /// Stops the capture. Returns whether there is one to stop.
    pub fn stop(&mut self) -> (r: bool)
        ensures
            r == old(self).started,
            !final(self).started,
    {
        let stop: bool = self.started;
        self.started = false;
        stop
    }

    /// The size of the frames as a pair.
    pub fn output_size(&self, size: [u32; 2]) -> (r: (u32, u32))
        ensures
            r == (size@[0], size@[1]),
    {
        (size[0], size[1])
    }

    /// Whether a frame can be waited for.
    pub fn check_started(&self) -> (r: Result<(), PyError>)
        ensures
            py_outcome(r) == (if self.started {
                Ok(())
            } else {
                Err((PyErrorKind::RuntimeError, "capture has not started"@))
            }),
    {
        if !self.started {
            return Err(PyError::runtime("capture has not started"));
        }
        Ok(())
    }

    /// What Python sees of the frame that was waited for, or of the reason why none came.
    pub fn next_frame(&self, fetched: Result<Frame, &str>) -> (r: Result<FrameInfo, PyError>)
        requires
            self.started ==> (fetched matches Ok(Frame::Video(frame)) ==> countable(frame)),
        ensures
            if !self.started {
                r matches Err(error) && error.kind == PyErrorKind::RuntimeError && error.message@
                    == "capture has not started"@
            } else {
                match fetched {
                    Err(reason) => r matches Err(error) && error.kind == PyErrorKind::RuntimeError
                        && error.message@ == reason@,
                    Ok(Frame::Video(frame)) => match r {
                        Ok(FrameInfo::Video(info)) => shows_video(Ok(info), frame),
                        Ok(FrameInfo::Audio(_)) => false,
                        Err(error) => shows_video(Err(error), frame),
                    },
                    Ok(Frame::Audio(frame)) => match r {
                        Ok(FrameInfo::Audio(info)) => shows_audio(Ok(info), frame),
                        Ok(FrameInfo::Video(_)) => false,
                        Err(error) => shows_audio(Err(error), frame),
                    },
                }
            },
    {
        match self.check_started() {
            Ok(()) => {},
            Err(error) => {
                return Err(error);
            },
        }
        match fetched {
            Err(reason) => Err(PyError::runtime(reason)),
            Ok(Frame::Video(frame)) => match video_frame(frame) {
                Ok(info) => Ok(FrameInfo::Video(info)),
                Err(error) => Err(error),
            },
            Ok(Frame::Audio(frame)) => match audio_frame(frame) {
                Ok(info) => Ok(FrameInfo::Audio(info)),
                Err(error) => Err(error),
            },
        }
    }
}

/// The array of a frame has as many bytes as its shape has places.
pub proof fn law_shape_holds_the_data(info: VideoFrameInfo, image: PixelFrame, format: Seq<char>)
    requires
        depicts(info, image, format),
        divides(image),
    ensures
        info.shape.0 * info.shape.1 * info.shape.2 == info.data@.len(),
{
    let pixels = pixel_count(image);
    let length = image.data@.len() as int;
    assert(image.data.len() == length);
    lemma_fundamental_div_mod(length, pixels);
    assert(pixels > 0) by (nonlinear_arith)
        requires
            pixels == extent(image.width) * extent(image.height),
            pixels != 0,
            extent(image.width) >= 0,
            extent(image.height) >= 0,
    ;
    assert(0 <= length / pixels <= length) by (nonlinear_arith)
        requires
            pixels > 0,
            length >= 0,
    ;
    assert(info.shape.0 * info.shape.1 == pixels) by (nonlinear_arith)
        requires
            info.shape.0 == extent(image.height),
            info.shape.1 == extent(image.width),
            pixels == extent(image.width) * extent(image.height),
    ;
}

/// A complete image that X11 captured has three channels as RGB and four as BGRA or BGR0, and
/// is handed out where its time is not before the Unix epoch.
pub proof fn law_captured_image_has_its_channels(
    image: PixelFrame,
    raw: Seq<u8>,
    layout: ImageLayout,
    output: FrameType,
)
    requires
        layout.supported(),
        layout.width > 0,
        layout.height > 0,
        raw.len() >= layout.image_bytes(),
        image.width == layout.width,
        image.height == layout.height,
        image.data@ == converted(raw, layout, output),
    ensures
        divides(image),
        image.data@.len() as int / pixel_count(image) == channels(output),
{
    law_complete_image_fills_frame(raw, layout, output);
    let pixels = layout.width * layout.height;
    let bytes = channels(output);
    assert(pixels > 0) by (nonlinear_arith)
        requires
            pixels == layout.width * layout.height,
            layout.width > 0,
            layout.height > 0,
    ;
    assert((pixels * bytes) % pixels == 0 && (pixels * bytes) / pixels == bytes)
        by (nonlinear_arith)
        requires
            pixels > 0,
    ;
}

/// The case of its letters does not change what a word stands for.
pub proof fn law_words_ignore_case(word: Seq<char>)
    ensures
        frame_type_of(lower_ascii(word)) == frame_type_of(word),
        resolution_of(lower_ascii(word)) == resolution_of(word),
{
    assert(lower_ascii(lower_ascii(word)) =~= lower_ascii(word));
}

/// A target is described by what it is: its number, its title, and whether it is a display or a
/// window.
pub proof fn law_target_is_described_as_it_is(target: Target)
    ensures
        match target {
            Target::Display(display) => described(target).0 == display.id && described(target).1
                == display.title@ && described(target).2 == "display"@,
            Target::Window(window) => described(target).0 == window.id && described(target).1
                == window.title@ && described(target).2 == "window"@,
        },
{
}

/// A result counts as what it holds: a value as that value, and an error as its kind and message.
pub proof fn law_python_outcome_is_the_result<T>(result: Result<T, PyError>)
    ensures
        result matches Ok(value) ==> py_outcome(result) == Ok::<T, (PyErrorKind, Seq<char>)>(value),
        result matches Err(error) ==> py_outcome(result) == Err::<T, (PyErrorKind, Seq<char>)>(
            (error.kind, error.message@),
        ),
{
}

/// The words for a frame type, in any case: `bgra`, `bgraframe` and `bgr0` for BGRA, `rgb` for RGB,
/// `yuv` and `yuvframe` for YUV. No other word stands for one.
pub proof fn law_frame_types_have_their_words(word: Seq<char>)
    ensures
        frame_type_of(word) == Some(FrameType::BGRAFrame) <==> lower_ascii(word) == "bgra"@
            || lower_ascii(word) == "bgraframe"@ || lower_ascii(word) == "bgr0"@,
        frame_type_of(word) == Some(FrameType::RGB) <==> lower_ascii(word) == "rgb"@,
        frame_type_of(word) == Some(FrameType::YUVFrame) <==> lower_ascii(word) == "yuv"@
            || lower_ascii(word) == "yuvframe"@,
        frame_type_of(word) != Some(FrameType::BGR0),
{
    reveal_strlit("bgra");
    reveal_strlit("bgraframe");
    reveal_strlit("bgr0");
    reveal_strlit("rgb");
    reveal_strlit("yuv");
    reveal_strlit("yuvframe");
    assert("bgra"@[0] == 'b' && "bgraframe"@[0] == 'b' && "bgr0"@[0] == 'b');
    assert("rgb"@[0] == 'r');
    assert("yuv"@[0] == 'y' && "yuvframe"@[0] == 'y');
}

/// The words for a resolution, in any case: `captured` and the six heights. No other word stands
/// for one.
pub proof fn law_resolutions_have_their_words(word: Seq<char>)
    ensures
        resolution_of(word) == Some(Resolution::Captured) <==> lower_ascii(word) == "captured"@,
        resolution_of(word) == Some(Resolution::_480p) <==> lower_ascii(word) == "480p"@,
        resolution_of(word) == Some(Resolution::_720p) <==> lower_ascii(word) == "720p"@,
        resolution_of(word) == Some(Resolution::_1080p) <==> lower_ascii(word) == "1080p"@,
        resolution_of(word) == Some(Resolution::_1440p) <==> lower_ascii(word) == "1440p"@,
        resolution_of(word) == Some(Resolution::_2160p) <==> lower_ascii(word) == "2160p"@,
        resolution_of(word) == Some(Resolution::_4320p) <==> lower_ascii(word) == "4320p"@,
{
    reveal_strlit("captured");
    reveal_strlit("480p");
    reveal_strlit("720p");
    reveal_strlit("1080p");
    reveal_strlit("1440p");
    reveal_strlit("2160p");
    reveal_strlit("4320p");
    assert("captured"@.len() == 8);
    assert("480p"@.len() == 4 && "480p"@[0] == '4');
    assert("720p"@.len() == 4 && "720p"@[0] == '7');
    assert("1080p"@.len() == 5 && "1080p"@[1] == '0');
    assert("1440p"@.len() == 5 && "1440p"@[1] == '4');
    assert("2160p"@.len() == 5 && "2160p"@[1] == '1');
    assert("4320p"@.len() == 5 && "4320p"@[1] == '3');
}

/// A crop area has the four numbers that it is given as: left edge, top edge, width and height.
pub proof fn law_crop_area_is_as_given(
    x: Coordinate,
    y: Coordinate,
    width: Coordinate,
    height: Coordinate,
)
    ensures
        area_of(None) is None,
        area_of(Some((x, y, width, height))) matches Some(area) && area.origin.x == x
            && area.origin.y == y && area.size.width == width && area.size.height == height,
{
}

/// An extent is itself, and one below zero what it is modulo the machine's word.
pub proof fn law_extents_wrap(n: i32)
    ensures
        n >= 0 ==> extent(n) == n,
        n < 0 ==> extent(n) == n + usize::MAX + 1,
{
}

/// What Python is handed of an image: its bytes in their order, its size, the name of its pixel
/// format and its moment, as an array of as many rows as it is high, of as many pixels as it is
/// wide, of as many channels as make up its bytes.
pub proof fn law_image_is_handed_out_as_it_is(
    info: VideoFrameInfo,
    frame: VideoFrame,
    image: PixelFrame,
    width: nat,
    height: nat,
)
    requires
        shows_video(Ok(info), frame),
        match frame {
            VideoFrame::YUVFrame(_) => false,
            VideoFrame::RGB(shown) => shown == image,
            VideoFrame::RGBx(shown) => shown == image,
            VideoFrame::XBGR(shown) => shown == image,
            VideoFrame::BGRx(shown) => shown == image,
            VideoFrame::BGR0(shown) => shown == image,
            VideoFrame::BGRA(shown) => shown == image,
        },
        image.width == width,
        image.height == height,
    ensures
        info.data@.len() == image.data@.len(),
        forall|i: int| 0 <= i < image.data@.len() ==> #[trigger] info.data@[i] == image.data@[i],
        info.width == width,
        info.height == height,
        info.shape.0 == height,
        info.shape.1 == width,
        height * width * info.shape.2 == image.data@.len(),
        info.timestamp@ == image.display_time@,
        info.format@ == match frame {
            VideoFrame::RGB(_) => "rgb"@,
            VideoFrame::RGBx(_) => "rgbx"@,
            VideoFrame::XBGR(_) => "xbgr"@,
            VideoFrame::BGRx(_) => "bgrx"@,
            VideoFrame::BGR0(_) => "bgr0"@,
            _ => "bgra"@,
        },
{
    law_shape_holds_the_data(info, image, info.format@);
    assert(info.shape.0 * info.shape.1 * info.shape.2 == height * width * info.shape.2);
}

/// An image is refused only for a reason: as YUV; where it has no pixels or not the same number of
/// bytes for each; and where its moment lies before the Unix epoch.
pub proof fn law_image_is_refused_for_a_reason(
    error: PyError,
    frame: VideoFrame,
    image: PixelFrame,
)
    requires
        shows_video(Err(error), frame),
        match frame {
            VideoFrame::YUVFrame(_) => true,
            VideoFrame::RGB(shown) => shown == image,
            VideoFrame::RGBx(shown) => shown == image,
            VideoFrame::XBGR(shown) => shown == image,
            VideoFrame::BGRx(shown) => shown == image,
            VideoFrame::BGR0(shown) => shown == image,
            VideoFrame::BGRA(shown) => shown == image,
        },
        image.width >= 0,
        image.height >= 0,
    ensures
        error.kind == PyErrorKind::ValueError,
        ({
            let pixels = image.width * image.height;
            let uneven = pixels == 0 || image.data@.len() as int % pixels != 0;
            error.message@ == if frame is YUVFrame {
                "YUV frames are not supported by the Python binding yet; use output_type='bgra' or 'rgb'"@
            } else if uneven {
                "captured frame has invalid dimensions"@
            } else {
                "frame timestamp predates the Unix epoch"@
            }
        }),
        !(frame is YUVFrame) && image.width * image.height != 0 && image.data@.len() as int % (
        image.width * image.height) == 0 ==> image.display_time@ < 0,
{
}

/// The name of a sample's type says how it is stored and in how many bits.
pub proof fn law_samples_have_their_names(format: AudioFormat)
    ensures
        sample_name(format) == match format {
            AudioFormat::I8 => "int8"@,
            AudioFormat::I16 => "int16"@,
            AudioFormat::I32 => "int32"@,
            AudioFormat::I64 => "int64"@,
            AudioFormat::U8 => "uint8"@,
            AudioFormat::U16 => "uint16"@,
            AudioFormat::U32 => "uint32"@,
            AudioFormat::U64 => "uint64"@,
            AudioFormat::F32 => "float32"@,
            AudioFormat::F64 => "float64"@,
        },
{
}

/// What Python is handed of a block of audio: its bytes in their order and all that is told of
/// them. It is refused exactly where its moment lies before the Unix epoch.
pub proof fn law_audio_is_handed_out_as_it_is(
    r: Result<AudioFrameInfo, PyError>,
    frame: AudioFrame,
)
    requires
        shows_audio(r, frame),
    ensures
        match r {
            Ok(info) => {
                &&& frame.time@ >= 0
                &&& info.data@.len() == frame.data@.len()
                &&& forall|i: int|
                    0 <= i < frame.data@.len() ==> #[trigger] info.data@[i] == frame.data@[i]
                &&& info.channels == frame.channels
                &&& info.rate == frame.rate
                &&& info.sample_count == frame.sample_count
                &&& info.format@ == sample_name(frame.format)
                &&& info.planar == frame.is_planar
                &&& info.timestamp@ == frame.time@
            },
            Err(error) => {
                &&& frame.time@ < 0
                &&& error.kind == PyErrorKind::ValueError
                &&& error.message@ == "frame timestamp predates the Unix epoch"@
            },
        },
{
}

/// Every image whose pixels the machine can count is taken.
pub proof fn law_images_are_countable(frame: VideoFrame, image: PixelFrame)
    requires
        frame == VideoFrame::RGB(image) || frame == VideoFrame::RGBx(image) || frame
            == VideoFrame::XBGR(image) || frame == VideoFrame::BGRx(image) || frame
            == VideoFrame::BGR0(image) || frame == VideoFrame::BGRA(image),
        image.width >= 0,
        image.height >= 0,
        image.width * image.height <= usize::MAX,
    ensures
        countable(frame),
{
}

/// Options that are made have what was asked for in each field, and exclude no target. They are
/// refused only for a reason, of which the first that holds is told: no frames per second, a word
/// that is no frame type, or a word that is no resolution.
pub proof fn law_options_are_as_asked(
    fps: u32,
    show_cursor: bool,
    show_highlight: bool,
    target: Option<Target>,
    crop_area: Option<(Coordinate, Coordinate, Coordinate, Coordinate)>,
    output_type: Seq<char>,
    output_resolution: Seq<char>,
    captures_audio: bool,
    exclude_current_process_audio: bool,
)
    ensures
        match options_of(
            fps,
            show_cursor,
            show_highlight,
            target,
            crop_area,
            output_type,
            output_resolution,
            captures_audio,
            exclude_current_process_audio,
        ) {
            Ok(made) => {
                &&& fps > 0 && made.options.fps == fps
                &&& made.options.show_cursor == show_cursor
                &&& made.options.show_highlight == show_highlight
                &&& made.options.target == target
                &&& frame_type_of(output_type) == Some(made.options.output_type)
                &&& resolution_of(output_resolution) == Some(made.options.output_resolution)
                &&& made.options.excluded_targets is None
                &&& made.options.captures_audio == captures_audio
                &&& made.options.exclude_current_process_audio == exclude_current_process_audio
                &&& crop_area is None ==> made.options.crop_area is None
                &&& crop_area matches Some(edges) ==> made.options.crop_area matches Some(area)
                    && area.origin.x == edges.0 && area.origin.y == edges.1 && area.size.width
                    == edges.2 && area.size.height == edges.3
            },
            Err((kind, message)) => {
                &&& kind == PyErrorKind::ValueError
                &&& if fps == 0 {
                    message == "fps must be greater than zero"@
                } else if frame_type_of(output_type) is None {
                    message == "output_type must be 'bgra', 'rgb', or 'yuv'"@
                } else {
                    message == "unknown output_resolution"@ && resolution_of(
                        output_resolution,
                    ) is None
                }
            },
        },
{
}

} // verus!

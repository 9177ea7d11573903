//! The capture of one image after another.

use crate::capturer::Options;
use crate::frame::{FrameType, VideoFrame};
use crate::linux::error::{outcome, LinCapError};
use crate::linux::x11::convert::{
    check_output, convert_pixels, converted, decodable, holds, make_frame, no_yuv_message,
};
use crate::linux::x11::layout::{
    law_layout_lies_on_screen, layout, layout_of, layout_requires, size_of, ImageLayout, Setup,
};
use crate::linux::x11::wire::whole_pixels;
use crate::text::{append_decimal, decimal};
use crate::time::{Duration, SystemTime};
use vstd::prelude::*;

verus! {

/// The name of the display to connect to, from the setting `DISPLAY`.
pub fn display_name(setting: Option<&str>) -> (r: Result<&str, LinCapError>)
    ensures
        match setting {
            Some(name) => r matches Ok(display) && display@ == name@,
            None => r matches Err(error) && error@
                == "X11 backend unavailable: DISPLAY is not set"@,
        },
{
    match setting {
        Some(name) => Ok(name),
        None => Err(LinCapError::from_text("X11 backend unavailable: DISPLAY is not set")),
    }
}

/// The error for a display that could not be connected to.
pub fn connect_error(display: &str, reason: &str) -> (r: LinCapError)
    ensures
        r@ == "X11 backend unavailable: cannot connect to X server at DISPLAY="@ + display@ + ": "@
            + reason@,
{
    let mut message: String =
        "X11 backend unavailable: cannot connect to X server at DISPLAY=".to_owned();
    message.append(display);
    message.append(": ");
    message.append(reason);
    LinCapError::new(message)
}

/// A request for the image of a rectangle of a window.
#[derive(Clone, Copy, Debug, PartialEq, Eq, Structural)]
pub struct ImageRequest {
    pub format: u8,
    pub drawable: u32,
    pub x: i16,
    pub y: i16,
    pub width: u16,
    pub height: u16,
    pub plane_mask: u32,
}

/// The request for the image of a layout.
pub open spec fn request_for(layout: ImageLayout) -> ImageRequest {
    ImageRequest {
        format: 2,
        drawable: layout.root,
        x: layout.x,
        y: layout.y,
        width: layout.width,
        height: layout.height,
        plane_mask: u32::MAX,
    }
}

/// The request for the image of a layout: whole pixels with all their bits.
pub fn image_request(layout: &ImageLayout) -> (r: ImageRequest)
    ensures
        r == request_for(*layout),
{
    ImageRequest {
        format: whole_pixels(),
        drawable: layout.root,
        x: layout.x,
        y: layout.y,
        width: layout.width,
        height: layout.height,
        plane_mask: u32::MAX,
    }
}

/// Why an image did not come: the request was not sent, or the answer was an error.
#[derive(Debug)]
pub enum ImageFailure {
    Request(String),
    Reply(String),
}

/// The bytes of an image that the server sent, of which there must be `expected` at least.
pub open spec fn sent_image(received: Result<Vec<u8>, ImageFailure>, expected: int) -> Result<
    Vec<u8>,
    Seq<char>,
> {
    match received {
        Ok(data) => if data@.len() < expected {
            Err(
                "X11 returned "@ + decimal(data@.len()) + " image bytes; expected at least "@
                    + decimal(expected as nat),
            )
        } else {
            Ok(data)
        },
        Err(ImageFailure::Request(reason)) => Err("X11 GetImage request failed: "@ + reason@),
        Err(ImageFailure::Reply(reason)) => Err("X11 GetImage failed: "@ + reason@),
    }
}

/// The bytes of an image that the server wrote into shared memory.
pub open spec fn written_image(received: Result<Vec<u8>, ImageFailure>) -> Result<
    Vec<u8>,
    Seq<char>,
> {
    match received {
        Ok(data) => Ok(data),
        Err(ImageFailure::Request(reason)) => Err("MIT-SHM request failed: "@ + reason@),
        Err(ImageFailure::Reply(reason)) => Err("MIT-SHM capture failed: "@ + reason@),
    }
}

/// The bytes of an image that the server sent, which must be those of the layout at least.
pub fn get_image(received: Result<Vec<u8>, ImageFailure>, layout: &ImageLayout) -> (r: Result<
    Vec<u8>,
    LinCapError,
>)
    requires
        received is Ok ==> layout.scanline_pad > 0 && layout.image_bytes() <= usize::MAX,
    ensures
        outcome(r) == sent_image(received, layout.image_bytes()),
{
    match received {
        Ok(data) => {
            let expected: usize = layout.byte_len();
            if data.len() < expected {
                let mut message: String = "X11 returned ".to_owned();
                append_decimal(&mut message, data.len() as u64);
                message.append(" image bytes; expected at least ");
                append_decimal(&mut message, expected as u64);
                return Err(LinCapError::new(message));
            }
            Ok(data)
        },
        Err(ImageFailure::Request(reason)) => Err(
            LinCapError::with_reason("X11 GetImage request failed: ", reason.as_str()),
        ),
        Err(ImageFailure::Reply(reason)) => Err(
            LinCapError::with_reason("X11 GetImage failed: ", reason.as_str()),
        ),
    }
}

/// The bytes of an image that the server wrote into shared memory.
pub fn shared_image(received: Result<Vec<u8>, ImageFailure>) -> (r: Result<Vec<u8>, LinCapError>)
    ensures
        outcome(r) == written_image(received),
{
    match received {
        Ok(data) => Ok(data),
        Err(ImageFailure::Request(reason)) => Err(
            LinCapError::with_reason("MIT-SHM request failed: ", reason.as_str()),
        ),
        Err(ImageFailure::Reply(reason)) => Err(
            LinCapError::with_reason("MIT-SHM capture failed: ", reason.as_str()),
        ),
    }
}

/// Whether a capture can go on with the layout that it finds when its worker starts: the size
/// of the frames must be the one that was announced.
pub fn check_dimensions(expected: &ImageLayout, current: &ImageLayout) -> (r: Result<
    (),
    LinCapError,
>)
    ensures
        outcome(r) == (if current.width == expected.width && current.height == expected.height {
            Ok(())
        } else {
            Err("X11 display dimensions changed before capture started"@)
        }),
{
    if current.width != expected.width || current.height != expected.height {
        return Err(
            LinCapError::from_text("X11 display dimensions changed before capture started"),
        );
    }
    Ok(())
}

/// The frames per second that a capture is paced by: as asked for, and one at least.
pub fn frame_rate(fps: u32) -> (r: u32)
    ensures
        r == (if fps >= 1 {
            fps
        } else {
            1
        }),
{
    if fps >= 1 {
        fps
    } else {
        1
    }
}

/// A running capture: what is captured, in which format and how often, and whether images come
/// through shared memory.
#[derive(Clone, Copy, Debug)]
pub struct Capture {
    pub layout: ImageLayout,
    pub output: FrameType,
    pub frame_interval: Duration,
    pub shared: bool,
}

/// Memory is shared with the server.
#[derive(Debug)]
pub struct Preparing {
    pub capture: Capture,
}

/// The server writes an image into shared memory.
#[derive(Debug)]
pub struct Sharing {
    pub capture: Capture,
}

/// The server sends an image.
#[derive(Debug)]
pub struct Asking {
    pub capture: Capture,
}

/// The pixels of a frame are there, and the time is noted.
#[derive(Debug)]
pub struct Stamping {
    pub capture: Capture,
    pub data: Vec<u8>,
}

/// A frame is handed out.
#[derive(Debug)]
pub struct Delivering {
    pub capture: Capture,
}

/// The rest of the frame's time passes.
#[derive(Debug)]
pub struct Waiting {
    pub capture: Capture,
}

/// What is left of a frame's time when `elapsed` of it is over.
pub open spec fn rest_of(interval: int, elapsed: int) -> int {
    if interval >= elapsed {
        interval - elapsed
    } else {
        0
    }
}

/// What is done next.
#[allow(inconsistent_fields)]
#[derive(Debug)]
pub enum CaptureStep {
    /// Share memory of this size with the server.
    ShareMemory { size: usize, next: Preparing },
    /// Have the server write an image into shared memory.
    CaptureShared(Sharing),
    /// Have the server send an image.
    GetImage(Asking),
    /// Note the time.
    Stamp(Stamping),
    /// Hand out the frame.
    Send { frame: VideoFrame, next: Delivering },
    /// Wait this long for the word to stop.
    Wait { remaining: Duration, next: Waiting },
    /// End the worker.
    Finish(Result<(), LinCapError>),
}

impl Capture {
    /// The step that fetches the next image.
    pub open spec fn fetched(self) -> CaptureStep {
        if self.shared {
            CaptureStep::CaptureShared(Sharing { capture: self })
        } else {
            CaptureStep::GetImage(Asking { capture: self })
        }
    }

    /// The same capture, with images that the server sends.
    pub open spec fn unshared(self) -> Capture {
        Capture { shared: false, ..self }
    }

    /// Whether `step` goes on with the pixels of the image `raw`, or ends where the output is one
    /// that this backend does not make.
    pub open spec fn decodes(self, raw: Seq<u8>, step: CaptureStep) -> bool {
        if self.output == FrameType::YUVFrame {
            step matches CaptureStep::Finish(Err(error)) && error@ == no_yuv_message()
        } else {
            step matches CaptureStep::Stamp(next) && next.capture == self && next.data@
                == converted(raw, self.layout, self.output)
        }
    }

    /// Fetches the next image.
    pub fn fetch(self) -> (r: CaptureStep)
        ensures
            r == self.fetched(),
    {
        if self.shared {
            CaptureStep::CaptureShared(Sharing { capture: self })
        } else {
            CaptureStep::GetImage(Asking { capture: self })
        }
    }

    fn decode(self, raw: &[u8]) -> (r: CaptureStep)
        requires
            self.output != FrameType::YUVFrame ==> decodable(raw@.len() as int, self.layout),
        ensures
            self.decodes(raw@, r),
    {
        match check_output(self.output) {
            Ok(()) => CaptureStep::Stamp(
                Stamping { capture: self, data: convert_pixels(raw, &self.layout, self.output) },
            ),
            Err(error) => CaptureStep::Finish(Err(error)),
        }
    }
}

/// Whether `step` is the first of a capture of the layout `current`, of whose frames the size of
/// `expected` was announced: memory for the image is shared where the sizes are the same, and
/// else the capture ends.
pub open spec fn begins(
    expected: ImageLayout,
    current: ImageLayout,
    output: FrameType,
    frame_interval: Duration,
    step: CaptureStep,
) -> bool {
    if current.width == expected.width && current.height == expected.height {
        step == (CaptureStep::ShareMemory {
            size: current.image_bytes() as usize,
            next: Preparing {
                capture: Capture { layout: current, output, frame_interval, shared: false },
            },
        })
    } else {
        step matches CaptureStep::Finish(Err(error)) && error@
            == "X11 display dimensions changed before capture started"@
    }
}

/// Begins a capture of the layout that the worker finds, where frames of the size of `expected`
/// were announced.
pub fn begin(
    expected: &ImageLayout,
    current: ImageLayout,
    output: FrameType,
    frame_interval: Duration,
) -> (r: CaptureStep)
    requires
        current.width == expected.width && current.height == expected.height
            ==> current.scanline_pad > 0 && current.image_bytes() <= usize::MAX,
    ensures
        begins(*expected, current, output, frame_interval, r),
{
    match check_dimensions(expected, &current) {
        Ok(()) => CaptureStep::ShareMemory {
            size: current.byte_len(),
            next: Preparing {
                capture: Capture { layout: current, output, frame_interval, shared: false },
            },
        },
        Err(error) => CaptureStep::Finish(Err(error)),
    }
}

impl Preparing {
    /// Fetches the first image, through the memory if it could be shared.
    pub fn prepared(self, shared: bool) -> (r: CaptureStep)
        ensures
            r == (Capture { shared, ..self.capture }).fetched(),
            forall|size: usize| #[trigger]
                follows(CaptureStep::ShareMemory { size, next: self }, r),
    {
        Capture { shared, ..self.capture }.fetch()
    }
}

impl Sharing {
    /// The image is there, or the capture goes on with images that the server sends.
    pub fn captured(self, image: Result<Vec<u8>, LinCapError>) -> (r: CaptureStep)
        requires
            image matches Ok(raw) ==> self.capture.output != FrameType::YUVFrame ==> decodable(
                raw@.len() as int,
                self.capture.layout,
            ),
        ensures
            match image {
                Ok(raw) => self.capture.decodes(raw@, r),
                Err(_) => r == CaptureStep::GetImage(Asking { capture: self.capture.unshared() }),
            },
            follows(CaptureStep::CaptureShared(self), r),
    {
        match image {
            Ok(raw) => self.capture.decode(raw.as_slice()),
            Err(_) => CaptureStep::GetImage(
                Asking { capture: Capture { shared: false, ..self.capture } },
            ),
        }
    }
}

impl Asking {
    /// The image is there, or the capture ends.
    pub fn received(self, image: Result<Vec<u8>, LinCapError>) -> (r: CaptureStep)
        requires
            image matches Ok(raw) ==> self.capture.output != FrameType::YUVFrame ==> decodable(
                raw@.len() as int,
                self.capture.layout,
            ),
        ensures
            match image {
                Ok(raw) => self.capture.decodes(raw@, r),
                Err(error) => r == CaptureStep::Finish(Err(error)),
            },
            follows(CaptureStep::GetImage(self), r),
    {
        match image {
            Ok(raw) => self.capture.decode(raw.as_slice()),
            Err(error) => CaptureStep::Finish(Err(error)),
        }
    }
}

impl Stamping {
    /// Makes the frame, shown at `now`, and hands it out.
    pub fn stamped(self, now: SystemTime) -> (r: CaptureStep)
        ensures
            if self.capture.output == FrameType::YUVFrame {
                r matches CaptureStep::Finish(Err(error)) && error@ == no_yuv_message()
            } else {
                r matches CaptureStep::Send { frame, next } && next.capture == self.capture
                    && holds(
                    frame,
                    self.data@,
                    self.capture.layout,
                    self.capture.output,
                    now,
                )
            },
            follows(CaptureStep::Stamp(self), r),
    {
        match make_frame(self.data, &self.capture.layout, self.capture.output, now) {
            Ok(frame) => CaptureStep::Send { frame, next: Delivering { capture: self.capture } },
            Err(error) => CaptureStep::Finish(Err(error)),
        }
    }
}

impl Delivering {
    /// Waits out the rest of the frame's time, of which `elapsed` is over, or ends where nobody
    /// takes frames any more.
    pub fn sent(self, delivered: bool, elapsed: Duration) -> (r: CaptureStep)
        ensures
            if delivered {
                r matches CaptureStep::Wait { remaining, next } && next.capture == self.capture
                    && remaining@ == rest_of(self.capture.frame_interval@, elapsed@)
            } else {
                r == CaptureStep::Finish(Ok(()))
            },
            forall|frame: VideoFrame| #[trigger]
                follows(CaptureStep::Send { frame, next: self }, r),
    {
        if !delivered {
            return CaptureStep::Finish(Ok(()));
        }
        CaptureStep::Wait {
            remaining: self.capture.frame_interval.saturating_sub(elapsed),
            next: Waiting { capture: self.capture },
        }
    }
}

impl Waiting {
    /// Fetches the next image, unless told to stop.
    pub fn waited(self, stop: bool) -> (r: CaptureStep)
        ensures
            r == (if stop {
                CaptureStep::Finish(Ok(()))
            } else {
                self.capture.fetched()
            }),
            forall|remaining: Duration| #[trigger]
                follows(CaptureStep::Wait { remaining, next: self }, r),
    {
        if stop {
            return CaptureStep::Finish(Ok(()));
        }
        self.capture.fetch()
    }
}

/// The capture that a step belongs to.
pub open spec fn capture_of(step: CaptureStep) -> Option<Capture> {
    match step {
        CaptureStep::ShareMemory { size, next } => Some(next.capture),
        CaptureStep::CaptureShared(next) => Some(next.capture),
        CaptureStep::GetImage(next) => Some(next.capture),
        CaptureStep::Stamp(next) => Some(next.capture),
        CaptureStep::Send { frame, next } => Some(next.capture),
        CaptureStep::Wait { remaining, next } => Some(next.capture),
        CaptureStep::Finish(_) => None,
    }
}

/// Whether the step `after` can come next after the step `before`.
pub open spec fn follows(before: CaptureStep, after: CaptureStep) -> bool {
    match before {
        CaptureStep::ShareMemory { size, next } => {
            ||| after == (Capture { shared: true, ..next.capture }).fetched()
            ||| after == (Capture { shared: false, ..next.capture }).fetched()
        },
        CaptureStep::CaptureShared(next) => {
            ||| after matches CaptureStep::Finish(Err(_))
            ||| after is Stamp && capture_of(after) == Some(next.capture)
            ||| after == CaptureStep::GetImage(Asking { capture: next.capture.unshared() })
        },
        CaptureStep::GetImage(next) => {
            ||| after matches CaptureStep::Finish(Err(_))
            ||| after is Stamp && capture_of(after) == Some(next.capture)
        },
        CaptureStep::Stamp(next) => {
            ||| after matches CaptureStep::Finish(Err(_))
            ||| after is Send && capture_of(after) == Some(next.capture)
        },
        CaptureStep::Send { frame, next } => {
            ||| after == CaptureStep::Finish(Ok(()))
            ||| after is Wait && capture_of(after) == Some(next.capture)
        },
        CaptureStep::Wait { remaining, next } => {
            ||| after == CaptureStep::Finish(Ok(()))
            ||| after == next.capture.fetched()
        },
        CaptureStep::Finish(_) => false,
    }
}

/// Shared memory that failed once is not used again: from a step of a capture without it, other
/// than the one that sets it up, no step leads to it, and the failure itself leads to a capture
/// without it. What is captured, in which format and how often, stays the same throughout.
pub proof fn law_failed_sharing_is_final(before: CaptureStep, after: CaptureStep)
    requires
        follows(before, after),
        !(after is Finish),
    ensures
        capture_of(before) matches Some(earlier) && capture_of(after) matches Some(later) && {
            &&& !earlier.shared && !(before is ShareMemory) ==> !later.shared && !(
            after is CaptureShared)
            &&& before is CaptureShared && after is GetImage ==> !later.shared
            &&& later.unshared() == earlier.unshared()
        },
{
}

/// Whether the step at `i` of a capture leads to the one behind it.
pub open spec fn linked(steps: Seq<CaptureStep>, i: int) -> bool {
    follows(steps[i], steps[i + 1])
}

/// Whether `steps` are the steps so far of a capture of the layout `current`, of whose frames the
/// size of `expected` was announced.
pub open spec fn is_run(
    expected: ImageLayout,
    current: ImageLayout,
    output: FrameType,
    frame_interval: Duration,
    steps: Seq<CaptureStep>,
) -> bool {
    &&& steps.len() > 0
    &&& begins(expected, current, output, frame_interval, steps[0])
    &&& forall|i: int| 0 <= i < steps.len() - 1 ==> #[trigger] linked(steps, i)
}

/// A capture runs on the layout that it began with, whose frames have the size that was
/// announced, in the output and at the interval that it began with: so it is at every step that
/// follows its first one.
pub proof fn law_capture_has_the_announced_size(
    expected: ImageLayout,
    current: ImageLayout,
    output: FrameType,
    frame_interval: Duration,
    steps: Seq<CaptureStep>,
    i: int,
)
    requires
        is_run(expected, current, output, frame_interval, steps),
        0 <= i < steps.len(),
    ensures
        capture_of(steps[i]) matches Some(capture) ==> {
            &&& capture.layout == current
            &&& capture.output == output
            &&& capture.frame_interval == frame_interval
            &&& capture.layout.width == expected.width
            &&& capture.layout.height == expected.height
        },
    decreases i,
{
    if i > 0 {
        law_capture_has_the_announced_size(
            expected,
            current,
            output,
            frame_interval,
            steps,
            i - 1,
        );
        assert(linked(steps, i - 1));
        if !(steps[i] is Finish) {
            law_failed_sharing_is_final(steps[i - 1], steps[i]);
        }
    }
}

/// A capture ends well only right after a frame was handed out, where nobody takes frames any
/// more, or after a wait, where it was told to stop; it ends anywhere else with an error. Once
/// it has ended, it does nothing more.
pub proof fn law_capture_ends_well_after_a_frame(
    expected: ImageLayout,
    current: ImageLayout,
    output: FrameType,
    frame_interval: Duration,
    steps: Seq<CaptureStep>,
    i: int,
)
    requires
        is_run(expected, current, output, frame_interval, steps),
        0 <= i < steps.len(),
    ensures
        steps[i] matches CaptureStep::Finish(result) ==> {
            &&& i == steps.len() - 1
            &&& result is Ok <==> i > 0 && (steps[i - 1] is Send || steps[i - 1] is Wait)
        },
{
    if i > 0 {
        assert(linked(steps, i - 1));
    }
    if i < steps.len() - 1 {
        assert(linked(steps, i));
    }
}

/// The life of the X11 capturer: what it captures, and whether its worker runs.
#[derive(Clone, Copy, Debug, PartialEq, Eq, Structural)]
pub struct X11Capturer {
    pub layout: ImageLayout,
    pub running: bool,
}

/// The capturer for what the options ask for on a screen of the server, or why there is none.
pub open spec fn capturer_of(setup: Setup, screen_number: usize, options: Options) -> Result<
    X11Capturer,
    Seq<char>,
> {
    if options.output_type == FrameType::YUVFrame {
        Err(no_yuv_message())
    } else {
        match layout_of(setup, screen_number, options) {
            Ok(layout) => Ok(X11Capturer { layout, running: false }),
            Err(message) => Err(message),
        }
    }
}

impl X11Capturer {
    /// The width and height of the frames.
    pub open spec fn size(self) -> Seq<u32> {
        seq![self.layout.width as u32, self.layout.height as u32]
    }

    /// A capturer for what the options ask for on a screen of the server.
    pub fn new(options: &Options, setup: &Setup, screen_number: usize) -> (r: Result<
        X11Capturer,
        LinCapError,
    >)
        requires
            options.output_type != FrameType::YUVFrame ==> layout_requires(
                *setup,
                screen_number,
                *options,
            ),
        ensures
            outcome(r) == capturer_of(*setup, screen_number, *options),
    {
        match check_output(options.output_type) {
            Ok(()) => {},
            Err(error) => {
                return Err(error);
            },
        }
        match layout(setup, screen_number, options) {
            Ok(layout) => Ok(X11Capturer { layout, running: false }),
            Err(error) => Err(error),
        }
    }

    /// Starts the capture. Returns whether a worker is to be spawned.
    pub fn start_capture(&mut self) -> (spawn: bool)
        ensures
            spawn == !old(self).running,
            *final(self) == (X11Capturer { running: true, ..*old(self) }),
    {
        if self.running {
            return false;
        }
        self.running = true;
        true
    }

    /// Stops the capture. Returns whether there is a worker to tell and to wait for.
    pub fn stop_capture(&mut self) -> (join: bool)
        ensures
            join == old(self).running,
            *final(self) == (X11Capturer { running: false, ..*old(self) }),
    {
        let join: bool = self.running;
        self.running = false;
        join
    }

    /// The width and height of the frames.
    pub fn output_size(&self) -> (r: [u32; 2])
        ensures
            r@ == self.size(),
    {
        [self.layout.width as u32, self.layout.height as u32]
    }
}

/// The size that is told before a capture is the one that its capturer has, for every output that
/// this backend makes: the one is there exactly where the other is, with the same message where
/// they are not. It is that of the screen without a crop area, and with one that of the area in
/// whole pixels.
pub proof fn law_size_is_foretold(setup: Setup, screen_number: usize, options: Options)
    requires
        options.output_type != FrameType::YUVFrame,
    ensures
        match (
            size_of(setup, screen_number, options),
            capturer_of(setup, screen_number, options),
        ) {
            (Ok(size), Ok(capturer)) => {
                let screen = setup.roots@[screen_number as int];
                &&& size == capturer.size()
                &&& options.crop_area is None ==> size == seq![
                    screen.width_in_pixels as u32,
                    screen.height_in_pixels as u32,
                ]
                &&& options.crop_area matches Some(area) ==> size == seq![
                    area.columns() as u32,
                    area.rows() as u32,
                ]
            },
            (Err(untold), Err(refused)) => untold == refused,
            _ => false,
        },
{
    if layout_of(setup, screen_number, options) is Ok {
        law_layout_lies_on_screen(setup, screen_number, options);
    }
}

/// An image comes through shared memory exactly where the capture has it, and the capture stays as
/// it is.
pub proof fn law_images_come_through_shared_memory_where_it_is(capture: Capture)
    ensures
        match capture.fetched() {
            CaptureStep::CaptureShared(next) => capture.shared && next.capture == capture,
            CaptureStep::GetImage(next) => !capture.shared && next.capture == capture,
            _ => false,
        },
        !capture.unshared().shared,
        capture.unshared().layout == capture.layout,
        capture.unshared().output == capture.output,
        capture.unshared().frame_interval == capture.frame_interval,
{
}

/// An image that was fetched goes on with its converted pixels, byte by byte, on the capture that
/// it was fetched for, and ends the capture exactly where the output is YUV.
pub proof fn law_fetched_image_goes_on(capture: Capture, raw: Seq<u8>, step: CaptureStep)
    requires
        capture.decodes(raw, step),
    ensures
        match step {
            CaptureStep::Stamp(next) => {
                let pixels = converted(raw, capture.layout, capture.output);
                &&& capture.output != FrameType::YUVFrame
                &&& next.capture == capture
                &&& next.data@.len() == pixels.len()
                &&& forall|i: int|
                    0 <= i < pixels.len() ==> #[trigger] next.data@[i] == pixels[i]
            },
            CaptureStep::Finish(Err(error)) => capture.output == FrameType::YUVFrame && error@
                == "X11 backend does not support YUV output; use BGRAFrame, BGR0, or RGB"@,
            _ => false,
        },
{
}

/// A capture begins by sharing memory for one image of the layout that it finds, and runs on that
/// layout, in the output and at the interval that were asked for; where the size is another than
/// the announced one it ends.
pub proof fn law_capture_begins_as_asked(
    expected: ImageLayout,
    current: ImageLayout,
    output: FrameType,
    frame_interval: Duration,
    step: CaptureStep,
)
    requires
        begins(expected, current, output, frame_interval, step),
        0 <= current.row_bytes() * current.height <= usize::MAX,
    ensures
        match step {
            CaptureStep::ShareMemory { size, next } => {
                &&& current.width == expected.width && current.height == expected.height
                &&& size == current.row_bytes() * current.height
                &&& next.capture.layout == current
                &&& next.capture.output == output
                &&& next.capture.frame_interval == frame_interval
            },
            CaptureStep::Finish(Err(error)) => {
                &&& current.width != expected.width || current.height != expected.height
                &&& error@ == "X11 display dimensions changed before capture started"@
            },
            _ => false,
        },
{
}

/// A capturer has the layout that was found for it and does not run yet. It is refused for YUV
/// output, and else only where there is no layout, with the same message.
pub proof fn law_capturer_has_its_layout(setup: Setup, screen_number: usize, options: Options)
    ensures
        match capturer_of(setup, screen_number, options) {
            Ok(capturer) => {
                &&& options.output_type != FrameType::YUVFrame
                &&& layout_of(setup, screen_number, options) == Ok::<ImageLayout, Seq<char>>(
                    capturer.layout,
                )
                &&& !capturer.running
                &&& capturer.size().len() == 2
                &&& capturer.size()[0] == capturer.layout.width
                &&& capturer.size()[1] == capturer.layout.height
            },
            Err(message) => if options.output_type == FrameType::YUVFrame {
                message == "X11 backend does not support YUV output; use BGRAFrame, BGR0, or RGB"@
            } else {
                layout_of(setup, screen_number, options) == Err::<ImageLayout, Seq<char>>(message)
            },
        },
{
}

/// A capture goes round: it shares memory, fetches an image, notes the time, hands out a frame,
/// waits, and fetches the next image.
pub proof fn law_capture_goes_round(before: CaptureStep, after: CaptureStep)
    requires
        follows(before, after),
    ensures
        before is ShareMemory ==> after is CaptureShared || after is GetImage,
        before is CaptureShared ==> after is Stamp || after is GetImage || after is Finish,
        before is GetImage ==> after is Stamp || after is Finish,
        before is Stamp ==> after is Send || after is Finish,
        before is Send ==> after is Wait || after is Finish,
        before is Wait ==> after is CaptureShared || after is GetImage || after is Finish,
        !(before is Finish),
{
}

/// What is asked of the server is the rectangle of the layout on its root window: whole pixels, in
/// the format that the protocol numbers 2, with all their bits.
pub proof fn law_rectangle_of_the_layout_is_requested(layout: ImageLayout)
    ensures
        request_for(layout).format == 2,
        request_for(layout).drawable == layout.root,
        request_for(layout).x == layout.x,
        request_for(layout).y == layout.y,
        request_for(layout).width == layout.width,
        request_for(layout).height == layout.height,
        request_for(layout).plane_mask == 0xffff_ffff,
{
}

/// An image that the server sent is taken as it is where it has all bytes of the layout, and
/// refused only where it has fewer, or where it did not come.
pub proof fn law_complete_images_are_taken_as_they_are(
    received: Result<Vec<u8>, ImageFailure>,
    expected: int,
)
    ensures
        match sent_image(received, expected) {
            Ok(image) => received matches Ok(data) && data@.len() >= expected && image@ == data@,
            Err(message) => match received {
                Ok(data) => data@.len() < expected && message == "X11 returned "@ + decimal(
                    data@.len(),
                ) + " image bytes; expected at least "@ + decimal(expected as nat),
                Err(ImageFailure::Request(reason)) => message == "X11 GetImage request failed: "@
                    + reason@,
                Err(ImageFailure::Reply(reason)) => message == "X11 GetImage failed: "@ + reason@,
            },
        },
        match written_image(received) {
            Ok(image) => received matches Ok(data) && image@ == data@,
            Err(message) => match received {
                Ok(_) => false,
                Err(ImageFailure::Request(reason)) => message == "MIT-SHM request failed: "@
                    + reason@,
                Err(ImageFailure::Reply(reason)) => message == "MIT-SHM capture failed: "@
                    + reason@,
            },
        },
{
}

/// A frame takes its interval: what is over of it and what is waited for make up the interval, and
/// nothing is waited for where more is over than that.
pub proof fn law_frames_are_paced_by_the_interval(interval: int, elapsed: int)
    ensures
        elapsed <= interval ==> elapsed + rest_of(interval, elapsed) == interval,
        elapsed > interval ==> rest_of(interval, elapsed) == 0,
{
}

} // verus!

//! Capture of a stream of the screen cast portal, through PipeWire.

use crate::frame::{PixelFrame, VideoFrame};
use crate::linux::error::{outcome, LinCapError};
use crate::time::{representable, Duration, SystemTime};
use vstd::prelude::*;

verus! {

/// Milliseconds that the stream's loop is turned for before the worker looks up.
pub const TURN_MILLIS: u64 = 100;

/// Milliseconds between two looks of a worker that waits for the start.
pub const HOLD_MILLIS: u64 = 10;

/// Seconds that a stream has to negotiate its size.
pub const NEGOTIATION_SECS: u64 = 5;

/// Nanoseconds of a millisecond, the unit in which later frames are put on the wall clock.
pub const NANOS_PER_MILLI: u64 = 1_000_000;

/// Puts the stream's clock on the wall clock: the first presentation time that is seen is
/// anchored to the moment it was received at, and the others keep their distance from it: later
/// ones in whole milliseconds, earlier ones to the nanosecond.
#[derive(Clone, Copy, Debug)]
pub struct PipeWireTimestampMapper {
    pub first_pts: Option<i64>,
    pub first_wall_time: Option<SystemTime>,
}

/// The nanoseconds from `first_pts` to `pts`, cut to whole milliseconds where `pts` is later.
pub open spec fn distance(first_pts: int, pts: int) -> int {
    if pts >= first_pts {
        (pts - first_pts) / NANOS_PER_MILLI as int * NANOS_PER_MILLI
    } else {
        pts - first_pts
    }
}

/// The wall time of `pts`, in nanoseconds, where `first_pts` is anchored to `wall`. Where the
/// clock cannot represent it, a later time becomes the anchor's and an earlier one the Unix
/// epoch.
pub open spec fn wall_time(first_pts: int, wall: int, pts: int) -> int {
    if representable(wall + distance(first_pts, pts)) {
        wall + distance(first_pts, pts)
    } else if pts >= first_pts {
        wall
    } else {
        0
    }
}

impl PipeWireTimestampMapper {
    /// The presentation time that is anchored, once `pts` is seen.
    pub open spec fn anchor_pts(self, pts: i64) -> i64 {
        match self.first_pts {
            Some(first) => first,
            None => pts,
        }
    }

    /// The wall time that is anchored to, once something was received at `received_at`.
    pub open spec fn anchor_wall(self, received_at: SystemTime) -> SystemTime {
        match self.first_wall_time {
            Some(first) => first,
            None => received_at,
        }
    }

    /// The mapper once `pts` was received at `received_at`.
    pub open spec fn anchored(self, pts: i64, received_at: SystemTime) -> PipeWireTimestampMapper {
        PipeWireTimestampMapper {
            first_pts: Some(self.anchor_pts(pts)),
            first_wall_time: Some(self.anchor_wall(received_at)),
        }
    }

    /// The wall time of `pts`, received at `received_at`, in nanoseconds.
    pub open spec fn mapped(self, pts: i64, received_at: SystemTime) -> int {
        wall_time(self.anchor_pts(pts) as int, self.anchor_wall(received_at)@, pts as int)
    }

    /// A mapper without an anchor.
    pub fn new() -> (r: PipeWireTimestampMapper)
        ensures
            r == (PipeWireTimestampMapper { first_pts: None, first_wall_time: None }),
    {
        PipeWireTimestampMapper { first_pts: None, first_wall_time: None }
    }

    /// The wall time of `pts`, received at `received_at`.
    pub fn timestamp(&mut self, pts: i64, received_at: SystemTime) -> (r: SystemTime)
        ensures
            *final(self) == old(self).anchored(pts, received_at),
            r@ == old(self).mapped(pts, received_at),
    {
        let first_pts: i64 = match self.first_pts {
            Some(first) => first,
            None => pts,
        };
        let first_wall_time: SystemTime = match self.first_wall_time {
            Some(first) => first,
            None => received_at,
        };
        self.first_pts = Some(first_pts);
        self.first_wall_time = Some(first_wall_time);
        if pts >= first_pts {
            let nanos: u64 = (pts as i128 - first_pts as i128) as u64;
            let later: Duration = Duration::from_millis(nanos / NANOS_PER_MILLI);
            match first_wall_time.checked_add(later) {
                Some(time) => time,
                None => first_wall_time,
            }
        } else {
            let nanos: u64 = (first_pts as i128 - pts as i128) as u64;
            let earlier: Duration = Duration::from_nanos(nanos);
            match first_wall_time.checked_sub(earlier) {
                Some(time) => time,
                None => SystemTime::unix_epoch(),
            }
        }
    }
}

/// The first presentation time is put at the moment it was received.
pub proof fn law_first_frame_is_shown_when_received(
    mapper: PipeWireTimestampMapper,
    pts: i64,
    received_at: SystemTime,
)
    requires
        mapper.first_pts is None,
        mapper.first_wall_time is None,
        representable(received_at@),
    ensures
        mapper.mapped(pts, received_at) == received_at@,
{
}

/// The anchor is set once: what comes later changes neither side of it.
pub proof fn law_anchor_stays(
    mapper: PipeWireTimestampMapper,
    pts: i64,
    received_at: SystemTime,
    later_pts: i64,
    later_received_at: SystemTime,
)
    ensures
        mapper.anchored(pts, received_at).anchored(later_pts, later_received_at)
            == mapper.anchored(pts, received_at),
{
}

/// A frame is as far from the anchor on the wall clock as on the stream's clock, whenever it was
/// received, where the wall clock can represent it: a later one in whole milliseconds, an earlier
/// one to the nanosecond.
pub proof fn law_distances_are_kept(
    mapper: PipeWireTimestampMapper,
    pts: i64,
    received_at: SystemTime,
)
    requires
        representable(
            mapper.anchor_wall(received_at)@ + distance(mapper.anchor_pts(pts) as int, pts as int),
        ),
    ensures
        ({
            let wall_distance = mapper.mapped(pts, received_at) - mapper.anchor_wall(received_at)@;
            let stream_distance = pts - mapper.anchor_pts(pts);
            &&& stream_distance >= 0 ==> wall_distance % NANOS_PER_MILLI as int == 0 && 0
                <= stream_distance - wall_distance < NANOS_PER_MILLI
            &&& stream_distance <= 0 ==> wall_distance == stream_distance
        }),
{
}

/// Frames that follow one another on the stream's clock do so on the wall clock, whenever they
/// were received, where the wall clock can represent them.
pub proof fn law_order_is_kept(
    mapper: PipeWireTimestampMapper,
    pts: i64,
    received_at: SystemTime,
    later_pts: i64,
    later_received_at: SystemTime,
)
    requires
        pts <= later_pts,
        ({
            let wall = mapper.anchor_wall(received_at)@;
            let first_pts = mapper.anchor_pts(pts) as int;
            &&& representable(wall + distance(first_pts, pts as int))
            &&& representable(wall + distance(first_pts, later_pts as int))
        }),
    ensures
        mapper.mapped(pts, received_at) <= mapper.anchored(pts, received_at).mapped(
            later_pts,
            later_received_at,
        ),
{
}

/// Two frames are as far apart on the wall clock as on the stream's clock, whenever they were
/// received, where the wall clock can represent them: exactly where neither is later than the
/// anchor, and else to less than a millisecond.
pub proof fn law_frames_keep_apart(
    mapper: PipeWireTimestampMapper,
    pts: i64,
    received_at: SystemTime,
    other_pts: i64,
    other_received_at: SystemTime,
)
    requires
        ({
            let wall = mapper.anchor_wall(received_at)@;
            let first_pts = mapper.anchor_pts(pts) as int;
            &&& representable(wall + distance(first_pts, pts as int))
            &&& representable(wall + distance(first_pts, other_pts as int))
        }),
    ensures
        ({
            let first_pts = mapper.anchor_pts(pts);
            let anchored = mapper.anchored(pts, received_at);
            let wall_distance = anchored.mapped(other_pts, other_received_at) - mapper.mapped(
                pts,
                received_at,
            );
            let stream_distance = other_pts - pts;
            &&& pts <= first_pts && other_pts <= first_pts ==> wall_distance == stream_distance
            &&& -(NANOS_PER_MILLI as int) < wall_distance - stream_distance < NANOS_PER_MILLI
        }),
{
}

/// What the user asked of the capture.
#[derive(Clone, Copy, Debug, PartialEq, Eq, Structural)]
pub enum CapturerState {
    Waiting,
    Started,
    Stopping,
}

/// What the handle and the worker of a capture tell each other.
#[derive(Clone, Copy, Debug, PartialEq, Eq, Structural)]
pub struct Control {
    pub state: CapturerState,
    pub errored: bool,
}

impl Control {
    /// The control of a capture that nobody has started and nothing has gone wrong with.
    pub fn new() -> (r: Control)
        ensures
            r == (Control { state: CapturerState::Waiting, errored: false }),
    {
        Control { state: CapturerState::Waiting, errored: false }
    }

    /// Takes note of a change of the stream's state.
    pub fn state_changed(&mut self, to_error: bool)
        ensures
            *final(self) == (Control { errored: old(self).errored || to_error, ..*old(self) }),
    {
        if to_error {
            self.errored = true;
        }
    }

    /// Makes ready for another capture, once the worker of this one is gone.
    pub fn worker_gone(&mut self)
        ensures
            *final(self) == (Control { state: CapturerState::Waiting, errored: false }),
    {
        self.state = CapturerState::Waiting;
        self.errored = false;
    }
}

/// The life of the PipeWire capturer: whether it has a worker, and the size of the frames as
/// far as it was negotiated.
#[derive(Clone, Copy, Debug, PartialEq, Eq, Structural)]
pub struct PipeWireCapturer {
    pub has_worker: bool,
    pub width: u32,
    pub height: u32,
}

/// How the opening of a capturer goes on.
#[derive(Clone, Copy, Debug, PartialEq, Eq, Structural)]
pub enum OpenStep {
    /// Connect to the session bus.
    ConnectBus,
    /// Tell the portal whether to show the cursor.
    ConfigureCursor { show_cursor: bool },
    /// Create the stream.
    CreateStream,
    /// Spawn the worker for the stream and wait for its word.
    SpawnWorker { stream_id: u32, capturer: PipeWireCapturer },
    /// The capturer is ready.
    Ready,
}

/// What has been done so far in the opening of a capturer, and how it went. The worker's word
/// is whether it is ready.
#[derive(Debug)]
pub struct OpenProgress {
    pub bus: Option<Result<(), String>>,
    pub cursor: Option<Result<(), String>>,
    pub stream: Option<Result<u32, String>>,
    pub worker: Option<Result<bool, String>>,
}

/// The next step of the opening of a capturer.
pub open spec fn open_step(show_cursor: bool, progress: OpenProgress) -> Result<
    OpenStep,
    Seq<char>,
> {
    match (progress.bus, progress.cursor, progress.stream, progress.worker) {
        (None, _, _, _) => Ok(OpenStep::ConnectBus),
        (Some(Err(reason)), _, _, _) => Err(
            "PipeWire backend unavailable: no session D-Bus: "@ + reason@,
        ),
        (_, None, _, _) => Ok(OpenStep::ConfigureCursor { show_cursor }),
        (_, Some(Err(reason)), _, _) => Err("PipeWire cursor configuration failed: "@ + reason@),
        (_, _, None, _) => Ok(OpenStep::CreateStream),
        (_, _, Some(Err(reason)), _) => Err("PipeWire portal session failed: "@ + reason@),
        (_, _, Some(Ok(stream_id)), None) => Ok(
            OpenStep::SpawnWorker {
                stream_id,
                capturer: PipeWireCapturer { has_worker: true, width: 0, height: 0 },
            },
        ),
        (_, _, _, Some(Err(reason))) => Err(
            "PipeWire capture worker failed to initialize: "@ + reason@,
        ),
        (_, _, _, Some(Ok(false))) => Err("PipeWire stream setup failed"@),
        (_, _, _, Some(Ok(true))) => Ok(OpenStep::Ready),
    }
}

impl PipeWireCapturer {
    /// What to do next to open a capturer.
    pub fn new(show_cursor: bool, progress: &OpenProgress) -> (r: Result<OpenStep, LinCapError>)
        ensures
            outcome(r) == open_step(show_cursor, *progress),
    {
        match &progress.bus {
            None => {
                return Ok(OpenStep::ConnectBus);
            },
            Some(Err(reason)) => {
                return Err(
                    LinCapError::with_reason(
                        "PipeWire backend unavailable: no session D-Bus: ",
                        reason.as_str(),
                    ),
                );
            },
            Some(Ok(_)) => {},
        }
        match &progress.cursor {
            None => {
                return Ok(OpenStep::ConfigureCursor { show_cursor });
            },
            Some(Err(reason)) => {
                return Err(
                    LinCapError::with_reason(
                        "PipeWire cursor configuration failed: ",
                        reason.as_str(),
                    ),
                );
            },
            Some(Ok(_)) => {},
        }
        let stream_id: u32 = match &progress.stream {
            None => {
                return Ok(OpenStep::CreateStream);
            },
            Some(Err(reason)) => {
                return Err(
                    LinCapError::with_reason("PipeWire portal session failed: ", reason.as_str()),
                );
            },
            Some(Ok(stream_id)) => *stream_id,
        };
        match &progress.worker {
            None => Ok(
                OpenStep::SpawnWorker {
                    stream_id,
                    capturer: PipeWireCapturer { has_worker: true, width: 0, height: 0 },
                },
            ),
            Some(Err(reason)) => Err(
                LinCapError::with_reason(
                    "PipeWire capture worker failed to initialize: ",
                    reason.as_str(),
                ),
            ),
            Some(Ok(ready)) => if *ready {
                Ok(OpenStep::Ready)
            } else {
                Err(LinCapError::from_text("PipeWire stream setup failed"))
            },
        }
    }

    /// Starts the capture: the worker that waits is let go.
    pub fn start_capture(&self, control: &mut Control)
        ensures
            *final(control) == (Control { state: CapturerState::Started, ..*old(control) }),
    {
        control.state = CapturerState::Started;
    }

    /// Stops the capture. Returns whether there is a worker to wait for; after that,
    /// [`Control::worker_gone`] makes ready for another capture.
    pub fn stop_capture(&mut self, control: &mut Control) -> (join: bool)
        ensures
            join == old(self).has_worker,
            *final(self) == (PipeWireCapturer { has_worker: false, ..*old(self) }),
            *final(control) == (Control { state: CapturerState::Stopping, ..*old(control) }),
    {
        control.state = CapturerState::Stopping;
        let join: bool = self.has_worker;
        self.has_worker = false;
        join
    }

    /// The width and height of the frames, 0 before they are negotiated.
    pub fn output_size(&self) -> (r: [u32; 2])
        ensures
            r@ == seq![self.width, self.height],
    {
        [self.width, self.height]
    }
}

/// How the probe of the backend goes on.
#[derive(Clone, Copy, Debug, PartialEq, Eq, Structural)]
pub enum ProbeStep {
    /// Connect to the session bus.
    ConnectBus,
    /// Ask for the portal.
    ProbePortal,
    /// Make a loop.
    MakeLoop,
    /// Make a context on the loop.
    MakeContext,
    /// Connect the context to the daemon.
    ConnectDaemon,
    /// The backend is usable.
    Usable,
}

/// What has been done so far in a probe of the backend, and how it went. The portal's error is
/// a message of its own.
#[derive(Debug)]
pub struct ProbeProgress {
    pub bus: Option<Result<(), String>>,
    pub portal: Option<Result<(), String>>,
    pub main_loop: Option<Result<(), String>>,
    pub context: Option<Result<(), String>>,
    pub daemon: Option<Result<(), String>>,
}

/// The next step of a probe.
pub open spec fn probe_step(progress: ProbeProgress) -> Result<ProbeStep, Seq<char>> {
    match (
        progress.bus,
        progress.portal,
        progress.main_loop,
        progress.context,
        progress.daemon,
    ) {
        (None, _, _, _, _) => Ok(ProbeStep::ConnectBus),
        (Some(Err(reason)), _, _, _, _) => Err(
            "PipeWire backend unavailable: no session D-Bus: "@ + reason@,
        ),
        (_, None, _, _, _) => Ok(ProbeStep::ProbePortal),
        (_, Some(Err(message)), _, _, _) => Err(message@),
        (_, _, None, _, _) => Ok(ProbeStep::MakeLoop),
        (_, _, Some(Err(reason)), _, _) => Err("PipeWire backend unavailable: "@ + reason@),
        (_, _, _, None, _) => Ok(ProbeStep::MakeContext),
        (_, _, _, Some(Err(reason)), _) => Err("PipeWire backend unavailable: "@ + reason@),
        (_, _, _, _, None) => Ok(ProbeStep::ConnectDaemon),
        (_, _, _, _, Some(Err(reason))) => Err("PipeWire daemon is unavailable: "@ + reason@),
        (_, _, _, _, Some(Ok(_))) => Ok(ProbeStep::Usable),
    }
}

/// What to do next to know whether the backend is usable.
pub fn pipewire_probe(progress: &ProbeProgress) -> (r: Result<ProbeStep, LinCapError>)
    ensures
        outcome(r) == probe_step(*progress),
{
    match &progress.bus {
        None => {
            return Ok(ProbeStep::ConnectBus);
        },
        Some(Err(reason)) => {
            return Err(
                LinCapError::with_reason(
                    "PipeWire backend unavailable: no session D-Bus: ",
                    reason.as_str(),
                ),
            );
        },
        Some(Ok(_)) => {},
    }
    match &progress.portal {
        None => {
            return Ok(ProbeStep::ProbePortal);
        },
        Some(Err(message)) => {
            return Err(LinCapError::from_text(message.as_str()));
        },
        Some(Ok(_)) => {},
    }
    match &progress.main_loop {
        None => {
            return Ok(ProbeStep::MakeLoop);
        },
        Some(Err(reason)) => {
            return Err(
                LinCapError::with_reason("PipeWire backend unavailable: ", reason.as_str()),
            );
        },
        Some(Ok(_)) => {},
    }
    match &progress.context {
        None => {
            return Ok(ProbeStep::MakeContext);
        },
        Some(Err(reason)) => {
            return Err(
                LinCapError::with_reason("PipeWire backend unavailable: ", reason.as_str()),
            );
        },
        Some(Ok(_)) => {},
    }
    match &progress.daemon {
        None => Ok(ProbeStep::ConnectDaemon),
        Some(Err(reason)) => Err(
            LinCapError::with_reason("PipeWire daemon is unavailable: ", reason.as_str()),
        ),
        Some(Ok(_)) => Ok(ProbeStep::Usable),
    }
}

/// A pixel format of a stream.
#[derive(Clone, Copy, Debug, PartialEq, Eq, Structural)]
pub enum VideoFormat {
    RGB,
    RGBA,
    RGBx,
    BGRx,
    XBGR,
    Other,
}

/// The formats that a stream may take: raw video in one of `formats`, the first unless another
/// is agreed on, within a range of sizes, at a frame rate up to a fraction.
#[derive(Debug)]
pub struct StreamOffer {
    pub formats: Vec<VideoFormat>,
    pub default_size: (u32, u32),
    pub smallest_size: (u32, u32),
    pub largest_size: (u32, u32),
    pub max_framerate: (u32, u32),
}

/// The formats that the worker offers for a capture at `fps` frames per second.
pub fn stream_offer(fps: u32) -> (r: StreamOffer)
    ensures
        r.formats@ == seq![
            VideoFormat::RGB,
            VideoFormat::RGBA,
            VideoFormat::RGBx,
            VideoFormat::BGRx,
        ],
        r.default_size == (128u32, 128u32),
        r.smallest_size == (1u32, 1u32),
        r.largest_size == (4096u32, 4096u32),
        r.max_framerate == (fps, 1u32),
{
    StreamOffer {
        formats: vec![
            VideoFormat::RGB,
            VideoFormat::RGBA,
            VideoFormat::RGBx,
            VideoFormat::BGRx,
        ],
        default_size: (128, 128),
        smallest_size: (1, 1),
        largest_size: (4096, 4096),
        max_framerate: (fps, 1),
    }
}

/// The format that a stream took.
#[derive(Clone, Copy, Debug, PartialEq, Eq, Structural)]
pub struct RawVideo {
    pub format: VideoFormat,
    pub width: u32,
    pub height: u32,
}

/// Which parameter of a stream changed.
#[derive(Clone, Copy, Debug, PartialEq, Eq, Structural)]
pub enum ParamKind {
    Format,
    Other,
}

/// What a format is for.
#[derive(Clone, Copy, Debug, PartialEq, Eq, Structural)]
pub enum MediaType {
    Video,
    Other,
}

/// How a format stores it.
#[derive(Clone, Copy, Debug, PartialEq, Eq, Structural)]
pub enum MediaSubtype {
    Raw,
    Other,
}

/// A change of a parameter: which one, unless it was taken away; what it is for, if it parses
/// as a format; and the format, if it parses as raw video.
#[derive(Clone, Copy, Debug)]
pub struct ParamChange {
    pub param: Option<ParamKind>,
    pub media: Option<(MediaType, MediaSubtype)>,
    pub video: Option<RawVideo>,
}

impl ParamChange {
    /// Whether the change is one of the format of raw video.
    pub open spec fn is_raw_video(self) -> bool {
        &&& self.param == Some(ParamKind::Format)
        &&& self.media == Some((MediaType::Video, MediaSubtype::Raw))
    }

    /// Whether the change is one of the format of raw video, so that `video` matters.
    pub fn names_raw_video(&self) -> (r: bool)
        ensures
            r == self.is_raw_video(),
    {
        match (self.param, self.media) {
            (Some(ParamKind::Format), Some((MediaType::Video, MediaSubtype::Raw))) => true,
            _ => false,
        }
    }
}

/// A block of metadata on a buffer.
#[derive(Clone, Copy, Debug)]
pub enum Meta {
    Header { pts: i64 },
    Other,
}

/// The presentation time in the first header, or 0 without one.
pub open spec fn header_pts(metas: Seq<Meta>) -> i64
    decreases metas.len(),
{
    if metas.len() == 0 {
        0
    } else {
        match metas.first() {
            Meta::Header { pts } => pts,
            Meta::Other => header_pts(metas.drop_first()),
        }
    }
}

/// The presentation time of a buffer with these blocks of metadata.
pub fn get_timestamp(metas: &Vec<Meta>) -> (r: i64)
    ensures
        r == header_pts(metas@),
{
    let mut i: usize = 0;
    proof {
        assert(metas@.skip(0) =~= metas@);
    }
    while i < metas.len()
        invariant
            i <= metas@.len(),
            header_pts(metas@) == header_pts(metas@.skip(i as int)),
        decreases metas@.len() - i,
    {
        proof {
            assert(metas@.skip(i as int).drop_first() =~= metas@.skip(i + 1));
        }
        match metas[i] {
            Meta::Header { pts } => {
                return pts;
            },
            Meta::Other => {},
        }
        i = i + 1;
    }
    0
}

/// What the stream had when it was asked for a buffer.
#[derive(Debug)]
pub enum Dequeued {
    /// No buffer at all.
    OutOfBuffers,
    /// A buffer with nothing behind it.
    Hollow,
    /// A buffer with its metadata and, if there is one, its first block of data.
    Buffer { metas: Vec<Meta>, data: Option<Vec<u8>> },
}

/// What comes of a buffer: the frame to hand out, and whether the buffer goes back to the
/// stream.
#[derive(Debug)]
pub struct Processed {
    pub frame: Option<VideoFrame>,
    pub requeue: bool,
}

/// `n` as a signed number of the same 32 bits.
pub open spec fn as_signed(n: u32) -> i32 {
    if n < 0x8000_0000 {
        n as i32
    } else {
        (n - 0x1_0000_0000) as i32
    }
}

fn signed(n: u32) -> (r: i32)
    ensures
        r == as_signed(n),
{
    if n < 0x8000_0000 {
        n as i32
    } else {
        (n as i64 - 0x1_0000_0000) as i32
    }
}

/// Whether `image` holds `data` in the size of the stream, shown at `time`.
pub open spec fn carries(image: PixelFrame, data: Vec<u8>, video: RawVideo, time: int) -> bool {
    &&& image.display_time@ == time
    &&& image.width == as_signed(video.width)
    &&& image.height == as_signed(video.height)
    &&& image.data == data
}

/// Whether the worker has frames of this format.
pub open spec fn has_frames(format: VideoFormat) -> bool {
    format == VideoFormat::RGBx || format == VideoFormat::RGB || format == VideoFormat::XBGR
        || format == VideoFormat::BGRx
}

/// Whether `frame` is what is handed out for `data`: a frame of the stream's format, or none
/// where the worker has no frames of that format.
pub open spec fn hands_out(
    frame: Option<VideoFrame>,
    data: Vec<u8>,
    video: RawVideo,
    time: int,
) -> bool {
    match video.format {
        VideoFormat::RGBx => frame matches Some(VideoFrame::RGBx(image)) && carries(
            image,
            data,
            video,
            time,
        ),
        VideoFormat::RGB => frame matches Some(VideoFrame::RGB(image)) && carries(
            image,
            data,
            video,
            time,
        ),
        VideoFormat::XBGR => frame matches Some(VideoFrame::XBGR(image)) && carries(
            image,
            data,
            video,
            time,
        ),
        VideoFormat::BGRx => frame matches Some(VideoFrame::BGRx(image)) && carries(
            image,
            data,
            video,
            time,
        ),
        _ => frame is None,
    }
}

/// What the callbacks of a stream keep between them.
#[derive(Clone, Copy, Debug)]
pub struct ListenerUserData {
    pub format: RawVideo,
    pub timestamp_mapper: PipeWireTimestampMapper,
}

impl PipeWireCapturer {
    /// The capturer after a change of a parameter.
    pub open spec fn changed_by(self, change: ParamChange) -> PipeWireCapturer {
        if change.is_raw_video() && change.video is Some {
            PipeWireCapturer {
                width: change.video->Some_0.width,
                height: change.video->Some_0.height,
                ..self
            }
        } else {
            self
        }
    }
}

impl Control {
    /// The control after a change of a parameter.
    pub open spec fn changed_by(self, change: ParamChange) -> Control {
        if change.is_raw_video() && change.video is None {
            Control { errored: true, ..self }
        } else {
            self
        }
    }
}

/// Whether `r` is what comes of a buffer that was received at `received_at`, and the listener and
/// the control are left as it leaves them.
pub open spec fn processes(
    before: ListenerUserData,
    after: ListenerUserData,
    control_before: Control,
    control_after: Control,
    dequeued: Dequeued,
    received_at: SystemTime,
    r: Processed,
) -> bool {
    match dequeued {
        Dequeued::Buffer { metas, data: Some(data) } => {
            let pts = header_pts(metas@);
            &&& after == (ListenerUserData {
                timestamp_mapper: before.timestamp_mapper.anchored(pts, received_at),
                ..before
            })
            &&& hands_out(
                r.frame,
                data,
                before.format,
                before.timestamp_mapper.mapped(pts, received_at),
            )
            &&& r.requeue
            &&& control_after == (Control {
                errored: control_before.errored || !has_frames(before.format.format),
                ..control_before
            })
        },
        Dequeued::Buffer { metas, data: None } => {
            &&& r.frame is None && !r.requeue
            &&& after == before && control_after == control_before
        },
        _ => {
            &&& r.frame is None && r.requeue
            &&& after == before && control_after == control_before
        },
    }
}

impl ListenerUserData {
    /// The listener after a change of a parameter.
    pub open spec fn changed_by(self, change: ParamChange) -> ListenerUserData {
        if change.is_raw_video() && change.video is Some {
            ListenerUserData { format: change.video->Some_0, ..self }
        } else {
            self
        }
    }

    /// Whether the size that the capturer tells is that of the frames to come.
    pub open spec fn agrees_with(self, capturer: PipeWireCapturer) -> bool {
        self.format.width == capturer.width && self.format.height == capturer.height
    }

    /// The data of a stream that has taken no format.
    pub fn new() -> (r: ListenerUserData)
        ensures
            r == (ListenerUserData {
                format: RawVideo { format: VideoFormat::Other, width: 0, height: 0 },
                timestamp_mapper: PipeWireTimestampMapper {
                    first_pts: None,
                    first_wall_time: None,
                },
            }),
    {
        ListenerUserData {
            format: RawVideo { format: VideoFormat::Other, width: 0, height: 0 },
            timestamp_mapper: PipeWireTimestampMapper::new(),
        }
    }

    /// Takes over the format of raw video, and its size for the capturer; anything else is
    /// passed over, and a format that does not parse is an error of the stream.
    pub fn param_changed(
        &mut self,
        capturer: &mut PipeWireCapturer,
        control: &mut Control,
        change: &ParamChange,
    )
        ensures
            *final(self) == old(self).changed_by(*change),
            *final(capturer) == old(capturer).changed_by(*change),
            *final(control) == old(control).changed_by(*change),
            old(self).agrees_with(*old(capturer)) ==> final(self).agrees_with(*final(capturer)),
    {
        if !change.names_raw_video() {
            return ;
        }
        match change.video {
            Some(video) => {
                self.format = video;
                capturer.width = video.width;
                capturer.height = video.height;
            },
            None => {
                control.errored = true;
            },
        }
    }

    /// Makes a frame of a buffer that was received at `received_at`. A buffer without data is
    /// not put back; a format without frames is an error of the stream.
    pub fn process(
        &mut self,
        control: &mut Control,
        dequeued: Dequeued,
        received_at: SystemTime,
    ) -> (r: Processed)
        ensures
            processes(
                *old(self),
                *final(self),
                *old(control),
                *final(control),
                dequeued,
                received_at,
                r,
            ),
    {
        match dequeued {
            Dequeued::OutOfBuffers => Processed { frame: None, requeue: true },
            Dequeued::Hollow => Processed { frame: None, requeue: true },
            Dequeued::Buffer { metas, data } => {
                let pts: i64 = get_timestamp(&metas);
                let data: Vec<u8> = match data {
                    Some(data) => data,
                    None => {
                        return Processed { frame: None, requeue: false };
                    },
                };
                let display_time: SystemTime = self.timestamp_mapper.timestamp(pts, received_at);
                let image: PixelFrame = PixelFrame {
                    display_time,
                    width: signed(self.format.width),
                    height: signed(self.format.height),
                    data,
                };
                let frame: Option<VideoFrame> = match self.format.format {
                    VideoFormat::RGBx => Some(VideoFrame::RGBx(image)),
                    VideoFormat::RGB => Some(VideoFrame::RGB(image)),
                    VideoFormat::XBGR => Some(VideoFrame::XBGR(image)),
                    VideoFormat::BGRx => Some(VideoFrame::BGRx(image)),
                    _ => {
                        control.errored = true;
                        None
                    },
                };
                Processed { frame, requeue: true }
            },
        }
    }
}

/// The worker waits for the stream to negotiate its size.
#[derive(Debug)]
pub struct Negotiating;

/// The worker judges how the negotiation ended.
#[derive(Debug)]
pub struct Judging;

/// The worker tells the handle that it is ready, with frames of this width.
#[derive(Debug)]
pub struct Announcing {
    pub width: u32,
}

/// The worker waits for the start.
#[derive(Debug)]
pub struct Holding;

/// The worker captures.
#[derive(Debug)]
pub struct Running;

/// What the worker does next, once its stream is connected.
#[derive(Debug)]
pub enum WorkerStep {
    /// Look at the size, at the control and at the clock.
    Negotiate(Negotiating),
    /// Turn the loop for [`TURN_MILLIS`], then do the same.
    TurnAndNegotiate(Negotiating),
    /// Look at the size once more.
    Judge(Judging),
    /// Tell the handle.
    Announce(Announcing),
    /// Look at the control.
    Hold(Holding),
    /// Sleep for [`HOLD_MILLIS`], then do the same.
    SleepAndHold(Holding),
    /// Look at the control.
    Run(Running),
    /// Turn the loop for [`TURN_MILLIS`], then do the same.
    TurnAndRun(Running),
    /// End the worker.
    Finish,
    /// End the worker with an error.
    Fail(LinCapError),
}

/// Whether a worker in the step `before` can come to the step `after` next.
pub open spec fn follows(before: WorkerStep, after: WorkerStep) -> bool {
    match before {
        WorkerStep::Negotiate(_) | WorkerStep::TurnAndNegotiate(_) => after
            == WorkerStep::TurnAndNegotiate(Negotiating) || after == WorkerStep::Judge(Judging),
        WorkerStep::Judge(_) => after is Fail || (after matches WorkerStep::Announce(next)
            && next.width != 0),
        WorkerStep::Announce(_) => after is Fail || after == WorkerStep::Hold(Holding),
        WorkerStep::Hold(_) | WorkerStep::SleepAndHold(_) => after == WorkerStep::SleepAndHold(
            Holding,
        ) || after == WorkerStep::Run(Running),
        WorkerStep::Run(_) | WorkerStep::TurnAndRun(_) => after == WorkerStep::TurnAndRun(Running)
            || after == WorkerStep::Finish,
        WorkerStep::Finish => false,
        WorkerStep::Fail(_) => false,
    }
}

/// The first step of a worker.
pub fn begin() -> (r: WorkerStep)
    ensures
        r == WorkerStep::Negotiate(Negotiating),
{
    WorkerStep::Negotiate(Negotiating)
}

impl Negotiating {
    /// Goes on while there is no width, no error and time left; `late` says that the time for
    /// the negotiation is over.
    pub fn observed(self, width: u32, errored: bool, late: bool) -> (r: WorkerStep)
        ensures
            r == (if width == 0 && !errored && !late {
                WorkerStep::TurnAndNegotiate(Negotiating)
            } else {
                WorkerStep::Judge(Judging)
            }),
            follows(WorkerStep::Negotiate(self), r),
            follows(WorkerStep::TurnAndNegotiate(self), r),
    {
        if width == 0 && !errored && !late {
            WorkerStep::TurnAndNegotiate(self)
        } else {
            WorkerStep::Judge(Judging)
        }
    }
}

impl Judging {
    /// A stream with a width is ready.
    pub fn observed(self, width: u32) -> (r: WorkerStep)
        ensures
            if width == 0 {
                r matches WorkerStep::Fail(error) && error@
                    == "PipeWire stream did not negotiate a video size"@
            } else {
                r == WorkerStep::Announce(Announcing { width })
            },
            follows(WorkerStep::Judge(self), r),
    {
        if width == 0 {
            return WorkerStep::Fail(
                LinCapError::from_text("PipeWire stream did not negotiate a video size"),
            );
        }
        WorkerStep::Announce(Announcing { width })
    }
}

impl Announcing {
    /// Goes on where the handle was told, and fails where it is gone.
    pub fn announced(self, told: Result<(), &str>) -> (r: WorkerStep)
        ensures
            match told {
                Ok(_) => r == WorkerStep::Hold(Holding),
                Err(message) => r matches WorkerStep::Fail(error) && error@ == message@,
            },
            follows(WorkerStep::Announce(self), r),
    {
        match told {
            Ok(_) => WorkerStep::Hold(Holding),
            Err(message) => WorkerStep::Fail(LinCapError::from_text(message)),
        }
    }
}

impl Holding {
    /// What comes of a look at the control.
    pub open spec fn after(self, control: Control) -> WorkerStep {
        if control.state == CapturerState::Waiting {
            WorkerStep::SleepAndHold(Holding)
        } else {
            WorkerStep::Run(Running)
        }
    }

    /// Waits until the capture is started or stopped.
    pub fn observed(self, control: &Control) -> (r: WorkerStep)
        ensures
            r == self.after(*control),
            follows(WorkerStep::Hold(self), r),
            follows(WorkerStep::SleepAndHold(self), r),
    {
        if control.state == CapturerState::Waiting {
            WorkerStep::SleepAndHold(self)
        } else {
            WorkerStep::Run(Running)
        }
    }
}

impl Running {
    /// What comes of a look at the control.
    pub open spec fn after(self, control: Control) -> WorkerStep {
        if control.state == CapturerState::Started && !control.errored {
            WorkerStep::TurnAndRun(Running)
        } else {
            WorkerStep::Finish
        }
    }

    /// Captures while the capture is started and the stream is without an error.
    pub fn observed(self, control: &Control) -> (r: WorkerStep)
        ensures
            r == self.after(*control),
            follows(WorkerStep::Run(self), r),
            follows(WorkerStep::TurnAndRun(self), r),
    {
        if control.state == CapturerState::Started && !control.errored {
            WorkerStep::TurnAndRun(self)
        } else {
            WorkerStep::Finish
        }
    }
}

/// What a worker tells the handle when it is over: that it failed, where it did. One that ended
/// well has told the handle before that it is ready.
pub fn last_word(result: &Result<(), LinCapError>) -> (r: Option<bool>)
    ensures
        r == (if result is Err {
            Some(false)
        } else {
            None
        }),
{
    match result {
        Ok(_) => None,
        Err(_) => Some(false),
    }
}

/// Whether the step at `i` of a worker leads to the one behind it.
pub open spec fn linked(steps: Seq<WorkerStep>, i: int) -> bool {
    follows(steps[i], steps[i + 1])
}

/// Whether `steps` are the steps of a worker so far, from its first one.
pub open spec fn is_run(steps: Seq<WorkerStep>) -> bool {
    &&& steps.len() > 0
    &&& steps[0] == WorkerStep::Negotiate(Negotiating)
    &&& forall|i: int| 0 <= i < steps.len() - 1 ==> #[trigger] linked(steps, i)
}

/// Whether the handle has been told by the time of this step.
pub open spec fn is_told(step: WorkerStep) -> bool {
    match step {
        WorkerStep::Hold(_) | WorkerStep::SleepAndHold(_) => true,
        WorkerStep::Run(_) | WorkerStep::TurnAndRun(_) | WorkerStep::Finish => true,
        _ => false,
    }
}

/// Whether the step announces a worker whose frames have a width.
pub open spec fn announces_width(step: WorkerStep) -> bool {
    step matches WorkerStep::Announce(next) && next.width != 0
}

/// From an announcement on, every step of a run comes after the handle was told, or fails.
proof fn lemma_after_announcement(steps: Seq<WorkerStep>, first: int, i: int)
    requires
        is_run(steps),
        0 <= first < i < steps.len(),
        steps[first] is Announce,
    ensures
        is_told(steps[i]) || steps[i] is Fail,
    decreases i - first,
{
    assert(linked(steps, i - 1));
    if i - 1 > first {
        lemma_after_announcement(steps, first, i - 1);
    }
}

/// Before a step of a run that comes after the handle was told stands its announcement.
proof fn lemma_announcement_before(steps: Seq<WorkerStep>, i: int) -> (first: int)
    requires
        is_run(steps),
        0 <= i < steps.len(),
        is_told(steps[i]),
    ensures
        0 <= first < i,
        announces_width(steps[first]),
    decreases i,
{
    assert(i > 0);
    assert(linked(steps, i - 1));
    if steps[i - 1] is Announce {
        assert(i - 1 > 0);
        assert(linked(steps, i - 2));
        i - 1
    } else {
        lemma_announcement_before(steps, i - 1)
    }
}

/// A worker announces that it is ready at most once, and only with a width. It holds, captures
/// and finishes only after that, and from a failure it does nothing more.
pub proof fn law_readiness_is_announced_once(steps: Seq<WorkerStep>, i: int)
    requires
        is_run(steps),
        0 <= i < steps.len(),
    ensures
        steps[i] is Announce ==> announces_width(steps[i]) && forall|j: int|
            0 <= j < steps.len() && (#[trigger] steps[j]) is Announce ==> j == i,
        is_told(steps[i]) ==> exists|first: int|
            0 <= first < i && announces_width(#[trigger] steps[first]),
        steps[i] is Finish || steps[i] is Fail ==> i == steps.len() - 1,
{
    if steps[i] is Announce {
        assert(i > 0);
        assert(linked(steps, i - 1));
        assert forall|j: int|
            0 <= j < steps.len() && (#[trigger] steps[j]) is Announce implies j == i by {
            if j < i {
                lemma_after_announcement(steps, j, i);
            } else if i < j {
                lemma_after_announcement(steps, i, j);
            }
        }
    }
    if is_told(steps[i]) {
        let first = lemma_announcement_before(steps, i);
        assert(announces_width(steps[first]));
    }
    if i < steps.len() - 1 {
        assert(linked(steps, i));
    }
}

/// While the listener agrees with the capturer, a frame has the size that the capturer tells,
/// where a frame can hold it.
pub proof fn law_frames_have_the_told_size(
    listener: ListenerUserData,
    capturer: PipeWireCapturer,
    image: PixelFrame,
    data: Vec<u8>,
    time: int,
)
    requires
        listener.agrees_with(capturer),
        carries(image, data, listener.format, time),
        capturer.width <= i32::MAX,
        capturer.height <= i32::MAX,
    ensures
        image.width == capturer.width,
        image.height == capturer.height,
{
}

/// A worker holds until the capture is started and then captures; told to stop, it ends from
/// either state; an error of the stream ends it while it captures; and a control that was made
/// ready again holds the next worker.
pub proof fn law_worker_obeys_its_handle(control: Control)
    ensures
        Holding.after(Control { state: CapturerState::Started, ..control }) == WorkerStep::Run(
            Running,
        ),
        Running.after(Control { state: CapturerState::Started, errored: false })
            == WorkerStep::TurnAndRun(Running),
        Holding.after(Control { state: CapturerState::Stopping, ..control }) == WorkerStep::Run(
            Running,
        ),
        Running.after(Control { state: CapturerState::Stopping, ..control }) == WorkerStep::Finish,
        Running.after(Control { errored: true, ..control }) == WorkerStep::Finish,
        Holding.after(Control { state: CapturerState::Waiting, ..control })
            == WorkerStep::SleepAndHold(Holding),
{
}

/// Every step of an opening asks for something that has not been done, and only after all that
/// comes before it went well.
pub proof fn law_opening_goes_in_order(show_cursor: bool, progress: OpenProgress)
    ensures
        match open_step(show_cursor, progress) {
            Ok(OpenStep::ConnectBus) => progress.bus is None,
            Ok(OpenStep::ConfigureCursor { show_cursor: shown }) => shown == show_cursor
                && (progress.bus matches Some(Ok(_))) && progress.cursor is None,
            Ok(OpenStep::CreateStream) => (progress.cursor matches Some(Ok(_)))
                && progress.stream is None,
            Ok(OpenStep::SpawnWorker { stream_id, capturer }) => progress.stream matches Some(
                Ok(created),
            ) && created == stream_id && progress.worker is None,
            Ok(OpenStep::Ready) => progress.worker matches Some(Ok(ready)) && ready,
            Err(_) => true,
        },
{
}

/// Every step of a probe asks for something that has not been done, and the backend is usable
/// only where everything went well.
pub proof fn law_probe_goes_in_order(progress: ProbeProgress)
    ensures
        match probe_step(progress) {
            Ok(ProbeStep::ConnectBus) => progress.bus is None,
            Ok(ProbeStep::ProbePortal) => progress.portal is None,
            Ok(ProbeStep::MakeLoop) => progress.main_loop is None,
            Ok(ProbeStep::MakeContext) => progress.context is None,
            Ok(ProbeStep::ConnectDaemon) => progress.daemon is None,
            Ok(ProbeStep::Usable) => {
                &&& progress.bus matches Some(Ok(_))
                &&& progress.portal matches Some(Ok(_))
                &&& progress.main_loop matches Some(Ok(_))
                &&& progress.context matches Some(Ok(_))
                &&& progress.daemon matches Some(Ok(_))
            },
            Err(_) => true,
        },
{
}

/// A frame that is handed out for a buffer has the buffer's bytes in the buffer's order, the
/// format and the size that were negotiated, and the time that it is put at. There is one exactly
/// where the format is one of those that frames are made of.
pub proof fn law_frame_has_the_buffers_bytes(
    frame: Option<VideoFrame>,
    data: Vec<u8>,
    video: RawVideo,
    time: int,
)
    requires
        hands_out(frame, data, video, time),
    ensures
        frame is Some <==> has_frames(video.format),
        match frame {
            Some(VideoFrame::RGB(image)) => video.format == VideoFormat::RGB && image.data@.len()
                == data@.len() && image.display_time@ == time && (forall|i: int|
                0 <= i < data@.len() ==> #[trigger] image.data@[i] == data@[i])
                && image.width == wrapped(video.width) && image.height == wrapped(video.height),
            Some(VideoFrame::RGBx(image)) => video.format == VideoFormat::RGBx && image.data@.len()
                == data@.len() && image.display_time@ == time && (forall|i: int|
                0 <= i < data@.len() ==> #[trigger] image.data@[i] == data@[i])
                && image.width == wrapped(video.width) && image.height == wrapped(video.height),
            Some(VideoFrame::XBGR(image)) => video.format == VideoFormat::XBGR && image.data@.len()
                == data@.len() && image.display_time@ == time && (forall|i: int|
                0 <= i < data@.len() ==> #[trigger] image.data@[i] == data@[i])
                && image.width == wrapped(video.width) && image.height == wrapped(video.height),
            Some(VideoFrame::BGRx(image)) => video.format == VideoFormat::BGRx && image.data@.len()
                == data@.len() && image.display_time@ == time && (forall|i: int|
                0 <= i < data@.len() ==> #[trigger] image.data@[i] == data@[i])
                && image.width == wrapped(video.width) && image.height == wrapped(video.height),
            Some(_) => false,
            None => true,
        },
{
}

/// The signed number with the same 32 bits.
pub open spec fn wrapped(n: u32) -> int {
    if n < 0x8000_0000 {
        n as int
    } else {
        n - 0x1_0000_0000
    }
}

/// An extent below 2147483648 stays as it is, and every other comes out as the negative number that
/// differs from it by 4294967296.
pub proof fn law_extents_keep_their_bits(n: u32)
    ensures
        n < 0x8000_0000 ==> as_signed(n) == n && wrapped(n) == n,
        n >= 0x8000_0000 ==> as_signed(n) == n - 0x1_0000_0000 && wrapped(n) == n - 0x1_0000_0000,
{
}

/// Frames are made of RGB, RGBx, xBGR and BGRx, and of nothing else.
pub proof fn law_four_formats_have_frames(format: VideoFormat)
    ensures
        has_frames(format) <==> match format {
            VideoFormat::RGB => true,
            VideoFormat::RGBx => true,
            VideoFormat::XBGR => true,
            VideoFormat::BGRx => true,
            VideoFormat::RGBA => false,
            VideoFormat::Other => false,
        },
{
}

/// The presentation time of a buffer is that of its first header, whatever stands before and
/// behind it.
pub proof fn law_first_header_counts(metas: Seq<Meta>, i: int, pts: i64)
    requires
        0 <= i < metas.len(),
        metas[i] == (Meta::Header { pts }),
        forall|j: int| 0 <= j < i ==> (#[trigger] metas[j]) is Other,
    ensures
        header_pts(metas) == pts,
    decreases metas.len(),
{
    if i > 0 {
        let rest = metas.drop_first();
        assert(metas[0] is Other);
        assert forall|j: int| 0 <= j < i - 1 implies (#[trigger] rest[j]) is Other by {
            assert(metas[j + 1] is Other);
        }
        law_first_header_counts(rest, i - 1, pts);
    }
}

/// A buffer without a header has the presentation time 0.
pub proof fn law_no_header_is_time_zero(metas: Seq<Meta>)
    requires
        forall|j: int| 0 <= j < metas.len() ==> (#[trigger] metas[j]) is Other,
    ensures
        header_pts(metas) == 0,
    decreases metas.len(),
{
    if metas.len() > 0 {
        let rest = metas.drop_first();
        assert(metas[0] is Other);
        assert forall|j: int| 0 <= j < rest.len() implies (#[trigger] rest[j]) is Other by {
            assert(metas[j + 1] is Other);
        }
        law_no_header_is_time_zero(rest);
    }
}

/// The anchor is the first presentation time that is seen and the moment it was received at.
pub proof fn law_first_frame_is_the_anchor(
    mapper: PipeWireTimestampMapper,
    pts: i64,
    received_at: SystemTime,
)
    ensures
        mapper.first_pts is None ==> mapper.anchored(pts, received_at).first_pts == Some(pts),
        mapper.first_pts matches Some(first) ==> mapper.anchored(pts, received_at).first_pts
            == Some(first),
        mapper.first_wall_time is None ==> mapper.anchored(pts, received_at).first_wall_time
            == Some(received_at),
        mapper.first_wall_time matches Some(first) ==> mapper.anchored(
            pts,
            received_at,
        ).first_wall_time == Some(first),
{
}

/// Where an anchor is set, the time of a frame is the anchor's and its distance from it: for a
/// later frame the whole milliseconds of the distance, for an earlier one all of it. Where the
/// clock cannot represent that, a later frame is put at the anchor and an earlier one at the Unix
/// epoch.
pub proof fn law_frames_are_put_by_their_distance(
    mapper: PipeWireTimestampMapper,
    first: i64,
    wall: SystemTime,
    pts: i64,
    received_at: SystemTime,
    millis: int,
)
    requires
        mapper.first_pts == Some(first),
        mapper.first_wall_time == Some(wall),
        pts >= first ==> millis * 1_000_000 <= pts - first < (millis + 1) * 1_000_000,
    ensures
        ({
            let exact = if pts >= first {
                wall@ + millis * 1_000_000
            } else {
                wall@ + (pts - first)
            };
            let lowest = -0x8000_0000_0000_0000 * 1_000_000_000;
            let highest = 0x8000_0000_0000_0000 * 1_000_000_000 - 1;
            mapper.mapped(pts, received_at) == if lowest <= exact <= highest {
                exact
            } else if pts >= first {
                wall@
            } else {
                0
            }
        }),
{
}

/// A change counts as one of the format of raw video exactly where it is one of the format, and
/// the format is for video and raw.
pub proof fn law_only_raw_video_counts(change: ParamChange)
    ensures
        change.is_raw_video() <==> (change.param matches Some(param) && param == ParamKind::Format)
            && (change.media matches Some(media) && media.0 == MediaType::Video && media.1
            == MediaSubtype::Raw),
{
}

/// A listener agrees with a capturer exactly where the two have the same width and height.
pub proof fn law_agreement_is_on_the_size(listener: ListenerUserData, capturer: PipeWireCapturer)
    ensures
        listener.agrees_with(capturer) <==> listener.format.width == capturer.width
            && listener.format.height == capturer.height,
{
}

/// A worker that waits for the start sleeps exactly while nobody has started or stopped the
/// capture, and one that captures goes on exactly while the capture is started and the stream is
/// without an error.
pub proof fn law_worker_goes_on_exactly_while_it_may(control: Control)
    ensures
        match Holding.after(control) {
            WorkerStep::SleepAndHold(_) => control.state == CapturerState::Waiting,
            WorkerStep::Run(_) => control.state != CapturerState::Waiting,
            _ => false,
        },
        match Running.after(control) {
            WorkerStep::TurnAndRun(_) => control.state == CapturerState::Started
                && !control.errored,
            WorkerStep::Finish => control.state != CapturerState::Started || control.errored,
            _ => false,
        },
{
}

/// The opening of a stream fails only for a reason, and says which: that the bus was not reached,
/// that the cursor could not be configured, that there was no session, that the worker was gone,
/// or that it said that it had failed. Where nothing has failed, it goes on with what has not
/// been tried, or is ready.
pub proof fn law_opening_fails_for_a_reason(show_cursor: bool, progress: OpenProgress)
    ensures
        progress.bus is None ==> open_step(show_cursor, progress) == Ok::<OpenStep, Seq<char>>(
            OpenStep::ConnectBus,
        ),
        progress.bus matches Some(Err(reason)) ==> open_step(show_cursor, progress) == Err::<
            OpenStep,
            Seq<char>,
        >("PipeWire backend unavailable: no session D-Bus: "@ + reason@),
        progress.bus matches Some(Ok(_)) ==> {
            &&& progress.cursor is None ==> open_step(show_cursor, progress) == Ok::<
                OpenStep,
                Seq<char>,
            >(OpenStep::ConfigureCursor { show_cursor })
            &&& progress.cursor matches Some(Err(reason)) ==> open_step(show_cursor, progress)
                == Err::<OpenStep, Seq<char>>("PipeWire cursor configuration failed: "@ + reason@)
            &&& progress.cursor matches Some(Ok(_)) ==> {
                &&& progress.stream is None ==> open_step(show_cursor, progress) == Ok::<
                    OpenStep,
                    Seq<char>,
                >(OpenStep::CreateStream)
                &&& progress.stream matches Some(Err(reason)) ==> open_step(show_cursor, progress)
                    == Err::<OpenStep, Seq<char>>("PipeWire portal session failed: "@ + reason@)
                &&& progress.stream matches Some(Ok(stream)) ==> match progress.worker {
                    None => open_step(show_cursor, progress) matches Ok(
                        OpenStep::SpawnWorker { stream_id, capturer },
                    ) && stream_id == stream && capturer.has_worker && capturer.width == 0
                        && capturer.height == 0,
                    Some(Err(reason)) => open_step(show_cursor, progress) == Err::<
                        OpenStep,
                        Seq<char>,
                    >("PipeWire capture worker failed to initialize: "@ + reason@),
                    Some(Ok(ready)) => if ready {
                        open_step(show_cursor, progress) == Ok::<OpenStep, Seq<char>>(
                            OpenStep::Ready,
                        )
                    } else {
                        open_step(show_cursor, progress) == Err::<OpenStep, Seq<char>>(
                            "PipeWire stream setup failed"@,
                        )
                    },
                }
            }
        },
{
}

/// The probe fails only for a reason, and says which: that the bus was not reached, what the
/// portal said, that there was no loop or no context, or that the daemon was not reached. Where
/// nothing has failed, it goes on with what has not been tried, or PipeWire is usable.
pub proof fn law_probe_fails_for_a_reason(progress: ProbeProgress)
    ensures
        progress.bus is None ==> probe_step(progress) == Ok::<ProbeStep, Seq<char>>(
            ProbeStep::ConnectBus,
        ),
        progress.bus matches Some(Err(reason)) ==> probe_step(progress) == Err::<
            ProbeStep,
            Seq<char>,
        >("PipeWire backend unavailable: no session D-Bus: "@ + reason@),
        progress.bus matches Some(Ok(_)) ==> {
            &&& progress.portal is None ==> probe_step(progress) == Ok::<ProbeStep, Seq<char>>(
                ProbeStep::ProbePortal,
            )
            &&& progress.portal matches Some(Err(reason)) ==> probe_step(progress) == Err::<
                ProbeStep,
                Seq<char>,
            >(reason@)
            &&& progress.portal matches Some(Ok(_)) ==> {
                &&& progress.main_loop is None ==> probe_step(progress) == Ok::<
                    ProbeStep,
                    Seq<char>,
                >(ProbeStep::MakeLoop)
                &&& progress.main_loop matches Some(Err(reason)) ==> probe_step(progress) == Err::<
                    ProbeStep,
                    Seq<char>,
                >("PipeWire backend unavailable: "@ + reason@)
                &&& progress.main_loop matches Some(Ok(_)) ==> {
                    &&& progress.context is None ==> probe_step(progress) == Ok::<
                        ProbeStep,
                        Seq<char>,
                    >(ProbeStep::MakeContext)
                    &&& progress.context matches Some(Err(reason)) ==> probe_step(progress)
                        == Err::<ProbeStep, Seq<char>>(
                        "PipeWire backend unavailable: "@ + reason@,
                    )
                    &&& progress.context matches Some(Ok(_)) ==> match progress.daemon {
                        None => probe_step(progress) == Ok::<ProbeStep, Seq<char>>(
                            ProbeStep::ConnectDaemon,
                        ),
                        Some(Err(reason)) => probe_step(progress) == Err::<ProbeStep, Seq<char>>(
                            "PipeWire daemon is unavailable: "@ + reason@,
                        ),
                        Some(Ok(_)) => probe_step(progress) == Ok::<ProbeStep, Seq<char>>(
                            ProbeStep::Usable,
                        ),
                    }
                }
            }
        },
{
}

/// A change of the format of raw video gives the frames to come its format and its size, and the
/// capturer that size; one that does not parse is an error and changes neither; and every other
/// change changes nothing. Neither the clock nor the worker nor what the user asked for changes.
pub proof fn law_raw_video_sets_format_and_size(
    listener: ListenerUserData,
    capturer: PipeWireCapturer,
    control: Control,
    change: ParamChange,
)
    ensures
        ({
            let counts = change.param == Some(ParamKind::Format) && change.media == Some(
                (MediaType::Video, MediaSubtype::Raw),
            );
            &&& listener.changed_by(change).timestamp_mapper == listener.timestamp_mapper
            &&& capturer.changed_by(change).has_worker == capturer.has_worker
            &&& control.changed_by(change).state == control.state
            &&& counts ==> match change.video {
                Some(video) => {
                    &&& listener.changed_by(change).format.format == video.format
                    &&& listener.changed_by(change).format.width == video.width
                    &&& listener.changed_by(change).format.height == video.height
                    &&& capturer.changed_by(change).width == video.width
                    &&& capturer.changed_by(change).height == video.height
                    &&& control.changed_by(change).errored == control.errored
                },
                None => {
                    &&& listener.changed_by(change) == listener
                    &&& capturer.changed_by(change) == capturer
                    &&& control.changed_by(change).errored
                },
            }
            &&& !counts ==> listener.changed_by(change) == listener && capturer.changed_by(change)
                == capturer && control.changed_by(change) == control
        }),
{
}

/// A buffer with data becomes a frame of the negotiated format and size, with the buffer's bytes in
/// the buffer's order, at the wall time of the presentation time in its first header, or of 0
/// without one; the buffer goes back to the stream. Where the format is one that no frames are made of, there is none, and
/// that is an error. The format, and what the user asked for, stay as they are.
pub proof fn law_buffers_become_frames(
    before: ListenerUserData,
    after: ListenerUserData,
    control_before: Control,
    control_after: Control,
    metas: Vec<Meta>,
    data: Vec<u8>,
    received_at: SystemTime,
    r: Processed,
    i: int,
    pts: i64,
)
    requires
        processes(
            before,
            after,
            control_before,
            control_after,
            Dequeued::Buffer { metas, data: Some(data) },
            received_at,
            r,
        ),
        0 <= i <= metas@.len(),
        forall|j: int| 0 <= j < i ==> (#[trigger] metas@[j]) is Other,
        if i < metas@.len() {
            metas@[i] == (Meta::Header { pts })
        } else {
            pts == 0
        },
    ensures
        r.requeue,
        after.format == before.format,
        after.timestamp_mapper == before.timestamp_mapper.anchored(pts, received_at),
        control_after.state == control_before.state,
        ({
            let format = before.format.format;
            let made = format == VideoFormat::RGB || format == VideoFormat::RGBx || format
                == VideoFormat::XBGR || format == VideoFormat::BGRx;
            let image = match r.frame {
                Some(VideoFrame::RGB(image)) if format == VideoFormat::RGB => Some(image),
                Some(VideoFrame::RGBx(image)) if format == VideoFormat::RGBx => Some(image),
                Some(VideoFrame::XBGR(image)) if format == VideoFormat::XBGR => Some(image),
                Some(VideoFrame::BGRx(image)) if format == VideoFormat::BGRx => Some(image),
                _ => None,
            };
            &&& control_after.errored == (control_before.errored || !made)
            &&& made ==> image is Some
            &&& !made ==> r.frame is None
            &&& image matches Some(image) ==> {
                &&& image.data@.len() == data@.len()
                &&& forall|k: int|
                    0 <= k < data@.len() ==> #[trigger] image.data@[k] == data@[k]
                &&& before.format.width <= i32::MAX ==> image.width == before.format.width
                &&& before.format.height <= i32::MAX ==> image.height == before.format.height
                &&& image.display_time@ == before.timestamp_mapper.mapped(pts, received_at)
            }
        }),
{
    if i < metas@.len() {
        law_first_header_counts(metas@, i, pts);
    } else {
        law_no_header_is_time_zero(metas@);
    }
}

/// Where there is no buffer, or none in it, nothing changes and what was dequeued goes back; and
/// a buffer without data changes nothing and does not go back.
pub proof fn law_empty_buffers_change_nothing(
    before: ListenerUserData,
    after: ListenerUserData,
    control_before: Control,
    control_after: Control,
    dequeued: Dequeued,
    received_at: SystemTime,
    r: Processed,
)
    requires
        processes(before, after, control_before, control_after, dequeued, received_at, r),
        match dequeued {
            Dequeued::Buffer { metas, data } => data is None,
            _ => true,
        },
    ensures
        r.frame is None,
        after == before,
        control_after == control_before,
        r.requeue <==> !(dequeued is Buffer),
{
}

} // verus!

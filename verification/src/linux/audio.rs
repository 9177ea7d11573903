//! Capture of what the machine plays, through PulseAudio.

use crate::frame::{AudioFormat, AudioFrame};
use crate::linux::error::{outcome, LinCapError};
use crate::text::{debug_format, debug_text, optional_text};
use crate::time::{duration_max, representable, Duration, SystemTime, NANOS_PER_SEC};
use vstd::prelude::*;

verus! {

/// Channels of the recording.
pub const CHANNELS: u8 = 2;

/// Samples per second and channel.
pub const SAMPLE_RATE: u32 = 48_000;

/// Samples per block and channel: 20 ms.
pub const FRAMES_PER_BUFFER: usize = 960;

/// Bytes of one sample.
pub const BYTES_PER_SAMPLE: usize = 2;

/// Bytes of one block.
pub const BUFFER_BYTES: usize = FRAMES_PER_BUFFER * 2 * BYTES_PER_SAMPLE;

/// The point at which a block began: its end lies the latency of the recording before the
/// moment the read completed, and its first sample the length of the block before that. The
/// span is at most the longest that there is, and a point that cannot be represented is
/// replaced by the Unix epoch.
pub open spec fn block_start(read_completed: int, latency: int, block: int) -> int {
    let back = if latency + block <= duration_max() {
        latency + block
    } else {
        duration_max()
    };
    if representable(read_completed - back) {
        read_completed - back
    } else {
        0
    }
}

/// The timestamp of a block: the moment of its first sample.
pub fn timestamp_for_buffer(
    read_completed: SystemTime,
    capture_latency: Duration,
    buffer_duration: Duration,
) -> (r: SystemTime)
    ensures
        r@ == block_start(read_completed@, capture_latency@, buffer_duration@),
{
    match read_completed.checked_sub(capture_latency.saturating_add(buffer_duration)) {
        Some(start) => start,
        None => SystemTime::unix_epoch(),
    }
}

/// The length of one block, in nanoseconds.
pub open spec fn block_nanos() -> int {
    FRAMES_PER_BUFFER * NANOS_PER_SEC / SAMPLE_RATE as int
}

/// The length of one block.
pub fn buffer_duration() -> (r: Duration)
    ensures
        r@ == block_nanos(),
{
    Duration::from_nanos(FRAMES_PER_BUFFER as u64 * NANOS_PER_SEC as u64 / SAMPLE_RATE as u64)
}

/// How to open the recording stream: signed samples of 16 bits in the machine's byte order,
/// and the sizes of the stream's buffer in bytes, where the largest number leaves a size to
/// the server.
#[derive(Debug)]
pub struct RecordRequest {
    pub source: String,
    pub channels: u8,
    pub rate: u32,
    pub maxlength: u32,
    pub tlength: u32,
    pub prebuf: u32,
    pub minreq: u32,
    pub fragsize: u32,
}

/// The source that the setting `SCAP_AUDIO_SOURCE` names, or the monitor of the default output.
pub open spec fn source_of(setting: Option<Seq<char>>) -> Seq<char> {
    match setting {
        Some(source) => source,
        None => "@DEFAULT_MONITOR@"@,
    }
}

/// How to open the recording stream, from the setting `SCAP_AUDIO_SOURCE`. Fragments of one
/// block and a buffer of eight bound what the server holds back.
pub fn record_request(setting: Option<&str>) -> (r: RecordRequest)
    ensures
        r.source@ == source_of(optional_text(setting)),
        r.channels == CHANNELS,
        r.rate == SAMPLE_RATE,
        r.maxlength == 8 * BUFFER_BYTES,
        r.tlength == u32::MAX,
        r.prebuf == u32::MAX,
        r.minreq == u32::MAX,
        r.fragsize == BUFFER_BYTES,
{
    let source: String = match setting {
        Some(source) => source.to_owned(),
        None => "@DEFAULT_MONITOR@".to_owned(),
    };
    RecordRequest {
        source,
        channels: CHANNELS,
        rate: SAMPLE_RATE,
        maxlength: (BUFFER_BYTES * 8) as u32,
        tlength: u32::MAX,
        prebuf: u32::MAX,
        minreq: u32::MAX,
        fragsize: BUFFER_BYTES as u32,
    }
}

/// The error for a source that could not be opened, from what `{:?}` prints for it.
pub fn open_error(printed: &str, reason: &str) -> (r: LinCapError)
    ensures
        r@ == "Linux audio capture could not open PulseAudio source "@ + printed@ + ": "@ + reason@,
{
    let mut message: String = "Linux audio capture could not open PulseAudio source ".to_owned();
    message.append(printed);
    message.append(": ");
    message.append(reason);
    LinCapError::new(message)
}

/// The life of the audio capturer: whether it still has the stream that it was opened with,
/// whether its worker runs, and whether the worker was told to stop.
#[derive(Clone, Copy, Debug, PartialEq, Eq, Structural)]
pub struct PulseAudioCapturer {
    pub has_stream: bool,
    pub running: bool,
    pub stop: bool,
}

impl PulseAudioCapturer {
    /// The stream is with the capturer or with a running worker, never with both.
    pub open spec fn valid(self) -> bool {
        !(self.has_stream && self.running)
    }

    /// Whether a start hands the stream to a new worker.
    pub open spec fn can_start(self) -> bool {
        !self.running && self.has_stream
    }

    /// The capturer after a start.
    pub open spec fn started(self) -> PulseAudioCapturer {
        if self.can_start() {
            PulseAudioCapturer { has_stream: false, running: true, stop: false }
        } else {
            self
        }
    }

    /// The capturer after a stop.
    pub open spec fn stopped(self) -> PulseAudioCapturer {
        PulseAudioCapturer { has_stream: self.has_stream, running: false, stop: true }
    }

    /// A capturer for a stream on `source` that was opened, or the reason why it was not.
    pub fn new(source: &str, opened: Result<(), &str>) -> (r: Result<
        PulseAudioCapturer,
        LinCapError,
    >)
        ensures
            outcome(r) == (match opened {
                Ok(_) => Ok(
                    PulseAudioCapturer { has_stream: true, running: false, stop: false },
                ),
                Err(reason) => Err(
                    "Linux audio capture could not open PulseAudio source "@ + debug_text(source@)
                        + ": "@ + reason@,
                ),
            }),
            r matches Ok(capturer) ==> capturer.valid(),
    {
        match opened {
            Ok(_) => Ok(PulseAudioCapturer { has_stream: true, running: false, stop: false }),
            Err(reason) => Err(open_error(debug_format(source).as_str(), reason)),
        }
    }

    /// Starts the capture. Returns whether a worker is to be spawned with the stream.
    pub fn start_capture(&mut self) -> (spawn: bool)
        ensures
            spawn == old(self).can_start(),
            *final(self) == old(self).started(),
    {
        if self.running || !self.has_stream {
            return false;
        }
        self.has_stream = false;
        self.stop = false;
        self.running = true;
        true
    }

    /// Stops the capture. Returns whether there is a worker to wait for.
    pub fn stop_capture(&mut self) -> (join: bool)
        ensures
            join == old(self).running,
            *final(self) == old(self).stopped(),
    {
        self.stop = true;
        let join: bool = self.running;
        self.running = false;
        join
    }
}

/// A worker at the top of its loop: it looks whether it was told to stop.
#[derive(Debug)]
pub struct Idle {
    pub recorded: bool,
}

/// A worker that reads a block.
#[derive(Debug)]
pub struct Reading {
    pub recorded: bool,
}

/// A worker with a block that looks again whether it was told to stop.
#[derive(Debug)]
pub struct Filled {
    pub recorded: bool,
}

/// A worker that notes when its read completed and asks for the latency of the recording.
#[derive(Debug)]
pub struct Stamping {
    pub recorded: bool,
}

/// A worker that hands out a block.
#[derive(Debug)]
pub struct Sending;

/// What the worker does next.
#[derive(Debug)]
pub enum AudioStep {
    /// Look at the stop flag.
    CheckStop(Idle),
    /// Read a block of [`BUFFER_BYTES`] bytes.
    Read(Reading),
    /// Look at the stop flag again, now with a block in hand.
    CheckStopAgain(Filled),
    /// Note the time and query the latency.
    Stamp(Stamping),
    /// Hand out the frame; `initial` says that its timestamp is the first and is recorded.
    Send { frame: AudioFrame, initial: bool, next: Sending },
    /// End the worker.
    Finish,
}

/// Whether the first timestamp is still to be recorded, in this step or later.
pub open spec fn awaits_record(step: AudioStep) -> bool {
    match step {
        AudioStep::CheckStop(worker) => !worker.recorded,
        AudioStep::Read(worker) => !worker.recorded,
        AudioStep::CheckStopAgain(worker) => !worker.recorded,
        AudioStep::Stamp(worker) => !worker.recorded,
        AudioStep::Send { frame, initial, next } => initial,
        AudioStep::Finish => false,
    }
}

/// Whether a worker in the step `before` can come to the step `after` next.
pub open spec fn follows(before: AudioStep, after: AudioStep) -> bool {
    match before {
        AudioStep::CheckStop(worker) => after == AudioStep::Finish || after == AudioStep::Read(
            Reading { recorded: worker.recorded },
        ),
        AudioStep::Read(worker) => after == AudioStep::Finish || after
            == AudioStep::CheckStopAgain(Filled { recorded: worker.recorded }),
        AudioStep::CheckStopAgain(worker) => after == AudioStep::Finish || after
            == AudioStep::Stamp(Stamping { recorded: worker.recorded }),
        AudioStep::Stamp(worker) => after matches AudioStep::Send { frame, initial, next }
            && initial == !worker.recorded,
        AudioStep::Send { frame, initial, next } => after == AudioStep::Finish || after
            == AudioStep::CheckStop(Idle { recorded: true }),
        AudioStep::Finish => false,
    }
}

/// The first step of a worker.
pub fn begin() -> (r: AudioStep)
    ensures
        r == AudioStep::CheckStop(Idle { recorded: false }),
{
    AudioStep::CheckStop(Idle { recorded: false })
}

impl Idle {
    /// Goes on to read, unless told to stop.
    pub fn observed(self, stop: bool) -> (r: AudioStep)
        ensures
            r == (if stop {
                AudioStep::Finish
            } else {
                AudioStep::Read(Reading { recorded: self.recorded })
            }),
            follows(AudioStep::CheckStop(self), r),
    {
        if stop {
            AudioStep::Finish
        } else {
            AudioStep::Read(Reading { recorded: self.recorded })
        }
    }
}

impl Reading {
    /// Goes on with the block, or ends where the read failed.
    pub fn read(self, succeeded: bool) -> (r: AudioStep)
        ensures
            r == (if succeeded {
                AudioStep::CheckStopAgain(Filled { recorded: self.recorded })
            } else {
                AudioStep::Finish
            }),
            follows(AudioStep::Read(self), r),
    {
        if succeeded {
            AudioStep::CheckStopAgain(Filled { recorded: self.recorded })
        } else {
            AudioStep::Finish
        }
    }
}

impl Filled {
    /// Goes on to time the block, unless told to stop.
    pub fn observed(self, stop: bool) -> (r: AudioStep)
        ensures
            r == (if stop {
                AudioStep::Finish
            } else {
                AudioStep::Stamp(Stamping { recorded: self.recorded })
            }),
            follows(AudioStep::CheckStopAgain(self), r),
    {
        if stop {
            AudioStep::Finish
        } else {
            AudioStep::Stamp(Stamping { recorded: self.recorded })
        }
    }
}

/// The latency in nanoseconds: as the server reported it, or none where the query failed.
pub open spec fn latency_nanos(micros: Option<u64>) -> int {
    match micros {
        Some(micros) => micros * 1_000,
        None => 0,
    }
}

/// Whether `frame` is the block that holds `data` and began where its read and the latency
/// put it.
pub open spec fn is_block(
    frame: AudioFrame,
    data: Vec<u8>,
    read_completed: SystemTime,
    micros: Option<u64>,
) -> bool {
    &&& frame.format == AudioFormat::I16
    &&& frame.channels == CHANNELS
    &&& !frame.is_planar
    &&& frame.data == data
    &&& frame.sample_count == FRAMES_PER_BUFFER
    &&& frame.rate == SAMPLE_RATE
    &&& frame.time@ == block_start(read_completed@, latency_nanos(micros), block_nanos())
}

impl Stamping {
    /// Makes the frame of the block, from the moment its read completed and the latency in
    /// microseconds, if the server gave one.
    pub fn stamped(self, read_completed: SystemTime, micros: Option<u64>, data: Vec<u8>) -> (r:
        AudioStep)
        ensures
            r matches AudioStep::Send { frame, initial, next } && is_block(
                frame,
                data,
                read_completed,
                micros,
            ) && initial == !self.recorded,
            follows(AudioStep::Stamp(self), r),
    {
        let latency: Duration = match micros {
            Some(micros) => Duration::from_micros(micros),
            None => Duration::zero(),
        };
        let time: SystemTime = timestamp_for_buffer(read_completed, latency, buffer_duration());
        AudioStep::Send {
            frame: AudioFrame {
                format: AudioFormat::I16,
                channels: CHANNELS as u16,
                is_planar: false,
                data,
                sample_count: FRAMES_PER_BUFFER,
                rate: SAMPLE_RATE,
                time,
            },
            initial: !self.recorded,
            next: Sending,
        }
    }
}

impl Sending {
    /// Goes back to the top, or ends where nobody takes frames any more.
    pub fn sent(self, delivered: bool) -> (r: AudioStep)
        ensures
            r == (if delivered {
                AudioStep::CheckStop(Idle { recorded: true })
            } else {
                AudioStep::Finish
            }),
            forall|frame: AudioFrame, initial: bool|
                #[trigger] follows(AudioStep::Send { frame, initial, next: self }, r),
    {
        if delivered {
            AudioStep::CheckStop(Idle { recorded: true })
        } else {
            AudioStep::Finish
        }
    }
}

/// A block holds 20 ms of sound: its samples take its bytes, and play for its length.
pub proof fn law_block_is_twenty_milliseconds()
    ensures
        BUFFER_BYTES == FRAMES_PER_BUFFER * CHANNELS * BYTES_PER_SAMPLE,
        block_nanos() * SAMPLE_RATE == FRAMES_PER_BUFFER * NANOS_PER_SEC,
        block_nanos() == 20 * 1_000_000,
{
}

/// From its timestamp, a block plays for its length and then waits out the latency until its
/// read completes, wherever the timestamp can be represented.
pub proof fn law_block_ends_latency_before_read(read_completed: int, latency: int, block: int)
    requires
        latency + block <= duration_max(),
        representable(read_completed - latency - block),
    ensures
        block_start(read_completed, latency, block) + block + latency == read_completed,
{
}

/// A stream is recorded once: a start that spawns a worker leaves no stream, no start or stop
/// brings one back, and without one no start spawns a worker.
pub proof fn law_stream_is_recorded_once(capturer: PulseAudioCapturer)
    ensures
        capturer.can_start() ==> !capturer.started().has_stream,
        !capturer.has_stream ==> !capturer.can_start() && !capturer.started().has_stream
            && !capturer.stopped().has_stream,
{
}

/// What the capturer is made as, and what every start and stop leaves, is valid.
pub proof fn law_capturer_stays_valid(capturer: PulseAudioCapturer)
    requires
        capturer.valid(),
    ensures
        capturer.started().valid(),
        capturer.stopped().valid(),
{
}

/// A second start does nothing, and neither does a second stop.
pub proof fn law_repeating_changes_nothing(capturer: PulseAudioCapturer)
    ensures
        capturer.started().started() == capturer.started(),
        !capturer.started().can_start(),
        capturer.stopped().stopped() == capturer.stopped(),
        !capturer.stopped().running,
{
}

/// The first timestamp is recorded once: a step with nothing left to record is followed only by
/// such steps, and so is the step that records it.
pub proof fn law_first_timestamp_is_recorded_once(before: AudioStep, after: AudioStep)
    requires
        follows(before, after),
    ensures
        !awaits_record(before) ==> !awaits_record(after),
        before is Send ==> !awaits_record(after),
        after matches AudioStep::Send { frame, initial, next } ==> initial == awaits_record(before),
{
}

/// A block that is handed out has the bytes that were read, in their order, and is told as what it
/// was recorded as: signed samples of 16 bits, two channels side by side, 960 samples each, 48000
/// of them a second.
pub proof fn law_block_has_the_bytes_that_were_read(
    frame: AudioFrame,
    data: Vec<u8>,
    read_completed: SystemTime,
    micros: Option<u64>,
)
    requires
        is_block(frame, data, read_completed, micros),
    ensures
        frame.data@.len() == data@.len(),
        forall|i: int| 0 <= i < data@.len() ==> #[trigger] frame.data@[i] == data@[i],
        frame.format == AudioFormat::I16,
        frame.channels == 2,
        !frame.is_planar,
        frame.sample_count == 960,
        frame.rate == 48_000,
{
}

/// A block began 20 ms and the latency before its read completed, and without a latency 20 ms
/// before, wherever the clock can represent that.
pub proof fn law_block_began_before_its_read(
    frame: AudioFrame,
    data: Vec<u8>,
    read_completed: SystemTime,
    micros: Option<u64>,
)
    requires
        is_block(frame, data, read_completed, micros),
        representable(read_completed@ - 20_000_000 - (match micros {
            Some(micros) => micros * 1_000,
            None => 0,
        })),
    ensures
        micros matches Some(micros) ==> frame.time@ + 20_000_000 + micros * 1_000
            == read_completed@,
        micros is None ==> frame.time@ + 20_000_000 == read_completed@,
{
}

/// A block whose beginning the clock cannot represent is put at the Unix epoch, and every other at
/// its beginning. The span that it is put back by is at most the longest one.
pub proof fn law_block_start_is_exact_or_the_epoch(read_completed: int, latency: int, block: int)
    ensures
        ({
            let longest = 0x1_0000_0000_0000_0000 * 1_000_000_000 - 1;
            let back = if latency + block <= longest {
                latency + block
            } else {
                longest
            };
            let lowest = -0x8000_0000_0000_0000 * 1_000_000_000;
            let highest = 0x8000_0000_0000_0000 * 1_000_000_000 - 1;
            block_start(read_completed, latency, block) == if lowest <= read_completed - back
                <= highest {
                read_completed - back
            } else {
                0
            }
        }),
{
}

/// The source is the one that the setting names, whatever it says, and without one the monitor of
/// the default output.
pub proof fn law_named_source_is_recorded(source: Seq<char>)
    ensures
        source_of(Some(source)) == source,
        source_of(None) == "@DEFAULT_MONITOR@"@,
{
}

/// A start spawns a worker exactly where there is a stream and no worker; then the stream is gone,
/// a worker runs and is not told to stop. Else a start changes nothing. A stop tells the worker to
/// stop, waits for it, and leaves the stream where it is.
pub proof fn law_start_and_stop(capturer: PulseAudioCapturer)
    ensures
        capturer.can_start() <==> capturer.has_stream && !capturer.running,
        capturer.has_stream && !capturer.running ==> !capturer.started().has_stream
            && capturer.started().running && !capturer.started().stop,
        !(capturer.has_stream && !capturer.running) ==> capturer.started() == capturer,
        capturer.stopped().has_stream == capturer.has_stream,
        !capturer.stopped().running,
        capturer.stopped().stop,
        capturer.valid() <==> !capturer.has_stream || !capturer.running,
{
}

/// A worker goes round: it looks, reads, looks again, notes the time, hands out, and looks again;
/// it ends at most where it looked, read or handed out, and having ended does nothing more.
pub proof fn law_worker_goes_round(before: AudioStep, after: AudioStep)
    requires
        follows(before, after),
    ensures
        before is CheckStop ==> after is Read || after is Finish,
        before is Read ==> after is CheckStopAgain || after is Finish,
        before is CheckStopAgain ==> after is Stamp || after is Finish,
        before is Stamp ==> after is Send,
        before is Send ==> after is CheckStop || after is Finish,
        !(before is Finish),
{
}

} // verus!

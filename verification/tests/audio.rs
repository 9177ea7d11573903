use scap::frame::AudioFormat;
use scap::linux::audio::{
    begin, buffer_duration, record_request, timestamp_for_buffer, AudioStep, PulseAudioCapturer,
    BUFFER_BYTES, CHANNELS, FRAMES_PER_BUFFER, SAMPLE_RATE,
};
use scap::time::{Duration, SystemTime};

fn after_epoch(span: Duration) -> SystemTime {
    SystemTime::unix_epoch().checked_add(span).unwrap()
}

#[test]
fn audio_timestamp_accounts_for_server_latency_and_block_duration() {
    let read_completed = after_epoch(Duration::from_secs(10));
    assert_eq!(
        timestamp_for_buffer(
            read_completed,
            Duration::from_millis(120),
            Duration::from_millis(20),
        ),
        after_epoch(Duration::from_millis(9_860))
    );
}

#[test]
fn block_before_the_clock_begins_at_the_epoch() {
    let longest = Duration::from_secs(u64::MAX);
    assert_eq!(
        timestamp_for_buffer(after_epoch(Duration::from_secs(1)), longest, longest),
        SystemTime::unix_epoch()
    );
}

#[test]
fn block_before_the_epoch_keeps_its_timestamp() {
    assert_eq!(
        timestamp_for_buffer(
            SystemTime::unix_epoch(),
            Duration::from_millis(5),
            Duration::from_millis(20)
        ),
        SystemTime::unix_epoch()
            .checked_sub(Duration::from_millis(25))
            .unwrap()
    );
}

#[test]
fn block_lasts_twenty_milliseconds() {
    assert_eq!(buffer_duration(), Duration::from_millis(20));
    assert_eq!(BUFFER_BYTES, 3_840);
    assert_eq!(FRAMES_PER_BUFFER * usize::from(CHANNELS) * 2, BUFFER_BYTES);
}

#[test]
fn recording_is_requested_in_small_fragments() {
    let request = record_request(None);
    assert_eq!(request.source, "@DEFAULT_MONITOR@");
    assert_eq!((request.channels, request.rate), (2, 48_000));
    assert_eq!((request.maxlength, request.fragsize), (30_720, 3_840));
    assert_eq!(
        (request.tlength, request.prebuf, request.minreq),
        (u32::MAX, u32::MAX, u32::MAX)
    );
    assert_eq!(record_request(Some("card.monitor")).source, "card.monitor");
    assert_eq!(record_request(Some("")).source, "");
}

#[test]
fn source_that_does_not_open_is_quoted() {
    let error = PulseAudioCapturer::new("a \"b\"\n", Err("Connection refused")).unwrap_err();
    assert_eq!(
        error.message(),
        "Linux audio capture could not open PulseAudio source \"a \\\"b\\\"\\n\": Connection refused"
    );
}

#[test]
fn stream_is_recorded_once() {
    let mut capturer = PulseAudioCapturer::new("x", Ok(())).unwrap();
    assert!(!capturer.stop_capture());
    assert!(capturer.start_capture());
    assert!(!capturer.stop);
    assert!(!capturer.start_capture());
    assert!(capturer.stop_capture());
    assert!(capturer.stop);
    assert!(!capturer.stop_capture());
    assert!(!capturer.start_capture());
}

fn to_stamp(step: AudioStep) -> AudioStep {
    let step = match step {
        AudioStep::CheckStop(worker) => worker.observed(false),
        other => panic!("{other:?}"),
    };
    let step = match step {
        AudioStep::Read(worker) => worker.read(true),
        other => panic!("{other:?}"),
    };
    match step {
        AudioStep::CheckStopAgain(worker) => worker.observed(false),
        other => panic!("{other:?}"),
    }
}

fn stamped(step: AudioStep, micros: Option<u64>) -> AudioStep {
    match to_stamp(step) {
        AudioStep::Stamp(worker) => {
            worker.stamped(after_epoch(Duration::from_secs(10)), micros, vec![1, 2, 3])
        }
        other => panic!("{other:?}"),
    }
}

#[test]
fn worker_records_its_first_timestamp_only() {
    let step = match stamped(begin(), Some(120_000)) {
        AudioStep::Send { frame, initial, next } => {
            assert!(initial);
            assert_eq!(frame.format, AudioFormat::I16);
            assert_eq!(frame.channels, 2);
            assert!(!frame.is_planar);
            assert_eq!(frame.data, vec![1, 2, 3]);
            assert_eq!(frame.sample_count, 960);
            assert_eq!(frame.rate, SAMPLE_RATE);
            assert_eq!(frame.time, after_epoch(Duration::from_millis(9_860)));
            next.sent(true)
        }
        other => panic!("{other:?}"),
    };
    match stamped(step, None) {
        AudioStep::Send { frame, initial, next } => {
            assert!(!initial);
            assert_eq!(frame.time, after_epoch(Duration::from_millis(9_980)));
            assert!(matches!(next.sent(false), AudioStep::Finish));
        }
        other => panic!("{other:?}"),
    }
}

#[test]
fn worker_ends_when_told_or_when_a_read_fails() {
    match begin() {
        AudioStep::CheckStop(worker) => {
            assert!(matches!(worker.observed(true), AudioStep::Finish))
        }
        other => panic!("{other:?}"),
    }
    let reading = match begin() {
        AudioStep::CheckStop(worker) => worker.observed(false),
        other => panic!("{other:?}"),
    };
    match reading {
        AudioStep::Read(worker) => assert!(matches!(worker.read(false), AudioStep::Finish)),
        other => panic!("{other:?}"),
    }
    let filled = match begin() {
        AudioStep::CheckStop(worker) => match worker.observed(false) {
            AudioStep::Read(worker) => worker.read(true),
            other => panic!("{other:?}"),
        },
        other => panic!("{other:?}"),
    };
    match filled {
        AudioStep::CheckStopAgain(worker) => {
            assert!(matches!(worker.observed(true), AudioStep::Finish))
        }
        other => panic!("{other:?}"),
    }
}

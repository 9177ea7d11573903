//! The capturer that is handed out: one backend for video, and audio beside it.

use crate::linux::audio::PulseAudioCapturer;
use crate::linux::pipewire::{CapturerState, Control, PipeWireCapturer};
use crate::linux::x11::capture::X11Capturer;
use vstd::prelude::*;

verus! {

/// The capturer of one of the backends for video.
#[derive(Clone, Copy, Debug, PartialEq, Eq, Structural)]
pub enum LinuxVideoCapturer {
    PipeWire(PipeWireCapturer),
    X11(X11Capturer),
}

/// A capturer for video, and for audio where it was asked for.
#[derive(Clone, Copy, Debug)]
pub struct LinuxCapturer {
    pub video: LinuxVideoCapturer,
    pub audio: Option<PulseAudioCapturer>,
}

/// The workers that a start spawns: for video first, then for audio.
#[derive(Clone, Copy, Debug, PartialEq, Eq, Structural)]
pub struct StartActions {
    pub spawn_x11: bool,
    pub spawn_audio: bool,
}

/// What a stop does about audio: whether it waits for its worker, before it goes on to video.
#[derive(Debug)]
pub struct StopAudio {
    pub join: bool,
    pub next: AudioStopped,
}

/// A stop whose part on audio is over.
#[derive(Debug)]
pub struct AudioStopped;

/// What a stop does about video: whether it waits for its worker. When that of PipeWire is gone,
/// its control is made ready again.
#[derive(Clone, Copy, Debug, PartialEq, Eq, Structural)]
pub struct StopVideo {
    pub join: bool,
    pub reset_control: bool,
}

impl LinuxVideoCapturer {
    /// The capturer after a start.
    pub open spec fn started(self) -> LinuxVideoCapturer {
        match self {
            LinuxVideoCapturer::PipeWire(capturer) => self,
            LinuxVideoCapturer::X11(capturer) => LinuxVideoCapturer::X11(
                X11Capturer { running: true, ..capturer },
            ),
        }
    }

    /// The capturer after a stop.
    pub open spec fn stopped(self) -> LinuxVideoCapturer {
        match self {
            LinuxVideoCapturer::PipeWire(capturer) => LinuxVideoCapturer::PipeWire(
                PipeWireCapturer { has_worker: false, ..capturer },
            ),
            LinuxVideoCapturer::X11(capturer) => LinuxVideoCapturer::X11(
                X11Capturer { running: false, ..capturer },
            ),
        }
    }
}

impl LinuxCapturer {
    /// The capturer after a start.
    pub open spec fn started(self) -> LinuxCapturer {
        LinuxCapturer {
            video: self.video.started(),
            audio: match self.audio {
                Some(audio) => Some(audio.started()),
                None => None,
            },
        }
    }

    /// The capturer after the part of a stop on audio.
    pub open spec fn audio_stopped(self) -> LinuxCapturer {
        LinuxCapturer {
            video: self.video,
            audio: match self.audio {
                Some(audio) => Some(audio.stopped()),
                None => None,
            },
        }
    }

    /// The capturer after the part of a stop on video.
    pub open spec fn video_stopped(self) -> LinuxCapturer {
        LinuxCapturer { video: self.video.stopped(), audio: self.audio }
    }

    /// The capturer after a stop.
    pub open spec fn stopped(self) -> LinuxCapturer {
        self.audio_stopped().video_stopped()
    }

    /// The workers that a start spawns.
    pub open spec fn start_actions(self) -> StartActions {
        StartActions {
            spawn_x11: self.video matches LinuxVideoCapturer::X11(capturer) && !capturer.running,
            spawn_audio: self.audio matches Some(audio) && audio.can_start(),
        }
    }

    /// Whether a stop waits for the worker of audio.
    pub open spec fn joins_audio(self) -> bool {
        self.audio matches Some(audio) && audio.running
    }

    /// What a stop does about video.
    pub open spec fn stop_video(self) -> StopVideo {
        StopVideo {
            join: match self.video {
                LinuxVideoCapturer::PipeWire(capturer) => capturer.has_worker,
                LinuxVideoCapturer::X11(capturer) => capturer.running,
            },
            reset_control: self.video is PipeWire,
        }
    }

    /// Starts the capture of video, then that of audio.
    pub fn start_capture(&mut self, control: &mut Control) -> (r: StartActions)
        ensures
            r == old(self).start_actions(),
            *final(self) == old(self).started(),
            *final(control) == (if old(self).video is PipeWire {
                Control { state: CapturerState::Started, ..*old(control) }
            } else {
                *old(control)
            }),
    {
        let spawn_x11: bool = match &mut self.video {
            LinuxVideoCapturer::PipeWire(capturer) => {
                capturer.start_capture(control);
                false
            },
            LinuxVideoCapturer::X11(capturer) => capturer.start_capture(),
        };
        let spawn_audio: bool = match &mut self.audio {
            Some(audio) => audio.start_capture(),
            None => false,
        };
        StartActions { spawn_x11, spawn_audio }
    }

    /// Stops the capture of audio. That of video is stopped by what comes next, once the worker
    /// of audio is gone.
    pub fn stop_capture(&mut self) -> (r: StopAudio)
        ensures
            r.join == old(self).joins_audio(),
            *final(self) == old(self).audio_stopped(),
    {
        let join: bool = match &mut self.audio {
            Some(audio) => audio.stop_capture(),
            None => false,
        };
        StopAudio { join, next: AudioStopped }
    }

    /// The width and height of the frames.
    pub fn output_size(&self) -> (r: [u32; 2])
        ensures
            r@ == (match self.video {
                LinuxVideoCapturer::PipeWire(capturer) => seq![capturer.width, capturer.height],
                LinuxVideoCapturer::X11(capturer) => seq![
                    capturer.layout.width as u32,
                    capturer.layout.height as u32,
                ],
            }),
    {
        match &self.video {
            LinuxVideoCapturer::PipeWire(capturer) => capturer.output_size(),
            LinuxVideoCapturer::X11(capturer) => capturer.output_size(),
        }
    }
}

impl AudioStopped {
    /// Stops the capture of video.
    pub fn proceed(self, capturer: &mut LinuxCapturer, control: &mut Control) -> (r: StopVideo)
        ensures
            r == old(capturer).stop_video(),
            *final(capturer) == old(capturer).video_stopped(),
            *final(control) == (if old(capturer).video is PipeWire {
                Control { state: CapturerState::Stopping, ..*old(control) }
            } else {
                *old(control)
            }),
    {
        match &mut capturer.video {
            LinuxVideoCapturer::PipeWire(video) => {
                let join: bool = video.stop_capture(control);
                StopVideo { join, reset_control: true }
            },
            LinuxVideoCapturer::X11(video) => {
                let join: bool = video.stop_capture();
                StopVideo { join, reset_control: false }
            },
        }
    }
}

/// A capturer that runs spawns no second worker, and after a stop there is none left to wait
/// for.
pub proof fn law_one_worker_each(capturer: LinuxCapturer)
    ensures
        capturer.started().start_actions() == (StartActions {
            spawn_x11: false,
            spawn_audio: false,
        }),
        !capturer.stopped().joins_audio(),
        !capturer.stopped().stop_video().join,
{
}

/// The part of a stop on audio leaves video as it is, and the part on video leaves audio.
pub proof fn law_stop_parts_are_apart(capturer: LinuxCapturer)
    ensures
        capturer.audio_stopped().video == capturer.video,
        capturer.audio_stopped().stop_video() == capturer.stop_video(),
        !capturer.audio_stopped().joins_audio(),
        capturer.stopped().audio == capturer.audio_stopped().audio,
{
}

/// After a stop, video on X11 can be started again, and audio cannot once it was recorded.
pub proof fn law_only_x11_starts_again(capturer: LinuxCapturer)
    requires
        capturer.audio matches Some(audio) ==> audio.valid(),
    ensures
        capturer.video is X11 ==> capturer.started().stopped().start_actions().spawn_x11,
        !capturer.started().stopped().start_actions().spawn_audio,
{
}

/// A start leaves PipeWire and a capturer without audio as they are, makes X11 run on the layout
/// that it has, and starts audio where there is any.
pub proof fn law_start_reaches_each_part(capturer: LinuxCapturer)
    ensures
        match capturer.video {
            LinuxVideoCapturer::PipeWire(_) => capturer.started().video == capturer.video,
            LinuxVideoCapturer::X11(video) => capturer.started().video matches
                LinuxVideoCapturer::X11(started) && started.layout == video.layout
                && started.running,
        },
        capturer.audio is None ==> capturer.started().audio is None,
        capturer.audio matches Some(audio) ==> capturer.started().audio == Some(audio.started()),
{
}

/// A stop leaves no worker: that of PipeWire is gone and the size stays, X11 runs no more on the
/// layout that it has, and audio is stopped where there is any.
pub proof fn law_stop_reaches_each_part(capturer: LinuxCapturer)
    ensures
        match capturer.video {
            LinuxVideoCapturer::PipeWire(video) => capturer.stopped().video matches
                LinuxVideoCapturer::PipeWire(stopped) && stopped.width == video.width
                && stopped.height == video.height && !stopped.has_worker,
            LinuxVideoCapturer::X11(video) => capturer.stopped().video matches
                LinuxVideoCapturer::X11(stopped) && stopped.layout == video.layout
                && !stopped.running,
        },
        capturer.audio is None ==> capturer.stopped().audio is None,
        capturer.audio matches Some(audio) ==> capturer.stopped().audio == Some(audio.stopped()),
{
}

/// A start spawns a worker for X11 exactly where it does not run, and one for audio exactly where
/// audio has a stream and does not run. A stop waits for audio and for X11 exactly where they run,
/// and for PipeWire exactly where it has a worker, whose control alone is made ready again.
pub proof fn law_workers_are_those_that_run(capturer: LinuxCapturer)
    ensures
        capturer.start_actions().spawn_audio <==> (capturer.audio matches Some(audio)
            && audio.has_stream && !audio.running),
        capturer.joins_audio() <==> (capturer.audio matches Some(audio) && audio.running),
        match capturer.video {
            LinuxVideoCapturer::PipeWire(video) => {
                &&& !capturer.start_actions().spawn_x11
                &&& capturer.stop_video().join == video.has_worker
                &&& capturer.stop_video().reset_control
            },
            LinuxVideoCapturer::X11(video) => {
                &&& capturer.start_actions().spawn_x11 == !video.running
                &&& capturer.stop_video().join == video.running
                &&& !capturer.stop_video().reset_control
            },
        },
{
}

} // verus!

use scap::linux::audio::PulseAudioCapturer;
use scap::linux::capturer::{LinuxCapturer, LinuxVideoCapturer, StartActions, StopVideo};
use scap::linux::pipewire::{CapturerState, Control, PipeWireCapturer};
use scap::linux::x11::capture::X11Capturer;
use scap::linux::x11::layout::ImageLayout;

fn x11() -> LinuxVideoCapturer {
    LinuxVideoCapturer::X11(X11Capturer {
        layout: ImageLayout {
            root: 1,
            x: 0,
            y: 0,
            width: 800,
            height: 600,
            depth: 24,
            bits_per_pixel: 32,
            scanline_pad: 32,
            little_endian: true,
            red_mask: 0xff0000,
            green_mask: 0xff00,
            blue_mask: 0xff,
        },
        running: false,
    })
}

fn pipewire() -> LinuxVideoCapturer {
    LinuxVideoCapturer::PipeWire(PipeWireCapturer { has_worker: true, width: 320, height: 200 })
}

fn stop(capturer: &mut LinuxCapturer, control: &mut Control) -> (bool, StopVideo) {
    let audio = capturer.stop_capture();
    (audio.join, audio.next.proceed(capturer, control))
}

fn audio() -> Option<PulseAudioCapturer> {
    Some(PulseAudioCapturer::new("x", Ok(())).unwrap())
}

#[test]
fn x11_and_audio_workers_are_spawned_once() {
    let mut control = Control::new();
    let mut capturer = LinuxCapturer { video: x11(), audio: audio() };
    assert_eq!(capturer.output_size(), [800, 600]);
    assert_eq!(
        capturer.start_capture(&mut control),
        StartActions { spawn_x11: true, spawn_audio: true }
    );
    assert_eq!(
        capturer.start_capture(&mut control),
        StartActions { spawn_x11: false, spawn_audio: false }
    );
    assert_eq!(
        stop(&mut capturer, &mut control),
        (true, StopVideo { join: true, reset_control: false })
    );
    assert_eq!(
        stop(&mut capturer, &mut control),
        (false, StopVideo { join: false, reset_control: false })
    );
    assert_eq!(
        capturer.start_capture(&mut control),
        StartActions { spawn_x11: true, spawn_audio: false }
    );
    assert_eq!(control.state, CapturerState::Waiting);
}

#[test]
fn pipewire_is_driven_by_its_control() {
    let mut control = Control::new();
    let mut capturer = LinuxCapturer { video: pipewire(), audio: None };
    assert_eq!(capturer.output_size(), [320, 200]);
    assert_eq!(
        capturer.start_capture(&mut control),
        StartActions { spawn_x11: false, spawn_audio: false }
    );
    assert_eq!(control.state, CapturerState::Started);
    assert_eq!(
        stop(&mut capturer, &mut control),
        (false, StopVideo { join: true, reset_control: true })
    );
    assert_eq!(control.state, CapturerState::Stopping);
    assert_eq!(
        stop(&mut capturer, &mut control),
        (false, StopVideo { join: false, reset_control: true })
    );
}

#[test]
fn audio_is_stopped_before_video() {
    let mut control = Control::new();
    let mut capturer = LinuxCapturer { video: pipewire(), audio: audio() };
    capturer.start_capture(&mut control);
    let stop = capturer.stop_capture();
    assert!(stop.join);
    assert_eq!(control.state, CapturerState::Started);
    assert_eq!(capturer.video, pipewire());
    assert_eq!(
        stop.next.proceed(&mut capturer, &mut control),
        StopVideo { join: true, reset_control: true }
    );
    assert_eq!(control.state, CapturerState::Stopping);
}

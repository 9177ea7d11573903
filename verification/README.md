# scap

Screen and audio capture for Linux, and the capture targets of macOS, with the rules that
decide what is captured proved in Verus.

- `src/` is the library. It makes no connections: it takes what the desktop answered as plain
  values and says what to do next.
  - `linux::backend`: the choice between PipeWire and X11, and the order of the probes.
  - `linux::pipewire`: the stream's negotiation, its timestamps, its frames and its worker.
  - `linux::x11`: the layout of the image, its decoding, and the capture loop with its shared
    memory.
  - `linux::audio`: the recording of what the machine plays, and when each block began.
  - `linux::capturer`: video and audio started and stopped together.
  - `targets`: displays and windows, their names and their scale.
  - `python`: what the Python module checks and hands out.
  - `time`, `coordinate`, `text`: clocks, double precision numbers by their bits, and strings.
- `app/` connects the library to D-Bus, PipeWire, the X server, PulseAudio, CoreGraphics and
  Python.
- `tests/` runs the library on concrete values.

The settings are the environment variables `SCAP_BACKEND` (`pipewire` or `x11`; unset leaves the
choice open), `SCAP_AUDIO_SOURCE` (a PulseAudio source; unset records the monitor of the default
output) and `DISPLAY`.

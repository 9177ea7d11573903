//! Captured frames.

use crate::time::SystemTime;
use vstd::prelude::*;

verus! {

/// The pixel format that a capture is asked for.
#[derive(Clone, Copy, Debug, PartialEq, Eq, Structural)]
pub enum FrameType {
    YUVFrame,
    BGR0,
    RGB,
    BGRAFrame,
}

/// Interleaved pixels, row by row from the top.
#[derive(Debug)]
pub struct PixelFrame {
    pub display_time: SystemTime,
    pub width: i32,
    pub height: i32,
    pub data: Vec<u8>,
}

/// A frame with its luminance apart from its chrominance.
#[derive(Debug)]
pub struct PlanarFrame {
    pub display_time: SystemTime,
    pub width: i32,
    pub height: i32,
    pub luminance: Vec<u8>,
    pub chrominance: Vec<u8>,
}

/// A frame of video, by its pixel format.
#[derive(Debug)]
pub enum VideoFrame {
    YUVFrame(PlanarFrame),
    RGB(PixelFrame),
    RGBx(PixelFrame),
    XBGR(PixelFrame),
    BGRx(PixelFrame),
    BGR0(PixelFrame),
    BGRA(PixelFrame),
}

/// The type of one audio sample.
#[derive(Clone, Copy, Debug, PartialEq, Eq, Structural)]
pub enum AudioFormat {
    I8,
    I16,
    I32,
    I64,
    U8,
    U16,
    U32,
    U64,
    F32,
    F64,
}

/// A block of audio.
#[derive(Debug)]
pub struct AudioFrame {
    pub format: AudioFormat,
    pub channels: u16,
    pub is_planar: bool,
    pub data: Vec<u8>,
    pub sample_count: usize,
    pub rate: u32,
    pub time: SystemTime,
}

/// A frame of either kind.
#[derive(Debug)]
pub enum Frame {
    Video(VideoFrame),
    Audio(AudioFrame),
}

} // verus!

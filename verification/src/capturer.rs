//! What a capture is asked to do.

use crate::coordinate::Coordinate;
use crate::frame::FrameType;
use crate::targets::Target;
use vstd::prelude::*;

verus! {

/// The resolution of the frames that are handed out.
#[derive(Clone, Copy, Debug, PartialEq, Eq, Structural)]
pub enum Resolution {
    _480p,
    _720p,
    _1080p,
    _1440p,
    _2160p,
    _4320p,
    Captured,
}

/// A point on the screen.
#[derive(Clone, Copy, Debug, PartialEq, Eq, Structural)]
pub struct Point {
    pub x: Coordinate,
    pub y: Coordinate,
}

/// An extent on the screen.
#[derive(Clone, Copy, Debug, PartialEq, Eq, Structural)]
pub struct Size {
    pub width: Coordinate,
    pub height: Coordinate,
}

/// A rectangle on the screen.
#[derive(Clone, Copy, Debug, PartialEq, Eq, Structural)]
pub struct Area {
    pub origin: Point,
    pub size: Size,
}

/// The options of a capture.
#[derive(Clone, Debug)]
pub struct Options {
    pub fps: u32,
    pub show_cursor: bool,
    pub show_highlight: bool,
    pub target: Option<Target>,
    pub crop_area: Option<Area>,
    pub output_type: FrameType,
    pub output_resolution: Resolution,
    pub excluded_targets: Option<Vec<Target>>,
    pub captures_audio: bool,
    pub exclude_current_process_audio: bool,
}

} // verus!

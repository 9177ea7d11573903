//! The decisions of a screen and audio capture library: how raw images become
//! frames, which backend is used, when workers start and stop, and what the
//! Python binding hands out.

pub mod capturer;
pub mod coordinate;
pub mod frame;
pub mod linux;
pub mod python;
pub mod targets;
pub mod text;
pub mod time;
pub mod utils;

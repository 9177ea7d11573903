//! Capture on Linux.

pub mod audio;
pub mod backend;
pub mod capturer;
pub mod error;
pub mod pipewire;
pub mod x11;

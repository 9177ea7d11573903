//! Capture of an X11 root window.

pub mod capture;
pub mod convert;
pub mod layout;
pub mod pixel;
pub mod shared;
mod wire;

//! Numbers of the X11 protocol, from the crate that speaks it.

use vstd::prelude::*;
use x11rb::protocol::xproto::{ImageFormat, ImageOrder};

verus! {

/// The number for "least significant byte first": the constant `ImageOrder::LSB_FIRST` of
/// `x11rb`, converted by `u8::from`, is 0.
#[verifier::external_body]
pub(crate) fn least_significant_first() -> (r: u8)
    ensures
        r == 0,
{
    u8::from(ImageOrder::LSB_FIRST)
}

/// The number for an image of whole pixels: the constant `ImageFormat::Z_PIXMAP` of `x11rb`,
/// converted by `u8::from`, is 2.
#[verifier::external_body]
pub(crate) fn whole_pixels() -> (r: u8)
    ensures
        r == 2,
{
    u8::from(ImageFormat::Z_PIXMAP)
}

} // verus!

//! The questions that callers ask before they capture, on Linux.

use crate::linux::backend::{self, preference_of, support_step, SupportStep};
use crate::text::optional_text;
use vstd::prelude::*;

verus! {

/// Whether capture is supported, or the probe that is needed next to know.
pub fn is_supported(value: Option<&str>, pipewire: Option<bool>, x11: Option<bool>) -> (r:
    SupportStep)
    ensures
        r == support_step(preference_of(optional_text(value)), pipewire, x11),
{
    backend::is_supported(value, pipewire, x11)
}

/// Whether capture is permitted, or the probe that is needed next to know.
pub fn has_permission(value: Option<&str>, pipewire: Option<bool>, x11: Option<bool>) -> (r:
    SupportStep)
    ensures
        r == support_step(preference_of(optional_text(value)), pipewire, x11),
{
    backend::has_permission(value, pipewire, x11)
}

} // verus!

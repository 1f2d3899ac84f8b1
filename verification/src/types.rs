//! Shared constants and small helpers of the stereo pipeline.

use vstd::prelude::*;

verus! {

/// Number of eyes, and so of array layers in every stereo render target.
pub const VIEW_COUNT: u32 = 2;

/// The next eye shown in the desktop single-eye preview: pressing the
/// toggle key cycles between layer 0 (left) and layer 1 (right).
pub fn next_preview_eye(view_index: u32) -> (r: u32)
    requires
        view_index < 2,
    ensures
        r == (view_index + 1) % 2,
        r < 2,
{
    if view_index == 0 {
        1
    } else {
        0
    }
}

/// The label of the previewed eye, as shown in the window title.
pub fn preview_eye_label(view_index: u32) -> (r: &'static str)
    ensures
        view_index == 0 ==> r@ == "left"@,
        view_index != 0 ==> r@ == "right"@,
{
    if view_index == 0 {
        "left"
    } else {
        "right"
    }
}

} // verus!

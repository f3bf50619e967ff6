//! What a front end rebuilds when the window's size changes: the viewport
//! extent, and one framebuffer slot per swapchain image, in the images'
//! order.  The graphics objects themselves — the floating-point viewport
//! write and the framebuffer construction — belong to the front end; this
//! module plans them from plain values.

use vstd::prelude::*;

verus! {

/// The viewport a front end writes after a window-size change: the full
/// extent of the first swapchain image.  The graphics API's conventions fix
/// the rest of the viewport (zero origin, unit depth range), so only the
/// extent carries state worth planning.
#[derive(Clone, Copy, PartialEq, Eq, Structural, Debug)]
pub struct ViewportPlan {
    /// The first swapchain image's width, in pixels.
    pub width: u32,
    /// The first swapchain image's height, in pixels.
    pub height: u32,
}

/// Plans the window-size-dependent setup: a viewport over the first
/// image's extent (`width` by `height`), and one framebuffer slot per
/// swapchain image, each slot naming the image it is built over, in the
/// images' order.  A front end replaces its old viewport and framebuffers
/// with the planned ones.  A window with no swapchain images has nothing
/// to set up, so at least one image is required.
pub fn plan_window_setup(width: u32, height: u32, n_images: usize) -> (plan: (
    ViewportPlan,
    Vec<usize>,
))
    requires
        n_images >= 1,
    ensures
        plan.0.width == width,
        plan.0.height == height,
        plan.1.len() == n_images,
        forall|i: int| 0 <= i < n_images ==> plan.1[i] == i,
{
    let viewport = ViewportPlan { width: width, height: height };
    let mut slots: Vec<usize> = Vec::new();
    for i in 0..n_images
        invariant
            slots@.len() == i,
            forall|j: int| 0 <= j < i ==> slots@[j] == j,
    {
        slots.push(i);
    }
    (viewport, slots)
}

} // verus!

//! Frame targets: one per swapchain image, each binding the render-target
//! layout to that image's color view and the shared depth view.

use vstd::prelude::*;

verus! {

/// The surface extent in pixels.
#[derive(Clone, Copy, PartialEq, Eq, Structural, Debug)]
pub struct Extent2d {
    pub width: u32,
    pub height: u32,
}

impl Extent2d {
    /// A drawable extent: both dimensions nonzero.
    pub open spec fn is_nonzero(self) -> bool {
        self.width > 0 && self.height > 0
    }
}

/// One render target: the fixed-size attachment pair for one swapchain
/// image, a color view of its own and the depth view shared by all targets.
/// The views are named by the handles the surface collaborator exposes.
#[derive(Clone, Copy, PartialEq, Eq, Structural, Debug)]
pub struct FrameTarget {
    pub color_view: u64,
    pub depth_view: u64,
    pub extent: Extent2d,
}

/// Builds one frame target per color view, each binding that view and the
/// shared depth view at the given extent. The result always has exactly as
/// many targets as there are swapchain images, so a full rebuild after a
/// resize replaces the set wholesale.
pub fn build_frame_targets(color_views: &Vec<u64>, depth_view: u64, extent: Extent2d) -> (targets:
    Vec<FrameTarget>)
    ensures
        targets@.len() == color_views@.len(),
        forall|i: int|
            0 <= i < targets@.len() ==> #[trigger] targets@[i] == (FrameTarget {
                color_view: color_views@[i],
                depth_view,
                extent,
            }),
{
    let mut targets: Vec<FrameTarget> = Vec::new();
    let mut i: usize = 0;
    while i < color_views.len()
        invariant
            i <= color_views@.len(),
            targets@.len() == i,
            forall|j: int|
                0 <= j < i ==> #[trigger] targets@[j] == (FrameTarget {
                    color_view: color_views@[j],
                    depth_view,
                    extent,
                }),
        decreases color_views@.len() - i,
    {
        targets.push(FrameTarget { color_view: color_views[i], depth_view, extent });
        i = i + 1;
    }
    targets
}

} // verus!

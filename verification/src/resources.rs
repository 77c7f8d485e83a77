//! Per-surface-image derived objects: one render target per image of the
//! current chain, and the viewport that command recording reads. Targets are
//! stale the instant the surface is rebuilt and are always replaced as a
//! whole batch, never patched.

use vstd::prelude::*;

use crate::surface::Extent;
use crate::surface::Surface;

verus! {

/// The viewport that command recording reads. Its dimensions follow the
/// surface extent; its origin never changes after start-up. (The fixed depth
/// range the platform wants beside these is a pair of floating-point
/// constants and lives with the driver.)
#[derive(Clone, Copy, PartialEq, Eq, Structural, Debug)]
pub struct Viewport {
    pub origin_x: u32,
    pub origin_y: u32,
    pub width: u32,
    pub height: u32,
}

/// One render target: a full-image view of one surface image, bound into the
/// fixed render-pass layout. It remembers the surface generation it was
/// derived from, which tells a current target apart from a stale one.
#[derive(Clone, Copy, PartialEq, Eq, Structural, Debug)]
pub struct FrameTarget {
    /// Position of the backing image in the surface's chain.
    pub image_index: usize,
    /// Extent of the backing image.
    pub extent: Extent,
    /// Generation of the surface the target was derived from.
    pub surface_generation: u64,
    /// Handle of the fixed render-pass layout the target is bound to.
    pub render_pass: u64,
}

/// The target that a rebuild against `s` derives for the image at position
/// `i` of the chain.
pub open spec fn target_for(s: Surface, render_pass: u64, i: int) -> FrameTarget
    recommends
        0 <= i < s.image_count,
{
    FrameTarget {
        image_index: i as usize,
        extent: s.extent,
        surface_generation: s.generation,
        render_pass,
    }
}

/// `ts` is exactly the batch of targets that a rebuild against `s` derives:
/// one per image of the chain, in chain order.
pub open spec fn targets_for(s: Surface, render_pass: u64, ts: Seq<FrameTarget>) -> bool {
    &&& ts.len() == s.image_count
    &&& forall|i: int| 0 <= i < ts.len() ==> ts[i] == target_for(s, render_pass, i)
}

/// `v` refitted to extent `e`: dimensions follow the extent, the origin is
/// untouched.
pub open spec fn viewport_fitted(v: Viewport, e: Extent) -> Viewport {
    Viewport { width: e.width, height: e.height, ..v }
}

/// Derives the render targets for every image of `surface`'s chain — a
/// default full-image view each, bound into the fixed render-pass layout —
/// and refits the viewport's dimensions to the image extent, leaving its
/// origin untouched. Called exactly once per surface (re)creation, before
/// any acquire against the new surface; the result replaces the old batch
/// wholesale.
pub fn rebuild_targets(surface: &Surface, render_pass: u64, viewport: &mut Viewport) -> (ts: Vec<
    FrameTarget,
>)
    ensures
        targets_for(*surface, render_pass, ts@),
        *final(viewport) == viewport_fitted(*old(viewport), surface.extent),
{
    viewport.width = surface.extent.width;
    viewport.height = surface.extent.height;
    let mut ts: Vec<FrameTarget> = Vec::new();
    let mut i: usize = 0;
    while i < surface.image_count
        invariant
            i <= surface.image_count,
            ts@.len() == i,
            forall|k: int| 0 <= k < i ==> ts@[k] == target_for(*surface, render_pass, k),
        decreases surface.image_count - i,
    {
        ts.push(FrameTarget {
            image_index: i,
            extent: surface.extent,
            surface_generation: surface.generation,
            render_pass,
        });
        i = i + 1;
    }
    ts
}

} // verus!

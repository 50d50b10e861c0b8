use crate::pool::Pooled;
use vstd::prelude::*;

verus! {

/// Why the surface gave no texture to draw into.
#[derive(Clone, Copy, Debug, PartialEq, Eq, Structural)]
pub enum SurfaceFailure {
    Timeout,
    Outdated,
    Lost,
    OutOfMemory,
    Other,
}

/// What the render stage does about a frame whose texture could not be had.
#[derive(Clone, Copy, Debug, PartialEq, Eq, Structural)]
pub enum FrameAction {
    /// Reconfigure the surface and skip this frame.
    Reconfigure,
    /// Skip this frame.
    Skip,
    /// Stop rendering and leave the event loop.
    Abort,
}

/// A lost or outdated surface is reconfigured; a timeout skips the frame; running
/// out of memory or any other failure ends rendering.
pub fn on_surface_failure(failure: SurfaceFailure) -> (r: FrameAction)
    ensures
        r == (match failure {
            SurfaceFailure::Lost | SurfaceFailure::Outdated => FrameAction::Reconfigure,
            SurfaceFailure::Timeout => FrameAction::Skip,
            SurfaceFailure::OutOfMemory | SurfaceFailure::Other => FrameAction::Abort,
        }),
{
    match failure {
        SurfaceFailure::Lost | SurfaceFailure::Outdated => FrameAction::Reconfigure,
        SurfaceFailure::Timeout => FrameAction::Skip,
        SurfaceFailure::OutOfMemory | SurfaceFailure::Other => FrameAction::Abort,
    }
}

/// Vertices per quad: the shader builds each quad as a four-vertex triangle strip.
pub const VERTICES_PER_QUAD: u32 = 4;

/// An instanced draw: `vertex_count` vertices for each of `instance_count`
/// instances, both counted from zero.
#[derive(Clone, Copy, Debug, PartialEq, Eq, Structural)]
pub struct DrawCall {
    pub vertex_count: u32,
    pub instance_count: u32,
}

/// The draw for a storage buffer of `num_instances` quads: four vertices per
/// instance, one instance per quad.
pub fn draw_call(num_instances: u32) -> (r: DrawCall)
    ensures
        r == (DrawCall { vertex_count: VERTICES_PER_QUAD, instance_count: num_instances }),
{
    DrawCall { vertex_count: VERTICES_PER_QUAD, instance_count: num_instances }
}

/// The size the surface is configured with.
#[derive(Clone, Copy, Debug, PartialEq, Eq, Structural)]
pub struct SurfaceSize {
    pub width: u32,
    pub height: u32,
}

impl SurfaceSize {
    /// Applies a resize: `Some` with a zero side is ignored; `Some` with a size takes
    /// that size; `None` keeps the size. Returns whether the surface has to be
    /// configured again.
    pub fn resize(&mut self, size: Option<SurfaceSize>) -> (r: bool)
        ensures
            match size {
                Some(s) => if s.width == 0 || s.height == 0 {
                    !r && *final(self) == *old(self)
                } else {
                    r && *final(self) == s
                },
                None => r && *final(self) == *old(self),
            },
    {
        match size {
            Some(s) => {
                if s.width == 0 || s.height == 0 {
                    return false;
                }
                self.width = s.width;
                self.height = s.height;
                true
            },
            None => true,
        }
    }
}

/// Hands back every storage buffer that a frame used; run once the GPU has
/// finished the frame's work.
pub fn release_batch<B>(batch: &Vec<Pooled<B>>) {
    let mut i: usize = 0;
    while i < batch.len()
        invariant
            i <= batch@.len(),
        decreases batch@.len() - i,
    {
        batch[i].ready.release();
        i = i + 1;
    }
}

} // verus!

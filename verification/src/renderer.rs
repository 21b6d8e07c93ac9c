//! Per-frame render planning.
//!
//! One frame is rendered per redraw: the current surface texture is viewed
//! with the configured pixel format, cleared to the fixed background color,
//! and — only when a pipeline and vertex range were supplied — drawn once
//! over that range with a single instance.  This module fixes those
//! decisions; the host glue encodes and submits them, notifies the
//! windowing system and presents.

use crate::surface::{PixelFormat, SurfaceAcquisitionError, SurfaceConfiguration};
use vstd::prelude::*;

verus! {

/// An opaque color, one byte per channel.
#[derive(Clone, Copy, Debug, PartialEq, Eq, Structural)]
pub struct ClearColor {
    pub red: u8,
    pub green: u8,
    pub blue: u8,
    pub alpha: u8,
}

/// The fixed background every frame is cleared to: opaque black.
pub open spec fn background() -> ClearColor {
    ClearColor { red: 0, green: 0, blue: 0, alpha: 255 }
}

/// One draw call: a vertex range drawn over an instance range.
#[derive(Clone, Copy, Debug, PartialEq, Eq, Structural)]
pub struct DrawCall {
    pub first_vertex: u32,
    pub vertex_end: u32,
    pub first_instance: u32,
    pub instance_end: u32,
}

/// Everything one frame's render pass encodes.
#[derive(Clone, Copy, Debug, PartialEq, Eq, Structural)]
pub struct FramePlan {
    /// Format the frame's texture view is tagged with: always the one the
    /// surface is configured with.
    pub view_format: PixelFormat,
    /// Color the pass clears the target to before any draw.
    pub clear_color: ClearColor,
    /// The single optional draw call of the pass.
    pub draw: Option<DrawCall>,
}

/// Plans one frame against the current configuration: the view carries the
/// configured format, the pass clears to the fixed background, and a
/// supplied vertex range becomes exactly one draw call over one instance.
pub fn plan_frame(config: &SurfaceConfiguration, vertices: Option<(u32, u32)>) -> (plan: FramePlan)
    ensures
        plan.view_format == config.format,
        plan.clear_color == background(),
        vertices matches Some((first, end)) ==> plan.draw == Some(DrawCall {
            first_vertex: first,
            vertex_end: end,
            first_instance: 0,
            instance_end: 1,
        }),
        vertices is None ==> plan.draw is None,
{
    let draw = match vertices {
        Some((first, end)) => Some(DrawCall {
            first_vertex: first,
            vertex_end: end,
            first_instance: 0,
            instance_end: 1,
        }),
        None => None,
    };
    FramePlan {
        view_format: config.format,
        clear_color: ClearColor { red: 0, green: 0, blue: 0, alpha: 255 },
        draw,
    }
}

/// Policy on a failed frame acquisition: the failure stays local to this
/// redraw and the loop goes on.  An outdated or lost surface is owed a
/// reconfiguration before the next attempt; a timeout is transient and owes
/// none.
pub fn recover_after_acquisition_failure(error: SurfaceAcquisitionError) -> (reconfigure: bool)
    ensures
        reconfigure == (error is Outdated || error is Lost),
{
    match error {
        SurfaceAcquisitionError::Outdated => true,
        SurfaceAcquisitionError::Lost => true,
        SurfaceAcquisitionError::Timeout => false,
    }
}

} // verus!

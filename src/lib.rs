//! Overlay windows anchored to a primary window: the placement arithmetic,
//! the registry of live overlays and the decisions that keep their windows and
//! GPU surfaces in step with the primary window.

mod geometry;
mod lifecycle;
mod registry;
mod surface;

pub use geometry::{
    calculate_overlay_position, linear_segment, overlay_position, AbsolutePosition, Color,
    PhysicalPosition, Position, Size,
};
pub use lifecycle::{
    after_update, apply_moves, consistent, covers, lemma_move_restores_consistent,
    lemma_register_keeps_consistent, lemma_update_idempotent, placement, update_plan, OverlayError,
    OverlayMove, WindowPlacement,
};
pub use registry::{OverlayRegistry, OverlayWindowConfig};
pub use surface::{
    acquire_failed_step, render_step, RenderStep, SurfaceSettings, SurfaceState, FRAME_LATENCY,
};

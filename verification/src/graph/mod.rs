//! Frame organisation: per-pass decisions and render-state selection.
pub mod node;
pub mod frame_plan;
pub mod passes;
pub mod render_state;

//! A render-graph node that draws one triangle, and the frame loop that drives it.
pub mod layout;
pub mod pipeline;
pub mod frame_loop;
pub mod backend;
pub mod laws;

//! Rendering logic for hierarchical progress reports: the incremental line
//! renderer and the control state of the full-screen dashboard.
pub mod engine;
pub mod line;

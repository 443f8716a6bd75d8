//! Orchestration logic for a live camera + web-overlay mixer with an
//! optional, hot-pluggable recording branch.
pub mod actions;
pub mod dispatch;
pub mod graph;
pub mod overlay;
pub mod pipeline;
pub mod recording;
pub mod settings;
pub mod text;
pub mod topology;

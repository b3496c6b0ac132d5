//! A minimal real-time rendering core: geometry resources with a cached
//! GPU buffer registry, surface size tracking, and the per-frame command
//! protocol, verified against a model of the GPU operations each call
//! issues.

pub mod buffer_set;
pub mod camera;
pub mod gpu;
pub mod mesh;
pub mod render_context;

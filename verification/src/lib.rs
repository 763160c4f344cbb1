//! GPU-surface rendering lifecycle manager.
//!
//! Owns the connection to the graphics backend, negotiates a drawable
//! surface, builds a minimal draw pipeline, and exposes a typestate
//! command-recording protocol so that illegal operation orders (a draw
//! call outside an active render pass, recording before the surface is
//! configured) are unrepresentable by construction.

pub mod config;
pub mod errors;
pub mod gpu;
pub mod pipeline;
pub mod protocol;
pub mod renderer;
pub mod session;
pub mod surface;

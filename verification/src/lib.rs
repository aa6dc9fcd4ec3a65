//! Planning layer for two debug-rendering helpers of a game engine:
//! grid gizmo lines and a depth-of-field post-process pass.
//!
//! The host engine owns the GPU resources, the entity queries and the
//! floating-point geometry. This crate holds the part that can be stated
//! and proved exactly: which grid lines are emitted for a given number of
//! divisions, which pipeline key a view gets, and when a cached bind group
//! may be reused.

pub mod dof;
pub mod grid;

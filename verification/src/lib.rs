//! Verified core of a small 3D dodgeball demo built on a real-time engine.
//!
//! The engine itself (rendering, windowing, the entity store, the asset
//! pipeline) is an external collaborator driven from a thin runtime shell.
//! This crate holds everything the demo decides for itself, as plain data
//! with proved contracts: the scene the bootstrap routines spawn, the
//! sampler fixup applied when the two tracked textures finish loading, the
//! plugin registration plan, and the logging profiles.
//!
//! World coordinates are kept in thousandths of a world unit so that every
//! position, scale and colour in the plan is exact integer data; the shell
//! converts to the engine's floating-point types at the boundary.

pub mod fixup;
pub mod geometry;
pub mod logging;
pub mod plugin;
pub mod scene;

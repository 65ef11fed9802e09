//! Verified core of a small Vulkan-oriented game engine: model data and its
//! binary format, COLLADA document decoding, controls, scene switching,
//! timers, texture decoding and the renderer's pure decisions.

pub mod text;
pub mod model;
pub mod collada;
pub mod defs;
pub mod engine;
pub mod renderer;

//! Definitions shared across the engine: input abstractions, rendering
//! descriptions and the engine's error type.

pub mod control;
pub mod render;

use vstd::prelude::*;

verus! {

/// Error types used throughout the engine.
#[derive(Debug)]
pub enum EngineError {
    GeneralError(String),
    DecodeError(String),
    RenderError(String),
}

} // verus!

//! Pipeline configuration choices.

use vstd::prelude::*;

verus! {

#[derive(Copy, Clone, Debug, PartialEq, Eq, Structural)]
pub enum Shader {
    TextureFlat,
}

#[derive(Copy, Clone, Debug, PartialEq, Eq, Structural)]
pub enum Model {
    MenuScene,
    Grimace,
}

#[derive(Copy, Clone, Debug, PartialEq, Eq, Structural)]
pub enum TextureSource {
    Terrain,
    MusicaFont,
}

#[derive(Copy, Clone, Debug, PartialEq, Eq, Structural)]
pub enum Texture {
    Jpeg(TextureSource),
    Png(TextureSource),
}

/// A shader, model and texture to render with.
#[derive(Copy, Clone, Debug, PartialEq, Eq, Structural)]
pub struct PipelineConfig {
    pub shader: Shader,
    pub model: Model,
    pub texture: Texture,
}

} // verus!

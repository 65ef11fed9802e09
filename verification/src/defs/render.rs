//! Descriptions of what the renderer is asked to create and draw.

use vstd::prelude::*;
use std::collections::HashMap;
use crate::model::factory::StaticVertex;

verus! {

/// Platform feature requirements that may be declared by an application or
/// component thereof in advance, in case they are needed during
/// initialisation.
#[derive(Copy, Clone, Debug, PartialEq, Eq, Structural)]
pub enum FeatureDeclaration {
    /// Clip distances in shaders.
    ClipPlanes,
}

/// Possible outcomes of a presentation action.
#[derive(Copy, Clone, Debug, PartialEq, Eq, Structural)]
pub enum PresentResult {
    /// The image was presented (named `Ok` in the engine's interface; that
    /// name is reserved here).
    Success,
    SwapchainOutOfDate,
}

/// The shaders available in the engine.
#[derive(Copy, Clone, Debug, PartialEq, Eq, Structural)]
pub enum Shader {
    /// Position-normal-texture, RGBA texture, no lighting.
    PlainPnt,
    /// As `PlainPnt`, clipped in Y.
    PlainPntClipped,
    /// Position-normal-texture, single-channel texture, no lighting.
    Text,
    /// Position, cube texture, no lighting.
    Cube,
    /// As `Cube`, clipped in Y.
    CubeClipped,
    /// Position-normal-texture, RGBA texture, projective texture coordinates.
    Water,
}

/// What purpose image resources can be used for.
#[derive(Copy, Clone, Debug, PartialEq, Eq, Structural)]
pub enum ImageUsage {
    TextureSampleOnly,
    DepthBuffer,
    OffscreenRenderSampleColorWriteDepth,
    Skybox,
}

/// The pixel formats known by the engine.
#[derive(Copy, Clone, Debug, PartialEq, Eq, Structural)]
pub enum TexturePixelFormat {
    /// No format (named `None` in the engine's interface; that name is
    /// reserved here).
    Unspecified,
    Rgba,
    Unorm16,
}

impl TexturePixelFormat {
    /// The variant's name as the engine's messages print it.
    pub fn debug_name(&self) -> (r: String)
        ensures
            r@ == self.spec_debug_name(),
    {
        match self {
            TexturePixelFormat::Unspecified => String::from_str("None"),
            TexturePixelFormat::Rgba => String::from_str("Rgba"),
            TexturePixelFormat::Unorm16 => String::from_str("Unorm16"),
        }
    }

    pub open spec fn spec_debug_name(&self) -> Seq<char> {
        match self {
            TexturePixelFormat::Unspecified => "None"@,
            TexturePixelFormat::Rgba => "Rgba"@,
            TexturePixelFormat::Unorm16 => "Unorm16"@,
        }
    }
}

/// The vertex formats known by the engine.
#[derive(Copy, Clone, Debug, PartialEq, Eq, Structural)]
pub enum VertexFormat {
    PositionNormalTexture,
}

/// The target for rendering: directly a swapchain image, or an off-screen
/// target described by a creation structure.
pub enum FramebufferTarget {
    DefaultFramebuffer,
    Texture(FramebufferCreationData),
}

/// How a vertex buffer is to be created.
pub struct VboCreationData {
    pub vertex_format: VertexFormat,
    pub vertex_data: Vec<StaticVertex>,
    pub vertex_count: usize,
    pub draw_indexed: bool,
    pub index_data: Option<Vec<u16>>,
}

/// How a texture resource is to be created.
pub struct TextureCreationData {
    pub layer_data: Option<Vec<Vec<u8>>>,
    pub width: u32,
    pub height: u32,
    pub format: TexturePixelFormat,
    pub usage: ImageUsage,
}

/// The contents of a [`TextureCreationData`].
pub struct TextureCreationView {
    pub layer_data: Option<Seq<Seq<u8>>>,
    pub width: u32,
    pub height: u32,
    pub format: TexturePixelFormat,
    pub usage: ImageUsage,
}

impl View for TextureCreationData {
    type V = TextureCreationView;

    open spec fn view(&self) -> TextureCreationView {
        TextureCreationView {
            layer_data: match self.layer_data {
                Some(layers) => Some(layers@.map_values(|l: Vec<u8>| l@)),
                None => None,
            },
            width: self.width,
            height: self.height,
            format: self.format,
            usage: self.usage,
        }
    }
}

/// How a framebuffer (render target) resource is to be created.
pub struct FramebufferCreationData {
    pub color_texture_index: usize,
    pub depth_texture_index: Option<usize>,
    pub width: usize,
    pub height: usize,
    pub color_format: TexturePixelFormat,
    pub depth_format: TexturePixelFormat,
}

/// A rendering step: the shader and the resources needed by it.
pub struct DrawingStep {
    pub shader: Shader,
    pub vbo_index: usize,
    pub vbo_format: VertexFormat,
    pub draw_indexed: bool,
    pub texture_indices: Vec<usize>,
    pub depth_test: bool,
}

/// A set of drawing steps, run in sequence, targeting a single framebuffer.
pub struct DrawingPass {
    pub target: FramebufferTarget,
    pub steps: Vec<DrawingStep>,
}

/// Complete description of how to render a frame.
pub struct DrawingDescription {
    pub passes: Vec<DrawingPass>,
}

/// Everything needed to initialise the resources to preload before a scene
/// is rendered.
pub struct ResourcePreloads {
    pub vbo_preloads: HashMap<usize, VboCreationData>,
    pub texture_preloads: HashMap<usize, TextureCreationData>,
}

} // verus!

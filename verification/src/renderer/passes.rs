//! Per-pass decisions: render extents, buffer sizes, the attachment
//! formats of off-screen render passes and framebuffers, and the depth image
//! that a swapchain pass needs.

use vstd::prelude::*;
use crate::defs::EngineError;
use crate::defs::render::{FramebufferCreationData, FramebufferTarget, TexturePixelFormat, VertexFormat};

verus! {

/// The render extent that a pass's target fixes: that of an off-screen
/// target, each side truncated to 32 bits; `None` for the swapchain target,
/// whose extent is the surface's.
pub fn pass_target_extent(target: &FramebufferTarget) -> (r: Option<(u32, u32)>)
    ensures
        match target {
            FramebufferTarget::Texture(config) => r == Some(
                (config.width as u32, config.height as u32),
            ),
            FramebufferTarget::DefaultFramebuffer => r is None,
        },
{
    match target {
        FramebufferTarget::Texture(config) => Some((config.width as u32, config.height as u32)),
        FramebufferTarget::DefaultFramebuffer => None,
    }
}

/// The size in bytes of one vertex of a format.
pub fn vertex_size_bytes(format: VertexFormat) -> (r: usize)
    ensures
        r == 32,
{
    match format {
        VertexFormat::PositionNormalTexture => 32,
    }
}

/// The size in bytes of a vertex buffer holding `vertex_count` vertices of a
/// format; `None` when that does not fit in `usize`.
pub fn vertex_buffer_size_bytes(format: VertexFormat, vertex_count: usize) -> (r: Option<usize>)
    ensures
        vertex_count * 32 <= usize::MAX ==> r == Some((vertex_count * 32) as usize),
        vertex_count * 32 > usize::MAX ==> r is None,
{
    vertex_count.checked_mul(vertex_size_bytes(format))
}

/// Formats of render-pass attachments.
#[derive(Copy, Clone, Debug, PartialEq, Eq, Structural)]
pub enum AttachmentFormat {
    /// Four 8-bit normalised colour channels.
    R8G8B8A8Unorm,
    /// One 16-bit normalised depth channel.
    D16Unorm,
}

/// The error for an attachment format that an off-screen pass cannot use;
/// it names the pass's colour format.
pub open spec fn attachment_format_message(config: FramebufferCreationData) -> Seq<char> {
    "Cannot set color attachment tp "@ + config.color_format.spec_debug_name()
}

fn attachment_format_error(config: &FramebufferCreationData) -> (r: EngineError)
    ensures
        r matches EngineError::RenderError(m) && m@ == attachment_format_message(*config),
{
    let prefix = String::from_str("Cannot set color attachment tp ");
    let name = config.color_format.debug_name();
    EngineError::RenderError(prefix.concat(name.as_str()))
}

/// The colour attachment format of an off-screen pass: only RGBA targets are
/// supported.
pub fn offscreen_color_format(config: &FramebufferCreationData) -> (r: Result<
    AttachmentFormat,
    EngineError,
>)
    ensures
        config.color_format == TexturePixelFormat::Rgba ==> r == Ok::<
            AttachmentFormat,
            EngineError,
        >(AttachmentFormat::R8G8B8A8Unorm),
        config.color_format != TexturePixelFormat::Rgba ==> (r matches Err(
            EngineError::RenderError(m),
        ) && m@ == attachment_format_message(*config)),
{
    match config.color_format {
        TexturePixelFormat::Rgba => Ok(AttachmentFormat::R8G8B8A8Unorm),
        _ => Err(attachment_format_error(config)),
    }
}

/// The depth attachment format of an off-screen pass: none without a depth
/// texture; otherwise only 16-bit depth is supported (the error names the
/// colour format, as the colour check's does).
pub fn offscreen_depth_format(config: &FramebufferCreationData) -> (r: Result<
    Option<AttachmentFormat>,
    EngineError,
>)
    ensures
        config.depth_texture_index is None ==> r == Ok::<Option<AttachmentFormat>, EngineError>(
            None,
        ),
        config.depth_texture_index is Some && config.depth_format == TexturePixelFormat::Unorm16
            ==> r == Ok::<Option<AttachmentFormat>, EngineError>(
            Some(AttachmentFormat::D16Unorm),
        ),
        config.depth_texture_index is Some && config.depth_format != TexturePixelFormat::Unorm16
            ==> (r matches Err(EngineError::RenderError(m)) && m@ == attachment_format_message(
            *config,
        )),
{
    match config.depth_texture_index {
        None => Ok(None),
        Some(_) => match config.depth_format {
            TexturePixelFormat::Unorm16 => Ok(Some(AttachmentFormat::D16Unorm)),
            _ => Err(attachment_format_error(config)),
        },
    }
}

/// Why an off-screen framebuffer cannot be made from a configuration, if it
/// cannot: the depth format is checked first and must be 16-bit depth, then
/// the colour format must be RGBA.
pub open spec fn spec_framebuffer_formats(config: FramebufferCreationData) -> Result<(), Seq<char>> {
    if config.depth_format != TexturePixelFormat::Unorm16 {
        Err("Invalid depth format: "@ + config.depth_format.spec_debug_name())
    } else if config.color_format != TexturePixelFormat::Rgba {
        Err("Invalid color format: "@ + config.color_format.spec_debug_name())
    } else {
        Ok(())
    }
}

/// Check the attachment formats of an off-screen framebuffer configuration
/// (see [`spec_framebuffer_formats`]).
pub fn check_framebuffer_formats(config: &FramebufferCreationData) -> (r: Result<(), String>)
    ensures
        match spec_framebuffer_formats(*config) {
            Ok(()) => r is Ok,
            Err(msg) => r matches Err(m) && m@ == msg,
        },
{
    match config.depth_format {
        TexturePixelFormat::Unorm16 => {},
        _ => {
            let name = config.depth_format.debug_name();
            return Err(String::from_str("Invalid depth format: ").concat(name.as_str()));
        },
    }
    match config.color_format {
        TexturePixelFormat::Rgba => Ok(()),
        _ => {
            let name = config.color_format.debug_name();
            Err(String::from_str("Invalid color format: ").concat(name.as_str()))
        },
    }
}

/// The depth image that a swapchain render pass attaches; an error when the
/// renderer holds none.
pub fn require_depth_image<T>(depth_image: Option<T>) -> (r: Result<T, EngineError>)
    ensures
        match depth_image {
            Some(d) => r == Ok::<T, EngineError>(d),
            None => r matches Err(EngineError::RenderError(m))
                && m@ == "Creating new renderpass wrapper with no depth image available"@,
        },
{
    match depth_image {
        Some(d) => Ok(d),
        None => Err(
            EngineError::RenderError(
                String::from_str("Creating new renderpass wrapper with no depth image available"),
            ),
        ),
    }
}

} // verus!

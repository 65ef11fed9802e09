//! Swapchain decisions: whether a surface supports the swapchain the
//! renderer asks for, the request it then makes, what becomes of an attempt
//! to acquire an image, and which synchronisation slot a frame uses.

use vstd::prelude::*;

verus! {

/// The fewest swapchain images the renderer works with.
pub const MIN_SWAPCHAIN_SIZE: u32 = 2;

/// The number of swapchain images the renderer asks for.
pub const MAX_SWAPCHAIN_SIZE: u32 = 3;

/// Whether the surface's image-count limits admit a swapchain of between
/// `MIN_SWAPCHAIN_SIZE` and `MAX_SWAPCHAIN_SIZE` images; a maximum of zero
/// means no maximum.
pub open spec fn swapchain_size_supported(min_image_count: u32, max_image_count: u32) -> bool {
    !(max_image_count != 0 && max_image_count < MIN_SWAPCHAIN_SIZE)
        && !(min_image_count > MAX_SWAPCHAIN_SIZE)
}

/// Check what the surface reports against the swapchain the renderer
/// creates: presentation from the graphics queue family, FIFO presentation,
/// and the image count; the first failing check gives the error.
pub fn check_swapchain_support(
    present_supported: bool,
    fifo_supported: bool,
    min_image_count: u32,
    max_image_count: u32,
) -> (r: Result<(), String>)
    ensures
        !present_supported ==> (r matches Err(m)
            && m@ == "Presentation not supported by selected graphics queue family"@),
        present_supported && !fifo_supported ==> (r matches Err(m)
            && m@ == "FIFO presentation mode not supported by selected graphics queue family"@),
        present_supported && fifo_supported && !swapchain_size_supported(
            min_image_count,
            max_image_count,
        ) ==> (r matches Err(m) && m@ == "Requested swapchain size is not supported"@),
        r is Ok <==> present_supported && fifo_supported && swapchain_size_supported(
            min_image_count,
            max_image_count,
        ),
{
    if !present_supported {
        return Err(String::from_str("Presentation not supported by selected graphics queue family"));
    }
    if !fifo_supported {
        return Err(
            String::from_str("FIFO presentation mode not supported by selected graphics queue family"),
        );
    }
    let max_too_small = max_image_count != 0 && max_image_count < MIN_SWAPCHAIN_SIZE;
    let min_too_large = min_image_count > MAX_SWAPCHAIN_SIZE;
    if max_too_small || min_too_large {
        return Err(String::from_str("Requested swapchain size is not supported"));
    }
    Ok(())
}

/// The FIFO presentation mode, by its Vulkan number.
pub const PRESENT_MODE_FIFO: i32 = 2;

/// The colour-attachment image usage flag, by its Vulkan bit.
pub const IMAGE_USAGE_COLOR_ATTACHMENT: u32 = 0x10;

/// The opaque composite-alpha flag, by its Vulkan bit.
pub const COMPOSITE_ALPHA_OPAQUE: u32 = 0x1;

/// A pixel format and colour space that a surface reports, by their Vulkan
/// numbers.
#[derive(Copy, Clone, Debug, PartialEq, Eq, Structural)]
pub struct SurfaceFormat {
    pub format: i32,
    pub color_space: i32,
}

/// What a surface reports of its capabilities, as far as the swapchain
/// request reads them.
#[derive(Copy, Clone, Debug, PartialEq, Eq, Structural)]
pub struct SurfaceCapabilities {
    pub min_image_count: u32,
    pub max_image_count: u32,
    pub current_extent_width: u32,
    pub current_extent_height: u32,
    /// The current transform's Vulkan flag bits.
    pub current_transform: u32,
}

/// The swapchain the renderer asks for, field by field as Vulkan takes it.
#[derive(Copy, Clone, Debug, PartialEq, Eq, Structural)]
pub struct SwapchainRequest {
    pub min_image_count: u32,
    pub image_format: i32,
    pub image_color_space: i32,
    pub image_extent_width: u32,
    pub image_extent_height: u32,
    pub image_usage: u32,
    /// Images are owned by one queue family at a time.
    pub exclusive_sharing: bool,
    pub pre_transform: u32,
    pub composite_alpha: u32,
    pub present_mode: i32,
    pub clipped: bool,
    pub image_array_layers: u32,
    /// The handle of the swapchain being replaced (zero for none).
    pub old_swapchain: u64,
}

/// The request for a swapchain on a surface with these capabilities, in the
/// first reported format, replacing `previous_swapchain`: as many images as
/// `MAX_SWAPCHAIN_SIZE`, FIFO presentation, the surface's current extent and
/// transform, opaque, clipped, one layer, used as a colour attachment by one
/// queue family at a time.
pub open spec fn swapchain_request_for(
    caps: SurfaceCapabilities,
    format: SurfaceFormat,
    previous_swapchain: u64,
) -> SwapchainRequest {
    SwapchainRequest {
        min_image_count: MAX_SWAPCHAIN_SIZE,
        image_format: format.format,
        image_color_space: format.color_space,
        image_extent_width: caps.current_extent_width,
        image_extent_height: caps.current_extent_height,
        image_usage: IMAGE_USAGE_COLOR_ATTACHMENT,
        exclusive_sharing: true,
        pre_transform: caps.current_transform,
        composite_alpha: COMPOSITE_ALPHA_OPAQUE,
        present_mode: PRESENT_MODE_FIFO,
        clipped: true,
        image_array_layers: 1,
        old_swapchain: previous_swapchain,
    }
}

/// What creating a swapchain comes to: the first failing support check's
/// error (see [`check_swapchain_support`]); otherwise `None` when the
/// surface reports no format, else the request in the first reported format.
pub open spec fn spec_plan_swapchain(
    present_supported: bool,
    present_modes: Seq<i32>,
    caps: SurfaceCapabilities,
    formats: Seq<SurfaceFormat>,
    previous_swapchain: u64,
) -> Result<Option<SwapchainRequest>, Seq<char>> {
    if !present_supported {
        Err("Presentation not supported by selected graphics queue family"@)
    } else if !present_modes.contains(PRESENT_MODE_FIFO) {
        Err("FIFO presentation mode not supported by selected graphics queue family"@)
    } else if !swapchain_size_supported(caps.min_image_count, caps.max_image_count) {
        Err("Requested swapchain size is not supported"@)
    } else if formats.len() == 0 {
        Ok(None)
    } else {
        Ok(Some(swapchain_request_for(caps, formats[0], previous_swapchain)))
    }
}

/// Whether a list of present modes holds FIFO.
fn includes_fifo(present_modes: &Vec<i32>) -> (r: bool)
    ensures
        r == present_modes@.contains(PRESENT_MODE_FIFO),
{
    let mut i: usize = 0;
    while i < present_modes.len()
        invariant
            0 <= i <= present_modes@.len(),
            forall|j: int| 0 <= j < i ==> present_modes@[j] != PRESENT_MODE_FIFO,
        decreases present_modes@.len() - i,
    {
        if present_modes[i] == PRESENT_MODE_FIFO {
            return true;
        }
        i = i + 1;
    }
    false
}

/// Decide the swapchain to create from what the surface reports: check
/// support, then build the request (see [`spec_plan_swapchain`]).
pub fn plan_swapchain(
    present_supported: bool,
    present_modes: &Vec<i32>,
    caps: &SurfaceCapabilities,
    formats: &Vec<SurfaceFormat>,
    previous_swapchain: u64,
) -> (r: Result<Option<SwapchainRequest>, String>)
    ensures
        match spec_plan_swapchain(present_supported, present_modes@, *caps, formats@, previous_swapchain) {
            Ok(q) => r == Ok::<Option<SwapchainRequest>, String>(q),
            Err(msg) => r matches Err(m) && m@ == msg,
        },
{
    let fifo = includes_fifo(present_modes);
    check_swapchain_support(present_supported, fifo, caps.min_image_count, caps.max_image_count)?;
    if formats.len() == 0 {
        return Ok(None);
    }
    let format = formats[0];
    Ok(
        Some(
            SwapchainRequest {
                min_image_count: MAX_SWAPCHAIN_SIZE,
                image_format: format.format,
                image_color_space: format.color_space,
                image_extent_width: caps.current_extent_width,
                image_extent_height: caps.current_extent_height,
                image_usage: IMAGE_USAGE_COLOR_ATTACHMENT,
                exclusive_sharing: true,
                pre_transform: caps.current_transform,
                composite_alpha: COMPOSITE_ALPHA_OPAQUE,
                present_mode: PRESENT_MODE_FIFO,
                clipped: true,
                image_array_layers: 1,
                old_swapchain: previous_swapchain,
            },
        ),
    )
}

/// The synchronisation slot for the next frame: the one after the current
/// image's, wrapping around the swapchain.
pub fn next_sync_index(current_image: usize, image_count: usize) -> (r: usize)
    requires
        image_count > 0,
        current_image < image_count,
    ensures
        r == (current_image + 1) % (image_count as int),
        r < image_count,
{
    (current_image + 1) % image_count
}

/// What an attempt to acquire the next swapchain image came to.
pub enum AcquireOutcome {
    /// This image index was acquired.
    Acquired(u32),
    /// The swapchain no longer matches the surface.
    OutOfDate,
    /// Another failure, with its description.
    Failed(String),
}

/// What the renderer does after an acquire attempt.
#[derive(Copy, Clone, Debug, PartialEq, Eq, Structural)]
pub enum AcquireStep {
    /// Wait for and reset this image's fence, then render into it.
    Proceed(usize),
    /// Skip the frame: report image zero, not acquired.
    Skip,
    /// The acquired image is not the one whose synchronisation slot was
    /// used; the renderer's state is broken.
    SlotMismatch,
}

/// Decide on an acquire attempt made with synchronisation slot `sync_index`:
/// an out-of-date swapchain skips the frame, another failure is an error,
/// and an acquired image proceeds only when it is the slot's own image.
pub fn acquire_step(sync_index: usize, outcome: AcquireOutcome) -> (r: Result<AcquireStep, String>)
    ensures
        match outcome {
            AcquireOutcome::Acquired(i) => if i == sync_index {
                r == Ok::<AcquireStep, String>(AcquireStep::Proceed(sync_index))
            } else {
                r == Ok::<AcquireStep, String>(AcquireStep::SlotMismatch)
            },
            AcquireOutcome::OutOfDate => r == Ok::<AcquireStep, String>(AcquireStep::Skip),
            AcquireOutcome::Failed(d) => r matches Err(m) && m@ == "Image acquire failure: "@
                + d@,
        },
{
    match outcome {
        AcquireOutcome::Acquired(i) => {
            if i as usize == sync_index {
                Ok(AcquireStep::Proceed(sync_index))
            } else {
                Ok(AcquireStep::SlotMismatch)
            }
        },
        AcquireOutcome::OutOfDate => Ok(AcquireStep::Skip),
        AcquireOutcome::Failed(d) => Err(String::from_str("Image acquire failure: ").concat(d.as_str())),
    }
}

} // verus!

use sbf_engine::defs::render::{
    FeatureDeclaration, FramebufferCreationData, FramebufferTarget, TexturePixelFormat, VertexFormat,
};
use sbf_engine::defs::EngineError;
use sbf_engine::renderer::device::{
    choose_queue_family_indices, make_feature_set_to_enable, select_physical_device,
    DeviceCandidate, PhysicalDeviceFeatures, QueueFamilyProperties, QueueFamilySupport,
};
use sbf_engine::renderer::null::NullRenderer;
use sbf_engine::renderer::passes::{
    check_framebuffer_formats, require_depth_image, offscreen_color_format, offscreen_depth_format, pass_target_extent, vertex_buffer_size_bytes,
    AttachmentFormat,
};
use sbf_engine::renderer::pipeline_config::{Model, PipelineConfig, Shader, Texture, TextureSource};
use sbf_engine::renderer::resources::{ResourceTable, TEXTURE_NOT_LOADED, VBO_NOT_LOADED};
use sbf_engine::renderer::swapchain::{
    acquire_step, check_swapchain_support, next_sync_index, plan_swapchain, AcquireOutcome, AcquireStep,
    SurfaceCapabilities, SurfaceFormat, SwapchainRequest, COMPOSITE_ALPHA_OPAQUE,
    IMAGE_USAGE_COLOR_ATTACHMENT, MAX_SWAPCHAIN_SIZE, MIN_SWAPCHAIN_SIZE, PRESENT_MODE_FIFO,
};

fn features(clip: bool) -> PhysicalDeviceFeatures {
    PhysicalDeviceFeatures { shader_clip_distance: clip }
}

fn fam(graphics: bool, transfer: bool, surface: bool) -> QueueFamilySupport {
    QueueFamilySupport { graphics, transfer, surface }
}

#[test]
fn feature_set_follows_declarations() {
    let none: Vec<FeatureDeclaration> = vec![];
    let clip = vec![FeatureDeclaration::ClipPlanes];
    assert_eq!(make_feature_set_to_enable(&none, &features(false)), Some(features(false)));
    assert_eq!(make_feature_set_to_enable(&none, &features(true)), Some(features(false)));
    assert_eq!(make_feature_set_to_enable(&clip, &features(true)), Some(features(true)));
    assert_eq!(make_feature_set_to_enable(&clip, &features(false)), None);
}

#[test]
fn queue_families_prefer_separate_transfer() {
    let q = |queue_count, graphics, transfer| QueueFamilyProperties { queue_count, graphics, transfer };
    assert_eq!(choose_queue_family_indices(&vec![q(1, true, true), q(1, false, true)]), Some((0, 1)));
    assert_eq!(choose_queue_family_indices(&vec![q(1, true, true), q(1, true, true)]), Some((1, 0)));
    assert_eq!(choose_queue_family_indices(&vec![q(0, true, true), q(1, true, true)]), Some((1, 1)));
    assert_eq!(choose_queue_family_indices(&vec![q(1, false, true)]), None);
    assert_eq!(choose_queue_family_indices(&vec![]), None);
}

#[test]
fn selects_first_suitable_device() {
    let no_devices: Vec<DeviceCandidate> = vec![];
    assert_eq!(select_physical_device(&no_devices, &vec![]).unwrap_err(), "No physical devices found");
    let devices = vec![
        DeviceCandidate { queue_families: vec![fam(true, true, false)], supported_features: features(true) },
        DeviceCandidate {
            queue_families: vec![fam(true, true, true), fam(false, true, false), fam(true, false, true)],
            supported_features: features(false),
        },
        DeviceCandidate { queue_families: vec![fam(true, true, true)], supported_features: features(true) },
    ];
    let chosen = select_physical_device(&devices, &vec![]).unwrap();
    assert_eq!(chosen.device_index, 1);
    assert_eq!(chosen.graphics_queue_family_index, 2);
    assert_eq!(chosen.transfer_queue_family_index, 1);
    assert_eq!(chosen.required_features, features(false));
    let chosen = select_physical_device(&devices, &vec![FeatureDeclaration::ClipPlanes]).unwrap();
    assert_eq!(chosen.device_index, 2);
    assert_eq!((chosen.graphics_queue_family_index, chosen.transfer_queue_family_index), (0, 0));
    assert_eq!(chosen.required_features, features(true));
    let unsuitable = vec![DeviceCandidate { queue_families: vec![fam(false, true, true)], supported_features: features(true) }];
    assert_eq!(
        select_physical_device(&unsuitable, &vec![]).unwrap_err(),
        "Could not find a suitable physical device"
    );
}

#[test]
fn swapchain_support_checks_in_order() {
    assert_eq!(
        check_swapchain_support(false, false, 9, 1).unwrap_err(),
        "Presentation not supported by selected graphics queue family"
    );
    assert_eq!(
        check_swapchain_support(true, false, 1, 3).unwrap_err(),
        "FIFO presentation mode not supported by selected graphics queue family"
    );
    assert_eq!(check_swapchain_support(true, true, 1, 1).unwrap_err(), "Requested swapchain size is not supported");
    assert_eq!(check_swapchain_support(true, true, 4, 0).unwrap_err(), "Requested swapchain size is not supported");
    assert!(check_swapchain_support(true, true, 1, 0).is_ok());
    assert!(check_swapchain_support(true, true, MAX_SWAPCHAIN_SIZE, MIN_SWAPCHAIN_SIZE).is_ok());
}

#[test]
fn sync_index_wraps() {
    assert_eq!(next_sync_index(0, 3), 1);
    assert_eq!(next_sync_index(2, 3), 0);
    assert_eq!(next_sync_index(0, 1), 0);
}

fn offscreen(color: TexturePixelFormat, depth_index: Option<usize>, depth: TexturePixelFormat) -> FramebufferCreationData {
    FramebufferCreationData {
        color_texture_index: 2,
        depth_texture_index: depth_index,
        width: 1024,
        height: (1usize << 32) + 5,
        color_format: color,
        depth_format: depth,
    }
}

#[test]
fn pass_extents() {
    assert_eq!(pass_target_extent(&FramebufferTarget::DefaultFramebuffer), None);
    let t = FramebufferTarget::Texture(offscreen(TexturePixelFormat::Rgba, None, TexturePixelFormat::Unspecified));
    assert_eq!(pass_target_extent(&t), Some((1024, 5)));
}

#[test]
fn vertex_buffer_sizes() {
    assert_eq!(vertex_buffer_size_bytes(VertexFormat::PositionNormalTexture, 36), Some(1152));
    assert_eq!(vertex_buffer_size_bytes(VertexFormat::PositionNormalTexture, usize::MAX / 16), None);
}

#[test]
fn offscreen_attachment_formats() {
    let ok = offscreen(TexturePixelFormat::Rgba, Some(3), TexturePixelFormat::Unorm16);
    assert_eq!(offscreen_color_format(&ok).unwrap(), AttachmentFormat::R8G8B8A8Unorm);
    assert_eq!(offscreen_depth_format(&ok).unwrap(), Some(AttachmentFormat::D16Unorm));
    let no_depth = offscreen(TexturePixelFormat::Rgba, None, TexturePixelFormat::Rgba);
    assert_eq!(offscreen_depth_format(&no_depth).unwrap(), None);
    let bad_color = offscreen(TexturePixelFormat::Unorm16, None, TexturePixelFormat::Unorm16);
    match offscreen_color_format(&bad_color) {
        Err(EngineError::RenderError(m)) => assert_eq!(m, "Cannot set color attachment tp Unorm16"),
        _ => panic!("expected a render error"),
    }
    let bad_depth = offscreen(TexturePixelFormat::Rgba, Some(3), TexturePixelFormat::Rgba);
    match offscreen_depth_format(&bad_depth) {
        Err(EngineError::RenderError(m)) => assert_eq!(m, "Cannot set color attachment tp Rgba"),
        _ => panic!("expected a render error"),
    }
    assert_eq!(TexturePixelFormat::Unspecified.debug_name(), "None");
}

#[test]
fn resource_table_queries() {
    let mut t: ResourceTable<(usize, u64)> = ResourceTable::new();
    assert_eq!(t.query(0, VBO_NOT_LOADED).unwrap_err(), "Queried VBO that is not loaded");
    t.insert(0, (36, 7));
    t.insert(4, (6, 9));
    assert_eq!(*t.query(0, VBO_NOT_LOADED).unwrap(), (36, 7));
    t.insert(0, (12, 1));
    assert_eq!(*t.query(0, VBO_NOT_LOADED).unwrap(), (12, 1));
    assert_eq!(*t.query(4, TEXTURE_NOT_LOADED).unwrap(), (6, 9));
    assert_eq!(t.query(5, TEXTURE_NOT_LOADED).unwrap_err(), "Queried texture that is not loaded");
}

#[test]
fn plain_renderer_types() {
    let _r: NullRenderer = NullRenderer::new();
    let c = PipelineConfig { shader: Shader::TextureFlat, model: Model::Grimace, texture: Texture::Png(TextureSource::MusicaFont) };
    assert_eq!(c.texture, Texture::Png(TextureSource::MusicaFont));
    assert_eq!(c.model, Model::Grimace);
}

fn caps(min: u32, max: u32) -> SurfaceCapabilities {
    SurfaceCapabilities {
        min_image_count: min,
        max_image_count: max,
        current_extent_width: 800,
        current_extent_height: 600,
        current_transform: 1,
    }
}

#[test]
fn swapchain_request_uses_first_format_and_fifo() {
    let formats = vec![
        SurfaceFormat { format: 44, color_space: 0 },
        SurfaceFormat { format: 50, color_space: 0 },
    ];
    let modes = vec![0, PRESENT_MODE_FIFO];
    let r = plan_swapchain(true, &modes, &caps(2, 8), &formats, 77).unwrap().unwrap();
    assert_eq!(
        r,
        SwapchainRequest {
            min_image_count: MAX_SWAPCHAIN_SIZE,
            image_format: 44,
            image_color_space: 0,
            image_extent_width: 800,
            image_extent_height: 600,
            image_usage: IMAGE_USAGE_COLOR_ATTACHMENT,
            exclusive_sharing: true,
            pre_transform: 1,
            composite_alpha: COMPOSITE_ALPHA_OPAQUE,
            present_mode: PRESENT_MODE_FIFO,
            clipped: true,
            image_array_layers: 1,
            old_swapchain: 77,
        }
    );
    assert_eq!(MAX_SWAPCHAIN_SIZE, 3);
}

#[test]
fn swapchain_request_checks_support_first() {
    let formats = vec![SurfaceFormat { format: 44, color_space: 0 }];
    let fifo = vec![PRESENT_MODE_FIFO];
    assert_eq!(
        plan_swapchain(false, &vec![], &caps(9, 1), &vec![], 0),
        Err(String::from("Presentation not supported by selected graphics queue family"))
    );
    assert_eq!(
        plan_swapchain(true, &vec![0, 1, 3], &caps(2, 0), &formats, 0),
        Err(String::from("FIFO presentation mode not supported by selected graphics queue family"))
    );
    assert_eq!(
        plan_swapchain(true, &fifo, &caps(4, 0), &formats, 0),
        Err(String::from("Requested swapchain size is not supported"))
    );
    assert_eq!(plan_swapchain(true, &fifo, &caps(1, 0), &vec![], 0), Ok(None));
}

#[test]
fn acquire_steps() {
    assert_eq!(acquire_step(1, AcquireOutcome::Acquired(1)), Ok(AcquireStep::Proceed(1)));
    assert_eq!(acquire_step(1, AcquireOutcome::Acquired(2)), Ok(AcquireStep::SlotMismatch));
    assert_eq!(acquire_step(0, AcquireOutcome::OutOfDate), Ok(AcquireStep::Skip));
    assert_eq!(
        acquire_step(0, AcquireOutcome::Failed(String::from("ERROR_DEVICE_LOST"))),
        Err(String::from("Image acquire failure: ERROR_DEVICE_LOST"))
    );
}

#[test]
fn framebuffer_formats_checked_depth_first() {
    assert_eq!(check_framebuffer_formats(&offscreen(TexturePixelFormat::Rgba, Some(1), TexturePixelFormat::Unorm16)), Ok(()));
    assert_eq!(
        check_framebuffer_formats(&offscreen(TexturePixelFormat::Unorm16, Some(1), TexturePixelFormat::Rgba)),
        Err(String::from("Invalid depth format: Rgba"))
    );
    assert_eq!(
        check_framebuffer_formats(&offscreen(TexturePixelFormat::Unspecified, None, TexturePixelFormat::Unorm16)),
        Err(String::from("Invalid color format: None"))
    );
}

#[test]
fn depth_image_is_required() {
    assert_eq!(require_depth_image(Some(5u8)).unwrap(), 5);
    match require_depth_image::<u8>(None) {
        Err(EngineError::RenderError(m)) => {
            assert_eq!(m, "Creating new renderpass wrapper with no depth image available")
        }
        _ => panic!("expected an error"),
    }
}

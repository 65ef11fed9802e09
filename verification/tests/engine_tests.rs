use sbf_engine::defs::control::{InputState, KeyCode};
use sbf_engine::defs::render::{ImageUsage, PresentResult, TexturePixelFormat};
use sbf_engine::defs::EngineError;
use sbf_engine::engine::camera::NullCamera;
use sbf_engine::engine::control::{NullControl, UserControl};
use sbf_engine::engine::events::{action_for_event, PlatformAction, PlatformEvent};
use sbf_engine::engine::frame::{render_follow_up, RenderFollowUp};
use sbf_engine::engine::scene::{scene_released, SceneHost};
use sbf_engine::engine::timer::{millis_to_time_step, GlobalTimer, NullTimer, Timer};
use sbf_engine::engine::util::{
    decode_model, decode_texture, decode_texture_array, make_skybox_vertices, map_ui_rects,
    try_decode_texture_array, TextureCodec,
};
use sbf_engine::model::factory::{Model, StaticVertex};
use sbf_engine::renderer::images::staging_buffer_size_bytes;

fn png(width: u32, height: u32, seed: u8) -> Vec<u8> {
    let data: Vec<u8> = (0..width * height * 4).map(|i| (i as u8).wrapping_add(seed)).collect();
    let mut out = Vec::new();
    image::codecs::png::PngEncoder::new(&mut out)
        .encode(&data, width, height, image::ColorType::Rgba8)
        .unwrap();
    out
}

fn jpeg(width: u32, height: u32) -> Vec<u8> {
    let data: Vec<u8> = vec![128; (width * height * 3) as usize];
    let mut out = Vec::new();
    image::codecs::jpeg::JpegEncoder::new(&mut out)
        .encode(&data, width, height, image::ColorType::Rgb8)
        .unwrap();
    out
}

#[test]
fn user_control_follows_keys() {
    let mut c = UserControl::new();
    assert_eq!((c.get_dx(), c.get_dy()), (0, 0));
    c.process_keyboard_event(KeyCode::Left, InputState::Pressed);
    assert_eq!((c.get_dx(), c.get_dy()), (-1, 0));
    c.process_keyboard_event(KeyCode::Up, InputState::Pressed);
    assert_eq!((c.get_dx(), c.get_dy()), (-1, 1));
    c.process_keyboard_event(KeyCode::Right, InputState::Pressed);
    assert_eq!((c.get_dx(), c.get_dy()), (1, 1));
    c.process_keyboard_event(KeyCode::Left, InputState::Released);
    assert_eq!((c.get_dx(), c.get_dy()), (0, 1));
    c.process_keyboard_event(KeyCode::Unknown, InputState::Pressed);
    assert_eq!((c.get_dx(), c.get_dy()), (0, 1));
    c.process_keyboard_event(KeyCode::Down, InputState::Pressed);
    assert_eq!((c.get_dx(), c.get_dy()), (0, -1));
    c.process_keyboard_event(KeyCode::Down, InputState::Released);
    c.update();
    assert_eq!((c.get_dx(), c.get_dy()), (0, 0));
}

#[test]
fn null_control_reports_nothing() {
    let mut c = NullControl::default();
    c.process_keyboard_event(KeyCode::Left, InputState::Pressed);
    c.update();
    assert_eq!((c.get_dx(), c.get_dy()), (0, 0));
}

#[test]
fn scene_host_switches_to_last_queued_scene() {
    let mut host = SceneHost::new(1);
    assert_eq!(host.get_current(), 1);
    assert!(!host.drain_queue());
    assert_eq!(host.get_current(), 1);
    host.queue_scene(2);
    host.queue_scene(3);
    assert_eq!(host.get_current(), 1);
    assert!(host.drain_queue());
    assert_eq!(host.get_current(), 3);
    assert!(!host.drain_queue());
    assert_eq!(host.get_current(), 3);
}

#[test]
fn timers() {
    let mut t = NullTimer::new();
    assert_eq!(t.pull_time_step_millis(), 0);
    let mut g = GlobalTimer::new();
    let first = g.pull_time_step_millis();
    assert!(first < 60_000);
    assert_eq!(millis_to_time_step(5), 5);
    assert_eq!(millis_to_time_step((1u128 << 64) + 7), 7);
}

#[test]
fn null_camera_has_no_fields() {
    let _c: NullCamera = NullCamera::new();
}

#[test]
fn render_follow_up_decisions() {
    assert!(matches!(render_follow_up(Ok(PresentResult::Success)), RenderFollowUp::Done));
    assert!(matches!(
        render_follow_up(Ok(PresentResult::SwapchainOutOfDate)),
        RenderFollowUp::RecreateSurface
    ));
    match render_follow_up(Err(EngineError::RenderError(String::from("boom")))) {
        RenderFollowUp::Fail(EngineError::RenderError(m)) => assert_eq!(m, "boom"),
        _ => panic!("expected failure"),
    }
}

#[test]
fn decodes_png_texture() {
    let bytes = png(2, 3, 5);
    let t = decode_texture(&bytes, TextureCodec::Png, ImageUsage::TextureSampleOnly).unwrap();
    assert_eq!((t.width, t.height), (2, 3));
    assert_eq!(t.format, TexturePixelFormat::Rgba);
    assert_eq!(t.usage, ImageUsage::TextureSampleOnly);
    let layers = t.layer_data.unwrap();
    assert_eq!(layers.len(), 1);
    let expected: Vec<u8> = (0..24u32).map(|i| (i as u8).wrapping_add(5)).collect();
    assert_eq!(layers[0], expected);
}

#[test]
fn decodes_jpeg_texture_to_rgba() {
    let bytes = jpeg(4, 2);
    let t = decode_texture(&bytes, TextureCodec::Jpeg, ImageUsage::Skybox).unwrap();
    assert_eq!((t.width, t.height), (4, 2));
    assert_eq!(t.layer_data.unwrap()[0].len(), 4 * 2 * 4);
}

#[test]
fn undecodable_texture_is_an_error() {
    assert!(decode_texture(&[1, 2, 3], TextureCodec::Png, ImageUsage::TextureSampleOnly).is_err());
    match decode_texture(&[1, 2, 3], TextureCodec::Jpeg, ImageUsage::TextureSampleOnly) {
        Err(m) => assert!(m.starts_with("Error opening decoding an image: ")),
        Ok(_) => panic!("expected an error"),
    }
    assert!(decode_texture(&png(1, 1, 0), TextureCodec::Jpeg, ImageUsage::TextureSampleOnly).is_err());
}

#[test]
fn texture_array_stacks_layers() {
    let a = png(2, 2, 0);
    let b = png(2, 2, 9);
    let t = decode_texture_array(vec![&a[..], &b[..]], TextureCodec::Png, ImageUsage::Skybox).unwrap();
    assert_eq!((t.width, t.height), (2, 2));
    let layers = t.layer_data.unwrap();
    assert_eq!(layers.len(), 2);
    assert_eq!(layers[1][0], 9);
}

#[test]
fn texture_array_rejects_mixed_sizes_and_takes_width_as_height() {
    let a = png(2, 2, 0);
    let b = png(4, 4, 0);
    let e = decode_texture_array(vec![&a[..], &b[..]], TextureCodec::Png, ImageUsage::Skybox);
    assert_eq!(e.err().unwrap(), "Not all textures same size in multi-layer sources");
    let wide = png(4, 2, 0);
    assert!(decode_texture_array(vec![&wide[..]], TextureCodec::Png, ImageUsage::Skybox).is_err());
}

#[test]
fn checked_texture_array_refuses_empty_and_undecodable_lists() {
    assert!(try_decode_texture_array(vec![], TextureCodec::Png, ImageUsage::Skybox).is_none());
    let a = png(2, 2, 0);
    let junk = [0u8; 4];
    assert!(try_decode_texture_array(vec![&a[..], &junk[..]], TextureCodec::Png, ImageUsage::Skybox).is_none());
    let t = try_decode_texture_array(vec![&a[..]], TextureCodec::Png, ImageUsage::Skybox).unwrap().unwrap();
    assert_eq!(t.layer_data.unwrap().len(), 1);
}

#[test]
fn decodes_model_file() {
    let v = StaticVertex::from_components(1, 2, 3, 4, 5, 6, 7, 8);
    let m = Model::new_from_components(String::from("m"), vec![v, v]);
    let (vertices, count) = decode_model(&m.to_bytes());
    assert_eq!(count, 2);
    assert_eq!(vertices, vec![v, v]);
}

#[test]
fn skybox_has_36_vertices_on_cube_corners() {
    let size = 2.5f32;
    let (vs, n) = make_skybox_vertices(size.to_bits());
    assert_eq!(n, 36);
    assert_eq!(vs.len(), 36);
    for v in &vs {
        for c in [v.x, v.y, v.z] {
            assert!(f32::from_bits(c) == size || f32::from_bits(c) == -size);
        }
    }
    assert_eq!(f32::from_bits(vs[0].x), -size);
    assert_eq!(f32::from_bits(vs[0].nx), size);
    assert_eq!(f32::from_bits(vs[6].nx), -size);
    assert_eq!(vs[12].nx, 0);
    assert_eq!((f32::from_bits(vs[35].x), f32::from_bits(vs[35].y), f32::from_bits(vs[35].z)), (size, size, size));
}

#[test]
fn ui_rects_become_two_triangles_each() {
    let r = |a: [f32; 8]| a.map(f32::to_bits);
    let vs = map_ui_rects(vec![
        r([-1.0, -1.0, 1.0, -0.5, 0.0, 0.0, 1.0, 0.25]),
        r([-1.0, 0.5, 1.0, 1.0, 0.0, 0.25, 1.0, 0.0]),
    ]);
    assert_eq!(vs.len(), 12);
    let f = |b: u32| f32::from_bits(b);
    assert_eq!((f(vs[0].x), f(vs[0].y), f(vs[0].u), f(vs[0].v)), (-1.0, -1.0, 0.0, 0.0));
    assert_eq!((f(vs[1].x), f(vs[1].y), f(vs[1].u), f(vs[1].v)), (-1.0, -0.5, 0.0, 0.25));
    assert_eq!((f(vs[2].x), f(vs[2].y), f(vs[2].u), f(vs[2].v)), (1.0, -0.5, 1.0, 0.25));
    assert_eq!((f(vs[4].x), f(vs[4].y)), (1.0, -1.0));
    assert_eq!(vs[5], vs[0]);
    assert_eq!((f(vs[6].x), f(vs[6].y)), (-1.0, 0.5));
    for v in &vs {
        assert_eq!((f(v.z), f(v.nx), f(v.ny), f(v.nz)), (0.0, 0.0, 0.0, -1.0));
    }
    assert!(map_ui_rects(vec![]).is_empty());
}

#[test]
fn staging_buffer_matches_decoded_layer() {
    assert_eq!(staging_buffer_size_bytes(2, 3), Some(24));
    assert_eq!(staging_buffer_size_bytes(0, 9), Some(0));
    let bytes = png(5, 4, 1);
    let t = decode_texture(&bytes, TextureCodec::Png, ImageUsage::TextureSampleOnly).unwrap();
    let layers = t.layer_data.unwrap();
    assert_eq!(Some(layers[0].len()), staging_buffer_size_bytes(t.width, t.height));
}

#[test]
fn staging_buffer_size_overflow_is_none() {
    if usize::BITS == 64 {
        assert_eq!(staging_buffer_size_bytes(u32::MAX, u32::MAX), None);
        assert_eq!(staging_buffer_size_bytes(65536, 65536), Some(1usize << 34));
    } else {
        assert_eq!(staging_buffer_size_bytes(65536, 16384), None);
    }
}

#[test]
fn event_loop_actions() {
    assert_eq!(action_for_event(PlatformEvent::CloseRequested), PlatformAction::Exit);
    assert_eq!(action_for_event(PlatformEvent::EscapeKey(InputState::Pressed)), PlatformAction::Exit);
    assert_eq!(
        action_for_event(PlatformEvent::EscapeKey(InputState::Released)),
        PlatformAction::ForwardKey(KeyCode::Unknown, InputState::Released)
    );
    assert_eq!(
        action_for_event(PlatformEvent::Key(KeyCode::Left, InputState::Pressed)),
        PlatformAction::ForwardKey(KeyCode::Left, InputState::Pressed)
    );
    assert_eq!(action_for_event(PlatformEvent::UnidentifiedKey), PlatformAction::Nothing);
    assert_eq!(action_for_event(PlatformEvent::Resized), PlatformAction::RecreateSurface);
    assert_eq!(action_for_event(PlatformEvent::EventsCleared), PlatformAction::UpdateAndRequestRedraw);
    assert_eq!(action_for_event(PlatformEvent::RedrawRequested), PlatformAction::Render);
    assert_eq!(action_for_event(PlatformEvent::Other), PlatformAction::Nothing);
}

#[test]
fn replaced_scenes_are_released() {
    assert!(scene_released(0, 0, 3, true));
    assert!(scene_released(2, 0, 3, true));
    assert!(!scene_released(3, 0, 3, true));
    assert!(!scene_released(0, 0, 0, false));
    assert!(!scene_released(4, 0, 3, true));
}

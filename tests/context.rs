use libogl::animation::Viewport;
use libogl::context::DrawContext;
use libogl::drawfunc::DrawFunc;
use libogl::error::OglError;
use libogl::texture2d::{Texture2D, Texture2DCubeMap};

#[test]
fn new_context_is_empty() {
    let ctx = DrawContext::new(640, 480);
    assert_eq!((ctx.width(), ctx.height()), (640, 480));
    assert!(!ctx.is_initialized());
    assert_eq!(ctx.selected(), DrawFunc::DrawVbo);
    for i in 0..16 {
        assert_eq!(ctx.buffer(i), Ok(0));
        assert_eq!(ctx.is_buffer_allocated(i), Ok(false));
    }
    assert_eq!(ctx.buffer(16), Err(OglError::InvalidData));
    assert_eq!(ctx.uniform_location(255), Ok(0));
    assert_eq!(ctx.uniform_location(256), Err(OglError::InvalidData));
    assert_eq!(ctx.vertex_array(), None);
    assert_eq!(ctx.require_vertex_array(), Err(OglError::Unexpected));
    assert_eq!(ctx.vertex_count(), 0);
    assert_eq!(ctx.window_viewport(), Viewport { x: 0, y: 0, width: 640, height: 480 });
}

#[test]
fn demo_switch_sets_up_again() {
    let mut ctx = DrawContext::new(100, 100);
    assert!(ctx.needs_setup(DrawFunc::DrawVbo));
    ctx.finish_setup(DrawFunc::DrawVbo);
    assert!(!ctx.needs_setup(DrawFunc::DrawVbo));
    assert!(ctx.needs_setup(DrawFunc::DrawCircle));
    ctx.finish_setup(DrawFunc::DrawCircle);
    assert!(ctx.is_initialized());
    assert_eq!(ctx.selected(), DrawFunc::DrawCircle);
    assert!(ctx.needs_setup(DrawFunc::DrawVbo));
    ctx.finish_setup(DrawFunc::DrawVbo);
    assert_eq!(ctx.selected(), DrawFunc::DrawVbo);
    assert!(!ctx.needs_setup(DrawFunc::DrawVbo));
}

#[test]
fn failed_setup_is_retried() {
    let mut ctx = DrawContext::new(100, 100);
    ctx.finish_setup(DrawFunc::DrawVbo);
    // A setup of another demo that fails never records itself.
    assert!(ctx.needs_setup(DrawFunc::DrawTexture3));
    assert!(ctx.needs_setup(DrawFunc::DrawTexture3));
    assert_eq!(ctx.selected(), DrawFunc::DrawVbo);
}

#[test]
fn buffer_pool() {
    let mut ctx = DrawContext::new(100, 100);
    assert_eq!(ctx.store_buffers(&[3, 4, 5]), Ok(()));
    assert_eq!(ctx.buffer(0), Ok(3));
    assert_eq!(ctx.buffer(2), Ok(5));
    assert_eq!(ctx.buffer(3), Ok(0));
    assert_eq!(ctx.is_buffer_allocated(1), Ok(true));
    assert_eq!(ctx.store_buffers(&[7, 0]), Err(OglError::InvalidData));
    assert_eq!(ctx.buffer(0), Ok(3));
    assert_eq!(ctx.store_buffers(&[1; 17]), Err(OglError::InvalidData));
    assert_eq!(ctx.store_buffers(&[1; 16]), Ok(()));
    assert_eq!(ctx.buffer(15), Ok(1));
}

#[test]
fn location_slots_and_vertex_state() {
    let mut ctx = DrawContext::new(100, 100);
    assert_eq!(ctx.set_uniform_location(2, 7), Ok(()));
    assert_eq!(ctx.uniform_location(2), Ok(7));
    assert_eq!(ctx.set_uniform_location(256, 7), Err(OglError::InvalidData));
    ctx.set_vertex_array(11);
    assert_eq!(ctx.require_vertex_array(), Ok(11));
    ctx.set_vertex_count(36);
    assert_eq!(ctx.vertex_count(), 36);
}

#[test]
fn texture_slots() {
    let mut ctx = DrawContext::new(100, 100);
    let mut t = Texture2D::new();
    t.set_id(42);
    assert_eq!(ctx.set_texture(8, Texture2D::new()), Err(OglError::InvalidData));
    assert_eq!(ctx.set_texture(7, t), Ok(()));
    assert_eq!(ctx.texture(7).map(|t| t.id()), Ok(42));
    assert!(ctx.texture(8).is_err());
    let mut c = Texture2DCubeMap::new();
    c.set_id(6);
    assert_eq!(ctx.set_cube_map(0, c), Ok(()));
    assert_eq!(ctx.cube_map(0).map(|c| c.id()), Ok(6));
    assert!(ctx.cube_map(8).is_err());
}

#[test]
fn context_animations() {
    let mut ctx = DrawContext::new(10, 20);
    assert_eq!(ctx.step_pulse(), Viewport { x: 2, y: 2, width: 4, height: 4 });
    assert_eq!(ctx.step_pulse(), Viewport { x: 4, y: 4, width: 8, height: 8 });
    assert_eq!(ctx.step_bounce(), Viewport { x: 0, y: 0, width: 5, height: 5 });
}

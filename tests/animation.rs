use libogl::animation::{
    fan_indices, full_viewport, rotation_steps, smooth_shading, Viewport, ViewportBounce,
    ViewportPulse,
};

#[test]
fn rotation_steps_every_sixteen_ms() {
    assert_eq!(rotation_steps(0), 0);
    assert_eq!(rotation_steps(15), 0);
    assert_eq!(rotation_steps(32), 2);
    assert_eq!(rotation_steps(16 * u32::MAX as u64), 0);
    assert_eq!(rotation_steps(16 * u32::MAX as u64 + 16), 1);
}

#[test]
fn smooth_every_third_second() {
    assert!(smooth_shading(0));
    assert!(!smooth_shading(1));
    assert!(!smooth_shading(2));
    assert!(smooth_shading(3));
    assert!(smooth_shading(300));
}

#[test]
fn fan_indices_count_up() {
    assert_eq!(fan_indices(0), Vec::<u16>::new());
    assert_eq!(fan_indices(4), vec![0u16, 1, 2, 3]);
    let big = fan_indices(362);
    assert_eq!(big.len(), 362);
    assert_eq!(big[361], 361);
}

#[test]
fn pulse_grows_then_shrinks() {
    let mut p = ViewportPulse::new();
    let sizes: Vec<i32> = (0..10).map(|_| p.step(10, 20).width).collect();
    assert_eq!(sizes, vec![4, 8, 12, 10, 8, 6, 4, 2, 0, 4]);
    let mut p = ViewportPulse::new();
    assert_eq!(p.step(10, 20), Viewport { x: 2, y: 2, width: 4, height: 4 });
}

#[test]
fn bounce_turns_at_edges() {
    let mut b = ViewportBounce::new();
    let widths: Vec<i32> = (0..6).map(|_| b.step(12, 100).width).collect();
    assert_eq!(widths, vec![5, 10, 10, 5, 0, 0]);
    assert_eq!(b.width_step, 5);
    let mut b = ViewportBounce::new();
    assert_eq!(b.step(12, 100), Viewport { x: 0, y: 0, width: 5, height: 5 });
}

#[test]
fn full_window_viewport() {
    assert_eq!(full_viewport(640, 480), Viewport { x: 0, y: 0, width: 640, height: 480 });
}

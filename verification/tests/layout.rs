use camera_pipeline::quad::QuadLayout;
use camera_pipeline::quad::compute_quad_layout;

fn assert_aspect_preserved(q: &QuadLayout, cw: u128, ch: u128, tw: u128, th: u128) {
    // In pixels the quad is (size_x * tw) by (size_y * th); its ratio must be
    // the camera's cw/ch, compared here with all fractions cross-multiplied.
    assert_eq!(
        q.size_x_num * q.size_y_den * (tw * ch),
        q.size_y_num * q.size_x_den * (th * cw)
    );
}

#[test]
fn taller_camera_is_pillarboxed() {
    let q = compute_quad_layout(640, 480, 1920, 1080);
    assert_eq!(q.size_y_num, 2);
    assert_eq!(q.size_y_den, 1);
    assert_eq!(q.size_x_num, 2 * 640 * 1080);
    assert_eq!(q.size_x_den, 1920 * 480);
    // 2 * (4/3) / (16/9) = 3/2.
    assert_eq!(q.size_x_num * 2, q.size_x_den * 3);
    assert_aspect_preserved(&q, 640, 480, 1920, 1080);
}

#[test]
fn wider_camera_is_letterboxed() {
    let q = compute_quad_layout(1920, 1080, 1000, 1000);
    assert_eq!(q.size_x_num, 2);
    assert_eq!(q.size_x_den, 1);
    assert_eq!(q.size_y_num, 2 * 1000 * 1080);
    assert_eq!(q.size_y_den, 1920 * 1000);
    // 2 * (1/1) / (16/9) = 9/8.
    assert_eq!(q.size_y_num * 8, q.size_y_den * 9);
    assert_aspect_preserved(&q, 1920, 1080, 1000, 1000);
}

#[test]
fn matching_aspect_fills_the_target() {
    let q = compute_quad_layout(640, 480, 1280, 960);
    // Both sizes reduce to exactly 2 NDC units.
    assert_eq!(q.size_x_num, 2 * 640 * 960);
    assert_eq!(q.size_x_den, 1280 * 480);
    assert_eq!(q.size_x_num, 2 * q.size_x_den);
    assert_eq!(q.size_y_num, 2);
    assert_eq!(q.size_y_den, 1);
    assert_aspect_preserved(&q, 640, 480, 1280, 960);
}

#[test]
fn quad_is_always_centered() {
    let q = compute_quad_layout(640, 480, 1920, 1080);
    assert_eq!((q.pos_x, q.pos_y), (0, 0));
}

#[test]
fn zero_dimensions_are_clamped() {
    let q = compute_quad_layout(0, 0, 0, 0);
    // Clamped to a 1x1 camera on a 1x1 target: the quad fills it.
    assert_eq!(q.size_x_num, 2);
    assert_eq!(q.size_x_den, 1);
    assert_eq!(q.size_y_num, 2);
    assert_eq!(q.size_y_den, 1);
}

#[test]
fn default_layout_covers_the_target() {
    let q = QuadLayout::default();
    assert_eq!((q.pos_x, q.pos_y), (0, 0));
    assert_eq!((q.size_x_num, q.size_x_den), (2, 1));
    assert_eq!((q.size_y_num, q.size_y_den), (2, 1));
}

use camera_pipeline::geometry::AspectRatio;
use camera_pipeline::geometry::WindowPosition;
use camera_pipeline::geometry::WindowSize;
use camera_pipeline::geometry::calculate_overlay_geometry;

#[test]
fn overlay_sits_in_top_right_corner() {
    let (pos, size) = calculate_overlay_geometry(
        WindowPosition { x: 100, y: 200 },
        WindowSize { width: 800, height: 600 },
        AspectRatio { num: 16, den: 9 },
    );
    // Width is two fifths of the host width; height follows the 16:9 ratio.
    assert_eq!(size, WindowSize { width: 320, height: 180 });
    // Top-right corner of the host, inset by the 20 px margin on each axis.
    assert_eq!(pos, WindowPosition { x: 100 + 800 - 320 - 20, y: 200 + 20 });
}

#[test]
fn overlay_height_follows_aspect_ratio() {
    let (_, size) = calculate_overlay_geometry(
        WindowPosition { x: 0, y: 0 },
        WindowSize { width: 1000, height: 700 },
        AspectRatio { num: 4, den: 3 },
    );
    assert_eq!(size, WindowSize { width: 400, height: 300 });
}

#[test]
fn geometry_is_idempotent() {
    let pos = WindowPosition { x: -35, y: 17 };
    let host = WindowSize { width: 1234, height: 777 };
    let aspect = AspectRatio { num: 16, den: 9 };
    let first = calculate_overlay_geometry(pos, host, aspect);
    let second = calculate_overlay_geometry(pos, host, aspect);
    assert_eq!(first, second);
}

#[test]
fn zero_host_width_clamps_overlay_to_one_pixel() {
    let (pos, size) = calculate_overlay_geometry(
        WindowPosition { x: 100, y: 0 },
        WindowSize { width: 0, height: 400 },
        AspectRatio { num: 16, den: 9 },
    );
    assert_eq!(size, WindowSize { width: 1, height: 1 });
    assert_eq!(pos, WindowPosition { x: 80, y: 20 });
}

#[test]
fn aspect_from_size_clamps_zero_dimensions() {
    let a = AspectRatio::from_size(WindowSize { width: 0, height: 0 });
    assert_eq!(a, AspectRatio { num: 1, den: 1 });
    let b = AspectRatio::from_size(WindowSize { width: 320, height: 180 });
    assert_eq!(b, AspectRatio { num: 320, den: 180 });
}

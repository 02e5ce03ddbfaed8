use camera_pipeline::convert::yuyv_to_rgba;
use camera_pipeline::convert::yuyv_to_rgba_par;
use camera_pipeline::frame::ColorFrame;
use camera_pipeline::frame::RawFrame;

#[test]
fn output_length_is_four_bytes_per_pixel() {
    for (w, h) in [(2usize, 1usize), (2, 3), (8, 8), (640, 480)] {
        let input = vec![0u8; 2 * w * h];
        let out = yuyv_to_rgba(&input, w, h);
        assert_eq!(out.len(), 4 * w * h);
    }
}

#[test]
fn empty_frame_converts_to_empty_buffer() {
    let out = yuyv_to_rgba(&[], 0, 0);
    assert_eq!(out.len(), 0);
}

#[test]
fn mid_gray_frame_converts_to_uniform_gray() {
    let (w, h) = (640usize, 480usize);
    let input = vec![128u8; 2 * w * h];
    let out = yuyv_to_rgba(&input, w, h);
    assert_eq!(out.len(), 4 * w * h);
    for px in out.chunks_exact(4) {
        assert_eq!(px, &[130, 130, 130, 255]);
    }
}

#[test]
fn video_black_converts_to_opaque_black() {
    let (w, h) = (640usize, 480usize);
    let mut input = Vec::with_capacity(2 * w * h);
    for _ in 0..(w * h / 2) {
        input.extend_from_slice(&[16, 128, 16, 128]);
    }
    let out = yuyv_to_rgba(&input, w, h);
    for px in out.chunks_exact(4) {
        assert_eq!(px, &[0, 0, 0, 255]);
    }
}

#[test]
fn transform_matches_hand_computed_vector() {
    // Y = 100, U = 50, V = 200: c = 84, d = -78, e = 72, so
    // R = (298*84 + 409*72 + 128) / 256 = 213,
    // G = (298*84 + 100*78 - 208*72 + 128) / 256 = 70,
    // B = (298*84 - 516*78 + 128) / 256 is negative and clamps to 0.
    let input = [100u8, 50, 100, 200];
    let out = yuyv_to_rgba(&input, 2, 1);
    assert_eq!(out, vec![213, 70, 0, 255, 213, 70, 0, 255]);
}

#[test]
fn bright_luma_saturates_to_white() {
    let input = [235u8, 128, 235, 128];
    let out = yuyv_to_rgba(&input, 2, 1);
    assert_eq!(out, vec![255, 255, 255, 255, 255, 255, 255, 255]);
}

#[test]
fn luma_pair_converts_to_distinct_pixels() {
    // The two pixels of one group share chroma but keep their own luma.
    let input = [16u8, 128, 128, 128];
    let out = yuyv_to_rgba(&input, 2, 1);
    assert_eq!(&out[0..4], &[0, 0, 0, 255]);
    assert_eq!(&out[4..8], &[130, 130, 130, 255]);
}

#[test]
fn conversion_is_deterministic() {
    let (w, h) = (32usize, 8usize);
    let input: Vec<u8> = (0..2 * w * h).map(|i| (i * 13 + 5) as u8).collect();
    let first = yuyv_to_rgba(&input, w, h);
    let second = yuyv_to_rgba(&input, w, h);
    assert_eq!(first, second);
}

#[test]
fn parallel_conversion_matches_sequential() {
    let (w, h) = (64usize, 32usize);
    let input: Vec<u8> = (0..2 * w * h).map(|i| (i * 7 + 3) as u8).collect();
    let seq = yuyv_to_rgba(&input, w, h);
    let par = yuyv_to_rgba_par(&input, w, h);
    assert_eq!(seq, par);
}

#[test]
fn parallel_conversion_computes_the_transform() {
    let (w, h) = (640usize, 480usize);
    let input = vec![128u8; 2 * w * h];
    let out = yuyv_to_rgba_par(&input, w, h);
    assert_eq!(out.len(), 4 * w * h);
    for px in out.chunks_exact(4) {
        assert_eq!(px, &[130, 130, 130, 255]);
    }
}

#[test]
fn raw_frame_accepts_matching_buffer() {
    let f = RawFrame::new(vec![128u8; 2 * 640 * 480], 640, 480).unwrap();
    assert_eq!(f.width, 640);
    assert_eq!(f.height, 480);
    assert_eq!(f.data.len(), 2 * 640 * 480);
}

#[test]
fn raw_frame_rejects_wrong_length() {
    assert!(RawFrame::new(vec![0u8; 100], 640, 480).is_none());
    assert!(RawFrame::new(vec![0u8; 2 * 640 * 480 - 1], 640, 480).is_none());
}

#[test]
fn raw_frame_rejects_odd_width() {
    assert!(RawFrame::new(vec![0u8; 2 * 641 * 480], 641, 480).is_none());
}

#[test]
fn color_frame_keeps_dimensions_and_converts() {
    let raw = RawFrame::new(vec![128u8; 2 * 32 * 16], 32, 16).unwrap();
    let color = ColorFrame::from_raw(&raw);
    assert_eq!(color.width, 32);
    assert_eq!(color.height, 16);
    assert_eq!(color.data.len(), 4 * 32 * 16);
    assert_eq!(&color.data[0..4], &[130, 130, 130, 255]);
}

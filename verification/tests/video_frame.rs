use fracture::gpu::TEXTURE_PREFERENCES;
use fracture::gpu::TextureFormat;
use fracture::video_frame::{
    detect_offsets, detect_offsets_flipped, find_real_dimensions, guess_best_texture_format,
    RealDimensions, VideoFormat,
};

/// A black `w` x `h` RGBA frame with the given pixels set to a colour.
fn frame(w: usize, h: usize, lit: &[(usize, usize)]) -> Vec<u8> {
    let mut data = vec![0u8; w * h * 4];
    for &(row, col) in lit {
        let b = (row * w + col) * 4;
        data[b] = 200;
        data[b + 3] = 255;
    }
    data
}

#[test]
fn detect_offsets_finds_top_left_of_content() {
    let data = frame(6, 5, &[(1, 3), (2, 1), (4, 4)]);
    assert_eq!(detect_offsets(&data, &(6, 5)), (1, 1));
}

#[test]
fn detect_offsets_flipped_finds_bottom_right_of_content() {
    let data = frame(6, 5, &[(1, 3), (2, 1), (3, 4)]);
    assert_eq!(detect_offsets_flipped(&data, &(6, 5)), (4, 3));
}

#[test]
fn alpha_only_pixels_count_as_black() {
    let mut data = frame(3, 3, &[]);
    data[(1 * 3 + 1) * 4 + 3] = 255;
    assert_eq!(detect_offsets(&data, &(3, 3)), (0, 0));
    assert_eq!(detect_offsets_flipped(&data, &(3, 3)), (2, 2));
}

#[test]
fn each_colour_channel_counts() {
    for channel in 0..3 {
        let mut data = frame(4, 4, &[]);
        data[(2 * 4 + 1) * 4 + channel] = 1;
        assert_eq!(detect_offsets(&data, &(4, 4)), (1, 2));
        assert_eq!(detect_offsets_flipped(&data, &(4, 4)), (1, 2));
    }
}

#[test]
fn black_frame_offsets() {
    let data = frame(7, 3, &[]);
    assert_eq!(detect_offsets(&data, &(7, 3)), (0, 0));
    assert_eq!(detect_offsets_flipped(&data, &(7, 3)), (6, 2));
}

#[test]
fn find_real_dimensions_is_the_content_box() {
    let data = frame(10, 8, &[(2, 3), (5, 7), (4, 1)]);
    let r = find_real_dimensions(&data, &(10, 8));
    assert_eq!(r, RealDimensions { off_x: 1, off_y: 2, width: 7, height: 4 });
}

#[test]
fn find_real_dimensions_single_pixel() {
    let data = frame(5, 5, &[(3, 2)]);
    let r = find_real_dimensions(&data, &(5, 5));
    assert_eq!(r, RealDimensions { off_x: 2, off_y: 3, width: 1, height: 1 });
}

#[test]
fn find_real_dimensions_of_black_frame_is_whole_frame() {
    let data = frame(9, 4, &[]);
    let r = find_real_dimensions(&data, &(9, 4));
    assert_eq!(r, RealDimensions { off_x: 0, off_y: 0, width: 9, height: 4 });
}

#[test]
fn find_real_dimensions_full_frame_content() {
    let data = vec![255u8; 4 * 4 * 3];
    let r = find_real_dimensions(&data, &(4, 3));
    assert_eq!(r, RealDimensions { off_x: 0, off_y: 0, width: 4, height: 3 });
}

#[test]
fn detect_offsets_stops_at_first_lit_pixel_of_last_row() {
    // The last row is cut short after its first lit pixel; the scan never
    // reads past it.
    let mut data = frame(4, 2, &[(1, 1)]);
    data.truncate((1 * 4 + 1) * 4 + 4);
    assert_eq!(detect_offsets(&data, &(4, 2)), (1, 1));
}

#[test]
fn negative_width_gives_no_content() {
    let data: Vec<u8> = Vec::new();
    assert_eq!(detect_offsets(&data, &(-3, 2)), (0, 0));
    assert_eq!(detect_offsets_flipped(&data, &(-3, 2)), ((-4i32) as u32, 1));
}

#[test]
fn texture_format_guesses() {
    assert_eq!(guess_best_texture_format(VideoFormat::RGB), TextureFormat::Rgba8Unorm);
    assert_eq!(guess_best_texture_format(VideoFormat::RGBA), TextureFormat::Rgba8Unorm);
    assert_eq!(guess_best_texture_format(VideoFormat::RGBx), TextureFormat::Rgba8Unorm);
    assert_eq!(guess_best_texture_format(VideoFormat::BGRx), TextureFormat::Bgra8Unorm);
    assert_eq!(guess_best_texture_format(VideoFormat::BGRA), TextureFormat::Bgra8Unorm);
    assert_eq!(guess_best_texture_format(VideoFormat::YUY2), TextureFormat::NV12);
    assert_eq!(guess_best_texture_format(VideoFormat::I420), TextureFormat::NV12);
    assert_eq!(guess_best_texture_format(VideoFormat::Other(99)), TextureFormat::Rgba8Unorm);
}

#[test]
fn every_prediction_is_a_preferred_format() {
    let all = [
        VideoFormat::RGB,
        VideoFormat::RGBA,
        VideoFormat::RGBx,
        VideoFormat::BGRx,
        VideoFormat::BGRA,
        VideoFormat::YUY2,
        VideoFormat::I420,
        VideoFormat::Other(0),
    ];
    for v in all {
        assert!(TEXTURE_PREFERENCES.contains(&guess_best_texture_format(v)));
    }
}

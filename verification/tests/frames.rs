use std::time::{Duration, SystemTime};

use scap::capturer::engine::mac::pixelformat::{
    create_bgr_frame, create_bgra_frame, create_rgb_frame, create_yuv_frame,
};
use scap::frame::{convert_bgra_to_rgb, get_cropped_data, remove_alpha_channel};

fn when() -> SystemTime {
    SystemTime::UNIX_EPOCH + Duration::from_secs(1_700_000_000)
}

/// Two rows of three BGRA pixels (12 bytes per row), of which the image
/// uses the first two.
fn padded_image() -> Vec<u8> {
    vec![
        1, 2, 3, 4, 5, 6, 7, 8, 90, 91, 92, 93, //
        11, 12, 13, 14, 15, 16, 17, 18, 94, 95, 96, 97,
    ]
}

#[test]
fn cropping_keeps_the_first_pixels_of_each_row() {
    assert_eq!(
        get_cropped_data(padded_image(), 3, 2, 2),
        vec![1, 2, 3, 4, 5, 6, 7, 8, 11, 12, 13, 14, 15, 16, 17, 18]
    );
}

#[test]
fn cropping_leaves_data_of_another_shape_alone() {
    let odd = vec![1, 2, 3, 4, 5];
    assert_eq!(get_cropped_data(odd.clone(), 1, 1, 1), odd);
    assert_eq!(get_cropped_data(padded_image(), 3, 2, 4), padded_image());
}

#[test]
fn removing_alpha_keeps_blue_green_red() {
    assert_eq!(remove_alpha_channel(vec![1, 2, 3, 4, 5, 6, 7, 8, 9]), vec![1, 2, 3, 5, 6, 7]);
    assert!(remove_alpha_channel(vec![]).is_empty());
}

#[test]
fn converting_to_rgb_swaps_blue_and_red() {
    assert_eq!(convert_bgra_to_rgb(vec![1, 2, 3, 4, 5, 6, 7, 8, 9]), vec![3, 2, 1, 7, 6, 5]);
}

#[test]
fn rgb_is_bgr_with_each_pixel_reversed() {
    let data: Vec<u8> = (0..40).collect();
    let bgr = remove_alpha_channel(data.clone());
    let rgb = convert_bgra_to_rgb(data);
    assert_eq!(bgr.len(), rgb.len());
    for i in 0..rgb.len() {
        assert_eq!(rgb[i], bgr[(i / 3) * 3 + (2 - i % 3)]);
    }
}

#[test]
fn bgra_frame_copies_the_used_part_of_each_row() {
    let bytes = padded_image();
    let f = create_bgra_frame(2, 2, 12, Some(&bytes), when()).unwrap();
    assert_eq!(f.width, 2);
    assert_eq!(f.height, 2);
    assert_eq!(f.display_time, when());
    assert_eq!(f.data, vec![1, 2, 3, 4, 5, 6, 7, 8, 11, 12, 13, 14, 15, 16, 17, 18]);
}

#[test]
fn bgr_frame_crops_and_drops_alpha() {
    let bytes = padded_image();
    let f = create_bgr_frame(2, 2, 12, Some(&bytes), when()).unwrap();
    assert_eq!((f.width, f.height), (2, 2));
    assert_eq!(f.data, vec![1, 2, 3, 5, 6, 7, 11, 12, 13, 15, 16, 17]);
}

#[test]
fn rgb_frame_crops_and_reorders() {
    let bytes = padded_image();
    let f = create_rgb_frame(2, 2, 12, Some(&bytes), when()).unwrap();
    assert_eq!(f.data, vec![3, 2, 1, 7, 6, 5, 13, 12, 11, 17, 16, 15]);
}

#[test]
fn empty_images_and_missing_planes_give_no_frame() {
    let bytes = padded_image();
    assert!(create_bgra_frame(0, 2, 12, Some(&bytes), when()).is_none());
    assert!(create_bgra_frame(2, 2, 12, None, when()).is_none());
    assert!(create_bgr_frame(2, 0, 12, Some(&[]), when()).is_none());
    assert!(create_rgb_frame(2, 2, 12, None, when()).is_none());
    assert!(create_yuv_frame(0, 2, 4, Some(&[1]), 4, Some(&[2]), when()).is_none());
    assert!(create_yuv_frame(2, 2, 4, Some(&[1]), 4, None, when()).is_none());
    assert!(create_yuv_frame(2, 2, 4, None, 4, Some(&[2]), when()).is_none());
}

#[test]
fn yuv_frame_keeps_both_planes() {
    let luma = vec![1u8, 2, 3, 4, 5, 6, 7, 8];
    let chroma = vec![9u8, 10, 11, 12];
    let f = create_yuv_frame(2, 2, 4, Some(&luma), 4, Some(&chroma), when()).unwrap();
    assert_eq!((f.width, f.height), (2, 2));
    assert_eq!(f.luminance_bytes, luma);
    assert_eq!(f.luminance_stride, 4);
    assert_eq!(f.chrominance_bytes, chroma);
    assert_eq!(f.chrominance_stride, 4);
    assert_eq!(f.display_time, when());
}

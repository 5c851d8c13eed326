//! Frames built from the pixel buffer of a captured sample.
//!
//! Each builder takes what the pixel buffer reports: its width and height,
//! the bytes per row of its planes, and the bytes read at each plane's base
//! address (`None` where the buffer gave no base address).

use vstd::prelude::*;

use crate::frame::{
    BGRAFrame, BGRFrame, RGBFrame, YUVFrame, bgra_as_rgb, convert_bgra_to_rgb, cropped_data_of,
    get_cropped_data, remove_alpha_channel, row_prefixes, without_alpha,
};

verus! {

/// A YUV frame from the luminance plane (plane 0) and the chrominance plane
/// (plane 1) of a biplanar pixel buffer; `None` for an empty image or a
/// plane without a base address.
pub fn create_yuv_frame(
    width: usize,
    height: usize,
    luminance_stride: usize,
    luminance: Option<&[u8]>,
    chrominance_stride: usize,
    chrominance: Option<&[u8]>,
    display_time: std::time::SystemTime,
) -> (r: Option<YUVFrame>)
    ensures
        r is None <==> (width == 0 || height == 0 || luminance is None || chrominance is None),
        r matches Some(f) ==> {
            &&& f.display_time == display_time
            &&& f.width == width as i32
            &&& f.height == height as i32
            &&& f.luminance_bytes@ == luminance.unwrap()@
            &&& f.luminance_stride == luminance_stride as i32
            &&& f.chrominance_bytes@ == chrominance.unwrap()@
            &&& f.chrominance_stride == chrominance_stride as i32
        },
{
    if width == 0 || height == 0 {
        return None;
    }
    let luminance_bytes = match luminance {
        Some(bytes) => vstd::slice::slice_to_vec(bytes),
        None => return None,
    };
    let chrominance_bytes = match chrominance {
        Some(bytes) => vstd::slice::slice_to_vec(bytes),
        None => return None,
    };
    Some(YUVFrame {
        display_time,
        width: width as i32,
        height: height as i32,
        luminance_bytes,
        luminance_stride: luminance_stride as i32,
        chrominance_bytes,
        chrominance_stride: chrominance_stride as i32,
    })
}

/// A BGR frame from the single plane of a BGRA pixel buffer: each row cut to
/// the image's width, and the alpha byte of each pixel dropped. `bytes` are
/// the `bytes_per_row * height` bytes at the plane's base address.
pub fn create_bgr_frame(
    width: usize,
    height: usize,
    bytes_per_row: usize,
    bytes: Option<&[u8]>,
    display_time: std::time::SystemTime,
) -> (r: Option<BGRFrame>)
    requires
        bytes matches Some(b) ==> b@.len() == bytes_per_row * height,
    ensures
        r is None <==> (width == 0 || height == 0 || bytes is None),
        r matches Some(f) ==> {
            &&& f.display_time == display_time
            &&& f.width == width as i32
            &&& f.height == height as i32
            &&& f.data@ == without_alpha(
                cropped_data_of(bytes.unwrap()@, (bytes_per_row / 4) as int, height as int, width as int),
            )
        },
{
    if width == 0 || height == 0 {
        return None;
    }
    let data = match bytes {
        Some(b) => vstd::slice::slice_to_vec(b),
        None => return None,
    };
    let cropped_data = get_cropped_data(data, bytes_per_row / 4, height, width);
    Some(BGRFrame {
        display_time,
        width: width as i32,
        height: height as i32,
        data: remove_alpha_channel(cropped_data),
    })
}

/// A BGRA frame from the single plane of a BGRA pixel buffer: the first
/// `4 * width` bytes of each of its `height` rows. `bytes` are the
/// `bytes_per_row * height` bytes at the plane's base address.
pub fn create_bgra_frame(
    width: usize,
    height: usize,
    bytes_per_row: usize,
    bytes: Option<&[u8]>,
    display_time: std::time::SystemTime,
) -> (r: Option<BGRAFrame>)
    requires
        bytes matches Some(b) ==> b@.len() == bytes_per_row * height,
        width > 0 && height > 0 && bytes is Some ==> 4 * width <= bytes_per_row,
    ensures
        r is None <==> (width == 0 || height == 0 || bytes is None),
        r matches Some(f) ==> {
            &&& f.display_time == display_time
            &&& f.width == width as i32
            &&& f.height == height as i32
            &&& f.data@ == row_prefixes(bytes.unwrap()@, bytes_per_row as int, 4 * width, height as int)
        },
{
    if width == 0 || height == 0 {
        return None;
    }
    let data = match bytes {
        Some(b) => {
            assert(height * bytes_per_row == bytes_per_row * height) by (nonlinear_arith);
            crate::frame::copy_row_prefixes(b, bytes_per_row, 4 * width, height)
        },
        None => return None,
    };
    Some(BGRAFrame { display_time, width: width as i32, height: height as i32, data })
}

/// An RGB frame from the single plane of a BGRA pixel buffer: each row cut to
/// the image's width, and each pixel turned from blue-green-red-alpha into
/// red-green-blue. `bytes` are the `bytes_per_row * height` bytes at the
/// plane's base address.
pub fn create_rgb_frame(
    width: usize,
    height: usize,
    bytes_per_row: usize,
    bytes: Option<&[u8]>,
    display_time: std::time::SystemTime,
) -> (r: Option<RGBFrame>)
    requires
        bytes matches Some(b) ==> b@.len() == bytes_per_row * height,
    ensures
        r is None <==> (width == 0 || height == 0 || bytes is None),
        r matches Some(f) ==> {
            &&& f.display_time == display_time
            &&& f.width == width as i32
            &&& f.height == height as i32
            &&& f.data@ == bgra_as_rgb(
                cropped_data_of(bytes.unwrap()@, (bytes_per_row / 4) as int, height as int, width as int),
            )
        },
{
    if width == 0 || height == 0 {
        return None;
    }
    let data = match bytes {
        Some(b) => vstd::slice::slice_to_vec(b),
        None => return None,
    };
    let cropped_data = get_cropped_data(data, bytes_per_row / 4, height, width);
    Some(RGBFrame {
        display_time,
        width: width as i32,
        height: height as i32,
        data: convert_bgra_to_rgb(cropped_data),
    })
}

} // verus!

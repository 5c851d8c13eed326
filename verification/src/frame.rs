//! Captured frames, and the pixel work that turns the bytes of a captured
//! image into them.

use vstd::prelude::*;

verus! {

#[verifier::external_type_specification]
#[verifier::external_body]
pub struct ExSystemTime(std::time::SystemTime);

/// A video frame in YUV 4:2:0 with a luminance plane and an interleaved
/// chrominance plane.
#[derive(Debug)]
pub struct YUVFrame {
    pub display_time: std::time::SystemTime,
    pub width: i32,
    pub height: i32,
    pub luminance_bytes: Vec<u8>,
    pub luminance_stride: i32,
    pub chrominance_bytes: Vec<u8>,
    pub chrominance_stride: i32,
}

/// A video frame of 3-byte pixels in the order blue, green, red.
#[derive(Debug)]
pub struct BGRFrame {
    pub display_time: std::time::SystemTime,
    pub width: i32,
    pub height: i32,
    pub data: Vec<u8>,
}

/// A video frame of 4-byte pixels in the order blue, green, red, alpha.
#[derive(Debug)]
pub struct BGRAFrame {
    pub display_time: std::time::SystemTime,
    pub width: i32,
    pub height: i32,
    pub data: Vec<u8>,
}

/// A video frame of 3-byte pixels in the order red, green, blue.
#[derive(Debug)]
pub struct RGBFrame {
    pub display_time: std::time::SystemTime,
    pub width: i32,
    pub height: i32,
    pub data: Vec<u8>,
}

#[derive(Debug)]
pub enum VideoFrame {
    YUVFrame(YUVFrame),
    BGR0(BGRFrame),
    RGB(RGBFrame),
    BGRA(BGRAFrame),
}

/// The sample format of audio data.
#[derive(Debug, Clone, Copy, PartialEq, Eq, Structural)]
pub enum AudioFormat {
    I8,
    I16,
    I32,
    I64,
    U8,
    U16,
    U32,
    U64,
    F32,
    F64,
}

/// A block of captured audio.
#[derive(Debug)]
pub struct AudioFrame {
    pub format: AudioFormat,
    pub channels: u16,
    pub is_planar: bool,
    pub data: Vec<u8>,
    pub sample_count: usize,
    pub rate: u32,
    pub timestamp: std::time::SystemTime,
}

impl AudioFrame {
    pub fn new(
        format: AudioFormat,
        channels: u16,
        is_planar: bool,
        data: Vec<u8>,
        sample_count: usize,
        rate: u32,
        timestamp: std::time::SystemTime,
    ) -> (r: AudioFrame)
        ensures
            r == (AudioFrame { format, channels, is_planar, data, sample_count, rate, timestamp }),
    {
        AudioFrame { format, channels, is_planar, data, sample_count, rate, timestamp }
    }
}

#[derive(Debug)]
pub enum Frame {
    Video(VideoFrame),
    Audio(AudioFrame),
}

/// The first `keep` bytes of each of the first `rows` rows of `data`, whose
/// rows start every `stride` bytes, one after another.
pub open spec fn row_prefixes(data: Seq<u8>, stride: int, keep: int, rows: int) -> Seq<u8> {
    Seq::new((rows * keep) as nat, |i: int| data[(i / keep) * stride + i % keep])
}

/// The blue, green and red bytes of each whole 4-byte pixel of `data`.
pub open spec fn without_alpha(data: Seq<u8>) -> Seq<u8> {
    Seq::new((data.len() / 4 * 3) as nat, |i: int| data[(i / 3) * 4 + i % 3])
}

/// The red, green and blue bytes of each whole 4-byte blue-green-red-alpha
/// pixel of `data`.
pub open spec fn bgra_as_rgb(data: Seq<u8>) -> Seq<u8> {
    Seq::new((data.len() / 4 * 3) as nat, |i: int| data[(i / 3) * 4 + (2 - i % 3)])
}

/// The bytes of an image of `height` rows of `cur_width` 4-byte pixels,
/// each row cut to its first `width` pixels; the bytes unchanged when they do
/// not form such an image or the rows are narrower than `width`.
pub open spec fn cropped_data_of(data: Seq<u8>, cur_width: int, height: int, width: int) -> Seq<u8> {
    if data.len() == 4 * cur_width * height && width <= cur_width {
        row_prefixes(data, 4 * cur_width, 4 * width, height)
    } else {
        data
    }
}

proof fn lemma_row_position(r: int, c: int, keep: int, stride: int, rows: int)
    requires
        0 <= r < rows,
        0 <= c < keep <= stride,
    ensures
        (r * keep + c) / keep == r,
        (r * keep + c) % keep == c,
        0 <= r * stride + c < rows * stride,
        r * keep + c < rows * keep,
{
    vstd::arithmetic::div_mod::lemma_fundamental_div_mod_converse(r * keep + c, keep, r, c);
    assert(r * stride + c < rows * stride) by (nonlinear_arith)
        requires
            0 <= r < rows,
            0 <= c < keep <= stride,
    ;
    assert(r * keep + c < rows * keep) by (nonlinear_arith)
        requires
            0 <= r < rows,
            0 <= c < keep,
    ;
    assert(0 <= r * stride) by (nonlinear_arith)
        requires
            0 <= r,
            0 <= stride,
    ;
}

/// Copies the first `keep` bytes of each of `rows` rows that start every
/// `stride` bytes of `data`.
pub(crate) fn copy_row_prefixes(data: &[u8], stride: usize, keep: usize, rows: usize) -> (out: Vec<u8>)
    requires
        keep <= stride,
        rows * stride <= data@.len(),
    ensures
        out@ == row_prefixes(data@, stride as int, keep as int, rows as int),
{
    let len = data.len();
    let mut out: Vec<u8> = Vec::new();
    let mut r: usize = 0;
    let mut base: usize = 0;
    while r < rows
        invariant
            len == data@.len(),
            keep <= stride,
            rows * stride <= data@.len(),
            r <= rows,
            base == r * stride,
            out@.len() == r * keep,
            forall|i: int| 0 <= i < out@.len() ==> #[trigger] out@[i] == data@[(i / keep as int) * stride + i % keep as int],
        decreases rows - r,
    {
        let mut c: usize = 0;
        while c < keep
            invariant
                len == data@.len(),
                keep <= stride,
                rows * stride <= data@.len(),
                r < rows,
                c <= keep,
                base == r * stride,
                out@.len() == r * keep + c,
                forall|i: int| 0 <= i < out@.len() ==> #[trigger] out@[i] == data@[(i / keep as int) * stride + i % keep as int],
            decreases keep - c,
        {
            proof {
                lemma_row_position(r as int, c as int, keep as int, stride as int, rows as int);
            }
            let byte = data[base + c];
            out.push(byte);
            c = c + 1;
        }
        proof {
            assert((r + 1) * stride <= rows * stride) by (nonlinear_arith)
                requires
                    r < rows,
                    0 <= stride,
            ;
            assert((r + 1) * stride == r * stride + stride) by (nonlinear_arith);
            assert((r + 1) * keep == r * keep + keep) by (nonlinear_arith);
        }
        r = r + 1;
        base = base + stride;
    }
    assert(out@ =~= row_prefixes(data@, stride as int, keep as int, rows as int));
    out
}

/// Cuts each row of an image of `height` rows of `cur_width` 4-byte pixels
/// down to its first `width` pixels. Bytes that do not form such an image,
/// or rows narrower than `width`, are handed back unchanged.
pub fn get_cropped_data(data: Vec<u8>, cur_width: usize, height: usize, width: usize) -> (r: Vec<u8>)
    ensures
        r@ == cropped_data_of(data@, cur_width as int, height as int, width as int),
{
    let data_len = data.len();
    match cur_width.checked_mul(4) {
        Some(row) => match row.checked_mul(height) {
            Some(len) => {
                assert(len == 4 * cur_width * height) by (nonlinear_arith)
                    requires
                        row == cur_width * 4,
                        len == row * height,
                ;
                if len == data.len() && width <= cur_width {
                    assert(height * row == len) by (nonlinear_arith)
                        requires
                            len == row * height,
                    ;
                    let out = copy_row_prefixes(data.as_slice(), row, 4 * width, height);
                    assert(data@.len() == 4 * cur_width * height && width <= cur_width);
                    assert(out@ == row_prefixes(data@, 4 * cur_width, 4 * width, height as int));
                    out
                } else {
                    data
                }
            },
            None => {
                assert(4 * cur_width * height > usize::MAX) by (nonlinear_arith)
                    requires
                        row == cur_width * 4,
                        row * height > usize::MAX,
                ;
                data
            },
        },
        None => {
            assert(4 * cur_width * height > usize::MAX || height == 0) by (nonlinear_arith)
                requires
                    cur_width * 4 > usize::MAX,
            ;
            if height == 0 {
                assert(4 * cur_width * height == 0) by (nonlinear_arith)
                    requires
                        height == 0,
                ;
                if data_len == 0 && width <= cur_width {
                    assert(row_prefixes(data@, 4 * cur_width, 4 * width, 0) =~= data@);
                }
            }
            data
        },
    }
}

/// Drops the alpha byte of every whole 4-byte pixel; a trailing partial
/// pixel is dropped too.
pub fn remove_alpha_channel(frame_data: Vec<u8>) -> (r: Vec<u8>)
    ensures
        r@ == without_alpha(frame_data@),
        r@.len() == frame_data@.len() / 4 * 3,
{
    let len = frame_data.len();
    let pixels = len / 4;
    let mut data: Vec<u8> = Vec::new();
    let mut k: usize = 0;
    while k < pixels
        invariant
            len == frame_data@.len(),
            pixels == len / 4,
            k <= pixels,
            data@.len() == 3 * k,
            forall|i: int| 0 <= i < data@.len() ==> #[trigger] data@[i] == frame_data@[(i / 3) * 4 + i % 3],
        decreases pixels - k,
    {
        assert(4 * k + 3 < len) by (nonlinear_arith)
            requires
                k < pixels,
                pixels == len / 4,
        ;
        data.push(frame_data[4 * k]);
        data.push(frame_data[4 * k + 1]);
        data.push(frame_data[4 * k + 2]);
        k = k + 1;
    }
    assert(data@ =~= without_alpha(frame_data@));
    data
}

/// Turns every whole blue-green-red-alpha pixel into a red-green-blue one; a
/// trailing partial pixel is dropped.
pub fn convert_bgra_to_rgb(frame_data: Vec<u8>) -> (r: Vec<u8>)
    ensures
        r@ == bgra_as_rgb(frame_data@),
        r@.len() == frame_data@.len() / 4 * 3,
{
    let len = frame_data.len();
    let pixels = len / 4;
    let mut data: Vec<u8> = Vec::new();
    let mut k: usize = 0;
    while k < pixels
        invariant
            len == frame_data@.len(),
            pixels == len / 4,
            k <= pixels,
            data@.len() == 3 * k,
            forall|i: int| 0 <= i < data@.len() ==> #[trigger] data@[i] == frame_data@[(i / 3) * 4 + (2 - i % 3)],
        decreases pixels - k,
    {
        assert(4 * k + 3 < len) by (nonlinear_arith)
            requires
                k < pixels,
                pixels == len / 4,
        ;
        data.push(frame_data[4 * k + 2]);
        data.push(frame_data[4 * k + 1]);
        data.push(frame_data[4 * k]);
        k = k + 1;
    }
    assert(data@ =~= bgra_as_rgb(frame_data@));
    data
}

/// The red-green-blue bytes are the blue-green-red bytes with each pixel's
/// three bytes in reverse order.
pub proof fn lemma_rgb_reverses_bgr(data: Seq<u8>)
    ensures
        bgra_as_rgb(data).len() == without_alpha(data).len(),
        forall|i: int| 0 <= i < bgra_as_rgb(data).len() ==>
            #[trigger] bgra_as_rgb(data)[i] == without_alpha(data)[(i / 3) * 3 + (2 - i % 3)],
{
    assert forall|i: int| 0 <= i < bgra_as_rgb(data).len() implies
        #[trigger] bgra_as_rgb(data)[i] == without_alpha(data)[(i / 3) * 3 + (2 - i % 3)] by {
        let j = (i / 3) * 3 + (2 - i % 3);
        assert(j / 3 == i / 3 && j % 3 == 2 - i % 3);
        assert(0 <= j < without_alpha(data).len());
    }
}

} // verus!

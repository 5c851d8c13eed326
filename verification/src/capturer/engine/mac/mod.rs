//! The macOS capture engine: which part of the screen to capture and at which
//! size, how a stream is set up, and how its samples become frames.

pub mod handlers;
pub mod pixelformat;

pub use handlers::{Capturer, ErrorHandler};

use vstd::prelude::*;

use crate::capturer::{
    Area, FrameType, Options, Point, Size, saturate_u32,
};
use crate::frame::{AudioFormat, AudioFrame, BGRAFrame};
use crate::targets::{Display, Target};

verus! {

/// `n` rounded up to an even number. The largest `u64` is odd and has no
/// even `u64` above it; it stays as it is, which, like the even number above
/// it, clamps to the largest `u32` and gives the same aspect ratio.
pub open spec fn round_up_even(n: u64) -> u64 {
    if n % 2 == 1 && n < u64::MAX {
        (n + 1) as u64
    } else {
        n
    }
}

/// The area that `options` capture, for a target of `target_dimensions`
/// pixels: the requested crop area with its width and height rounded up to
/// even numbers, or the whole target.
pub open spec fn crop_area_of(options: Options, target_dimensions: (u64, u64)) -> Area {
    match options.crop_area {
        Some(area) => Area {
            origin: area.origin,
            size: Size {
                width: round_up_even(area.size.width),
                height: round_up_even(area.size.height),
            },
        },
        None => Area {
            origin: Point { x: 0, y: 0 },
            size: Size { width: target_dimensions.0, height: target_dimensions.1 },
        },
    }
}

fn rounded_up_even(n: u64) -> (r: u64)
    ensures
        r == round_up_even(n),
{
    if n % 2 == 1 && n < u64::MAX {
        n + 1
    } else {
        n
    }
}

/// Would show the system's content-sharing picker; it does nothing.
pub fn show_target_picker() {
}

/// The area to capture. `target_dimensions` is the size in pixels of the
/// target that `options` capture (the main display when they name none).
pub fn get_crop_area(options: &Options, target_dimensions: (u64, u64)) -> (area: Area)
    ensures
        area == crop_area_of(*options, target_dimensions),
        options.crop_area matches Some(a) ==> {
            &&& (area.size.width % 2 == 0 || a.size.width == u64::MAX)
            &&& (area.size.height % 2 == 0 || a.size.height == u64::MAX)
        },
        options.crop_area matches Some(a) ==> {
            &&& area.origin == a.origin
            &&& a.size.width <= area.size.width <= a.size.width + 1
            &&& a.size.height <= area.size.height <= a.size.height + 1
        },
        options.crop_area is None ==> {
            &&& area.origin.x == 0
            &&& area.origin.y == 0
            &&& area.size.width == target_dimensions.0
            &&& area.size.height == target_dimensions.1
        },
{
    match &options.crop_area {
        Some(val) => {
            let input_width = rounded_up_even(val.size.width);
            let input_height = rounded_up_even(val.size.height);
            Area {
                origin: Point { x: val.origin.x, y: val.origin.y },
                size: Size { width: input_width, height: input_height },
            }
        },
        None => Area {
            origin: Point { x: 0, y: 0 },
            size: Size { width: target_dimensions.0, height: target_dimensions.1 },
        },
    }
}

/// The captured width and height, each clamped to `u32` and multiplied by
/// the display's scale factor.
pub open spec fn scaled_capture_size(options: Options, target_dimensions: (u64, u64), scale_factor: u32) -> (int, int) {
    let area = crop_area_of(options, target_dimensions);
    (
        saturate_u32(area.size.width as int) * scale_factor,
        saturate_u32(area.size.height as int) * scale_factor,
    )
}

/// The scaled capture size fits in `u32`.
pub open spec fn frame_size_fits(options: Options, target_dimensions: (u64, u64), scale_factor: u32) -> bool {
    &&& scaled_capture_size(options, target_dimensions, scale_factor).0 <= u32::MAX
    &&& scaled_capture_size(options, target_dimensions, scale_factor).1 <= u32::MAX
}

/// Whether the frame size of a capture with `options` can be computed (see
/// `frame_size_fits`): the scaled capture size fits in `u32`.
pub fn output_frame_size_fits(options: &Options, target_dimensions: (u64, u64), scale_factor: u32) -> (r: bool)
    ensures
        r == frame_size_fits(*options, target_dimensions, scale_factor),
{
    let area = get_crop_area(options, target_dimensions);
    let width = saturating_u32(area.size.width) as u64;
    let height = saturating_u32(area.size.height) as u64;
    let scale = scale_factor as u64;
    assert(width * scale <= 0xffff_ffff * 0xffff_ffff && height * scale <= 0xffff_ffff * 0xffff_ffff) by (nonlinear_arith)
        requires
            width <= 0xffff_ffff,
            height <= 0xffff_ffff,
            scale <= 0xffff_ffff,
    ;
    width * scale <= u32::MAX as u64 && height * scale <= u32::MAX as u64
}

/// `n` rounded down to an even number.
pub open spec fn even_down(n: int) -> int {
    n - n % 2
}

/// `resolved` is given exactly when the options ask for a resolution other
/// than `Captured`.
pub open spec fn resolved_matches(options: Options, resolved: Option<[u32; 2]>) -> bool {
    (resolved is None) <==> (options.output_resolution is Captured)
}

/// The size of the frames that a capture with `options` produces: the
/// scaled capture size, bounded by `resolved` (the size of the requested
/// resolution at the source's aspect ratio, when one is requested), each side
/// rounded down to an even number.
pub open spec fn output_frame_size_of(
    options: Options,
    target_dimensions: (u64, u64),
    scale_factor: u32,
    resolved: Option<[u32; 2]>,
) -> (int, int) {
    let scaled = scaled_capture_size(options, target_dimensions, scale_factor);
    match resolved {
        None => (even_down(scaled.0), even_down(scaled.1)),
        Some(size) => (
            even_down(if scaled.0 <= size[0] { scaled.0 } else { size[0] as int }),
            even_down(if scaled.1 <= size[1] { scaled.1 } else { size[1] as int }),
        ),
    }
}

fn saturating_u32(n: u64) -> (r: u32)
    ensures
        r == saturate_u32(n as int),
{
    if n > u32::MAX as u64 {
        u32::MAX
    } else {
        n as u32
    }
}

/// The width and height of the frames that a capture with `options`
/// produces. `target_dimensions` is the size in pixels of the captured
/// target, and `scale_factor` the number of pixels per point of its display.
/// When the options ask for a resolution other than `Captured`, `resolved`
/// is that resolution's size for the aspect ratio of the area that
/// `get_crop_area` gives.
pub fn get_output_frame_size(
    options: &Options,
    target_dimensions: (u64, u64),
    scale_factor: u32,
    resolved: Option<[u32; 2]>,
) -> (r: [u32; 2])
    requires
        frame_size_fits(*options, target_dimensions, scale_factor),
        resolved_matches(*options, resolved),
    ensures
        r[0] == output_frame_size_of(*options, target_dimensions, scale_factor, resolved).0,
        r[1] == output_frame_size_of(*options, target_dimensions, scale_factor, resolved).1,
        r[0] % 2 == 0,
        r[1] % 2 == 0,
        r[0] <= scaled_capture_size(*options, target_dimensions, scale_factor).0,
        r[1] <= scaled_capture_size(*options, target_dimensions, scale_factor).1,
        resolved matches Some(size) ==> r[0] <= size[0] && r[1] <= size[1],
        options.crop_area is None && target_dimensions.0 <= u32::MAX && (resolved matches Some(size) ==> target_dimensions.0
            * scale_factor <= size[0]) ==> r[0] == target_dimensions.0 * scale_factor - (target_dimensions.0
            * scale_factor) % 2,
        options.crop_area is None && target_dimensions.1 <= u32::MAX && (resolved matches Some(size) ==> target_dimensions.1
            * scale_factor <= size[1]) ==> r[1] == target_dimensions.1 * scale_factor - (target_dimensions.1
            * scale_factor) % 2,
        resolved matches Some(size) ==> (r[0] == size[0] - size[0] % 2 || r[0] + 1 >= scaled_capture_size(
            *options,
            target_dimensions,
            scale_factor,
        ).0),
        resolved matches Some(size) ==> (r[1] == size[1] - size[1] % 2 || r[1] + 1 >= scaled_capture_size(
            *options,
            target_dimensions,
            scale_factor,
        ).1),
{
    let source_rect = get_crop_area(options, target_dimensions);
    let width32 = saturating_u32(source_rect.size.width);
    let height32 = saturating_u32(source_rect.size.height);
    let mut output_width: u32 = width32 * scale_factor;
    let mut output_height: u32 = height32 * scale_factor;
    match resolved {
        None => {},
        Some(size) => {
            if size[0] < output_width {
                output_width = size[0];
            }
            if size[1] < output_height {
                output_height = size[1];
            }
        },
    }
    output_width = output_width - output_width % 2;
    output_height = output_height - output_height % 2;
    [output_width, output_height]
}

/// The target that `options` capture: the one they name, or else the main
/// display, which `main_display` is asked for only then.
pub fn capture_target<F: FnOnce() -> Display>(options: &Options, main_display: F) -> (t: Target)
    requires
        call_requires(main_display, ()),
    ensures
        options.target matches Some(named) ==> t == named,
        options.target is None ==> t is Display && call_ensures(main_display, (), t->Display_0),
{
    match &options.target {
        Some(named) => named.clone(),
        None => Target::Display(main_display()),
    }
}

/// Why a capture stream could not be set up.
#[derive(Debug)]
pub enum CreateCapturerError {
    /// The platform refused; the message says why.
    OtherNative(String),
    /// No shareable window has the id of the target window, whose title this is.
    WindowNotFound(String),
    /// No shareable display has the native id of the target display, whose
    /// title this is.
    DisplayNotFound(String),
}

/// The pixel formats that a stream can deliver.
#[derive(Debug, Clone, Copy, PartialEq, Eq, Structural)]
pub enum PixelFormat {
    /// Biplanar YUV 4:2:0 in video range.
    YCbCr420v,
    /// 4-byte blue-green-red-alpha pixels.
    BGRA,
}

/// A time value as a number of ticks of `1 / timescale` seconds.
#[derive(Debug, Clone, Copy, PartialEq, Eq, Structural)]
pub struct FrameInterval {
    pub value: i64,
    pub timescale: i32,
    pub epoch: i64,
    pub flags: u32,
}

/// The kinds of output that a capture stream hands to its output handlers.
#[derive(Debug, Clone, Copy, PartialEq, Eq, Structural)]
pub enum StreamOutputType {
    Screen,
    Audio,
    Microphone,
}

/// What the stream captures: one window, or one display without some of
/// the windows on it. Windows and displays are given by their position in
/// the lists of shareable windows and displays.
#[derive(Debug)]
pub enum ContentFilter {
    Window { window: usize },
    Display { display: usize, excluded_windows: Vec<usize> },
}

/// The configuration of a capture stream.
#[derive(Debug)]
pub struct StreamConfiguration {
    pub width: u32,
    pub height: u32,
    pub source_rect: Area,
    pub pixel_format: PixelFormat,
    pub shows_cursor: bool,
    pub minimum_frame_interval: FrameInterval,
    pub captures_audio: bool,
}

/// How a capture stream is to be set up: what it captures, how it is
/// configured, and which outputs get a handler, in the order they are added.
#[derive(Debug)]
pub struct CapturePlan {
    pub filter: ContentFilter,
    pub configuration: StreamConfiguration,
    pub outputs: Vec<StreamOutputType>,
}

/// `ids` holds `id`.
pub open spec fn has_id(ids: Seq<u32>, id: u32) -> bool {
    exists|i: int| 0 <= i < ids.len() && ids[i] == id
}

/// `i` is the first position of `id` in `ids`.
pub open spec fn is_first_match(ids: Seq<u32>, id: u32, i: int) -> bool {
    &&& 0 <= i < ids.len()
    &&& ids[i] == id
    &&& forall|j: int| 0 <= j < i ==> ids[j] != id
}

/// One of `excluded` is a window with the id `window_id`.
pub open spec fn window_is_excluded(window_id: u32, excluded: Seq<Target>) -> bool {
    exists|k: int| 0 <= k < excluded.len() && #[trigger] excluded[k] is Window && excluded[k]->Window_0.id == window_id
}

/// Whether the shareable window at a position is one that `targets` exclude.
pub open spec fn excluded_at(windows: Seq<u32>, targets: Seq<Target>) -> spec_fn(usize) -> bool {
    |i: usize| window_is_excluded(windows[i as int], targets)
}

/// The positions `0..n`.
pub open spec fn positions(n: nat) -> Seq<usize> {
    Seq::new(n, |i: int| i as usize)
}

/// The positions, in order, of the shareable windows that `excluded` names.
pub open spec fn excluded_window_indices(windows: Seq<u32>, excluded: Option<Vec<Target>>) -> Seq<usize> {
    match excluded {
        None => Seq::empty(),
        Some(targets) => positions(windows.len()).filter(excluded_at(windows, targets@)),
    }
}

/// The shareable content holds the target: its window id, or its display's
/// native id.
pub open spec fn target_found(target: Target, windows: Seq<u32>, displays: Seq<u32>) -> bool {
    match target {
        Target::Window(w) => has_id(windows, w.id),
        Target::Display(d) => d.raw_handle matches Some(h) && has_id(displays, h),
    }
}

/// The pixel format that delivers frames of `output_type`.
pub open spec fn pixel_format_for(output_type: FrameType) -> PixelFormat {
    match output_type {
        FrameType::YUVFrame => PixelFormat::YCbCr420v,
        _ => PixelFormat::BGRA,
    }
}

/// The outputs that get a handler: audio first when audio is captured, then
/// the screen.
pub open spec fn outputs_for(captures_audio: bool) -> Seq<StreamOutputType> {
    if captures_audio {
        seq![StreamOutputType::Audio, StreamOutputType::Screen]
    } else {
        seq![StreamOutputType::Screen]
    }
}

/// The first position of `id` in `ids`.
fn find_id(ids: &Vec<u32>, id: u32) -> (r: Option<usize>)
    ensures
        r is None <==> !has_id(ids@, id),
        r matches Some(i) ==> is_first_match(ids@, id, i as int),
{
    let mut i: usize = 0;
    while i < ids.len()
        invariant
            i <= ids@.len(),
            forall|j: int| 0 <= j < i ==> ids@[j] != id,
        decreases ids@.len() - i,
    {
        if ids[i] == id {
            return Some(i);
        }
        i = i + 1;
    }
    None
}

/// Whether one of `excluded` is a window with the id `window_id`.
fn is_excluded_window(window_id: u32, excluded: &Vec<Target>) -> (r: bool)
    ensures
        r == window_is_excluded(window_id, excluded@),
{
    let mut k: usize = 0;
    while k < excluded.len()
        invariant
            k <= excluded@.len(),
            forall|j: int| 0 <= j < k ==> !(#[trigger] excluded@[j] is Window && excluded@[j]->Window_0.id == window_id),
        decreases excluded@.len() - k,
    {
        match &excluded[k] {
            Target::Window(w) => {
                if w.id == window_id {
                    assert(excluded@[k as int] is Window && excluded@[k as int]->Window_0.id == window_id);
                    return true;
                }
            },
            Target::Display(_) => {},
        }
        k = k + 1;
    }
    false
}

/// The positions of the shareable windows that `excluded` names.
fn excluded_windows(windows: &Vec<u32>, excluded: &Option<Vec<Target>>) -> (r: Vec<usize>)
    ensures
        r@ == excluded_window_indices(windows@, *excluded),
{
    match excluded {
        None => Vec::new(),
        Some(targets) => {
            let ghost pred = excluded_at(windows@, targets@);
            let mut out: Vec<usize> = Vec::new();
            let mut i: usize = 0;
            proof {
                assert(positions(0) =~= Seq::<usize>::empty());
                reveal(Seq::filter);
            }
            while i < windows.len()
                invariant
                    i <= windows@.len(),
                    pred == excluded_at(windows@, targets@),
                    out@ == positions(i as nat).filter(pred),
                decreases windows@.len() - i,
            {
                proof {
                    assert(positions((i + 1) as nat) =~= positions(i as nat).push(i));
                    positions(i as nat).lemma_filter_push(i, pred);
                }
                if is_excluded_window(windows[i], targets) {
                    out.push(i);
                }
                i = i + 1;
            }
            out
        },
    }
}

/// Whether the capture stream for `target` can be planned (see
/// `create_capturer`): when the shareable content holds the target, the
/// frame size can be computed.
pub fn capture_plan_is_defined(
    options: &Options,
    target: &Target,
    shareable_windows: &Vec<u32>,
    shareable_displays: &Vec<u32>,
    target_dimensions: (u64, u64),
    scale_factor: u32,
) -> (r: bool)
    ensures
        r == (target_found(*target, shareable_windows@, shareable_displays@) ==> frame_size_fits(
            *options,
            target_dimensions,
            scale_factor,
        )),
{
    let found = match target {
        Target::Window(window) => find_id(shareable_windows, window.id).is_some(),
        Target::Display(display) => match display.raw_handle {
            Some(handle) => find_id(shareable_displays, handle).is_some(),
            None => false,
        },
    };
    !found || output_frame_size_fits(options, target_dimensions, scale_factor)
}

/// Plans the capture stream for `target` (see `capture_target`), given the
/// ids of the shareable windows and the native ids of the shareable
/// displays, the size in pixels of the target, its display's scale factor,
/// and the requested resolution's size (see `get_output_frame_size`). The stream captures the target window, or the target display
/// without the windows that the options exclude.
pub fn create_capturer(
    options: &Options,
    target: &Target,
    shareable_windows: &Vec<u32>,
    shareable_displays: &Vec<u32>,
    target_dimensions: (u64, u64),
    scale_factor: u32,
    resolved: Option<[u32; 2]>,
) -> (r: Result<CapturePlan, CreateCapturerError>)
    requires
        target_found(*target, shareable_windows@, shareable_displays@) ==> frame_size_fits(
            *options,
            target_dimensions,
            scale_factor,
        ),
        resolved_matches(*options, resolved),
    ensures
        r is Ok <==> target_found(*target, shareable_windows@, shareable_displays@),
        r matches Err(e) ==> match *target {
            Target::Window(w) => e == CreateCapturerError::WindowNotFound(w.title),
            Target::Display(d) => e == CreateCapturerError::DisplayNotFound(d.title),
        },
        r matches Ok(plan) ==> {
            &&& match *target {
                Target::Window(w) => plan.filter matches ContentFilter::Window { window } && is_first_match(
                    shareable_windows@,
                    w.id,
                    window as int,
                ),
                Target::Display(d) => plan.filter matches ContentFilter::Display { display, excluded_windows } && is_first_match(
                    shareable_displays@,
                    d.raw_handle.unwrap(),
                    display as int,
                ) && excluded_windows@ == excluded_window_indices(shareable_windows@, options.excluded_targets),
            }
            &&& plan.configuration.width == output_frame_size_of(*options, target_dimensions, scale_factor, resolved).0
            &&& plan.configuration.height == output_frame_size_of(*options, target_dimensions, scale_factor, resolved).1
            &&& plan.configuration.source_rect == crop_area_of(*options, target_dimensions)
            &&& plan.configuration.pixel_format == pixel_format_for(options.output_type)
            &&& (plan.configuration.pixel_format == PixelFormat::YCbCr420v <==> options.output_type == FrameType::YUVFrame)
            &&& (plan.configuration.pixel_format == PixelFormat::BGRA <==> options.output_type != FrameType::YUVFrame)
            &&& plan.configuration.shows_cursor == options.show_cursor
            &&& plan.configuration.minimum_frame_interval == (FrameInterval {
                value: 1,
                timescale: options.fps as i32,
                epoch: 0,
                flags: 1,
            })
            &&& plan.configuration.captures_audio == options.captures_audio
            &&& plan.outputs@ == outputs_for(options.captures_audio)
        },
{
    let filter = match target {
        Target::Window(window) => match find_id(shareable_windows, window.id) {
            Some(i) => ContentFilter::Window { window: i },
            None => return Err(CreateCapturerError::WindowNotFound(window.title.clone())),
        },
        Target::Display(display) => {
            let found = match display.raw_handle {
                Some(handle) => find_id(shareable_displays, handle),
                None => None,
            };
            match found {
                Some(i) => ContentFilter::Display {
                    display: i,
                    excluded_windows: excluded_windows(shareable_windows, &options.excluded_targets),
                },
                None => return Err(CreateCapturerError::DisplayNotFound(display.title.clone())),
            }
        },
    };
    let crop_area = get_crop_area(options, target_dimensions);
    let pixel_format = match options.output_type {
        FrameType::YUVFrame => PixelFormat::YCbCr420v,
        FrameType::BGR0 => PixelFormat::BGRA,
        FrameType::RGB => PixelFormat::BGRA,
        FrameType::BGRAFrame => PixelFormat::BGRA,
    };
    let size = get_output_frame_size(options, target_dimensions, scale_factor, resolved);
    let configuration = StreamConfiguration {
        width: size[0],
        height: size[1],
        source_rect: crop_area,
        pixel_format,
        shows_cursor: options.show_cursor,
        minimum_frame_interval: FrameInterval {
            value: 1,
            timescale: options.fps as i32,
            epoch: 0,
            flags: 1,
        },
        captures_audio: options.captures_audio,
    };
    let mut outputs: Vec<StreamOutputType> = Vec::new();
    if options.captures_audio {
        outputs.push(StreamOutputType::Audio);
    }
    outputs.push(StreamOutputType::Screen);
    assert(outputs@ =~= outputs_for(options.captures_audio));
    Ok(CapturePlan { filter, configuration, outputs })
}

/// The status that the stream attaches to a captured video sample.
#[derive(Debug, Clone, Copy, PartialEq, Eq, Structural)]
pub enum FrameStatus {
    Complete,
    Idle,
    Blank,
    Suspended,
    Started,
    Stopped,
}

/// What to make of a captured sample.
#[derive(Debug, Clone, Copy, PartialEq, Eq, Structural)]
pub enum SampleAction {
    /// An empty BGRA frame stands for an incomplete video sample.
    EmptyBGRAFrame,
    /// The sample gives no frame.
    Skip,
    /// A video frame of this type is built from the sample's pixel buffer.
    Video(FrameType),
    /// An audio frame is built from the sample's audio buffers.
    Audio,
}

/// What to make of a sample of the output `of_type` with the frame status
/// `frame_status`, when frames of `output_type` are wanted: a video sample
/// that is not complete gives an empty frame when BGRA frames are wanted and
/// nothing otherwise; microphone samples give nothing.
pub open spec fn sample_action_of(of_type: StreamOutputType, frame_status: Option<FrameStatus>, output_type: FrameType) -> SampleAction {
    match of_type {
        StreamOutputType::Screen => {
            if frame_status matches Some(status) && !(status is Complete) {
                if output_type is BGRAFrame {
                    SampleAction::EmptyBGRAFrame
                } else {
                    SampleAction::Skip
                }
            } else {
                SampleAction::Video(output_type)
            }
        },
        StreamOutputType::Audio => SampleAction::Audio,
        StreamOutputType::Microphone => SampleAction::Skip,
    }
}

/// Decides what to make of a captured sample (see `sample_action_of`).
pub fn sample_action(of_type: StreamOutputType, frame_status: Option<FrameStatus>, output_type: FrameType) -> (a: SampleAction)
    ensures
        a == sample_action_of(of_type, frame_status, output_type),
        a == SampleAction::EmptyBGRAFrame ==> output_type == FrameType::BGRAFrame,
        a matches SampleAction::Video(wanted) ==> wanted == output_type,
        of_type == StreamOutputType::Screen && frame_status is Some && frame_status.unwrap() != FrameStatus::Complete
            ==> (a == SampleAction::EmptyBGRAFrame || a == SampleAction::Skip) && (a == SampleAction::EmptyBGRAFrame
            <==> output_type == FrameType::BGRAFrame),
        of_type == StreamOutputType::Screen && (frame_status is None || frame_status == Some(FrameStatus::Complete))
            ==> a == SampleAction::Video(output_type),
{
    match of_type {
        StreamOutputType::Screen => {
            if let Some(status) = frame_status {
                match status {
                    FrameStatus::Complete => {},
                    _ => {
                        return match output_type {
                            FrameType::BGRAFrame => SampleAction::EmptyBGRAFrame,
                            _ => SampleAction::Skip,
                        };
                    },
                }
            }
            SampleAction::Video(output_type)
        },
        StreamOutputType::Audio => SampleAction::Audio,
        StreamOutputType::Microphone => SampleAction::Skip,
    }
}

/// The empty frame that stands for an incomplete video sample.
pub fn empty_bgra_frame(display_time: std::time::SystemTime) -> (f: BGRAFrame)
    ensures
        f.display_time == display_time,
        f.width == 0,
        f.height == 0,
        f.data@ == Seq::<u8>::empty(),
{
    BGRAFrame { display_time, width: 0, height: 0, data: Vec::new() }
}

/// The bytes of all `buffers`, one after another.
pub open spec fn concatenation(buffers: Seq<Vec<u8>>) -> Seq<u8> {
    buffers.map_values(|b: Vec<u8>| b@).flatten()
}

/// The audio frame of a sample: the bytes of its audio buffers one after
/// another, as interleaved 32-bit float stereo at 48 kHz.
pub fn audio_frame(buffers: &Vec<Vec<u8>>, sample_count: usize, display_time: std::time::SystemTime) -> (f: AudioFrame)
    ensures
        f.format == AudioFormat::F32,
        f.channels == 2,
        !f.is_planar,
        f.data@ == concatenation(buffers@),
        f.sample_count == sample_count,
        f.rate == 48_000,
        f.timestamp == display_time,
{
    let mut bytes: Vec<u8> = Vec::new();
    let mut i: usize = 0;
    while i < buffers.len()
        invariant
            i <= buffers@.len(),
            bytes@ == concatenation(buffers@.take(i as int)),
        decreases buffers@.len() - i,
    {
        let buffer = &buffers[i];
        let ghost before = bytes@;
        let mut j: usize = 0;
        while j < buffer.len()
            invariant
                i < buffers@.len(),
                *buffer == buffers@[i as int],
                j <= buffer@.len(),
                bytes@ == before + buffer@.take(j as int),
            decreases buffer@.len() - j,
        {
            bytes.push(buffer[j]);
            j = j + 1;
            assert(bytes@ =~= before + buffer@.take(j as int));
        }
        proof {
            let done = buffers@.take(i as int);
            assert(buffers@.take(i + 1) =~= done.push(buffers@[i as int]));
            assert(done.push(buffers@[i as int]).map_values(|b: Vec<u8>| b@) =~= done.map_values(|b: Vec<u8>| b@).push(buffer@));
            done.map_values(|b: Vec<u8>| b@).lemma_flatten_push(buffer@);
            assert(buffer@.take(j as int) =~= buffer@);
        }
        i = i + 1;
    }
    assert(buffers@.take(buffers@.len() as int) =~= buffers@);
    AudioFrame::new(AudioFormat::F32, 2, false, bytes, sample_count, 48_000, display_time)
}

/// `a` divided by `b`, rounded toward zero.
pub open spec fn div_toward_zero(a: int, b: int) -> int {
    if a == 0 {
        0
    } else if a > 0 && b > 0 {
        a / b
    } else if a < 0 && b < 0 {
        (a * -1) / (b * -1)
    } else if a < 0 {
        ((a * -1) / b) * -1
    } else {
        (a / (b * -1)) * -1
    }
}

/// `value` seconds-ticks times a billion, clamped to the range of `i64`.
pub open spec fn nanos_ticks(value: i64) -> int {
    let n = value * 1_000_000_000;
    if n > i64::MAX { i64::MAX as int } else if n < i64::MIN { i64::MIN as int } else { n }
}

/// The division that turns a presentation time into nanoseconds neither
/// divides by zero nor overflows.
pub open spec fn presentation_time_defined(value: i64, timescale: i32) -> bool {
    &&& timescale != 0
    &&& !(nanos_ticks(value) == i64::MIN && timescale == -1)
}

/// Whether a presentation time of `value / timescale` seconds can be turned
/// into nanoseconds (see `presentation_time_defined`).
pub fn presentation_time_is_defined(value: i64, timescale: i32) -> (r: bool)
    ensures
        r == presentation_time_defined(value, timescale),
{
    if timescale == 0 {
        return false;
    }
    if timescale != -1 {
        return true;
    }
    match value.checked_mul(1_000_000_000) {
        Some(n) => n != i64::MIN,
        None => value > 0,
    }
}

/// A presentation time of `value / timescale` seconds in nanoseconds:
/// `value` times a billion (clamped to `i64`), divided by `timescale` and
/// rounded toward zero.
pub fn presentation_offset_nanos(value: i64, timescale: i32) -> (nanos: i64)
    requires
        presentation_time_defined(value, timescale),
    ensures
        nanos == div_toward_zero(nanos_ticks(value), timescale as int),
{
    let scaled: i64 = match value.checked_mul(1_000_000_000) {
        Some(n) => n,
        None => {
            if value > 0 {
                i64::MAX
            } else {
                i64::MIN
            }
        },
    };
    assert(scaled == nanos_ticks(value)) by (nonlinear_arith)
        requires
            value * 1_000_000_000 > i64::MAX || value * 1_000_000_000 < i64::MIN ==> (value > 0 ==> scaled == i64::MAX) && (value <= 0 ==> scaled == i64::MIN),
            value * 1_000_000_000 <= i64::MAX && value * 1_000_000_000 >= i64::MIN ==> scaled == value * 1_000_000_000,
    ;
    proof {
        let a = scaled as int;
        let b = timescale as int;
        if a > 0 && b > 0 {
            vstd::arithmetic::div_mod::lemma_div_is_ordered_by_denominator(a, 1, b);
            vstd::arithmetic::div_mod::lemma_div_pos_is_pos(a, b);
        } else if a < 0 && b < 0 {
            vstd::arithmetic::div_mod::lemma_div_is_ordered_by_denominator(a * -1, 1, b * -1);
            vstd::arithmetic::div_mod::lemma_div_pos_is_pos(a * -1, b * -1);
            if b == -1 {
                assert(a * -1 <= i64::MAX);
            } else {
                vstd::arithmetic::div_mod::lemma_div_is_ordered_by_denominator(a * -1, 2, b * -1);
                assert((a * -1) / 2 <= i64::MAX);
            }
        } else if a < 0 {
            vstd::arithmetic::div_mod::lemma_div_is_ordered_by_denominator(a * -1, 1, b);
            vstd::arithmetic::div_mod::lemma_div_pos_is_pos(a * -1, b);
        } else if a > 0 {
            vstd::arithmetic::div_mod::lemma_div_is_ordered_by_denominator(a, 1, b * -1);
            vstd::arithmetic::div_mod::lemma_div_pos_is_pos(a, b * -1);
        }
    }
    match scaled.checked_div(timescale as i64) {
        Some(q) => q,
        None => {
            assert(false);
            0
        },
    }
}

/// A requested crop area does not depend on the target: two captures that
/// ask for the same crop area capture the same area, whatever they target
/// and whatever its size.
pub proof fn lemma_crop_area_ignores_target(
    options: Options,
    other: Options,
    target_dimensions: (u64, u64),
    other_dimensions: (u64, u64),
)
    requires
        options.crop_area is Some,
        other.crop_area == options.crop_area,
    ensures
        crop_area_of(other, other_dimensions) == crop_area_of(options, target_dimensions),
{
}

/// Rounding a crop area's sizes up to even numbers settles at once: the
/// area that `options` capture, asked for again, is captured unchanged.
pub proof fn lemma_crop_area_settles(
    options: Options,
    again: Options,
    target_dimensions: (u64, u64),
    other_dimensions: (u64, u64),
)
    requires
        options.crop_area is Some,
        again.crop_area == Some(crop_area_of(options, target_dimensions)),
    ensures
        crop_area_of(again, other_dimensions) == crop_area_of(options, target_dimensions),
{
}

proof fn lemma_positions_filter(windows: Seq<u32>, targets: Seq<Target>, n: nat)
    requires
        n <= usize::MAX,
    ensures
        ({
            let idx = positions(n).filter(excluded_at(windows, targets));
            &&& forall|k: int| 0 <= k < idx.len() ==> #[trigger] idx[k] < n
            &&& forall|k: int| 0 <= k < idx.len() ==> window_is_excluded(windows[#[trigger] idx[k] as int], targets)
            &&& forall|k: int, l: int| 0 <= k < l < idx.len() ==> #[trigger] idx[k] < #[trigger] idx[l]
            &&& forall|i: int| 0 <= i < n && window_is_excluded(windows[i], targets) ==> #[trigger] idx.contains(i as usize)
        }),
    decreases n,
{
    let pred = excluded_at(windows, targets);
    let idx = positions(n).filter(pred);
    if n == 0 {
        assert(positions(0) =~= Seq::<usize>::empty());
        reveal(Seq::filter);
        assert(idx.len() == 0);
    } else {
        lemma_positions_filter(windows, targets, (n - 1) as nat);
        let prev = positions((n - 1) as nat);
        let last = (n - 1) as usize;
        assert(positions(n) =~= prev.push(last));
        prev.lemma_filter_push(last, pred);
        let before = prev.filter(pred);
        if pred(last) {
            assert(idx == before.push(last));
            assert forall|i: int| 0 <= i < n && window_is_excluded(windows[i], targets) implies #[trigger] idx.contains(i as usize) by {
                if i < n - 1 {
                    assert(before.contains(i as usize));
                    let k = choose|k: int| 0 <= k < before.len() && before[k] == i as usize;
                    assert(idx[k] == i as usize);
                } else {
                    assert(idx[before.len() as int] == i as usize);
                }
            }
        } else {
            assert(idx == before);
            assert forall|i: int| 0 <= i < n && window_is_excluded(windows[i], targets) implies #[trigger] idx.contains(i as usize) by {
                if i == n - 1 {
                    assert(pred(last));
                }
            }
        }
    }
}

/// The windows left out of a display capture are exactly the shareable
/// windows that the options exclude: each listed once, in the order of the
/// shareable windows, and every one of them listed.
pub proof fn lemma_excluded_windows_exact(windows: Seq<u32>, excluded: Vec<Target>)
    requires
        windows.len() <= usize::MAX,
    ensures
        ({
            let idx = excluded_window_indices(windows, Some(excluded));
            &&& forall|k: int| 0 <= k < idx.len() ==> #[trigger] idx[k] < windows.len()
            &&& forall|k: int| 0 <= k < idx.len() ==> window_is_excluded(windows[#[trigger] idx[k] as int], excluded@)
            &&& forall|k: int, l: int| 0 <= k < l < idx.len() ==> #[trigger] idx[k] < #[trigger] idx[l]
            &&& forall|i: int| 0 <= i < windows.len() && window_is_excluded(windows[i], excluded@) ==> #[trigger] idx.contains(i as usize)
        }),
{
    lemma_positions_filter(windows, excluded@, windows.len());
}

/// A sample never gives a frame of another type than the one wanted: an
/// empty BGRA frame only when BGRA frames are wanted, and a video frame only
/// of the wanted type. An incomplete video sample gives the empty BGRA frame
/// when BGRA frames are wanted and nothing for any other frame type.
pub proof fn lemma_sample_gives_wanted_frames(
    of_type: StreamOutputType,
    frame_status: Option<FrameStatus>,
    output_type: FrameType,
)
    ensures
        sample_action_of(of_type, frame_status, output_type) == SampleAction::EmptyBGRAFrame
            ==> output_type == FrameType::BGRAFrame,
        sample_action_of(of_type, frame_status, output_type) matches SampleAction::Video(wanted)
            ==> wanted == output_type,
        of_type == StreamOutputType::Screen && frame_status is Some && frame_status.unwrap()
            != FrameStatus::Complete ==> {
            &&& output_type == FrameType::BGRAFrame ==> sample_action_of(of_type, frame_status, output_type)
                == SampleAction::EmptyBGRAFrame
            &&& output_type != FrameType::BGRAFrame ==> sample_action_of(of_type, frame_status, output_type)
                == SampleAction::Skip
        },
{
}

/// The stream delivers biplanar YUV buffers exactly when YUV frames are
/// wanted, and BGRA pixels for every other frame type, which the BGR, RGB
/// and BGRA frame builders read.
pub proof fn lemma_pixel_format_serves_frame_type(output_type: FrameType)
    ensures
        pixel_format_for(output_type) == PixelFormat::YCbCr420v <==> output_type == FrameType::YUVFrame,
        pixel_format_for(output_type) == PixelFormat::BGRA <==> output_type != FrameType::YUVFrame,
{
}

/// A resolution that the scaled capture fits in changes nothing: the frame
/// is then the one that `Captured` gives, the scaled size rounded down to
/// even. A resolution that the scaled capture does not fit in gives its own
/// size, rounded down to even, on that side.
pub proof fn lemma_resolution_only_bounds(
    options: Options,
    target_dimensions: (u64, u64),
    scale_factor: u32,
    size: [u32; 2],
)
    ensures
        scaled_capture_size(options, target_dimensions, scale_factor).0 <= size[0] ==> output_frame_size_of(
            options,
            target_dimensions,
            scale_factor,
            Some(size),
        ).0 == output_frame_size_of(options, target_dimensions, scale_factor, None).0,
        scaled_capture_size(options, target_dimensions, scale_factor).1 <= size[1] ==> output_frame_size_of(
            options,
            target_dimensions,
            scale_factor,
            Some(size),
        ).1 == output_frame_size_of(options, target_dimensions, scale_factor, None).1,
        scaled_capture_size(options, target_dimensions, scale_factor).0 > size[0] ==> output_frame_size_of(
            options,
            target_dimensions,
            scale_factor,
            Some(size),
        ).0 == size[0] - size[0] % 2,
        scaled_capture_size(options, target_dimensions, scale_factor).1 > size[1] ==> output_frame_size_of(
            options,
            target_dimensions,
            scale_factor,
            Some(size),
        ).1 == size[1] - size[1] % 2,
        options.crop_area is None && target_dimensions.0 <= u32::MAX ==> output_frame_size_of(
            options,
            target_dimensions,
            scale_factor,
            None,
        ).0 == target_dimensions.0 * scale_factor - (target_dimensions.0 * scale_factor) % 2,
        options.crop_area is None && target_dimensions.1 <= u32::MAX ==> output_frame_size_of(
            options,
            target_dimensions,
            scale_factor,
            None,
        ).1 == target_dimensions.1 * scale_factor - (target_dimensions.1 * scale_factor) % 2,
{
}

/// A requested crop area keeps its origin, whatever its coordinates, and
/// grows each size by at most one pixel.
pub proof fn lemma_crop_area_keeps_origin(options: Options, target_dimensions: (u64, u64))
    requires
        options.crop_area is Some,
    ensures
        crop_area_of(options, target_dimensions).origin == options.crop_area.unwrap().origin,
        options.crop_area.unwrap().size.width <= crop_area_of(options, target_dimensions).size.width
            <= options.crop_area.unwrap().size.width + 1,
        options.crop_area.unwrap().size.height <= crop_area_of(options, target_dimensions).size.height
            <= options.crop_area.unwrap().size.height + 1,
{
}

} // verus!

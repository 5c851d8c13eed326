//! Capture options and the geometry they are expressed in.
//!
//! Coordinates and sizes are whole pixels.

pub mod engine;

use vstd::prelude::*;

use crate::targets::Target;

verus! {

/// A point, in pixels.
#[derive(Debug, Clone, Copy, PartialEq, Eq, Structural)]
pub struct Point {
    pub x: i64,
    pub y: i64,
}

/// A size, in pixels.
#[derive(Debug, Clone, Copy, PartialEq, Eq, Structural)]
pub struct Size {
    pub width: u64,
    pub height: u64,
}

/// A rectangle: its top-left corner and its size.
#[derive(Debug, Clone, Copy, PartialEq, Eq, Structural)]
pub struct Area {
    pub origin: Point,
    pub size: Size,
}

/// The resolution that the captured frames are scaled down to.
#[derive(Debug, Clone, Copy, PartialEq, Eq, Structural)]
pub enum Resolution {
    _480p,
    _720p,
    _1080p,
    _1440p,
    _2160p,
    _4320p,
    /// Keep the captured size.
    Captured,
}

/// The pixel layout of the video frames that a capture produces.
#[derive(Debug, Clone, Copy, PartialEq, Eq, Structural)]
pub enum FrameType {
    YUVFrame,
    BGR0,
    RGB,
    BGRAFrame,
}

/// What to capture and how.
#[derive(Debug)]
pub struct Options {
    pub fps: u32,
    pub show_cursor: bool,
    /// The target to capture; the main display when `None`.
    pub target: Option<Target>,
    /// The part of the target to capture; all of it when `None`.
    pub crop_area: Option<Area>,
    pub output_type: FrameType,
    pub output_resolution: Resolution,
    /// Windows to leave out of a display capture.
    pub excluded_targets: Option<Vec<Target>>,
    pub captures_audio: bool,
}

/// `n` clamped to the range of `u32`.
pub open spec fn saturate_u32(n: int) -> int {
    if n > u32::MAX { u32::MAX as int } else { n }
}

impl Resolution {
    /// The output width of each resolution; 0 for `Captured`, which has none.
    pub open spec fn base_width(self) -> int {
        match self {
            Resolution::_480p => 640,
            Resolution::_720p => 1280,
            Resolution::_1080p => 1920,
            Resolution::_1440p => 2560,
            Resolution::_2160p => 3840,
            Resolution::_4320p => 7680,
            Resolution::Captured => 0,
        }
    }

    /// The output width of this resolution; `None` for `Captured`, which
    /// keeps the captured size. The matching height follows the source's
    /// aspect ratio, which is a floating-point computation and is made by
    /// the caller.
    pub fn output_width(&self) -> (r: Option<u32>)
        ensures
            *self is Captured <==> r is None,
            r matches Some(w) ==> w == self.base_width(),
    {
        match self {
            Resolution::_480p => Some(640),
            Resolution::_720p => Some(1280),
            Resolution::_1080p => Some(1920),
            Resolution::_1440p => Some(2560),
            Resolution::_2160p => Some(3840),
            Resolution::_4320p => Some(7680),
            Resolution::Captured => None,
        }
    }
}

} // verus!

use scap::capturer::engine::mac::{get_crop_area, get_output_frame_size, show_target_picker};
use scap::capturer::{Area, FrameType, Options, Point, Resolution, Size};

fn options(crop_area: Option<Area>, output_resolution: Resolution) -> Options {
    Options {
        fps: 60,
        show_cursor: true,
        target: None,
        crop_area,
        output_type: FrameType::BGRAFrame,
        output_resolution,
        excluded_targets: None,
        captures_audio: false,
    }
}

fn area(x: i64, y: i64, width: u64, height: u64) -> Area {
    Area { origin: Point { x, y }, size: Size { width, height } }
}

#[test]
fn crop_area_rounds_odd_sizes_up_to_even() {
    let o = options(Some(area(5, 7, 1201, 799)), Resolution::Captured);
    assert_eq!(get_crop_area(&o, (2560, 1440)), area(5, 7, 1202, 800));
}

#[test]
fn crop_area_keeps_even_sizes() {
    let o = options(Some(area(-3, 0, 640, 480)), Resolution::Captured);
    assert_eq!(get_crop_area(&o, (2560, 1440)), area(-3, 0, 640, 480));
}

#[test]
fn crop_area_defaults_to_whole_target() {
    let o = options(None, Resolution::Captured);
    assert_eq!(get_crop_area(&o, (1511, 983)), area(0, 0, 1511, 983));
}

#[test]
fn crop_area_settles_after_one_rounding() {
    let first = get_crop_area(&options(Some(area(1, 2, 333, 221)), Resolution::Captured), (10, 10));
    let again = get_crop_area(&options(Some(first), Resolution::Captured), (99, 99));
    assert_eq!(first, again);
}

#[test]
fn resolution_widths() {
    assert_eq!(Resolution::_480p.output_width(), Some(640));
    assert_eq!(Resolution::_720p.output_width(), Some(1280));
    assert_eq!(Resolution::_1080p.output_width(), Some(1920));
    assert_eq!(Resolution::_1440p.output_width(), Some(2560));
    assert_eq!(Resolution::_2160p.output_width(), Some(3840));
    assert_eq!(Resolution::_4320p.output_width(), Some(7680));
    assert_eq!(Resolution::Captured.output_width(), None);
}

#[test]
fn largest_crop_size_stays() {
    let o = options(Some(area(0, 0, u64::MAX, u64::MAX - 1)), Resolution::Captured);
    assert_eq!(get_crop_area(&o, (1, 1)), area(0, 0, u64::MAX, u64::MAX - 1));
}

#[test]
fn crop_area_ignores_the_target() {
    let o = options(Some(area(4, 4, 99, 100)), Resolution::Captured);
    assert_eq!(get_crop_area(&o, (1, 1)), get_crop_area(&o, (5000, 3000)));
}

#[test]
fn captured_resolution_scales_and_evens() {
    let o = options(None, Resolution::Captured);
    assert_eq!(get_output_frame_size(&o, (1440, 900), 2, None), [2880, 1800]);
    assert_eq!(get_output_frame_size(&o, (1511, 983), 1, None), [1510, 982]);
}

#[test]
fn resolution_bounds_the_scaled_size() {
    let o = options(Some(area(0, 0, 1200, 800)), Resolution::_720p);
    // 720p at the aspect ratio 1200 : 800 is 1280 x 853.
    assert_eq!(get_output_frame_size(&o, (2560, 1440), 1, Some([1280, 853])), [1200, 800]);
    assert_eq!(get_output_frame_size(&o, (2560, 1440), 2, Some([1280, 853])), [1280, 852]);
}

#[test]
fn output_size_uses_rounded_crop_area() {
    let o = options(Some(area(0, 0, 1201, 801)), Resolution::_720p);
    // The crop area becomes 1202 x 802, so the frame is 2404 x 1604 before
    // the resolution bounds it.
    assert_eq!(get_output_frame_size(&o, (2560, 1440), 2, Some([1280, 854])), [1280, 854]);
    assert_eq!(get_output_frame_size(&o, (2560, 1440), 1, Some([1280, 854])), [1202, 802]);
}

#[test]
fn output_size_is_always_even() {
    for w in [1u64, 2, 3, 99, 1001, 1919] {
        for h in [1u64, 5, 600, 1079] {
            for res in [Resolution::Captured, Resolution::_480p, Resolution::_1080p] {
                let o = options(None, res);
                let resolved = res.output_width().map(|rw| [rw, rw / 2 + 1]);
                let [ow, oh] = get_output_frame_size(&o, (w, h), 1, resolved);
                assert_eq!(ow % 2, 0);
                assert_eq!(oh % 2, 0);
                assert!(ow as u64 <= w && oh as u64 <= h);
                if let Some([rw, rh]) = resolved {
                    assert!(ow <= rw && oh <= rh);
                }
            }
        }
    }
}

#[test]
fn huge_targets_clamp_to_u32() {
    let o = options(None, Resolution::Captured);
    assert_eq!(get_output_frame_size(&o, (u64::MAX, 10), 1, None), [u32::MAX - 1, 10]);
}

#[test]
fn target_picker_does_nothing() {
    show_target_picker();
}

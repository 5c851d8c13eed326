use scap::capturer::engine::linux::capture_stream_builder::{CaptureStreamBuilder, StreamVardict};
use scap::targets::Target;

fn builder(is_display: Option<bool>, size: Option<(i32, i32)>, position: Option<(i32, i32)>) -> CaptureStreamBuilder {
    CaptureStreamBuilder { stream_id: 42, stream_var_dict: StreamVardict { is_display, size, position } }
}

#[test]
fn display_stream_is_titled_by_kind_id_and_size() {
    let t = builder(Some(true), Some((1920, 1080)), Some((0, 0))).get_target();
    assert!(matches!(t, Target::Display(_)));
    assert_eq!(t.id(), 42);
    assert_eq!(t.title(), "Display:42:1920x1080");
    assert_eq!(t.size(), Some((1920, 1080)));
    assert_eq!(t.position(), Some((0, 0)));
}

#[test]
fn window_stream_becomes_a_window_target() {
    let t = builder(Some(false), Some((640, 480)), None).get_target();
    match &t {
        Target::Window(w) => assert_eq!(w.raw_handle, None),
        Target::Display(_) => panic!("a window stream shown as a display"),
    }
    assert_eq!(t.title(), "Window:42:640x480");
    assert_eq!(t.position(), None);
}

#[test]
fn unknown_kind_and_size_fall_back() {
    let t = builder(None, None, None).get_target();
    assert!(matches!(t, Target::Display(_)));
    assert_eq!(t.title(), "unknown:42:WxH");
    assert_eq!(t.size(), None);
}

#[test]
fn negative_coordinates_are_reinterpreted() {
    let t = builder(Some(true), Some((-1, 5)), Some((-2, 3))).get_target();
    assert_eq!(t.title(), "Display:42:-1x5");
    assert_eq!(t.size(), Some((u32::MAX, 5)));
    assert_eq!(t.position(), Some((u32::MAX - 1, 3)));
}

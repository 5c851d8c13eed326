use scap::targets::{Display, Target, Window};

fn window() -> Window {
    Window {
        id: 7,
        title: String::from("Editor"),
        size: Some((800, 600)),
        position: Some((10, 20)),
        raw_handle: Some(7),
    }
}

fn display() -> Display {
    Display {
        id: 1,
        title: String::from("Built-in Display"),
        size: Some((1920, 1080)),
        position: None,
        raw_handle: Some(69732928),
    }
}

#[test]
fn window_target_reports_its_fields() {
    let t = Target::Window(window());
    assert_eq!(t.id(), 7);
    assert_eq!(t.title(), "Editor");
    assert_eq!(t.size(), Some((800, 600)));
    assert_eq!(t.position(), Some((10, 20)));
}

#[test]
fn display_target_reports_its_fields() {
    let t = Target::Display(display());
    assert_eq!(t.id(), 1);
    assert_eq!(t.title(), "Built-in Display");
    assert_eq!(t.size(), Some((1920, 1080)));
    assert_eq!(t.position(), None);
}

#[test]
fn cloned_target_keeps_every_field() {
    let t = Target::Display(display());
    match t.clone() {
        Target::Display(d) => {
            assert_eq!(d.id, 1);
            assert_eq!(d.title, "Built-in Display");
            assert_eq!(d.size, Some((1920, 1080)));
            assert_eq!(d.position, None);
            assert_eq!(d.raw_handle, Some(69732928));
        }
        Target::Window(_) => panic!("a display cloned into a window"),
    }
}

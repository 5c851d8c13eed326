//! Capture targets: the windows and displays that a capture can be aimed at.

use vstd::prelude::*;

verus! {

/// A window that can be captured.
#[derive(Debug)]
pub struct Window {
    pub id: u32,
    pub title: String,
    pub size: Option<(u32, u32)>,
    pub position: Option<(u32, u32)>,
    /// The platform's native window id, where the platform has one
    /// (`None` for targets handed out by the Linux screencast portal).
    pub raw_handle: Option<u32>,
}

/// A display that can be captured.
#[derive(Debug)]
pub struct Display {
    pub id: u32,
    pub title: String,
    pub size: Option<(u32, u32)>,
    pub position: Option<(u32, u32)>,
    /// The platform's native display id, where the platform has one
    /// (`None` for targets handed out by the Linux screencast portal).
    pub raw_handle: Option<u32>,
}

/// Something that can be captured: a window or a whole display.
#[derive(Debug)]
pub enum Target {
    Window(Window),
    Display(Display),
}

impl Clone for Window {
    fn clone(&self) -> (r: Self)
        ensures
            r == *self,
    {
        Window {
            id: self.id,
            title: self.title.clone(),
            size: self.size,
            position: self.position,
            raw_handle: self.raw_handle,
        }
    }
}

impl Clone for Display {
    fn clone(&self) -> (r: Self)
        ensures
            r == *self,
    {
        Display {
            id: self.id,
            title: self.title.clone(),
            size: self.size,
            position: self.position,
            raw_handle: self.raw_handle,
        }
    }
}

impl Clone for Target {
    fn clone(&self) -> (r: Self)
        ensures
            r == *self,
    {
        match self {
            Target::Window(w) => Target::Window(w.clone()),
            Target::Display(d) => Target::Display(d.clone()),
        }
    }
}

impl Target {
    /// The id of the window or display.
    pub open spec fn target_id(self) -> u32 {
        match self {
            Target::Window(w) => w.id,
            Target::Display(d) => d.id,
        }
    }

    /// The title of the window or display.
    pub open spec fn target_title(self) -> String {
        match self {
            Target::Window(w) => w.title,
            Target::Display(d) => d.title,
        }
    }

    /// The size of the window or display, where known.
    pub open spec fn target_size(self) -> Option<(u32, u32)> {
        match self {
            Target::Window(w) => w.size,
            Target::Display(d) => d.size,
        }
    }

    /// The position of the window or display, where known.
    pub open spec fn target_position(self) -> Option<(u32, u32)> {
        match self {
            Target::Window(w) => w.position,
            Target::Display(d) => d.position,
        }
    }

    pub fn id(&self) -> (r: u32)
        ensures
            r == self.target_id(),
    {
        match self {
            Target::Window(window) => window.id,
            Target::Display(display) => display.id,
        }
    }

    pub fn title(&self) -> (r: String)
        ensures
            r == self.target_title(),
            r@ == self.target_title()@,
    {
        match self {
            Target::Window(window) => window.title.clone(),
            Target::Display(display) => display.title.clone(),
        }
    }

    pub fn size(&self) -> (r: Option<(u32, u32)>)
        ensures
            r == self.target_size(),
    {
        match self {
            Target::Window(window) => window.size,
            Target::Display(display) => display.size,
        }
    }

    pub fn position(&self) -> (r: Option<(u32, u32)>)
        ensures
            r == self.target_position(),
    {
        match self {
            Target::Window(window) => window.position,
            Target::Display(display) => display.position,
        }
    }
}

} // verus!

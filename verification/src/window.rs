//! Window settings.

use vstd::prelude::*;

verus! {

/// A button of the mouse, as the window system reports it.
#[derive(Debug, Clone, Copy, PartialEq, Eq, Structural)]
pub enum MouseButton {
    Left,
    Right,
    Middle,
    Other(u16),
}

/// The settings of a window, as a plain record.
pub struct WindowSettings {
    pub title: Seq<char>,
    pub width: u32,
    pub height: u32,
    pub resizable: bool,
    pub maximized: bool,
    pub fullscreen: bool,
    pub vsync: bool,
}

impl WindowSettings {
    /// The settings that a builder starts with.
    pub open spec fn initial() -> WindowSettings {
        WindowSettings {
            title: "Metatopia Engine Window"@,
            width: 1280,
            height: 720,
            resizable: true,
            maximized: false,
            fullscreen: false,
            vsync: true,
        }
    }
}

/// Collects the settings of a window before it is created.
pub struct WindowBuilder {
    title: String,
    width: u32,
    height: u32,
    resizable: bool,
    maximized: bool,
    fullscreen: bool,
    vsync: bool,
}

impl View for WindowBuilder {
    type V = WindowSettings;

    closed spec fn view(&self) -> WindowSettings {
        WindowSettings {
            title: self.title@,
            width: self.width,
            height: self.height,
            resizable: self.resizable,
            maximized: self.maximized,
            fullscreen: self.fullscreen,
            vsync: self.vsync,
        }
    }
}

impl Default for WindowBuilder {
    fn default() -> (builder: WindowBuilder)
        ensures
            builder@ == WindowSettings::initial(),
    {
        WindowBuilder {
            title: "Metatopia Engine Window".to_owned(),
            width: 1280,
            height: 720,
            resizable: true,
            maximized: false,
            fullscreen: false,
            vsync: true,
        }
    }
}

impl WindowBuilder {
    /// A builder with the initial settings.
    pub fn new() -> (builder: WindowBuilder)
        ensures
            builder@ == WindowSettings::initial(),
    {
        WindowBuilder {
            title: "Metatopia Engine Window".to_owned(),
            width: 1280,
            height: 720,
            resizable: true,
            maximized: false,
            fullscreen: false,
            vsync: true,
        }
    }

    /// Sets the title; the other settings stay.
    pub fn with_title(self, title: &str) -> (builder: WindowBuilder)
        ensures
            builder@ == (WindowSettings { title: title@, ..self@ }),
    {
        let mut builder = self;
        builder.title = title.to_owned();
        builder
    }

    /// Sets width and height; the other settings stay.
    pub fn with_dimensions(self, width: u32, height: u32) -> (builder: WindowBuilder)
        ensures
            builder@ == (WindowSettings { width, height, ..self@ }),
    {
        let mut builder = self;
        builder.width = width;
        builder.height = height;
        builder
    }

    /// Sets whether the window can be resized; the other settings stay.
    pub fn with_resizable(self, resizable: bool) -> (builder: WindowBuilder)
        ensures
            builder@ == (WindowSettings { resizable, ..self@ }),
    {
        let mut builder = self;
        builder.resizable = resizable;
        builder
    }

    /// Sets whether the window starts maximized; the other settings stay.
    pub fn with_maximized(self, maximized: bool) -> (builder: WindowBuilder)
        ensures
            builder@ == (WindowSettings { maximized, ..self@ }),
    {
        let mut builder = self;
        builder.maximized = maximized;
        builder
    }

    /// Sets whether the window covers the screen; the other settings stay.
    pub fn with_fullscreen(self, fullscreen: bool) -> (builder: WindowBuilder)
        ensures
            builder@ == (WindowSettings { fullscreen, ..self@ }),
    {
        let mut builder = self;
        builder.fullscreen = fullscreen;
        builder
    }

    /// Sets whether frames wait for the display; the other settings stay.
    pub fn with_vsync(self, vsync: bool) -> (builder: WindowBuilder)
        ensures
            builder@ == (WindowSettings { vsync, ..self@ }),
    {
        let mut builder = self;
        builder.vsync = vsync;
        builder
    }

    /// The title.
    pub fn title(&self) -> (title: &str)
        ensures
            title@ == self@.title,
    {
        self.title.as_str()
    }

    /// Width and height.
    pub fn dimensions(&self) -> (dimensions: (u32, u32))
        ensures
            dimensions == (self@.width, self@.height),
    {
        (self.width, self.height)
    }

    /// Whether the window can be resized.
    pub fn resizable(&self) -> (resizable: bool)
        ensures
            resizable == self@.resizable,
    {
        self.resizable
    }

    /// Whether the window starts maximized.
    pub fn maximized(&self) -> (maximized: bool)
        ensures
            maximized == self@.maximized,
    {
        self.maximized
    }

    /// Whether the window covers the screen.
    pub fn fullscreen(&self) -> (fullscreen: bool)
        ensures
            fullscreen == self@.fullscreen,
    {
        self.fullscreen
    }

    /// Whether frames wait for the display.
    pub fn vsync(&self) -> (vsync: bool)
        ensures
            vsync == self@.vsync,
    {
        self.vsync
    }
}

} // verus!

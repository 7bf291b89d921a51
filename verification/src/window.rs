//! The logical window: what was asked for, what it is now, and the record of
//! one resize.

use vstd::prelude::*;

verus! {

/// Identifies a window for as long as it lives. The number means nothing to
/// the bridge: it is kept and handed on.
#[derive(Clone, Copy, Debug, PartialEq, Eq, Hash, Structural)]
pub struct WindowId(pub u64);

/// What a window is asked to be when it is created.
#[derive(Debug)]
pub struct WindowConfig {
    pub title: String,
    pub width: u32,
    pub height: u32,
}

/// One resize of a window: which window, and its new size in pixels.
#[derive(Clone, Copy, Debug, PartialEq, Eq, Structural)]
pub struct ResizeEvent {
    pub id: WindowId,
    pub width: u32,
    pub height: u32,
}

/// The logical state of a window. Identity and title are fixed when it is
/// made; only a resize changes its size.
#[derive(Debug)]
pub struct WindowState {
    id: WindowId,
    title: String,
    width: u32,
    height: u32,
}

/// A window as contracts speak of it.
pub struct WindowModel {
    pub id: WindowId,
    pub title: Seq<char>,
    pub width: u32,
    pub height: u32,
}

impl WindowModel {
    /// The window a configuration asks for, under the identity `id`.
    pub open spec fn requested(id: WindowId, title: Seq<char>, width: u32, height: u32) -> Self {
        WindowModel { id, title, width, height }
    }

    /// The same window at a new size.
    pub open spec fn resized(self, width: u32, height: u32) -> Self {
        WindowModel { width, height, ..self }
    }

    /// The record of this window having just taken its present size.
    pub open spec fn resize_event(self) -> ResizeEvent {
        ResizeEvent { id: self.id, width: self.width, height: self.height }
    }
}

impl View for WindowState {
    type V = WindowModel;

    closed spec fn view(&self) -> WindowModel {
        WindowModel { id: self.id, title: self.title@, width: self.width, height: self.height }
    }
}

impl WindowState {
    /// The window that `config` asks for, under the identity `id`.
    pub fn new(id: WindowId, config: WindowConfig) -> (window: Self)
        ensures
            window@ == WindowModel::requested(id, config.title@, config.width, config.height),
    {
        WindowState { id, title: config.title, width: config.width, height: config.height }
    }

    /// Takes the size the platform reports and returns the record of it.
    pub fn resize(&mut self, width: u32, height: u32) -> (event: ResizeEvent)
        ensures
            final(self)@ == old(self)@.resized(width, height),
            event == final(self)@.resize_event(),
    {
        self.width = width;
        self.height = height;
        ResizeEvent { id: self.id, width: self.width, height: self.height }
    }

    pub fn id(&self) -> (id: WindowId)
        ensures
            id == self@.id,
    {
        self.id
    }

    pub fn title(&self) -> (title: &str)
        ensures
            title@ == self@.title,
    {
        self.title.as_str()
    }

    pub fn width(&self) -> (width: u32)
        ensures
            width == self@.width,
    {
        self.width
    }

    pub fn height(&self) -> (height: u32)
        ensures
            height == self@.height,
    {
        self.height
    }
}

} // verus!

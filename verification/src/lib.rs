//! A windowing abstraction, and a headless implementation of it.
//!
//! The traits here describe what a window backend offers a driving event
//! loop: a close flag, a logical size, buffer swaps, event polling, and a
//! title. The [`no_window`] module holds [`NoWindow`], a backend that opens
//! no display surface at all and keeps only the bookkeeping fields, so that
//! code written against the window interface can run headless.
//!
//! [`NoWindow`]: no_window::NoWindow

use vstd::prelude::*;

pub mod no_window;

pub use no_window::NoWindow;

verus! {

/// The logical size of a window, in pixels.
#[derive(Clone, Copy, Debug, PartialEq, Eq, Structural)]
pub struct Size {
    /// Horizontal extent.
    pub width: u32,
    /// Vertical extent.
    pub height: u32,
}

/// The settings a window is built from: a title and an initial size.
pub struct WindowSettings {
    /// The initial window title.
    pub title: String,
    /// The initial logical size.
    pub size: Size,
}

/// An input event delivered by a window backend.
///
/// A headless window never produces input, so this crate never constructs a
/// value of this type; a backend with a real input source would carry its
/// events here.
pub struct Input {
    _opaque: (),
}

/// A window backend: the operations a driving event loop needs.
pub trait Window {
    /// The event type the backend reports from [`poll_event`](Window::poll_event).
    type Event;

    /// Whether the owner has asked the window to close.
    spec fn spec_should_close(&self) -> bool;

    /// The logical window size.
    spec fn spec_size(&self) -> Size;

    /// Returns whether the owner has asked the window to close.
    fn should_close(&self) -> (r: bool)
        ensures
            r == self.spec_should_close(),
    ;

    /// Records whether the window should close.
    fn set_should_close(&mut self, value: bool)
        ensures
            final(self).spec_should_close() == value,
    ;

    /// Returns the logical window size.
    fn size(&self) -> (r: Size)
        ensures
            r == self.spec_size(),
    ;

    /// Presents the rendered frame.
    fn swap_buffers(&mut self);

    /// Polls for the next input event, without blocking.
    fn poll_event(&mut self) -> Option<Self::Event>;

    /// Returns the drawable size, which a backend with display scaling may
    /// distinguish from the logical size.
    fn draw_size(&self) -> Size;
}

/// Extended window operations: title text and optional input behaviours.
pub trait AdvancedWindow: Window {
    /// The window title.
    spec fn spec_title(&self) -> Seq<char>;

    /// Whether pressing the escape key closes the window.
    spec fn spec_exit_on_esc(&self) -> bool;

    /// Returns a copy of the window title.
    fn get_title(&self) -> (r: String)
        ensures
            r@ == self.spec_title(),
    ;

    /// Replaces the window title.
    fn set_title(&mut self, value: String)
        ensures
            final(self).spec_title() == value@,
    ;

    /// Returns whether pressing the escape key closes the window.
    fn get_exit_on_esc(&self) -> (r: bool)
        ensures
            r == self.spec_exit_on_esc(),
    ;

    /// Requests that pressing the escape key close the window; a backend
    /// without an input source may discard the request.
    fn set_exit_on_esc(&mut self, value: bool);

    /// Requests cursor capture; a backend without an input source may
    /// discard the request.
    fn set_capture_cursor(&mut self, value: bool);
}

/// Construction of a window backend from settings. A backend that must open
/// a display surface can fail to do so, and reports the failure as a string.
pub trait BuildFromWindowSettings: Sized {
    /// Builds a window from the given settings.
    fn build_from_window_settings(settings: WindowSettings) -> Result<Self, String>;
}

} // verus!

//! A window backend that opens no window at all.
//!
//! It keeps just enough state to answer the window interface — the close
//! flag, the title, and the size fixed at construction — and otherwise does
//! nothing: buffer swaps are no-ops and no input event is ever reported.
//! Often used in servers as the window of an event loop.

use vstd::prelude::*;

use crate::AdvancedWindow;
use crate::BuildFromWindowSettings;
use crate::Input;
use crate::Size;
use crate::Window;
use crate::WindowSettings;

verus! {

/// The tiny headless window.
///
/// It holds just enough state to be able to return the values that were
/// set: nothing changes the size after construction, and the escape-key
/// behaviour is fixed off, since there is no input source.
pub struct NoWindow {
    should_close: bool,
    title: String,
    size: Size,
}

impl NoWindow {
    /// Creates a new `NoWindow` holding the settings' title and size, with
    /// the close flag cleared.
    pub fn new(settings: WindowSettings) -> (w: NoWindow)
        ensures
            !w.spec_should_close(),
            w.spec_title() == settings.title@,
            w.spec_size() == settings.size,
            !w.spec_exit_on_esc(),
    {
        NoWindow {
            should_close: false,
            title: settings.title,
            size: settings.size,
        }
    }
}

impl Window for NoWindow {
    type Event = Input;

    closed spec fn spec_should_close(&self) -> bool {
        self.should_close
    }

    closed spec fn spec_size(&self) -> Size {
        self.size
    }

    fn should_close(&self) -> (r: bool) {
        self.should_close
    }

    fn set_should_close(&mut self, value: bool)
        ensures
            final(self).spec_title() == old(self).spec_title(),
            final(self).spec_size() == old(self).spec_size(),
            final(self).spec_exit_on_esc() == old(self).spec_exit_on_esc(),
    {
        self.should_close = value;
    }

    fn size(&self) -> (r: Size) {
        self.size
    }

    fn swap_buffers(&mut self)
        ensures
            *final(self) == *old(self),
    {
    }

    fn poll_event(&mut self) -> (r: Option<Input>)
        ensures
            r is None,
            *final(self) == *old(self),
    {
        None
    }

    fn draw_size(&self) -> (r: Size)
        ensures
            r == self.spec_size(),
    {
        self.size()
    }
}

impl BuildFromWindowSettings for NoWindow {
    /// Building a `NoWindow` acquires no resource, so it always succeeds;
    /// the error case of the result is never used.
    fn build_from_window_settings(settings: WindowSettings) -> (r: Result<NoWindow, String>)
        ensures
            r is Ok,
            r matches Ok(w) ==> {
                &&& !w.spec_should_close()
                &&& w.spec_title() == settings.title@
                &&& w.spec_size() == settings.size
                &&& !w.spec_exit_on_esc()
            },
    {
        Ok(NoWindow::new(settings))
    }
}

impl AdvancedWindow for NoWindow {
    closed spec fn spec_title(&self) -> Seq<char> {
        self.title@
    }

    closed spec fn spec_exit_on_esc(&self) -> bool {
        false
    }

    fn get_title(&self) -> (r: String) {
        self.title.clone()
    }

    fn set_title(&mut self, value: String)
        ensures
            final(self).spec_should_close() == old(self).spec_should_close(),
            final(self).spec_size() == old(self).spec_size(),
            final(self).spec_exit_on_esc() == old(self).spec_exit_on_esc(),
    {
        self.title = value;
    }

    fn get_exit_on_esc(&self) -> (r: bool)
        ensures
            r == false,
    {
        false
    }

    fn set_exit_on_esc(&mut self, _value: bool)
        ensures
            *final(self) == *old(self),
    {
    }

    fn set_capture_cursor(&mut self, _value: bool)
        ensures
            *final(self) == *old(self),
    {
    }
}

} // verus!

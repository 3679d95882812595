//! The switch of the main window.

use vstd::prelude::*;

verus! {

/// Whether the main window is shown.
#[derive(Clone, Copy, Debug, PartialEq, Eq, Structural)]
pub struct WindowHandler {
    pub is_main_visible: bool,
}

impl WindowHandler {
    /// The main window starts hidden.
    pub fn new() -> (handler: Self)
        ensures
            handler == (WindowHandler { is_main_visible: false }),
    {
        WindowHandler { is_main_visible: false }
    }

    /// The lines that the main window shows in this frame: all of `data` in
    /// their order, or nothing where the window is hidden.
    pub fn render_main_window(&self, data: Vec<String>) -> (lines: Option<Vec<String>>)
        ensures
            lines == if self.is_main_visible {
                Some(data)
            } else {
                None::<Vec<String>>
            },
    {
        if self.is_main_visible {
            Some(data)
        } else {
            None
        }
    }
}

} // verus!

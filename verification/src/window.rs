//! Handles of on-screen windows.

use vstd::prelude::*;

verus! {

/// An operating-system window together with the strings that identify the
/// application it belongs to.
///
/// A handle is owned by one container or one floating set at a time; moving a
/// window hands the handle over.
#[derive(Debug, PartialEq, Eq)]
pub struct WindowHandle {
    pub hwnd: isize,
    pub exe: String,
    pub class: String,
    pub title: String,
}

/// What the desktop is asked to do to one window.
#[derive(Clone, Copy, Debug, PartialEq, Eq, Structural)]
pub enum WindowAction {
    Show { hwnd: isize },
    Hide { hwnd: isize },
    /// Give the window the input focus, and move the cursor onto it where
    /// `mouse_follows_focus` is set.
    Focus { hwnd: isize, mouse_follows_focus: bool },
}

impl WindowHandle {
    pub fn new(hwnd: isize, exe: String, class: String, title: String) -> (window: WindowHandle)
        ensures
            window == (WindowHandle { hwnd, exe, class, title }),
    {
        WindowHandle { hwnd, exe, class, title }
    }
}

impl Clone for WindowHandle {
    fn clone(&self) -> (copy: WindowHandle)
        ensures
            copy == *self,
    {
        WindowHandle {
            hwnd: self.hwnd,
            exe: self.exe.clone(),
            class: self.class.clone(),
            title: self.title.clone(),
        }
    }
}

} // verus!

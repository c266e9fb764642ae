//! Tiles: stacks of windows that share one place on screen.

use crate::ring::{Ring, RingView};
use crate::window::{WindowAction, WindowHandle};
use std::collections::VecDeque;
use vstd::prelude::*;

verus! {

/// Mathematical model of a [`Container`].
pub struct ContainerView {
    /// The stacked windows, the focused one on top.
    pub windows: RingView<WindowHandle>,
    /// The natively maximized window held by the container, if any.
    pub maximized: Option<WindowHandle>,
}

impl ContainerView {
    pub open spec fn empty() -> ContainerView {
        ContainerView { windows: RingView::empty(), maximized: None }
    }

    /// Puts `window` on the stack and focuses it.
    pub open spec fn add_window(self, window: WindowHandle) -> ContainerView {
        ContainerView {
            windows: self.windows.push_back(window).focus(self.windows.len() as usize),
            ..self
        }
    }

    /// The actions that take the container off the screen: every window of
    /// the stack is hidden, bottom to top, and then the maximized window.
    pub open spec fn hide_actions(self) -> Seq<WindowAction> {
        self.windows.elements.map_values(
            |window: WindowHandle| WindowAction::Hide { hwnd: window.hwnd },
        ) + match self.maximized {
            Some(window) => seq![WindowAction::Hide { hwnd: window.hwnd }],
            None => Seq::empty(),
        }
    }

    /// The actions that bring the container back on screen: the focused
    /// window of the stack is shown, and then the maximized window.
    pub open spec fn restore_actions(self) -> Seq<WindowAction> {
        (match self.windows.focused_element() {
            Some(window) => seq![WindowAction::Show { hwnd: window.hwnd }],
            None => Seq::empty(),
        }) + match self.maximized {
            Some(window) => seq![WindowAction::Show { hwnd: window.hwnd }],
            None => Seq::empty(),
        }
    }

    /// Whether the stack holds the window `hwnd`.
    pub open spec fn contains_window(self, hwnd: isize) -> bool {
        exists|i: int|
            0 <= i < self.windows.len() && (#[trigger] self.windows.elements[i]).hwnd == hwnd
    }

    /// Whether no window is on the stack twice.
    pub open spec fn windows_unique(self) -> bool {
        forall|i: int, j: int|
            0 <= i < j < self.windows.len() ==> (#[trigger] self.windows.elements[i]).hwnd != (
            #[trigger] self.windows.elements[j]).hwnd
    }

    /// Adding a window that the stack does not hold keeps the windows unique.
    pub proof fn lemma_add_window_keeps_unique(self, window: WindowHandle)
        requires
            self.windows_unique(),
            !self.contains_window(window.hwnd),
        ensures
            self.add_window(window).windows_unique(),
            self.add_window(window).contains_window(window.hwnd),
    {
        let added = self.add_window(window);
        assert(added.windows.elements[self.windows.len() as int].hwnd == window.hwnd);
        assert forall|i: int, j: int| 0 <= i < j < added.windows.len() implies (
        #[trigger] added.windows.elements[i]).hwnd != (
        #[trigger] added.windows.elements[j]).hwnd by {
            if j < self.windows.len() {
                assert(self.windows.elements[i].hwnd != self.windows.elements[j].hwnd);
            } else {
                assert(self.windows.elements[i].hwnd != window.hwnd);
            }
        }
    }
}

/// A tile: an ordered stack of windows with one focused window, and a slot for
/// a window that the operating system shows maximized.
///
/// While the slot is filled, the container may not move to another workspace.
#[derive(Debug)]
pub struct Container {
    windows: Ring<WindowHandle>,
    maximized_window: Option<WindowHandle>,
}

impl View for Container {
    type V = ContainerView;

    closed spec fn view(&self) -> ContainerView {
        ContainerView { windows: self.windows@, maximized: self.maximized_window }
    }
}

impl Container {
    pub fn new() -> (container: Container)
        ensures
            container@ == ContainerView::empty(),
    {
        Container { windows: Ring::new(), maximized_window: None }
    }

    pub fn windows(&self) -> (windows: &VecDeque<WindowHandle>)
        ensures
            windows@ == self@.windows.elements,
    {
        self.windows.elements()
    }

    /// A container without windows is empty; its owner may remove it.
    pub fn is_empty(&self) -> (empty: bool)
        ensures
            empty == (self@.windows.len() == 0),
    {
        self.windows.is_empty()
    }

    pub fn focused_window_idx(&self) -> (idx: usize)
        ensures
            idx == self@.windows.focused,
    {
        self.windows.focused_idx()
    }

    pub fn focused_window(&self) -> (window: Option<&WindowHandle>)
        ensures
            window == match self@.windows.focused_element() {
                Some(handle) => Some(&handle),
                None => None,
            },
    {
        self.windows.focused()
    }

    /// Appends to `plan` the actions that take the container off the screen.
    pub fn plan_hiding(&self, plan: &mut Vec<WindowAction>)
        ensures
            final(plan)@ == old(plan)@ + self@.hide_actions(),
    {
        let windows = self.windows.elements();
        let ghost before = plan@;
        let ghost hidden = windows@.map_values(
            |window: WindowHandle| WindowAction::Hide { hwnd: window.hwnd },
        );
        let mut i: usize = 0;
        while i < windows.len()
            invariant
                i <= windows.len(),
                windows@ == self@.windows.elements,
                hidden == windows@.map_values(
                    |window: WindowHandle| WindowAction::Hide { hwnd: window.hwnd },
                ),
                plan@ == before + hidden.take(i as int),
            decreases windows.len() - i,
        {
            plan.push(WindowAction::Hide { hwnd: windows[i].hwnd });
            i = i + 1;
            assert(plan@ =~= before + hidden.take(i as int));
        }
        assert(hidden.take(i as int) =~= hidden);
        match &self.maximized_window {
            Some(window) => {
                plan.push(WindowAction::Hide { hwnd: window.hwnd });
            },
            None => {},
        }
        assert(plan@ =~= before + self@.hide_actions());
    }

    /// Appends to `plan` the actions that bring the container back on screen.
    pub fn plan_restoring(&self, plan: &mut Vec<WindowAction>)
        ensures
            final(plan)@ == old(plan)@ + self@.restore_actions(),
    {
        let ghost before = plan@;
        match self.windows.focused() {
            Some(window) => {
                plan.push(WindowAction::Show { hwnd: window.hwnd });
            },
            None => {},
        }
        match &self.maximized_window {
            Some(window) => {
                plan.push(WindowAction::Show { hwnd: window.hwnd });
            },
            None => {},
        }
        assert(plan@ =~= before + self@.restore_actions());
    }

    /// Whether the stack holds the window `hwnd`.
    pub fn contains_window(&self, hwnd: isize) -> (found: bool)
        ensures
            found == self@.contains_window(hwnd),
    {
        let windows = self.windows.elements();
        let mut i: usize = 0;
        while i < windows.len()
            invariant
                i <= windows.len(),
                windows@ == self@.windows.elements,
                forall|k: int| 0 <= k < i ==> (#[trigger] windows@[k]).hwnd != hwnd,
            decreases windows.len() - i,
        {
            if windows[i].hwnd == hwnd {
                return true;
            }
            i = i + 1;
        }
        false
    }

    /// Puts `window` on the stack and focuses it.
    pub fn add_window(&mut self, window: WindowHandle)
        ensures
            final(self)@ == old(self)@.add_window(window),
    {
        let last = self.windows.len();
        self.windows.push_back(window);
        self.windows.focus(last);
    }

    pub fn maximized_window(&self) -> (window: Option<&WindowHandle>)
        ensures
            window == match self@.maximized {
                Some(handle) => Some(&handle),
                None => None,
            },
    {
        self.maximized_window.as_ref()
    }

    /// Fills or clears the slot of the maximized window.
    pub fn set_maximized_window(&mut self, window: Option<WindowHandle>)
        ensures
            final(self)@ == (ContainerView { maximized: window, ..old(self)@ }),
    {
        self.maximized_window = window;
    }
}

impl Clone for Container {
    fn clone(&self) -> (copy: Container)
        ensures
            copy@ == self@,
    {
        let windows = self.windows.clone();
        let maximized_window = match &self.maximized_window {
            Some(window) => Some(window.clone()),
            None => None,
        };
        assert(windows@.elements =~= self.windows@.elements);
        Container { windows, maximized_window }
    }
}

impl Default for Container {
    fn default() -> (container: Container)
        ensures
            container@ == ContainerView::empty(),
    {
        Container::new()
    }
}

} // verus!

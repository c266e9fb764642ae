//! Virtual desktops: the tiled containers and floating windows of one
//! workspace, with its name and its layout settings.

use crate::container::{Container, ContainerView};
use crate::error::HierarchyError;
use crate::layout::DefaultLayout;
use crate::rect::Rect;
use crate::ring::{Ring, RingView};
use crate::window::{WindowAction, WindowHandle};
use std::collections::VecDeque;
use vstd::prelude::*;

verus! {

/// Padding, in pixels, that a new workspace leaves around and between tiles.
pub const DEFAULT_PADDING: i32 = 10;

/// Mathematical model of a [`Workspace`].
pub struct WorkspaceView {
    pub name: Option<Seq<char>>,
    /// The tiled containers, in display order, with the focused index.
    pub containers: RingView<ContainerView>,
    /// Windows that are exempt from tiling.
    pub floating_windows: Seq<WindowHandle>,
    pub layout: DefaultLayout,
    /// Path of a custom layout that takes the place of `layout`, if any.
    pub custom_layout: Option<Seq<char>>,
    /// The rectangle that the tiles were last laid out in.
    pub work_area: Rect,
    pub workspace_padding: i32,
    pub container_padding: i32,
    pub tile: bool,
}

impl WorkspaceView {
    /// The workspace as it is created on demand: empty, unnamed, tiling in the
    /// binary-space-partition layout with the default paddings.
    pub open spec fn default() -> WorkspaceView {
        WorkspaceView {
            name: None,
            containers: RingView::empty(),
            floating_windows: Seq::empty(),
            layout: DefaultLayout::BSP,
            custom_layout: None,
            work_area: Rect::zero(),
            workspace_padding: DEFAULT_PADDING,
            container_padding: DEFAULT_PADDING,
            tile: true,
        }
    }

    pub open spec fn set_name(self, name: Option<Seq<char>>) -> WorkspaceView {
        WorkspaceView { name, ..self }
    }

    pub open spec fn focused_container(self) -> Option<ContainerView> {
        self.containers.focused_element()
    }

    /// The maximized window of the focused container.
    pub open spec fn maximized_window(self) -> Option<WindowHandle> {
        match self.focused_container() {
            Some(container) => container.maximized,
            None => None,
        }
    }

    /// Appends `container` and focuses it.
    pub open spec fn add_container(self, container: ContainerView) -> WorkspaceView {
        WorkspaceView {
            containers: self.containers.push_back(container).focus(
                self.containers.len() as usize,
            ),
            ..self
        }
    }

    /// Takes the focused container out. Focus moves to the container before
    /// it, or stays at index 0. Without a focused container nothing changes.
    pub open spec fn remove_focused_container(self) -> WorkspaceView {
        let idx = self.containers.focused;
        if idx < self.containers.len() {
            WorkspaceView {
                containers: RingView {
                    elements: self.containers.elements.remove(idx as int),
                    focused: if idx != 0 {
                        (idx - 1) as usize
                    } else {
                        0
                    },
                },
                ..self
            }
        } else {
            self
        }
    }

    /// The actions that take `containers` off the screen, container by
    /// container.
    pub open spec fn hide_actions_of(containers: Seq<ContainerView>) -> Seq<WindowAction>
        decreases containers.len(),
    {
        if containers.len() == 0 {
            Seq::empty()
        } else {
            Self::hide_actions_of(containers.drop_last()) + containers.last().hide_actions()
        }
    }

    /// The actions that bring `containers` back on screen, container by
    /// container.
    pub open spec fn restore_actions_of(containers: Seq<ContainerView>) -> Seq<WindowAction>
        decreases containers.len(),
    {
        if containers.len() == 0 {
            Seq::empty()
        } else {
            Self::restore_actions_of(containers.drop_last())
                + containers.last().restore_actions()
        }
    }

    /// The window that gets the input focus when the workspace is shown: the
    /// focused window of the focused container.
    pub open spec fn window_to_focus(self) -> Option<WindowHandle> {
        match self.focused_container() {
            Some(container) => container.windows.focused_element(),
            None => None,
        }
    }

    /// The actions that hide the workspace: its containers in order, then its
    /// floating windows.
    pub open spec fn hide_plan(self) -> Seq<WindowAction> {
        Self::hide_actions_of(self.containers.elements) + self.floating_windows.map_values(
            |window: WindowHandle| WindowAction::Hide { hwnd: window.hwnd },
        )
    }

    /// The actions that show the workspace: its containers in order, then its
    /// floating windows, and last the focus on the window to focus. Focus
    /// comes last, so that a failure to focus leaves no window hidden.
    pub open spec fn restore_plan(self, mouse_follows_focus: bool) -> Seq<WindowAction> {
        Self::restore_actions_of(self.containers.elements) + self.floating_windows.map_values(
            |window: WindowHandle| WindowAction::Show { hwnd: window.hwnd },
        ) + match self.window_to_focus() {
            Some(window) => seq![WindowAction::Focus { hwnd: window.hwnd, mouse_follows_focus }],
            None => Seq::empty(),
        }
    }

    /// The work area that an update arrives at: `work_area` itself, or
    /// `work_area` moved in by the offset.
    pub open spec fn adjusted_work_area(work_area: Rect, offset: Option<Rect>) -> Rect {
        match offset {
            Some(offset) => work_area.inset_by(offset),
            None => work_area,
        }
    }

    /// Whether [`WorkspaceView::adjusted_work_area`] stays within `i32`.
    pub open spec fn work_area_fits(work_area: Rect, offset: Option<Rect>) -> bool {
        match offset {
            Some(offset) => work_area.offset_fits(offset),
            None => true,
        }
    }

    /// The workspace after an update with a work area that fits.
    pub open spec fn update(self, work_area: Rect, offset: Option<Rect>) -> WorkspaceView {
        WorkspaceView { work_area: Self::adjusted_work_area(work_area, offset), ..self }
    }

    /// What the layout engine is asked for: nothing while tiling is off or
    /// there is no container, else one rectangle per container within the
    /// work area.
    pub open spec fn layout_request(self, invisible_borders: Rect) -> Option<LayoutRequest> {
        if self.tile && self.containers.len() > 0 {
            Some(
                LayoutRequest {
                    container_count: self.containers.len() as usize,
                    work_area: self.work_area,
                    layout: self.layout,
                    invisible_borders,
                },
            )
        } else {
            None
        }
    }
}

impl WorkspaceView {
    /// An update with the arguments of the update before it changes nothing,
    /// and asks the layout engine for the same.
    pub proof fn lemma_update_idempotent(
        self,
        work_area: Rect,
        offset: Option<Rect>,
        invisible_borders: Rect,
    )
        ensures
            self.update(work_area, offset).update(work_area, offset) == self.update(
                work_area,
                offset,
            ),
            self.update(work_area, offset).update(work_area, offset).layout_request(
                invisible_borders,
            ) == self.update(work_area, offset).layout_request(invisible_borders),
    {
    }

    /// A container that was added is the focused container.
    pub proof fn lemma_added_container_is_focused(self, container: ContainerView)
        requires
            self.containers.len() < usize::MAX,
        ensures
            self.add_container(container).focused_container() == Some(container),
    {
    }

    /// Removing the focused container leaves the focused index in bounds
    /// while containers remain.
    pub proof fn lemma_removal_keeps_focus_in_bounds(self)
        requires
            self.containers.focused < self.containers.len(),
            self.containers.len() > 1,
        ensures
            self.remove_focused_container().focused_container() is Some,
    {
    }
}

/// A request to the layout engine: lay out `container_count` tiles within
/// `work_area`, and widen each window by the invisible borders when the
/// rectangles are applied.
///
/// Where the workspace names a custom layout, that layout takes the place of
/// `layout`.
#[derive(Clone, Copy, Debug, PartialEq, Eq, Structural)]
pub struct LayoutRequest {
    pub container_count: usize,
    pub work_area: Rect,
    pub layout: DefaultLayout,
    pub invisible_borders: Rect,
}

/// One virtual desktop.
///
/// A workspace is created empty when an index is addressed that has none, and
/// stays until it is removed; becoming empty does not remove it.
#[derive(Debug)]
pub struct Workspace {
    name: Option<String>,
    containers: Ring<Container>,
    floating_windows: Vec<WindowHandle>,
    layout: DefaultLayout,
    custom_layout: Option<String>,
    work_area: Rect,
    workspace_padding: i32,
    container_padding: i32,
    tile: bool,
}

/// The characters of an optional string.
pub open spec fn text_view(text: Option<String>) -> Option<Seq<char>> {
    match text {
        Some(text) => Some(text@),
        None => None,
    }
}

impl View for Workspace {
    type V = WorkspaceView;

    closed spec fn view(&self) -> WorkspaceView {
        WorkspaceView {
            name: text_view(self.name),
            containers: self.containers@.map(|container: Container| container@),
            floating_windows: self.floating_windows@,
            layout: self.layout,
            custom_layout: text_view(self.custom_layout),
            work_area: self.work_area,
            workspace_padding: self.workspace_padding,
            container_padding: self.container_padding,
            tile: self.tile,
        }
    }
}

impl Workspace {
    pub fn new() -> (workspace: Workspace)
        ensures
            workspace@ == WorkspaceView::default(),
    {
        let workspace = Workspace {
            name: None,
            containers: Ring::new(),
            floating_windows: Vec::new(),
            layout: DefaultLayout::BSP,
            custom_layout: None,
            work_area: Rect { left: 0, top: 0, right: 0, bottom: 0 },
            workspace_padding: DEFAULT_PADDING,
            container_padding: DEFAULT_PADDING,
            tile: true,
        };
        assert(workspace@.containers.elements =~= Seq::empty());
        workspace
    }

    pub fn name(&self) -> (name: &Option<String>)
        ensures
            text_view(*name) == self@.name,
    {
        &self.name
    }

    pub fn containers(&self) -> (containers: &VecDeque<Container>)
        ensures
            containers@.map_values(|container: Container| container@)
                == self@.containers.elements,
    {
        self.containers.elements()
    }

    pub fn focused_container_idx(&self) -> (idx: usize)
        ensures
            idx == self@.containers.focused,
    {
        self.containers.focused_idx()
    }

    pub fn floating_windows(&self) -> (windows: &Vec<WindowHandle>)
        ensures
            windows@ == self@.floating_windows,
    {
        &self.floating_windows
    }

    /// Sets `window` apart from the tiles, as the last floating window.
    pub fn add_floating_window(&mut self, window: WindowHandle)
        ensures
            final(self)@ == (WorkspaceView {
                floating_windows: old(self)@.floating_windows.push(window),
                ..old(self)@
            }),
    {
        self.floating_windows.push(window);
    }

    pub fn layout(&self) -> (layout: DefaultLayout)
        ensures
            layout == self@.layout,
    {
        self.layout
    }

    pub fn set_layout(&mut self, layout: DefaultLayout)
        ensures
            final(self)@ == (WorkspaceView { layout, ..old(self)@ }),
    {
        self.layout = layout;
    }

    pub fn custom_layout(&self) -> (path: &Option<String>)
        ensures
            text_view(*path) == self@.custom_layout,
    {
        &self.custom_layout
    }

    pub fn set_custom_layout(&mut self, path: Option<String>)
        ensures
            final(self)@ == (WorkspaceView { custom_layout: text_view(path), ..old(self)@ }),
    {
        self.custom_layout = path;
    }

    pub fn work_area(&self) -> (work_area: &Rect)
        ensures
            *work_area == self@.work_area,
    {
        &self.work_area
    }

    pub fn workspace_padding(&self) -> (padding: i32)
        ensures
            padding == self@.workspace_padding,
    {
        self.workspace_padding
    }

    pub fn set_workspace_padding(&mut self, padding: i32)
        ensures
            final(self)@ == (WorkspaceView { workspace_padding: padding, ..old(self)@ }),
    {
        self.workspace_padding = padding;
    }

    pub fn container_padding(&self) -> (padding: i32)
        ensures
            padding == self@.container_padding,
    {
        self.container_padding
    }

    pub fn set_container_padding(&mut self, padding: i32)
        ensures
            final(self)@ == (WorkspaceView { container_padding: padding, ..old(self)@ }),
    {
        self.container_padding = padding;
    }

    pub fn tile(&self) -> (tile: bool)
        ensures
            tile == self@.tile,
    {
        self.tile
    }

    pub fn set_tile(&mut self, tile: bool)
        ensures
            final(self)@ == (WorkspaceView { tile, ..old(self)@ }),
    {
        self.tile = tile;
    }

    pub fn set_name(&mut self, name: Option<String>)
        ensures
            final(self)@ == old(self)@.set_name(text_view(name)),
    {
        self.name = name;
    }

    pub fn focused_container(&self) -> (container: Option<&Container>)
        ensures
            match container {
                Some(container) => self@.focused_container() == Some(container@),
                None => self@.focused_container() is None,
            },
    {
        self.containers.focused()
    }

    /// The natively maximized window that blocks moving the focused container.
    pub fn maximized_window(&self) -> (window: Option<&WindowHandle>)
        ensures
            window == match self@.maximized_window() {
                Some(handle) => Some(&handle),
                None => None,
            },
    {
        match self.containers.focused() {
            Some(container) => container.maximized_window(),
            None => None,
        }
    }

    /// The actions that hide the windows of the workspace.
    pub fn hide_plan(&self) -> (plan: Vec<WindowAction>)
        ensures
            plan@ == self@.hide_plan(),
    {
        let containers = self.containers.elements();
        let ghost views = self@.containers.elements;
        let mut plan: Vec<WindowAction> = Vec::new();
        let mut i: usize = 0;
        while i < containers.len()
            invariant
                i <= containers.len(),
                views == containers@.map_values(|container: Container| container@),
                plan@ == WorkspaceView::hide_actions_of(views.take(i as int)),
            decreases containers.len() - i,
        {
            containers[i].plan_hiding(&mut plan);
            i = i + 1;
            assert(views.take(i as int).drop_last() =~= views.take(i - 1));
        }
        assert(views.take(i as int) =~= views);
        let ghost tiled = plan@;
        let ghost floating = self.floating_windows@.map_values(
            |window: WindowHandle| WindowAction::Hide { hwnd: window.hwnd },
        );
        let mut j: usize = 0;
        while j < self.floating_windows.len()
            invariant
                j <= self.floating_windows.len(),
                floating == self.floating_windows@.map_values(
                    |window: WindowHandle| WindowAction::Hide { hwnd: window.hwnd },
                ),
                plan@ == tiled + floating.take(j as int),
            decreases self.floating_windows.len() - j,
        {
            plan.push(WindowAction::Hide { hwnd: self.floating_windows[j].hwnd });
            j = j + 1;
            assert(plan@ =~= tiled + floating.take(j as int));
        }
        assert(floating.take(j as int) =~= floating);
        plan
    }

    /// The actions that show the windows of the workspace and focus the
    /// focused window.
    pub fn restore_plan(&self, mouse_follows_focus: bool) -> (plan: Vec<WindowAction>)
        ensures
            plan@ == self@.restore_plan(mouse_follows_focus),
    {
        let containers = self.containers.elements();
        let ghost views = self@.containers.elements;
        let mut plan: Vec<WindowAction> = Vec::new();
        let mut i: usize = 0;
        while i < containers.len()
            invariant
                i <= containers.len(),
                views == containers@.map_values(|container: Container| container@),
                plan@ == WorkspaceView::restore_actions_of(views.take(i as int)),
            decreases containers.len() - i,
        {
            containers[i].plan_restoring(&mut plan);
            i = i + 1;
            assert(views.take(i as int).drop_last() =~= views.take(i - 1));
        }
        assert(views.take(i as int) =~= views);
        let ghost tiled = plan@;
        let ghost floating = self.floating_windows@.map_values(
            |window: WindowHandle| WindowAction::Show { hwnd: window.hwnd },
        );
        let mut j: usize = 0;
        while j < self.floating_windows.len()
            invariant
                j <= self.floating_windows.len(),
                floating == self.floating_windows@.map_values(
                    |window: WindowHandle| WindowAction::Show { hwnd: window.hwnd },
                ),
                plan@ == tiled + floating.take(j as int),
            decreases self.floating_windows.len() - j,
        {
            plan.push(WindowAction::Show { hwnd: self.floating_windows[j].hwnd });
            j = j + 1;
            assert(plan@ =~= tiled + floating.take(j as int));
        }
        assert(floating.take(j as int) =~= floating);
        let ghost shown = plan@;
        match self.containers.focused() {
            Some(container) => match container.focused_window() {
                Some(window) => {
                    plan.push(WindowAction::Focus { hwnd: window.hwnd, mouse_follows_focus });
                },
                None => {},
            },
            None => {},
        }
        assert(plan@ =~= shown + match self@.window_to_focus() {
            Some(window) => seq![WindowAction::Focus { hwnd: window.hwnd, mouse_follows_focus }],
            None => Seq::empty(),
        });
        plan
    }

    /// Appends `container` and focuses it.
    pub fn add_container(&mut self, container: Container)
        ensures
            final(self)@ == old(self)@.add_container(container@),
    {
        let last = self.containers.len();
        self.containers.push_back(container);
        self.containers.focus(last);
        assert(final(self)@.containers.elements =~= old(self)@.add_container(
            container@,
        ).containers.elements);
    }

    /// Takes the focused container out and returns it. Focus moves to the
    /// container before it, or stays at index 0.
    pub fn remove_focused_container(&mut self) -> (removed: Option<Container>)
        ensures
            match removed {
                Some(container) => old(self)@.focused_container() == Some(container@),
                None => old(self)@.focused_container() is None,
            },
            final(self)@ == old(self)@.remove_focused_container(),
    {
        let idx = self.containers.focused_idx();
        let removed = self.containers.remove(idx);
        if removed.is_some() {
            if idx != 0 {
                self.containers.focus(idx - 1);
            }
            assert(final(self)@.containers.elements =~= old(
                self,
            )@.remove_focused_container().containers.elements);
        }
        removed
    }

    /// Records the work area that the monitor offers, moved in by `offset`, and
    /// says what the layout engine is to compute for it.
    ///
    /// Fails, changing nothing, when the offset takes a component of the work
    /// area out of the range of `i32`.
    pub fn update(&mut self, work_area: &Rect, offset: Option<Rect>, invisible_borders: &Rect) -> (request:
        Result<Option<LayoutRequest>, HierarchyError>)
        ensures
            WorkspaceView::work_area_fits(*work_area, offset) ==> {
                &&& final(self)@ == old(self)@.update(*work_area, offset)
                &&& request == Ok::<_, HierarchyError>(
                    final(self)@.layout_request(*invisible_borders),
                )
            },
            !WorkspaceView::work_area_fits(*work_area, offset) ==> {
                &&& final(self)@ == old(self)@
                &&& request == Err::<Option<LayoutRequest>, _>(
                    HierarchyError::WorkAreaOutOfRange,
                )
            },
    {
        let adjusted = match offset {
            Some(offset) => match work_area.checked_inset(&offset) {
                Some(adjusted) => adjusted,
                None => {
                    return Err(HierarchyError::WorkAreaOutOfRange);
                },
            },
            None => *work_area,
        };
        self.work_area = adjusted;
        let container_count = self.containers.len();
        if self.tile && container_count > 0 {
            Ok(
                Some(
                    LayoutRequest {
                        container_count,
                        work_area: adjusted,
                        layout: self.layout,
                        invisible_borders: *invisible_borders,
                    },
                ),
            )
        } else {
            Ok(None)
        }
    }
}

impl Clone for Workspace {
    fn clone(&self) -> (copy: Workspace)
        ensures
            copy@ == self@,
    {
        let name = match &self.name {
            Some(name) => Some(name.clone()),
            None => None,
        };
        let custom_layout = match &self.custom_layout {
            Some(path) => Some(path.clone()),
            None => None,
        };
        let containers = self.containers.clone();
        let floating_windows = self.floating_windows.clone();
        let copy = Workspace {
            name,
            containers,
            floating_windows,
            layout: self.layout,
            custom_layout,
            work_area: self.work_area,
            workspace_padding: self.workspace_padding,
            container_padding: self.container_padding,
            tile: self.tile,
        };
        assert(copy@.containers.elements =~= self@.containers.elements);
        assert(copy@.floating_windows =~= self@.floating_windows);
        copy
    }
}

impl Default for Workspace {
    fn default() -> (workspace: Workspace)
        ensures
            workspace@ == WorkspaceView::default(),
    {
        Workspace::new()
    }
}

} // verus!

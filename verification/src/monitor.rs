//! Physical displays and the workspaces they show.

use crate::container::{Container, ContainerView};
use crate::error::HierarchyError;
use crate::rect::Rect;
use crate::ring::{Ring, RingView};
use crate::window::WindowAction;
use crate::workspace::{LayoutRequest, Workspace, WorkspaceView};
use std::collections::HashMap;
use std::collections::VecDeque;
use vstd::prelude::*;

verus! {

broadcast use vstd::std_specs::hash::group_hash_axioms;

/// What is to become of the windows of one workspace when a monitor shows its
/// focused workspace.
#[derive(Clone, Copy, Debug, PartialEq, Eq, Structural)]
pub enum WorkspaceAction {
    /// Show the windows of the workspace, and move the cursor to its focused
    /// window where `mouse_follows_focus` is set.
    Restore { mouse_follows_focus: bool },
    /// Hide the windows of the workspace.
    Hide,
}

/// Mathematical model of a [`Monitor`].
pub struct MonitorView {
    pub id: isize,
    pub size: Rect,
    pub work_area_size: Rect,
    /// The workspaces by index, with the index of the one that is shown.
    pub workspaces: RingView<WorkspaceView>,
    /// The last known name of each workspace index. An entry outlives the
    /// workspace that it was given to.
    pub workspace_names: Map<usize, Seq<char>>,
}

impl MonitorView {
    /// A monitor as it starts out: one default workspace, focused, no names.
    pub open spec fn new(id: isize, size: Rect, work_area_size: Rect) -> MonitorView {
        MonitorView {
            id,
            size,
            work_area_size,
            workspaces: RingView::empty().push_back(WorkspaceView::default()),
            workspace_names: Map::empty(),
        }
    }

    pub open spec fn workspace_count(self) -> nat {
        self.workspaces.len()
    }

    pub open spec fn focused_workspace(self) -> Option<WorkspaceView> {
        self.workspaces.focused_element()
    }

    /// Replaces the workspace at `idx`. Out of bounds, nothing changes.
    pub open spec fn with_workspace(self, idx: usize, workspace: WorkspaceView) -> MonitorView {
        MonitorView { workspaces: self.workspaces.set(idx, workspace), ..self }
    }

    /// The monitor with default workspaces appended until there are `count`.
    /// With `count` workspaces or more, the monitor itself.
    pub open spec fn ensure_workspace_count(self, count: usize) -> MonitorView {
        if self.workspaces.len() < count {
            let fresh = Seq::new(
                (count - self.workspaces.len()) as nat,
                |i: int| WorkspaceView::default(),
            );
            MonitorView {
                workspaces: RingView {
                    elements: self.workspaces.elements + fresh,
                    ..self.workspaces
                },
                ..self
            }
        } else {
            self
        }
    }

    /// Focus on the workspace at `idx`, created on demand together with every
    /// index below it, and named as the name map says.
    pub open spec fn focus_workspace(self, idx: usize) -> MonitorView {
        let grown = self.ensure_workspace_count((idx + 1) as usize);
        let focused = MonitorView { workspaces: grown.workspaces.focus(idx), ..grown };
        if self.workspace_names.contains_key(idx) {
            focused.with_workspace(
                idx,
                focused.workspaces.elements[idx as int].set_name(Some(self.workspace_names[idx])),
            )
        } else {
            focused
        }
    }

    /// Removal of the workspace at `idx`. An index that is out of bounds
    /// removes nothing: index 0 appends a default workspace instead, any other
    /// index moves focus to the index below it.
    pub open spec fn remove_workspace_by_idx(self, idx: usize) -> MonitorView {
        if idx < self.workspaces.len() {
            MonitorView { workspaces: self.workspaces.remove(idx), ..self }
        } else if idx == 0 {
            MonitorView {
                workspaces: self.workspaces.push_back(WorkspaceView::default()),
                ..self
            }
        } else {
            self.focus_workspace((idx - 1) as usize)
        }
    }

    /// The container appended to the focused workspace, if there is one.
    pub open spec fn add_container(self, container: ContainerView) -> MonitorView {
        match self.focused_workspace() {
            Some(workspace) => self.with_workspace(
                self.workspaces.focused,
                workspace.add_container(container),
            ),
            None => self,
        }
    }

    /// Why the focused container may not leave its workspace, if it may not.
    pub open spec fn move_rejection(self) -> Option<HierarchyError> {
        match self.focused_workspace() {
            None => Some(HierarchyError::NoWorkspace),
            Some(workspace) => if workspace.maximized_window() is Some {
                Some(HierarchyError::MaximizedWindow)
            } else if workspace.focused_container() is None {
                Some(HierarchyError::NoContainer)
            } else {
                None
            },
        }
    }

    /// The focused container moved to the end of the workspace at `target`,
    /// which is created on demand, and focus moved along where `follow` is set.
    /// A rejected move changes nothing.
    pub open spec fn move_container_to_workspace(self, target: usize, follow: bool) -> MonitorView {
        if self.move_rejection() is Some {
            self
        } else {
            let source = self.focused_workspace().unwrap();
            let container = source.focused_container().unwrap();
            let taken = self.with_workspace(
                self.workspaces.focused,
                source.remove_focused_container(),
            );
            let grown = taken.ensure_workspace_count((target + 1) as usize);
            let placed = grown.with_workspace(
                target,
                grown.workspaces.elements[target as int].add_container(container),
            );
            if follow {
                placed.focus_workspace(target)
            } else {
                placed
            }
        }
    }

    /// One action per workspace, in index order: the focused workspace is
    /// restored, every other one is hidden.
    pub open spec fn visibility_plan(self, mouse_follows_focus: bool) -> Seq<WorkspaceAction> {
        Seq::new(
            self.workspaces.len(),
            |i: int|
                if i == self.workspaces.focused {
                    WorkspaceAction::Restore { mouse_follows_focus }
                } else {
                    WorkspaceAction::Hide
                },
        )
    }

    /// The actions on the windows of the workspace at `idx` that carry out
    /// its part of the visibility plan.
    pub open spec fn workspace_plan(self, mouse_follows_focus: bool, idx: int) -> Seq<
        WindowAction,
    > {
        match self.visibility_plan(mouse_follows_focus)[idx] {
            WorkspaceAction::Restore { mouse_follows_focus } =>
                self.workspaces.elements[idx].restore_plan(mouse_follows_focus),
            WorkspaceAction::Hide => self.workspaces.elements[idx].hide_plan(),
        }
    }

    /// The actions on the windows of the first `count` workspaces, workspace
    /// by workspace.
    pub open spec fn load_plan_up_to(self, mouse_follows_focus: bool, count: nat) -> Seq<
        WindowAction,
    >
        decreases count,
    {
        if count == 0 {
            Seq::empty()
        } else {
            self.load_plan_up_to(mouse_follows_focus, (count - 1) as nat) + self.workspace_plan(
                mouse_follows_focus,
                count - 1,
            )
        }
    }

    /// The actions that show the focused workspace and hide all others,
    /// workspace by workspace in index order.
    pub open spec fn load_plan(self, mouse_follows_focus: bool) -> Seq<WindowAction> {
        self.load_plan_up_to(mouse_follows_focus, self.workspaces.len())
    }

    /// The focused workspace updated for the work area of the monitor and
    /// `offset`. Without a focused workspace, or with an offset that does not
    /// fit, nothing changes.
    pub open spec fn update_focused_workspace(self, offset: Option<Rect>) -> MonitorView {
        match self.focused_workspace() {
            Some(workspace) => if WorkspaceView::work_area_fits(self.work_area_size, offset) {
                self.with_workspace(
                    self.workspaces.focused,
                    workspace.update(self.work_area_size, offset),
                )
            } else {
                self
            },
            None => self,
        }
    }

    /// What [`Monitor::update_focused_workspace`] returns.
    pub open spec fn update_outcome(self, offset: Option<Rect>, invisible_borders: Rect) -> Result<
        Option<LayoutRequest>,
        HierarchyError,
    > {
        match self.focused_workspace() {
            Some(workspace) => if WorkspaceView::work_area_fits(self.work_area_size, offset) {
                Ok(
                    workspace.update(self.work_area_size, offset).layout_request(
                        invisible_borders,
                    ),
                )
            } else {
                Err(HierarchyError::WorkAreaOutOfRange)
            },
            None => Err(HierarchyError::NoWorkspace),
        }
    }

    /// The name `name` given to the workspace at `idx` and recorded for that
    /// index. Without a workspace at `idx` nothing changes.
    pub open spec fn set_workspace_name(self, idx: usize, name: Seq<char>) -> MonitorView {
        if idx < self.workspaces.len() {
            MonitorView {
                workspace_names: self.workspace_names.insert(idx, name),
                ..self.with_workspace(idx, self.workspaces.elements[idx as int].set_name(Some(name)))
            }
        } else {
            self
        }
    }
}

/// A change to a monitor, as a value: one variant for each operation of
/// [`Monitor`] that changes it.
pub enum MonitorCommand {
    EnsureWorkspaceCount { count: usize },
    FocusWorkspace { idx: usize },
    RemoveWorkspace { idx: usize },
    AddContainer { container: ContainerView },
    MoveContainerToWorkspace { target: usize, follow: bool },
    UpdateFocusedWorkspace { offset: Option<Rect> },
    SetWorkspaceName { idx: usize, name: Seq<char> },
}

impl MonitorCommand {
    /// Whether the command addresses an index that has a successor, as the
    /// operations of [`Monitor`] demand.
    pub open spec fn addressable(self) -> bool {
        match self {
            MonitorCommand::FocusWorkspace { idx } => idx < usize::MAX,
            MonitorCommand::MoveContainerToWorkspace { target, .. } => target < usize::MAX,
            _ => true,
        }
    }
}

impl MonitorView {
    /// The monitor after `command`.
    pub open spec fn apply(self, command: MonitorCommand) -> MonitorView {
        match command {
            MonitorCommand::EnsureWorkspaceCount { count } => self.ensure_workspace_count(count),
            MonitorCommand::FocusWorkspace { idx } => self.focus_workspace(idx),
            MonitorCommand::RemoveWorkspace { idx } => self.remove_workspace_by_idx(idx),
            MonitorCommand::AddContainer { container } => self.add_container(container),
            MonitorCommand::MoveContainerToWorkspace { target, follow } =>
                self.move_container_to_workspace(target, follow),
            MonitorCommand::UpdateFocusedWorkspace { offset } => self.update_focused_workspace(
                offset,
            ),
            MonitorCommand::SetWorkspaceName { idx, name } => self.set_workspace_name(idx, name),
        }
    }

    /// The monitor after the commands of `commands`, first to last.
    pub open spec fn apply_all(self, commands: Seq<MonitorCommand>) -> MonitorView
        decreases commands.len(),
    {
        if commands.len() == 0 {
            self
        } else {
            self.apply_all(commands.drop_last()).apply(commands.last())
        }
    }

    /// Whether `command` removes the only workspace of the monitor.
    pub open spec fn removes_only_workspace(self, command: MonitorCommand) -> bool {
        self.workspace_count() == 1 && command == (MonitorCommand::RemoveWorkspace { idx: 0 })
    }

    /// A command leaves a monitor that has a workspace with at least one
    /// workspace, unless it removes the only one.
    pub proof fn lemma_command_keeps_a_workspace(self, command: MonitorCommand)
        requires
            self.workspace_count() >= 1,
            !self.removes_only_workspace(command),
        ensures
            self.apply(command).workspace_count() >= 1,
    {
    }

    /// Whether the focused index addresses a workspace, or is 0 while there
    /// is none.
    pub open spec fn focus_in_bounds(self) -> bool {
        self.workspaces.focus_in_bounds()
    }

    /// No command takes the focused index out of bounds. So a monitor that
    /// started with [`MonitorView::new`] has a focused workspace whenever it
    /// has a workspace at all.
    pub proof fn lemma_command_keeps_focus_in_bounds(self, command: MonitorCommand)
        requires
            self.focus_in_bounds(),
            command.addressable(),
        ensures
            self.apply(command).focus_in_bounds(),
    {
    }

    /// No sequence of commands takes the focused index out of bounds.
    pub proof fn lemma_focus_always_in_bounds(self, commands: Seq<MonitorCommand>)
        requires
            self.focus_in_bounds(),
            forall|i: int| 0 <= i < commands.len() ==> (#[trigger] commands[i]).addressable(),
        ensures
            self.apply_all(commands).focus_in_bounds(),
        decreases commands.len(),
    {
        if commands.len() > 0 {
            self.lemma_focus_always_in_bounds(commands.drop_last());
            self.apply_all(commands.drop_last()).lemma_command_keeps_focus_in_bounds(
                commands.last(),
            );
        }
    }

    /// A monitor that has a workspace still has one after any sequence of
    /// commands in which no command removes the only workspace.
    pub proof fn lemma_workspace_always_present(self, commands: Seq<MonitorCommand>)
        requires
            self.workspace_count() >= 1,
            forall|i: int|
                0 <= i < commands.len() ==> !(#[trigger] self.apply_all(
                    commands.take(i),
                )).removes_only_workspace(commands[i]),
        ensures
            self.apply_all(commands).workspace_count() >= 1,
        decreases commands.len(),
    {
        if commands.len() > 0 {
            let earlier = commands.drop_last();
            assert forall|i: int| 0 <= i < earlier.len() implies !(#[trigger] self.apply_all(
                earlier.take(i),
            )).removes_only_workspace(earlier[i]) by {
                assert(earlier.take(i) =~= commands.take(i));
            }
            self.lemma_workspace_always_present(earlier);
            assert(commands.take(commands.len() - 1) =~= earlier);
            self.apply_all(earlier).lemma_command_keeps_a_workspace(commands.last());
        }
    }

    /// While the focused index addresses a workspace, the plan restores that
    /// workspace and hides every other one.
    pub proof fn lemma_one_workspace_restored(self, mouse_follows_focus: bool)
        requires
            self.workspaces.focused < self.workspace_count(),
        ensures
            self.visibility_plan(mouse_follows_focus).len() == self.workspace_count(),
            forall|i: int|
                0 <= i < self.workspace_count() ==> ((#[trigger] self.visibility_plan(
                    mouse_follows_focus,
                )[i]) is Restore <==> i == self.workspaces.focused),
    {
    }

    /// Focusing a workspace makes its index the focused index, and the index
    /// addresses a workspace.
    pub proof fn lemma_focus_workspace_focuses(self, idx: usize)
        requires
            idx < usize::MAX,
        ensures
            self.focus_workspace(idx).workspaces.focused == idx,
            self.focus_workspace(idx).focused_workspace() is Some,
    {
    }

    /// Ensuring a workspace count a second time changes nothing.
    pub proof fn lemma_ensure_workspace_count_idempotent(self, count: usize)
        ensures
            self.ensure_workspace_count(count).ensure_workspace_count(count)
                == self.ensure_workspace_count(count),
            self.ensure_workspace_count(count).workspace_count() == if self.workspace_count()
                < count {
                count as nat
            } else {
                self.workspace_count()
            },
    {
    }

    /// A name given to the workspace at `idx` survives the removal of that
    /// workspace: the workspace that is at `idx` once the index is focused
    /// again carries the name.
    pub proof fn lemma_name_survives_removal(self, idx: usize, name: Seq<char>)
        requires
            idx < self.workspace_count(),
            idx < usize::MAX,
        ensures
            self.set_workspace_name(idx, name).remove_workspace_by_idx(idx).focus_workspace(
                idx,
            ).workspaces.get(idx) is Some,
            self.set_workspace_name(idx, name).remove_workspace_by_idx(idx).focus_workspace(
                idx,
            ).workspaces.get(idx).unwrap().name == Some(name),
    {
    }
}

/// One physical display: its rectangles, its workspaces and the names that
/// were given to workspace indices.
#[derive(Debug)]
pub struct Monitor {
    id: isize,
    size: Rect,
    work_area_size: Rect,
    workspaces: Ring<Workspace>,
    workspace_names: HashMap<usize, String>,
}

impl View for Monitor {
    type V = MonitorView;

    closed spec fn view(&self) -> MonitorView {
        MonitorView {
            id: self.id,
            size: self.size,
            work_area_size: self.work_area_size,
            workspaces: self.workspaces@.map(|workspace: Workspace| workspace@),
            workspace_names: self.workspace_names@.map_values(|name: String| name@),
        }
    }
}

/// Creates the monitor `id` with one default workspace, which is focused.
pub fn new(id: isize, size: Rect, work_area_size: Rect) -> (monitor: Monitor)
    ensures
        monitor@ == MonitorView::new(id, size, work_area_size),
{
    let mut workspaces = Ring::new();
    workspaces.push_back(Workspace::default());
    let monitor = Monitor { id, size, work_area_size, workspaces, workspace_names: HashMap::new() };
    assert(monitor@.workspaces.elements =~= MonitorView::new(
        id,
        size,
        work_area_size,
    ).workspaces.elements);
    assert(monitor@.workspace_names =~= Map::empty());
    monitor
}

impl Monitor {
    /// Appends default workspaces until there are `ensure_count`. Never shrinks.
    pub fn ensure_workspace_count(&mut self, ensure_count: usize)
        ensures
            final(self)@ == old(self)@.ensure_workspace_count(ensure_count),
    {
        if self.workspaces.len() < ensure_count {
            self.workspaces.resize(ensure_count, Workspace::default());
            assert(final(self)@.workspaces.elements =~= old(self)@.ensure_workspace_count(
                ensure_count,
            ).workspaces.elements) by {
                let before = old(self).workspaces@.elements;
                let after = final(self).workspaces@.elements;
                assert forall|i: int| 0 <= i < before.len() implies after[i] == before[i] by {
                    assert(after.subrange(0, before.len() as int)[i] == after[i]);
                }
            }
        }
    }

    /// Focuses the workspace at `idx`. Workspaces are created up to that index
    /// where it is out of bounds, and a name recorded for the index is applied.
    pub fn focus_workspace(&mut self, idx: usize) -> (result: Result<(), HierarchyError>)
        requires
            idx < usize::MAX,
        ensures
            result is Ok,
            final(self)@ == old(self)@.focus_workspace(idx),
            final(self)@.workspaces.focused == idx,
            idx < final(self)@.workspace_count(),
    {
        self.ensure_workspace_count(idx + 1);
        self.workspaces.focus(idx);
        let name = match self.workspace_names.get(&idx) {
            Some(name) => Some(name.clone()),
            None => None,
        };
        if name.is_some() {
            assert(self.workspaces@.len() == self@.workspaces.len());
            match self.workspaces.get_mut(idx) {
                Some(workspace) => workspace.set_name(name),
                None => {
                    return Err(HierarchyError::NoWorkspace);
                },
            }
            assert(final(self)@.workspaces.elements =~= old(self)@.focus_workspace(
                idx,
            ).workspaces.elements);
        }
        Ok(())
    }

    /// The index that the next appended workspace would get.
    pub fn new_workspace_idx(&self) -> (idx: usize)
        ensures
            idx == self@.workspace_count(),
    {
        self.workspaces.len()
    }

    /// Says, for each workspace in index order, whether its windows are to be
    /// shown or hidden: the focused workspace is restored, all others are
    /// hidden.
    pub fn visibility_plan(&self, mouse_follows_focus: bool) -> (plan: Vec<WorkspaceAction>)
        ensures
            plan@ == self@.visibility_plan(mouse_follows_focus),
    {
        let focused_idx = self.workspaces.focused_idx();
        let count = self.workspaces.len();
        let mut plan: Vec<WorkspaceAction> = Vec::new();
        let mut i: usize = 0;
        while i < count
            invariant
                i <= count,
                count == self@.workspaces.len(),
                focused_idx == self@.workspaces.focused,
                plan@ == self@.visibility_plan(mouse_follows_focus).subrange(0, i as int),
            decreases count - i,
        {
            if i == focused_idx {
                plan.push(WorkspaceAction::Restore { mouse_follows_focus });
            } else {
                plan.push(WorkspaceAction::Hide);
            }
            i = i + 1;
            assert(plan@ =~= self@.visibility_plan(mouse_follows_focus).subrange(0, i as int));
        }
        assert(plan@ =~= self@.visibility_plan(mouse_follows_focus));
        plan
    }

    /// Plans what is to happen to every window so that the focused workspace
    /// is shown and all others are hidden: workspace by workspace in index
    /// order, the plan to restore the focused one and the plan to hide each
    /// other one.
    ///
    /// The caller carries the actions out, all of them, and reports the first
    /// one that failed.
    pub fn load_focused_workspace(&self, mouse_follows_focus: bool) -> (plan: Vec<WindowAction>)
        ensures
            plan@ == self@.load_plan(mouse_follows_focus),
    {
        let focused_idx = self.workspaces.focused_idx();
        let workspaces = self.workspaces.elements();
        let mut plan: Vec<WindowAction> = Vec::new();
        let mut i: usize = 0;
        while i < workspaces.len()
            invariant
                i <= workspaces.len(),
                workspaces@.map_values(|workspace: Workspace| workspace@)
                    == self@.workspaces.elements,
                focused_idx == self@.workspaces.focused,
                plan@ == self@.load_plan_up_to(mouse_follows_focus, i as nat),
            decreases workspaces.len() - i,
        {
            let mut part = if i == focused_idx {
                workspaces[i].restore_plan(mouse_follows_focus)
            } else {
                workspaces[i].hide_plan()
            };
            assert(part@ == self@.workspace_plan(mouse_follows_focus, i as int));
            plan.append(&mut part);
            i = i + 1;
        }
        plan
    }

    /// Appends `container` to the focused workspace and focuses it there.
    ///
    /// Fails, changing nothing, when the focused index addresses no workspace.
    pub fn add_container(&mut self, container: Container) -> (result: Result<(), HierarchyError>)
        ensures
            result == match old(self)@.focused_workspace() {
                Some(_) => Ok::<(), HierarchyError>(()),
                None => Err::<(), HierarchyError>(HierarchyError::NoWorkspace),
            },
            final(self)@ == old(self)@.add_container(container@),
    {
        match self.workspaces.focused_mut() {
            Some(workspace) => {
                workspace.add_container(container);
            },
            None => {
                return Err(HierarchyError::NoWorkspace);
            },
        }
        assert(final(self)@.workspaces.elements =~= old(self)@.add_container(
            container@,
        ).workspaces.elements);
        Ok(())
    }

    /// Removes the workspace at `idx` and returns it. For an index that is out
    /// of bounds nothing is removed: index 0 appends a default workspace, any
    /// other index focuses the workspace below it.
    pub fn remove_workspace_by_idx(&mut self, idx: usize) -> (removed: Option<Workspace>)
        ensures
            match removed {
                Some(workspace) => old(self)@.workspaces.get(idx) == Some(workspace@),
                None => old(self)@.workspaces.get(idx) is None,
            },
            final(self)@ == old(self)@.remove_workspace_by_idx(idx),
    {
        if idx < self.workspaces.len() {
            let removed = self.workspaces.remove(idx);
            assert(final(self)@.workspaces.elements =~= old(self)@.remove_workspace_by_idx(
                idx,
            ).workspaces.elements);
            return removed;
        }
        if idx == 0 {
            self.workspaces.push_back(Workspace::default());
            assert(final(self)@.workspaces.elements =~= old(self)@.remove_workspace_by_idx(
                idx,
            ).workspaces.elements);
        } else {
            let _ = self.focus_workspace(idx - 1);
        }
        None
    }

    /// Moves the focused container of the focused workspace to the end of the
    /// workspace at `target_workspace_idx`, creating workspaces up to that
    /// index where needed, and focuses that workspace where `follow` is set.
    ///
    /// Fails, changing nothing, when there is no focused workspace, when the
    /// focused container holds a maximized window, or when there is no focused
    /// container.
    pub fn move_container_to_workspace(&mut self, target_workspace_idx: usize, follow: bool) -> (result:
        Result<(), HierarchyError>)
        requires
            target_workspace_idx < usize::MAX,
        ensures
            result == match old(self)@.move_rejection() {
                Some(error) => Err::<(), HierarchyError>(error),
                None => Ok::<(), HierarchyError>(()),
            },
            final(self)@ == old(self)@.move_container_to_workspace(target_workspace_idx, follow),
    {
        match self.workspaces.focused() {
            None => {
                return Err(HierarchyError::NoWorkspace);
            },
            Some(workspace) => {
                if workspace.maximized_window().is_some() {
                    return Err(HierarchyError::MaximizedWindow);
                }
                if workspace.focused_container().is_none() {
                    return Err(HierarchyError::NoContainer);
                }
            },
        }
        let container = match self.workspaces.focused_mut() {
            Some(workspace) => match workspace.remove_focused_container() {
                Some(container) => container,
                None => {
                    return Err(HierarchyError::NoContainer);
                },
            },
            None => {
                return Err(HierarchyError::NoWorkspace);
            },
        };
        let ghost source = old(self)@.focused_workspace().unwrap();
        let ghost taken = old(self)@.with_workspace(
            old(self)@.workspaces.focused,
            source.remove_focused_container(),
        );
        assert(self@.workspaces.elements =~= taken.workspaces.elements);
        self.ensure_workspace_count(target_workspace_idx + 1);
        let ghost grown = self@;
        assert(self.workspaces@.len() == self@.workspaces.len());
        match self.workspaces.get_mut(target_workspace_idx) {
            Some(target) => target.add_container(container),
            None => {
                return Err(HierarchyError::NoWorkspace);
            },
        }
        assert(self@.workspaces.elements =~= grown.with_workspace(
            target_workspace_idx,
            grown.workspaces.elements[target_workspace_idx as int].add_container(container@),
        ).workspaces.elements);
        if follow {
            let _ = self.focus_workspace(target_workspace_idx);
        }
        Ok(())
    }

    /// Offers the focused workspace the work area of the monitor, moved in by
    /// `offset`, and returns its request to the layout engine.
    ///
    /// Fails, changing nothing, when the focused index addresses no workspace
    /// or when the offset takes the work area out of the range of `i32`.
    pub fn update_focused_workspace(&mut self, offset: Option<Rect>, invisible_borders: &Rect) -> (request:
        Result<Option<LayoutRequest>, HierarchyError>)
        ensures
            request == old(self)@.update_outcome(offset, *invisible_borders),
            final(self)@ == old(self)@.update_focused_workspace(offset),
    {
        let work_area = self.work_area_size;
        let request = match self.workspaces.focused_mut() {
            Some(workspace) => workspace.update(&work_area, offset, invisible_borders),
            None => {
                return Err(HierarchyError::NoWorkspace);
            },
        };
        assert(final(self)@.workspaces.elements =~= old(self)@.update_focused_workspace(
            offset,
        ).workspaces.elements);
        request
    }

    /// Names the workspace at `idx` and records the name for that index, so
    /// that a workspace created at the index later gets it again.
    ///
    /// Fails, changing nothing, when there is no workspace at `idx`.
    pub fn set_workspace_name(&mut self, idx: usize, name: String) -> (result: Result<
        (),
        HierarchyError,
    >)
        ensures
            result == if idx < old(self)@.workspace_count() {
                Ok::<(), HierarchyError>(())
            } else {
                Err::<(), HierarchyError>(HierarchyError::NoWorkspace)
            },
            final(self)@ == old(self)@.set_workspace_name(idx, name@),
    {
        match self.workspaces.get_mut(idx) {
            Some(workspace) => workspace.set_name(Some(name.clone())),
            None => {
                return Err(HierarchyError::NoWorkspace);
            },
        }
        self.workspace_names.insert(idx, name);
        assert(final(self)@.workspaces.elements =~= old(self)@.set_workspace_name(
            idx,
            name@,
        ).workspaces.elements);
        assert(final(self)@.workspace_names =~= old(self)@.workspace_names.insert(idx, name@));
        Ok(())
    }

    pub fn id(&self) -> (id: isize)
        ensures
            id == self@.id,
    {
        self.id
    }

    pub fn set_id(&mut self, id: isize)
        ensures
            final(self)@ == (MonitorView { id, ..old(self)@ }),
    {
        self.id = id;
    }

    pub fn size(&self) -> (size: &Rect)
        ensures
            *size == self@.size,
    {
        &self.size
    }

    pub fn set_size(&mut self, size: Rect)
        ensures
            final(self)@ == (MonitorView { size, ..old(self)@ }),
    {
        self.size = size;
    }

    pub fn work_area_size(&self) -> (work_area_size: &Rect)
        ensures
            *work_area_size == self@.work_area_size,
    {
        &self.work_area_size
    }

    pub fn set_work_area_size(&mut self, work_area_size: Rect)
        ensures
            final(self)@ == (MonitorView { work_area_size, ..old(self)@ }),
    {
        self.work_area_size = work_area_size;
    }

    pub fn workspaces(&self) -> (workspaces: &VecDeque<Workspace>)
        ensures
            workspaces@.map_values(|workspace: Workspace| workspace@) == self@.workspaces.elements,
    {
        self.workspaces.elements()
    }

    /// Direct access to the workspaces. The focused index stays as it is,
    /// whatever the caller does to them.
    pub fn workspaces_mut(&mut self) -> (workspaces: &mut VecDeque<Workspace>)
        ensures
            workspaces@.map_values(|workspace: Workspace| workspace@) == old(
                self,
            )@.workspaces.elements,
            final(self)@ == (MonitorView {
                workspaces: RingView {
                    elements: final(workspaces)@.map_values(|workspace: Workspace| workspace@),
                    focused: old(self)@.workspaces.focused,
                },
                ..old(self)@
            }),
    {
        self.workspaces.elements_mut()
    }

    /// The names that were given to workspace indices.
    pub fn workspace_names(&self) -> (names: &HashMap<usize, String>)
        ensures
            names@.map_values(|name: String| name@) == self@.workspace_names,
    {
        &self.workspace_names
    }

    /// The names that were given to workspace indices, to be changed in place.
    pub fn workspace_names_mut(&mut self) -> (names: &mut HashMap<usize, String>)
        ensures
            names@.map_values(|name: String| name@) == old(self)@.workspace_names,
            final(self)@ == (MonitorView {
                workspace_names: final(names)@.map_values(|name: String| name@),
                ..old(self)@
            }),
    {
        &mut self.workspace_names
    }

    pub fn focused_workspace_idx(&self) -> (idx: usize)
        ensures
            idx == self@.workspaces.focused,
    {
        self.workspaces.focused_idx()
    }

    pub fn focused_workspace(&self) -> (workspace: Option<&Workspace>)
        ensures
            match workspace {
                Some(workspace) => self@.focused_workspace() == Some(workspace@),
                None => self@.focused_workspace() is None,
            },
    {
        self.workspaces.focused()
    }

    /// The focused workspace, to be changed in place.
    pub fn focused_workspace_mut(&mut self) -> (workspace: Option<&mut Workspace>)
        ensures
            match workspace {
                Some(slot) => {
                    &&& old(self)@.focused_workspace() == Some(slot@)
                    &&& final(self)@ == old(self)@.with_workspace(
                        old(self)@.workspaces.focused,
                        final(slot)@,
                    )
                },
                None => old(self)@.focused_workspace() is None && final(self)@ == old(self)@,
            },
    {
        proof {
            let ring = self.workspaces@;
            let view = |workspace: Workspace| workspace@;
            assert forall|workspace: Workspace|
                #[trigger] ring.set(ring.focused, workspace).map(view) == ring.map(view).set(
                    ring.focused,
                    view(workspace),
                ) by {
                ring.lemma_map_set(view, ring.focused, workspace);
            }
        }
        self.workspaces.focused_mut()
    }

    /// The name recorded for workspace index `idx`, if any.
    pub fn workspace_name(&self, idx: usize) -> (name: Option<&String>)
        ensures
            match name {
                Some(name) => self@.workspace_names.contains_key(idx) && self@.workspace_names[idx]
                    == name@,
                None => !self@.workspace_names.contains_key(idx),
            },
    {
        self.workspace_names.get(&idx)
    }
}

impl Clone for Monitor {
    fn clone(&self) -> (copy: Monitor)
        ensures
            copy@ == self@,
    {
        let workspaces = self.workspaces.clone();
        let workspace_names = self.workspace_names.clone();
        let copy = Monitor {
            id: self.id,
            size: self.size,
            work_area_size: self.work_area_size,
            workspaces,
            workspace_names,
        };
        assert(copy@.workspaces.elements =~= self@.workspaces.elements);
        copy
    }
}

} // verus!

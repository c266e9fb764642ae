use komorebi::container::Container;
use komorebi::error::HierarchyError;
use komorebi::layout::DefaultLayout;
use komorebi::monitor;
use komorebi::monitor::WorkspaceAction;
use komorebi::rect::Rect;
use komorebi::window::WindowAction;
use komorebi::window::WindowHandle;
use komorebi::workspace::LayoutRequest;

fn rect(left: i32, top: i32, right: i32, bottom: i32) -> Rect {
    Rect { left, top, right, bottom }
}

fn window(hwnd: isize) -> WindowHandle {
    WindowHandle::new(hwnd, String::from("app.exe"), String::from("Class"), String::from("Title"))
}

fn container_of(hwnd: isize) -> Container {
    let mut container = Container::new();
    container.add_window(window(hwnd));
    container
}

#[test]
fn new_monitor_has_one_focused_default_workspace() {
    let monitor = monitor::new(7, rect(0, 0, 1920, 1080), rect(0, 0, 1920, 1040));
    assert_eq!(monitor.id(), 7);
    assert_eq!(*monitor.size(), rect(0, 0, 1920, 1080));
    assert_eq!(*monitor.work_area_size(), rect(0, 0, 1920, 1040));
    assert_eq!(monitor.workspaces().len(), 1);
    assert_eq!(monitor.focused_workspace_idx(), 0);
    assert_eq!(monitor.new_workspace_idx(), 1);
    let workspace = monitor.focused_workspace().unwrap();
    assert!(workspace.containers().is_empty());
    assert!(workspace.name().is_none());
}

#[test]
fn focus_workspace_grows_then_removal_of_first_shrinks() {
    let mut monitor = monitor::new(1, rect(0, 0, 800, 600), rect(0, 0, 800, 600));
    assert_eq!(monitor.focus_workspace(3), Ok(()));
    assert_eq!(monitor.workspaces().len(), 4);
    assert_eq!(monitor.focused_workspace_idx(), 3);
    let removed = monitor.remove_workspace_by_idx(0);
    assert!(removed.is_some());
    assert_eq!(monitor.workspaces().len(), 3);
    assert_eq!(monitor.focused_workspace_idx(), 2);
}

#[test]
fn move_container_to_far_workspace_and_follow() {
    let mut monitor = monitor::new(1, rect(0, 0, 800, 600), rect(0, 0, 800, 600));
    assert_eq!(monitor.add_container(container_of(42)), Ok(()));
    assert_eq!(monitor.move_container_to_workspace(5, true), Ok(()));
    assert_eq!(monitor.workspaces().len(), 6);
    assert_eq!(monitor.focused_workspace_idx(), 5);
    assert!(monitor.workspaces()[0].containers().is_empty());
    let target = &monitor.workspaces()[5];
    assert_eq!(target.containers().len(), 1);
    assert_eq!(target.focused_container_idx(), 0);
    assert_eq!(target.containers()[0].windows()[0], window(42));
    for idx in 1..5 {
        assert!(monitor.workspaces()[idx].containers().is_empty());
    }
}

#[test]
fn move_container_without_follow_keeps_focus() {
    let mut monitor = monitor::new(1, rect(0, 0, 800, 600), rect(0, 0, 800, 600));
    monitor.add_container(container_of(1)).unwrap();
    monitor.add_container(container_of(2)).unwrap();
    assert_eq!(monitor.move_container_to_workspace(1, false), Ok(()));
    assert_eq!(monitor.focused_workspace_idx(), 0);
    assert_eq!(monitor.workspaces().len(), 2);
    let source = &monitor.workspaces()[0];
    assert_eq!(source.containers().len(), 1);
    assert_eq!(source.containers()[0].windows()[0], window(1));
    assert_eq!(source.focused_container_idx(), 0);
    assert_eq!(monitor.workspaces()[1].containers()[0].windows()[0], window(2));
}

#[test]
fn maximized_window_blocks_the_move() {
    let mut monitor = monitor::new(1, rect(0, 0, 800, 600), rect(0, 0, 800, 600));
    monitor.ensure_workspace_count(2);
    let mut container = container_of(9);
    container.set_maximized_window(Some(window(10)));
    monitor.add_container(container).unwrap();
    assert_eq!(monitor.move_container_to_workspace(1, true), Err(HierarchyError::MaximizedWindow));
    assert_eq!(monitor.workspaces().len(), 2);
    assert_eq!(monitor.focused_workspace_idx(), 0);
    assert_eq!(monitor.workspaces()[0].containers().len(), 1);
    assert_eq!(monitor.workspaces()[0].containers()[0].windows()[0], window(9));
    assert_eq!(monitor.workspaces()[0].containers()[0].maximized_window(), Some(&window(10)));
    assert!(monitor.workspaces()[1].containers().is_empty());
    assert_eq!(monitor.move_container_to_workspace(7, false), Err(HierarchyError::MaximizedWindow));
    assert_eq!(monitor.workspaces().len(), 2);
}

#[test]
fn move_without_a_container_is_rejected() {
    let mut monitor = monitor::new(1, rect(0, 0, 800, 600), rect(0, 0, 800, 600));
    assert_eq!(monitor.move_container_to_workspace(2, true), Err(HierarchyError::NoContainer));
    assert_eq!(monitor.workspaces().len(), 1);
    assert_eq!(monitor.focused_workspace_idx(), 0);
}

#[test]
fn focused_index_is_the_index_that_was_focused() {
    let mut monitor = monitor::new(1, rect(0, 0, 800, 600), rect(0, 0, 800, 600));
    for idx in [0usize, 4, 2, 9, 0, 9] {
        assert_eq!(monitor.focus_workspace(idx), Ok(()));
        assert_eq!(monitor.focused_workspace_idx(), idx);
        assert!(monitor.workspaces().len() > idx);
        assert!(monitor.focused_workspace().is_some());
    }
    assert_eq!(monitor.workspaces().len(), 10);
}

#[test]
fn ensure_workspace_count_is_idempotent_and_never_shrinks() {
    let mut monitor = monitor::new(1, rect(0, 0, 800, 600), rect(0, 0, 800, 600));
    monitor.ensure_workspace_count(5);
    assert_eq!(monitor.workspaces().len(), 5);
    monitor.ensure_workspace_count(5);
    assert_eq!(monitor.workspaces().len(), 5);
    monitor.ensure_workspace_count(2);
    assert_eq!(monitor.workspaces().len(), 5);
    monitor.ensure_workspace_count(0);
    assert_eq!(monitor.workspaces().len(), 5);
    assert_eq!(monitor.focused_workspace_idx(), 0);
    assert_eq!(monitor.new_workspace_idx(), 5);
}

#[test]
fn name_survives_removal_of_the_workspace() {
    let mut monitor = monitor::new(1, rect(0, 0, 800, 600), rect(0, 0, 800, 600));
    monitor.ensure_workspace_count(3);
    assert_eq!(monitor.set_workspace_name(2, String::from("mail")), Ok(()));
    assert_eq!(monitor.workspaces()[2].name(), &Some(String::from("mail")));
    assert_eq!(monitor.workspace_name(2), Some(&String::from("mail")));
    let removed = monitor.remove_workspace_by_idx(2).unwrap();
    assert_eq!(removed.name(), &Some(String::from("mail")));
    assert_eq!(monitor.workspaces().len(), 2);
    assert_eq!(monitor.focus_workspace(2), Ok(()));
    assert_eq!(monitor.workspaces().len(), 3);
    assert_eq!(monitor.workspaces()[2].name(), &Some(String::from("mail")));
    assert!(monitor.workspaces()[1].name().is_none());
}

#[test]
fn name_is_given_to_the_workspace_that_moved_into_the_index() {
    let mut monitor = monitor::new(1, rect(0, 0, 800, 600), rect(0, 0, 800, 600));
    monitor.ensure_workspace_count(3);
    monitor.set_workspace_name(0, String::from("first")).unwrap();
    assert!(monitor.remove_workspace_by_idx(0).is_some());
    assert!(monitor.workspaces()[0].name().is_none());
    monitor.focus_workspace(0).unwrap();
    assert_eq!(monitor.workspaces()[0].name(), &Some(String::from("first")));
    assert_eq!(monitor.workspaces().len(), 2);
}

#[test]
fn naming_a_missing_workspace_is_rejected() {
    let mut monitor = monitor::new(1, rect(0, 0, 800, 600), rect(0, 0, 800, 600));
    assert_eq!(
        monitor.set_workspace_name(1, String::from("x")),
        Err(HierarchyError::NoWorkspace)
    );
    assert_eq!(monitor.workspace_name(1), None);
    assert_eq!(monitor.workspaces().len(), 1);
}

#[test]
fn removal_out_of_bounds_falls_back() {
    let mut monitor = monitor::new(1, rect(0, 0, 800, 600), rect(0, 0, 800, 600));
    // An index above the last one focuses the index below it, creating workspaces.
    assert!(monitor.remove_workspace_by_idx(4).is_none());
    assert_eq!(monitor.workspaces().len(), 4);
    assert_eq!(monitor.focused_workspace_idx(), 3);
    // The index just past the end focuses the last workspace.
    assert!(monitor.remove_workspace_by_idx(4).is_none());
    assert_eq!(monitor.workspaces().len(), 4);
    assert_eq!(monitor.focused_workspace_idx(), 3);
}

#[test]
fn removing_the_only_workspace_and_index_zero_again() {
    let mut monitor = monitor::new(1, rect(0, 0, 800, 600), rect(0, 0, 800, 600));
    monitor.add_container(container_of(5)).unwrap();
    let removed = monitor.remove_workspace_by_idx(0).unwrap();
    assert_eq!(removed.containers().len(), 1);
    assert_eq!(monitor.workspaces().len(), 0);
    assert_eq!(monitor.focused_workspace_idx(), 0);
    assert!(monitor.focused_workspace().is_none());
    assert_eq!(monitor.add_container(container_of(6)), Err(HierarchyError::NoWorkspace));
    assert_eq!(monitor.move_container_to_workspace(1, true), Err(HierarchyError::NoWorkspace));
    assert_eq!(
        monitor.update_focused_workspace(None, &rect(0, 0, 0, 0)),
        Err(HierarchyError::NoWorkspace)
    );
    assert!(monitor.load_focused_workspace(true).is_empty());
    // Index 0 is out of bounds now: a default workspace is appended.
    assert!(monitor.remove_workspace_by_idx(0).is_none());
    assert_eq!(monitor.workspaces().len(), 1);
    assert!(monitor.workspaces()[0].containers().is_empty());
    assert!(monitor.focused_workspace().is_some());
}

#[test]
fn removal_keeps_the_focused_index_in_bounds() {
    let mut monitor = monitor::new(1, rect(0, 0, 800, 600), rect(0, 0, 800, 600));
    monitor.focus_workspace(2).unwrap();
    assert!(monitor.remove_workspace_by_idx(1).is_some());
    assert_eq!(monitor.workspaces().len(), 2);
    assert_eq!(monitor.focused_workspace_idx(), 1);
    monitor.focus_workspace(0).unwrap();
    assert!(monitor.remove_workspace_by_idx(1).is_some());
    assert_eq!(monitor.focused_workspace_idx(), 0);
}

#[test]
fn added_container_is_focused_in_the_focused_workspace() {
    let mut monitor = monitor::new(1, rect(0, 0, 800, 600), rect(0, 0, 800, 600));
    monitor.focus_workspace(1).unwrap();
    monitor.add_container(container_of(1)).unwrap();
    monitor.add_container(container_of(2)).unwrap();
    let workspace = monitor.focused_workspace().unwrap();
    assert_eq!(workspace.containers().len(), 2);
    assert_eq!(workspace.focused_container_idx(), 1);
    assert_eq!(workspace.focused_container().unwrap().windows()[0], window(2));
    assert!(monitor.workspaces()[0].containers().is_empty());
}

#[test]
fn move_within_the_same_workspace_puts_the_container_last() {
    let mut monitor = monitor::new(1, rect(0, 0, 800, 600), rect(0, 0, 800, 600));
    monitor.add_container(container_of(1)).unwrap();
    monitor.add_container(container_of(2)).unwrap();
    monitor.add_container(container_of(3)).unwrap();
    monitor.focused_workspace_mut().unwrap().remove_focused_container().unwrap();
    // Containers 1 and 2 remain, container 2 focused.
    assert_eq!(monitor.move_container_to_workspace(0, true), Ok(()));
    let workspace = monitor.focused_workspace().unwrap();
    assert_eq!(workspace.containers().len(), 2);
    assert_eq!(workspace.containers()[0].windows()[0], window(1));
    assert_eq!(workspace.containers()[1].windows()[0], window(2));
    assert_eq!(workspace.focused_container_idx(), 1);
}

#[test]
fn moved_container_takes_the_recorded_name_along_with_focus() {
    let mut monitor = monitor::new(1, rect(0, 0, 800, 600), rect(0, 0, 800, 600));
    monitor.ensure_workspace_count(2);
    monitor.set_workspace_name(1, String::from("chat")).unwrap();
    monitor.remove_workspace_by_idx(1).unwrap();
    monitor.add_container(container_of(1)).unwrap();
    monitor.move_container_to_workspace(1, true).unwrap();
    assert_eq!(monitor.focused_workspace_idx(), 1);
    assert_eq!(monitor.workspaces()[1].name(), &Some(String::from("chat")));
    assert_eq!(monitor.workspaces()[1].containers().len(), 1);
}

#[test]
fn plan_restores_the_focused_workspace_and_hides_the_others() {
    let mut monitor = monitor::new(1, rect(0, 0, 800, 600), rect(0, 0, 800, 600));
    monitor.focus_workspace(2).unwrap();
    monitor.ensure_workspace_count(4);
    assert_eq!(
        monitor.visibility_plan(true),
        vec![
            WorkspaceAction::Hide,
            WorkspaceAction::Hide,
            WorkspaceAction::Restore { mouse_follows_focus: true },
            WorkspaceAction::Hide,
        ]
    );
    monitor.focus_workspace(0).unwrap();
    assert_eq!(
        monitor.visibility_plan(false)[0],
        WorkspaceAction::Restore { mouse_follows_focus: false }
    );
}

#[test]
fn loading_shows_the_focused_workspace_and_hides_the_others() {
    let mut monitor = monitor::new(1, rect(0, 0, 800, 600), rect(0, 0, 800, 600));
    assert!(monitor.load_focused_workspace(true).is_empty());
    monitor.add_container(container_of(1)).unwrap();
    monitor.add_container(container_of(2)).unwrap();
    monitor.focus_workspace(1).unwrap();
    monitor.add_container(container_of(3)).unwrap();
    monitor.focus_workspace(2).unwrap();
    monitor.add_container(container_of(4)).unwrap();
    monitor.focus_workspace(1).unwrap();
    assert_eq!(
        monitor.load_focused_workspace(true),
        vec![
            WindowAction::Hide { hwnd: 1 },
            WindowAction::Hide { hwnd: 2 },
            WindowAction::Show { hwnd: 3 },
            WindowAction::Focus { hwnd: 3, mouse_follows_focus: true },
            WindowAction::Hide { hwnd: 4 },
        ]
    );
    monitor.focus_workspace(0).unwrap();
    assert_eq!(
        monitor.load_focused_workspace(false),
        vec![
            WindowAction::Show { hwnd: 1 },
            WindowAction::Show { hwnd: 2 },
            WindowAction::Focus { hwnd: 2, mouse_follows_focus: false },
            WindowAction::Hide { hwnd: 3 },
            WindowAction::Hide { hwnd: 4 },
        ]
    );
}

#[test]
fn update_applies_the_offset_to_the_work_area() {
    let mut monitor = monitor::new(1, rect(0, 0, 1920, 1080), rect(0, 0, 1920, 1040));
    let borders = rect(7, 0, 14, 7);
    // No containers: nothing to lay out, but the work area is recorded.
    assert_eq!(monitor.update_focused_workspace(None, &borders), Ok(None));
    assert_eq!(*monitor.focused_workspace().unwrap().work_area(), rect(0, 0, 1920, 1040));
    monitor.add_container(container_of(1)).unwrap();
    monitor.add_container(container_of(2)).unwrap();
    let request = monitor.update_focused_workspace(Some(rect(10, 40, 20, 40)), &borders);
    assert_eq!(
        request,
        Ok(Some(LayoutRequest {
            container_count: 2,
            work_area: rect(10, 40, 1900, 1000),
            layout: DefaultLayout::BSP,
            invisible_borders: borders,
        }))
    );
    assert_eq!(*monitor.focused_workspace().unwrap().work_area(), rect(10, 40, 1900, 1000));
    // The same update again gives the same.
    assert_eq!(monitor.update_focused_workspace(Some(rect(10, 40, 20, 40)), &borders), request);
    assert_eq!(*monitor.focused_workspace().unwrap().work_area(), rect(10, 40, 1900, 1000));
    // With tiling off there is nothing to lay out.
    monitor.focused_workspace_mut().unwrap().set_tile(false);
    assert_eq!(monitor.update_focused_workspace(None, &borders), Ok(None));
}

#[test]
fn update_rejects_an_offset_that_overflows() {
    let mut monitor = monitor::new(1, rect(0, 0, 1920, 1080), rect(i32::MAX, 0, 1920, 1040));
    monitor.update_focused_workspace(None, &rect(0, 0, 0, 0)).unwrap();
    assert_eq!(
        monitor.update_focused_workspace(Some(rect(1, 0, 0, 0)), &rect(0, 0, 0, 0)),
        Err(HierarchyError::WorkAreaOutOfRange)
    );
    assert_eq!(*monitor.focused_workspace().unwrap().work_area(), rect(i32::MAX, 0, 1920, 1040));
    assert_eq!(
        monitor.update_focused_workspace(Some(rect(0, 0, 0, i32::MIN)), &rect(0, 0, 0, 0)),
        Err(HierarchyError::WorkAreaOutOfRange)
    );
}

#[test]
fn setters_change_one_field() {
    let mut monitor = monitor::new(1, rect(0, 0, 800, 600), rect(0, 0, 800, 560));
    monitor.set_id(9);
    monitor.set_size(rect(1, 2, 3, 4));
    monitor.set_work_area_size(rect(5, 6, 7, 8));
    assert_eq!(monitor.id(), 9);
    assert_eq!(*monitor.size(), rect(1, 2, 3, 4));
    assert_eq!(*monitor.work_area_size(), rect(5, 6, 7, 8));
    assert_eq!(monitor.workspaces().len(), 1);
}

#[test]
fn clone_of_a_monitor_holds_the_same() {
    let mut monitor = monitor::new(3, rect(0, 0, 800, 600), rect(0, 0, 800, 560));
    monitor.add_container(container_of(1)).unwrap();
    monitor.focus_workspace(1).unwrap();
    monitor.set_workspace_name(1, String::from("two")).unwrap();
    let copy = monitor.clone();
    assert_eq!(copy.id(), 3);
    assert_eq!(copy.workspaces().len(), 2);
    assert_eq!(copy.focused_workspace_idx(), 1);
    assert_eq!(copy.workspaces()[0].containers()[0].windows()[0], window(1));
    assert_eq!(copy.workspaces()[1].name(), &Some(String::from("two")));
    assert_eq!(copy.workspace_name(1), Some(&String::from("two")));
}

#[test]
fn error_messages() {
    assert_eq!(HierarchyError::NoWorkspace.message(), "there is no workspace");
    assert_eq!(HierarchyError::NoContainer.message(), "there is no container");
    assert_eq!(
        HierarchyError::MaximizedWindow.message(),
        "cannot move native maximized window to another monitor or workspace"
    );
    assert_eq!(HierarchyError::WorkAreaOutOfRange.message(), "work area offset is out of range");
}

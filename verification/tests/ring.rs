use komorebi::container::Container;
use komorebi::layout::DefaultLayout;
use komorebi::rect::Rect;
use komorebi::ring::Ring;
use komorebi::window::WindowAction;
use komorebi::window::WindowHandle;
use komorebi::workspace::Workspace;

fn window(hwnd: isize) -> WindowHandle {
    WindowHandle::new(hwnd, String::from("app.exe"), String::from("Class"), String::from("Title"))
}

fn container_of(hwnd: isize) -> Container {
    let mut container = Container::new();
    container.add_window(window(hwnd));
    container
}

fn ring_of(values: &[u32]) -> Ring<u32> {
    let mut ring = Ring::new();
    for value in values {
        ring.push_back(*value);
    }
    ring
}

fn contents(ring: &Ring<u32>) -> Vec<u32> {
    ring.elements().iter().copied().collect()
}

#[test]
fn new_ring_is_empty_and_focused_at_zero() {
    let ring: Ring<u32> = Ring::new();
    assert!(ring.is_empty());
    assert_eq!(ring.len(), 0);
    assert_eq!(ring.focused_idx(), 0);
    assert_eq!(ring.focused(), None);
    assert_eq!(ring.get(0), None);
    let ring: Ring<u32> = Ring::default();
    assert!(ring.is_empty());
}

#[test]
fn push_back_keeps_order_and_focus() {
    let ring = ring_of(&[10, 20, 30]);
    assert_eq!(contents(&ring), vec![10, 20, 30]);
    assert_eq!(ring.focused_idx(), 0);
    assert_eq!(ring.focused(), Some(&10));
    assert_eq!(ring.get(2), Some(&30));
    assert_eq!(ring.get(3), None);
}

#[test]
fn focus_is_set_unconditionally() {
    let mut ring = ring_of(&[10, 20]);
    ring.focus(1);
    assert_eq!(ring.focused(), Some(&20));
    ring.focus(7);
    assert_eq!(ring.focused_idx(), 7);
    assert_eq!(ring.focused(), None);
    assert!(ring.focused_mut().is_none());
    assert_eq!(contents(&ring), vec![10, 20]);
}

#[test]
fn remove_returns_the_element_and_clamps_focus() {
    let mut ring = ring_of(&[10, 20, 30]);
    ring.focus(2);
    assert_eq!(ring.remove(5), None);
    assert_eq!(ring.focused_idx(), 2);
    assert_eq!(ring.remove(0), Some(10));
    assert_eq!(contents(&ring), vec![20, 30]);
    assert_eq!(ring.focused_idx(), 1);
    assert_eq!(ring.remove(0), Some(20));
    assert_eq!(ring.focused_idx(), 0);
    assert_eq!(ring.remove(0), Some(30));
    assert_eq!(ring.focused_idx(), 0);
    assert!(ring.is_empty());
    assert_eq!(ring.remove(0), None);
}

#[test]
fn remove_before_the_focus_does_not_shift_it() {
    let mut ring = ring_of(&[10, 20, 30, 40]);
    ring.focus(1);
    assert_eq!(ring.remove(0), Some(10));
    assert_eq!(ring.focused_idx(), 1);
    assert_eq!(ring.focused(), Some(&30));
}

#[test]
fn resize_only_grows() {
    let mut ring = ring_of(&[1, 2]);
    ring.focus(1);
    ring.resize(4, 9);
    assert_eq!(contents(&ring), vec![1, 2, 9, 9]);
    assert_eq!(ring.focused_idx(), 1);
    ring.resize(4, 7);
    assert_eq!(contents(&ring), vec![1, 2, 9, 9]);
    ring.resize(1, 7);
    assert_eq!(contents(&ring), vec![1, 2, 9, 9]);
    ring.resize(0, 7);
    assert_eq!(ring.len(), 4);
}

#[test]
fn get_mut_and_focused_mut_write_in_place() {
    let mut ring = ring_of(&[1, 2, 3]);
    *ring.get_mut(0).unwrap() = 5;
    ring.focus(2);
    *ring.focused_mut().unwrap() = 7;
    assert!(ring.get_mut(3).is_none());
    assert_eq!(contents(&ring), vec![5, 2, 7]);
    ring.elements_mut().push_back(8);
    assert_eq!(contents(&ring), vec![5, 2, 7, 8]);
    assert_eq!(ring.focused_idx(), 2);
}

#[test]
fn clone_of_a_ring_keeps_elements_and_focus() {
    let mut ring = ring_of(&[1, 2, 3]);
    ring.focus(2);
    let copy = ring.clone();
    assert_eq!(contents(&copy), vec![1, 2, 3]);
    assert_eq!(copy.focused_idx(), 2);
}

#[test]
fn container_stacks_windows_and_focuses_the_last() {
    let mut container = Container::new();
    assert!(container.is_empty());
    assert_eq!(container.focused_window(), None);
    container.add_window(window(1));
    container.add_window(window(2));
    assert!(!container.is_empty());
    assert_eq!(container.windows().len(), 2);
    assert_eq!(container.focused_window_idx(), 1);
    assert_eq!(container.focused_window(), Some(&window(2)));
    assert!(container.contains_window(1));
    assert!(container.contains_window(2));
    assert!(!container.contains_window(3));
    assert_eq!(container.maximized_window(), None);
    container.set_maximized_window(Some(window(2)));
    assert_eq!(container.maximized_window(), Some(&window(2)));
    let copy = container.clone();
    assert_eq!(copy.windows().len(), 2);
    assert_eq!(copy.focused_window_idx(), 1);
    assert_eq!(copy.maximized_window(), Some(&window(2)));
    container.set_maximized_window(None);
    assert_eq!(container.maximized_window(), None);
    assert!(Container::default().is_empty());
}

#[test]
fn window_handle_clone_is_equal() {
    let handle = WindowHandle::new(
        77,
        String::from("editor.exe"),
        String::from("EditorClass"),
        String::from("notes.txt"),
    );
    assert_eq!(handle.hwnd, 77);
    assert_eq!(handle.exe, "editor.exe");
    assert_eq!(handle.class, "EditorClass");
    assert_eq!(handle.title, "notes.txt");
    assert_eq!(handle.clone(), handle);
}

#[test]
fn default_workspace() {
    let workspace = Workspace::default();
    assert!(workspace.name().is_none());
    assert!(workspace.containers().is_empty());
    assert!(workspace.floating_windows().is_empty());
    assert_eq!(workspace.focused_container_idx(), 0);
    assert!(workspace.focused_container().is_none());
    assert_eq!(workspace.maximized_window(), None);
    assert_eq!(workspace.layout(), DefaultLayout::BSP);
    assert!(workspace.custom_layout().is_none());
    assert_eq!(*workspace.work_area(), Rect { left: 0, top: 0, right: 0, bottom: 0 });
    assert_eq!(workspace.workspace_padding(), 10);
    assert_eq!(workspace.container_padding(), 10);
    assert!(workspace.tile());
}

#[test]
fn workspace_focus_after_adding_and_removing_containers() {
    let mut workspace = Workspace::new();
    assert!(workspace.remove_focused_container().is_none());
    workspace.add_container(container_of(1));
    workspace.add_container(container_of(2));
    workspace.add_container(container_of(3));
    assert_eq!(workspace.focused_container_idx(), 2);
    let removed = workspace.remove_focused_container().unwrap();
    assert_eq!(removed.windows()[0], window(3));
    assert_eq!(workspace.focused_container_idx(), 1);
    let removed = workspace.remove_focused_container().unwrap();
    assert_eq!(removed.windows()[0], window(2));
    assert_eq!(workspace.focused_container_idx(), 0);
    let removed = workspace.remove_focused_container().unwrap();
    assert_eq!(removed.windows()[0], window(1));
    assert_eq!(workspace.focused_container_idx(), 0);
    assert!(workspace.containers().is_empty());
    assert!(workspace.remove_focused_container().is_none());
}

#[test]
fn workspace_maximized_window_is_that_of_the_focused_container() {
    let mut workspace = Workspace::new();
    let mut first = container_of(1);
    first.set_maximized_window(Some(window(1)));
    workspace.add_container(first);
    assert_eq!(workspace.maximized_window(), Some(&window(1)));
    workspace.add_container(container_of(2));
    assert_eq!(workspace.maximized_window(), None);
    workspace.remove_focused_container();
    assert_eq!(workspace.maximized_window(), Some(&window(1)));
}

#[test]
fn workspace_settings() {
    let mut workspace = Workspace::new();
    workspace.set_name(Some(String::from("code")));
    workspace.set_layout(DefaultLayout::Columns);
    workspace.set_custom_layout(Some(String::from("wide.json")));
    workspace.set_workspace_padding(0);
    workspace.set_container_padding(4);
    workspace.set_tile(false);
    workspace.add_floating_window(window(8));
    assert_eq!(workspace.name(), &Some(String::from("code")));
    assert_eq!(workspace.layout(), DefaultLayout::Columns);
    assert_eq!(workspace.custom_layout(), &Some(String::from("wide.json")));
    assert_eq!(workspace.workspace_padding(), 0);
    assert_eq!(workspace.container_padding(), 4);
    assert!(!workspace.tile());
    assert_eq!(workspace.floating_windows(), &vec![window(8)]);
    let copy = workspace.clone();
    assert_eq!(copy.name(), &Some(String::from("code")));
    assert_eq!(copy.floating_windows().len(), 1);
    assert_eq!(copy.custom_layout(), &Some(String::from("wide.json")));
    workspace.set_name(None);
    assert!(workspace.name().is_none());
}

#[test]
fn workspace_update_is_idempotent() {
    let mut workspace = Workspace::new();
    workspace.add_container(container_of(1));
    let area = Rect { left: 0, top: 0, right: 100, bottom: 50 };
    let offset = Some(Rect { left: 1, top: 2, right: 3, bottom: 4 });
    let borders = Rect { left: 0, top: 0, right: 0, bottom: 0 };
    let first = workspace.update(&area, offset, &borders);
    let after_first = *workspace.work_area();
    let second = workspace.update(&area, offset, &borders);
    assert_eq!(first, second);
    assert_eq!(after_first, *workspace.work_area());
    assert_eq!(after_first, Rect { left: 1, top: 2, right: 97, bottom: 46 });
}

#[test]
fn rect_inset() {
    let area = Rect { left: 0, top: 0, right: 100, bottom: 50 };
    assert_eq!(
        area.checked_inset(&Rect { left: 5, top: 6, right: 7, bottom: 8 }),
        Some(Rect { left: 5, top: 6, right: 93, bottom: 42 })
    );
    assert_eq!(area.checked_inset(&Rect { left: i32::MAX, top: 0, right: 0, bottom: 0 }), Some(
        Rect { left: i32::MAX, top: 0, right: 100, bottom: 50 }
    ));
    assert_eq!(area.checked_inset(&Rect { left: 0, top: 0, right: i32::MIN, bottom: 0 }), None);
    assert_eq!(Rect::default(), Rect { left: 0, top: 0, right: 0, bottom: 0 });
}

#[test]
fn container_plans() {
    let mut container = Container::new();
    let mut plan = vec![WindowAction::Show { hwnd: 0 }];
    container.plan_hiding(&mut plan);
    container.plan_restoring(&mut plan);
    assert_eq!(plan, vec![WindowAction::Show { hwnd: 0 }]);
    container.add_window(window(1));
    container.add_window(window(2));
    container.set_maximized_window(Some(window(3)));
    container.plan_hiding(&mut plan);
    assert_eq!(
        plan,
        vec![
            WindowAction::Show { hwnd: 0 },
            WindowAction::Hide { hwnd: 1 },
            WindowAction::Hide { hwnd: 2 },
            WindowAction::Hide { hwnd: 3 },
        ]
    );
    let mut plan = Vec::new();
    container.plan_restoring(&mut plan);
    assert_eq!(plan, vec![WindowAction::Show { hwnd: 2 }, WindowAction::Show { hwnd: 3 }]);
}

#[test]
fn workspace_plans() {
    let mut workspace = Workspace::new();
    assert!(workspace.hide_plan().is_empty());
    assert!(workspace.restore_plan(true).is_empty());
    let mut first = container_of(1);
    first.add_window(window(2));
    workspace.add_container(first);
    workspace.add_container(container_of(3));
    workspace.add_floating_window(window(9));
    assert_eq!(
        workspace.hide_plan(),
        vec![
            WindowAction::Hide { hwnd: 1 },
            WindowAction::Hide { hwnd: 2 },
            WindowAction::Hide { hwnd: 3 },
            WindowAction::Hide { hwnd: 9 },
        ]
    );
    assert_eq!(
        workspace.restore_plan(true),
        vec![
            WindowAction::Show { hwnd: 2 },
            WindowAction::Show { hwnd: 3 },
            WindowAction::Show { hwnd: 9 },
            WindowAction::Focus { hwnd: 3, mouse_follows_focus: true },
        ]
    );
    workspace.remove_focused_container();
    assert_eq!(
        workspace.restore_plan(false),
        vec![
            WindowAction::Show { hwnd: 2 },
            WindowAction::Show { hwnd: 9 },
            WindowAction::Focus { hwnd: 2, mouse_follows_focus: false },
        ]
    );
}

//! Reasons for which a command on the hierarchy is rejected.

use vstd::prelude::*;

verus! {

/// Why an operation on a monitor or a workspace was rejected.
#[derive(Clone, Copy, Debug, PartialEq, Eq, Structural)]
pub enum HierarchyError {
    /// The focused index of the monitor addresses no workspace.
    NoWorkspace,
    /// The focused index of the workspace addresses no container.
    NoContainer,
    /// The focused container holds a natively maximized window, which may not
    /// cross workspaces or monitors.
    MaximizedWindow,
    /// Applying the offset to the work area leaves the range of `i32`.
    WorkAreaOutOfRange,
}

impl HierarchyError {
    /// A short description for logs and replies.
    pub fn message(&self) -> (text: &'static str)
        ensures
            text@ == match *self {
                HierarchyError::NoWorkspace => "there is no workspace"@,
                HierarchyError::NoContainer => "there is no container"@,
                HierarchyError::MaximizedWindow =>
                    "cannot move native maximized window to another monitor or workspace"@,
                HierarchyError::WorkAreaOutOfRange => "work area offset is out of range"@,
            },
    {
        match self {
            HierarchyError::NoWorkspace => "there is no workspace",
            HierarchyError::NoContainer => "there is no container",
            HierarchyError::MaximizedWindow =>
                "cannot move native maximized window to another monitor or workspace",
            HierarchyError::WorkAreaOutOfRange => "work area offset is out of range",
        }
    }
}

} // verus!

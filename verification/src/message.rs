//! The commands that drive the window manager, and their form on the wire.
//!
//! A command travels as a JSON object: the member `type` names the command,
//! and the member `content`, which commands without arguments do not have,
//! holds its arguments: the one argument itself, or the list of two or more.

use crate::direction::{Axis, CycleDirection, OperationDirection};
use crate::json::{json_of_text, text_of_json, Json, JsonView};
use crate::layout::DefaultLayout;
use crate::rect::Rect;
use crate::settings::{
    ApplicationIdentifier, FocusFollowsMouseImplementation, HidingBehaviour, StateQuery,
};
use crate::sizing::Sizing;
use crate::text::same_text;
use std::str::FromStr;
use vstd::prelude::*;
use vstd::utf8::encode_utf8;

verus! {

/// Why a command could not be written or read.
#[derive(Clone, Copy, Debug, PartialEq, Eq, Structural)]
pub enum WireError {
    /// The text is not one JSON document.
    NotJson,
    /// The document is not the wire form of any command.
    NotACommand,
    /// The text of the document could not be written.
    NotWritten,
}

/// A command to the window manager.
///
/// Paths are held as text.
#[derive(Debug, PartialEq, Eq)]
pub enum SocketMessage {
    // Window and container commands
    FocusWindow(OperationDirection),
    MoveWindow(OperationDirection),
    CycleFocusWindow(CycleDirection),
    CycleMoveWindow(CycleDirection),
    StackWindow(OperationDirection),
    ResizeWindowEdge(OperationDirection, Sizing),
    ResizeWindowAxis(Axis, Sizing),
    UnstackWindow,
    CycleStack(CycleDirection),
    MoveContainerToMonitorNumber(usize),
    MoveContainerToWorkspaceNumber(usize),
    SendContainerToMonitorNumber(usize),
    SendContainerToWorkspaceNumber(usize),
    MoveWorkspaceToMonitorNumber(usize),
    Promote,
    ToggleFloat,
    ToggleMonocle,
    ToggleMaximize,
    ToggleWindowContainerBehaviour,
    WindowHidingBehaviour(HidingBehaviour),
    // Commands on the current workspace
    ManageFocusedWindow,
    UnmanageFocusedWindow,
    AdjustContainerPadding(Sizing, i32),
    AdjustWorkspacePadding(Sizing, i32),
    ChangeLayout(DefaultLayout),
    ChangeLayoutCustom(String),
    FlipLayout(Axis),
    // Monitor and workspace commands
    EnsureWorkspaces(usize, usize),
    NewWorkspace,
    ToggleTiling,
    Stop,
    TogglePause,
    Retile,
    QuickSave,
    QuickLoad,
    Save(String),
    Load(String),
    CycleFocusMonitor(CycleDirection),
    CycleFocusWorkspace(CycleDirection),
    FocusMonitorNumber(usize),
    FocusWorkspaceNumber(usize),
    FocusMonitorWorkspaceNumber(usize, usize),
    ContainerPadding(usize, usize, i32),
    WorkspacePadding(usize, usize, i32),
    WorkspaceTiling(usize, usize, bool),
    WorkspaceName(usize, usize, String),
    WorkspaceLayout(usize, usize, DefaultLayout),
    WorkspaceLayoutCustom(usize, usize, String),
    // Configuration
    ReloadConfiguration,
    WatchConfiguration(bool),
    InvisibleBorders(Rect),
    WorkAreaOffset(Rect),
    ResizeDelta(i32),
    WorkspaceRule(ApplicationIdentifier, String, usize, usize),
    FloatRule(ApplicationIdentifier, String),
    ManageRule(ApplicationIdentifier, String),
    IdentifyTrayApplication(ApplicationIdentifier, String),
    IdentifyBorderOverflow(ApplicationIdentifier, String),
    State,
    Query(StateQuery),
    FocusFollowsMouse(FocusFollowsMouseImplementation, bool),
    ToggleFocusFollowsMouse(FocusFollowsMouseImplementation),
    MouseFollowsFocus(bool),
    ToggleMouseFollowsFocus,
    AddSubscriber(String),
    RemoveSubscriber(String),
}

/// Which command a [`SocketMessage`] is, without its arguments.
#[derive(Clone, Copy, Debug, PartialEq, Eq, Structural)]
pub enum CommandKind {
    FocusWindow,
    MoveWindow,
    CycleFocusWindow,
    CycleMoveWindow,
    StackWindow,
    ResizeWindowEdge,
    ResizeWindowAxis,
    UnstackWindow,
    CycleStack,
    MoveContainerToMonitorNumber,
    MoveContainerToWorkspaceNumber,
    SendContainerToMonitorNumber,
    SendContainerToWorkspaceNumber,
    MoveWorkspaceToMonitorNumber,
    Promote,
    ToggleFloat,
    ToggleMonocle,
    ToggleMaximize,
    ToggleWindowContainerBehaviour,
    WindowHidingBehaviour,
    ManageFocusedWindow,
    UnmanageFocusedWindow,
    AdjustContainerPadding,
    AdjustWorkspacePadding,
    ChangeLayout,
    ChangeLayoutCustom,
    FlipLayout,
    EnsureWorkspaces,
    NewWorkspace,
    ToggleTiling,
    Stop,
    TogglePause,
    Retile,
    QuickSave,
    QuickLoad,
    Save,
    Load,
    CycleFocusMonitor,
    CycleFocusWorkspace,
    FocusMonitorNumber,
    FocusWorkspaceNumber,
    FocusMonitorWorkspaceNumber,
    ContainerPadding,
    WorkspacePadding,
    WorkspaceTiling,
    WorkspaceName,
    WorkspaceLayout,
    WorkspaceLayoutCustom,
    ReloadConfiguration,
    WatchConfiguration,
    InvisibleBorders,
    WorkAreaOffset,
    ResizeDelta,
    WorkspaceRule,
    FloatRule,
    ManageRule,
    IdentifyTrayApplication,
    IdentifyBorderOverflow,
    State,
    Query,
    FocusFollowsMouse,
    ToggleFocusFollowsMouse,
    MouseFollowsFocus,
    ToggleMouseFollowsFocus,
    AddSubscriber,
    RemoveSubscriber,
}

impl CommandKind {
    /// The name under which the command travels.
    pub open spec fn wire_name(self) -> Seq<char> {
        match self {
            CommandKind::FocusWindow => "FocusWindow"@,
            CommandKind::MoveWindow => "MoveWindow"@,
            CommandKind::CycleFocusWindow => "CycleFocusWindow"@,
            CommandKind::CycleMoveWindow => "CycleMoveWindow"@,
            CommandKind::StackWindow => "StackWindow"@,
            CommandKind::ResizeWindowEdge => "ResizeWindowEdge"@,
            CommandKind::ResizeWindowAxis => "ResizeWindowAxis"@,
            CommandKind::UnstackWindow => "UnstackWindow"@,
            CommandKind::CycleStack => "CycleStack"@,
            CommandKind::MoveContainerToMonitorNumber => "MoveContainerToMonitorNumber"@,
            CommandKind::MoveContainerToWorkspaceNumber => "MoveContainerToWorkspaceNumber"@,
            CommandKind::SendContainerToMonitorNumber => "SendContainerToMonitorNumber"@,
            CommandKind::SendContainerToWorkspaceNumber => "SendContainerToWorkspaceNumber"@,
            CommandKind::MoveWorkspaceToMonitorNumber => "MoveWorkspaceToMonitorNumber"@,
            CommandKind::Promote => "Promote"@,
            CommandKind::ToggleFloat => "ToggleFloat"@,
            CommandKind::ToggleMonocle => "ToggleMonocle"@,
            CommandKind::ToggleMaximize => "ToggleMaximize"@,
            CommandKind::ToggleWindowContainerBehaviour => "ToggleWindowContainerBehaviour"@,
            CommandKind::WindowHidingBehaviour => "WindowHidingBehaviour"@,
            CommandKind::ManageFocusedWindow => "ManageFocusedWindow"@,
            CommandKind::UnmanageFocusedWindow => "UnmanageFocusedWindow"@,
            CommandKind::AdjustContainerPadding => "AdjustContainerPadding"@,
            CommandKind::AdjustWorkspacePadding => "AdjustWorkspacePadding"@,
            CommandKind::ChangeLayout => "ChangeLayout"@,
            CommandKind::ChangeLayoutCustom => "ChangeLayoutCustom"@,
            CommandKind::FlipLayout => "FlipLayout"@,
            CommandKind::EnsureWorkspaces => "EnsureWorkspaces"@,
            CommandKind::NewWorkspace => "NewWorkspace"@,
            CommandKind::ToggleTiling => "ToggleTiling"@,
            CommandKind::Stop => "Stop"@,
            CommandKind::TogglePause => "TogglePause"@,
            CommandKind::Retile => "Retile"@,
            CommandKind::QuickSave => "QuickSave"@,
            CommandKind::QuickLoad => "QuickLoad"@,
            CommandKind::Save => "Save"@,
            CommandKind::Load => "Load"@,
            CommandKind::CycleFocusMonitor => "CycleFocusMonitor"@,
            CommandKind::CycleFocusWorkspace => "CycleFocusWorkspace"@,
            CommandKind::FocusMonitorNumber => "FocusMonitorNumber"@,
            CommandKind::FocusWorkspaceNumber => "FocusWorkspaceNumber"@,
            CommandKind::FocusMonitorWorkspaceNumber => "FocusMonitorWorkspaceNumber"@,
            CommandKind::ContainerPadding => "ContainerPadding"@,
            CommandKind::WorkspacePadding => "WorkspacePadding"@,
            CommandKind::WorkspaceTiling => "WorkspaceTiling"@,
            CommandKind::WorkspaceName => "WorkspaceName"@,
            CommandKind::WorkspaceLayout => "WorkspaceLayout"@,
            CommandKind::WorkspaceLayoutCustom => "WorkspaceLayoutCustom"@,
            CommandKind::ReloadConfiguration => "ReloadConfiguration"@,
            CommandKind::WatchConfiguration => "WatchConfiguration"@,
            CommandKind::InvisibleBorders => "InvisibleBorders"@,
            CommandKind::WorkAreaOffset => "WorkAreaOffset"@,
            CommandKind::ResizeDelta => "ResizeDelta"@,
            CommandKind::WorkspaceRule => "WorkspaceRule"@,
            CommandKind::FloatRule => "FloatRule"@,
            CommandKind::ManageRule => "ManageRule"@,
            CommandKind::IdentifyTrayApplication => "IdentifyTrayApplication"@,
            CommandKind::IdentifyBorderOverflow => "IdentifyBorderOverflow"@,
            CommandKind::State => "State"@,
            CommandKind::Query => "Query"@,
            CommandKind::FocusFollowsMouse => "FocusFollowsMouse"@,
            CommandKind::ToggleFocusFollowsMouse => "ToggleFocusFollowsMouse"@,
            CommandKind::MouseFollowsFocus => "MouseFollowsFocus"@,
            CommandKind::ToggleMouseFollowsFocus => "ToggleMouseFollowsFocus"@,
            CommandKind::AddSubscriber => "AddSubscriber"@,
            CommandKind::RemoveSubscriber => "RemoveSubscriber"@,
        }
    }

    pub fn name(&self) -> (name: &'static str)
        ensures
            name@ == self.wire_name(),
    {
        match self {
            CommandKind::FocusWindow => "FocusWindow",
            CommandKind::MoveWindow => "MoveWindow",
            CommandKind::CycleFocusWindow => "CycleFocusWindow",
            CommandKind::CycleMoveWindow => "CycleMoveWindow",
            CommandKind::StackWindow => "StackWindow",
            CommandKind::ResizeWindowEdge => "ResizeWindowEdge",
            CommandKind::ResizeWindowAxis => "ResizeWindowAxis",
            CommandKind::UnstackWindow => "UnstackWindow",
            CommandKind::CycleStack => "CycleStack",
            CommandKind::MoveContainerToMonitorNumber => "MoveContainerToMonitorNumber",
            CommandKind::MoveContainerToWorkspaceNumber => "MoveContainerToWorkspaceNumber",
            CommandKind::SendContainerToMonitorNumber => "SendContainerToMonitorNumber",
            CommandKind::SendContainerToWorkspaceNumber => "SendContainerToWorkspaceNumber",
            CommandKind::MoveWorkspaceToMonitorNumber => "MoveWorkspaceToMonitorNumber",
            CommandKind::Promote => "Promote",
            CommandKind::ToggleFloat => "ToggleFloat",
            CommandKind::ToggleMonocle => "ToggleMonocle",
            CommandKind::ToggleMaximize => "ToggleMaximize",
            CommandKind::ToggleWindowContainerBehaviour => "ToggleWindowContainerBehaviour",
            CommandKind::WindowHidingBehaviour => "WindowHidingBehaviour",
            CommandKind::ManageFocusedWindow => "ManageFocusedWindow",
            CommandKind::UnmanageFocusedWindow => "UnmanageFocusedWindow",
            CommandKind::AdjustContainerPadding => "AdjustContainerPadding",
            CommandKind::AdjustWorkspacePadding => "AdjustWorkspacePadding",
            CommandKind::ChangeLayout => "ChangeLayout",
            CommandKind::ChangeLayoutCustom => "ChangeLayoutCustom",
            CommandKind::FlipLayout => "FlipLayout",
            CommandKind::EnsureWorkspaces => "EnsureWorkspaces",
            CommandKind::NewWorkspace => "NewWorkspace",
            CommandKind::ToggleTiling => "ToggleTiling",
            CommandKind::Stop => "Stop",
            CommandKind::TogglePause => "TogglePause",
            CommandKind::Retile => "Retile",
            CommandKind::QuickSave => "QuickSave",
            CommandKind::QuickLoad => "QuickLoad",
            CommandKind::Save => "Save",
            CommandKind::Load => "Load",
            CommandKind::CycleFocusMonitor => "CycleFocusMonitor",
            CommandKind::CycleFocusWorkspace => "CycleFocusWorkspace",
            CommandKind::FocusMonitorNumber => "FocusMonitorNumber",
            CommandKind::FocusWorkspaceNumber => "FocusWorkspaceNumber",
            CommandKind::FocusMonitorWorkspaceNumber => "FocusMonitorWorkspaceNumber",
            CommandKind::ContainerPadding => "ContainerPadding",
            CommandKind::WorkspacePadding => "WorkspacePadding",
            CommandKind::WorkspaceTiling => "WorkspaceTiling",
            CommandKind::WorkspaceName => "WorkspaceName",
            CommandKind::WorkspaceLayout => "WorkspaceLayout",
            CommandKind::WorkspaceLayoutCustom => "WorkspaceLayoutCustom",
            CommandKind::ReloadConfiguration => "ReloadConfiguration",
            CommandKind::WatchConfiguration => "WatchConfiguration",
            CommandKind::InvisibleBorders => "InvisibleBorders",
            CommandKind::WorkAreaOffset => "WorkAreaOffset",
            CommandKind::ResizeDelta => "ResizeDelta",
            CommandKind::WorkspaceRule => "WorkspaceRule",
            CommandKind::FloatRule => "FloatRule",
            CommandKind::ManageRule => "ManageRule",
            CommandKind::IdentifyTrayApplication => "IdentifyTrayApplication",
            CommandKind::IdentifyBorderOverflow => "IdentifyBorderOverflow",
            CommandKind::State => "State",
            CommandKind::Query => "Query",
            CommandKind::FocusFollowsMouse => "FocusFollowsMouse",
            CommandKind::ToggleFocusFollowsMouse => "ToggleFocusFollowsMouse",
            CommandKind::MouseFollowsFocus => "MouseFollowsFocus",
            CommandKind::ToggleMouseFollowsFocus => "ToggleMouseFollowsFocus",
            CommandKind::AddSubscriber => "AddSubscriber",
            CommandKind::RemoveSubscriber => "RemoveSubscriber",
        }
    }

    /// The command of that name, if there is one.
    pub fn from_name(name: &str) -> (kind: Option<CommandKind>)
        ensures
            match kind {
                Some(kind) => kind.wire_name() == name@,
                None => forall|other: CommandKind| #[trigger] other.wire_name() != name@,
            },
    {
        if same_text(name, "FocusWindow") {
            Some(CommandKind::FocusWindow)
        } else if same_text(name, "MoveWindow") {
            Some(CommandKind::MoveWindow)
        } else if same_text(name, "CycleFocusWindow") {
            Some(CommandKind::CycleFocusWindow)
        } else if same_text(name, "CycleMoveWindow") {
            Some(CommandKind::CycleMoveWindow)
        } else if same_text(name, "StackWindow") {
            Some(CommandKind::StackWindow)
        } else if same_text(name, "ResizeWindowEdge") {
            Some(CommandKind::ResizeWindowEdge)
        } else if same_text(name, "ResizeWindowAxis") {
            Some(CommandKind::ResizeWindowAxis)
        } else if same_text(name, "UnstackWindow") {
            Some(CommandKind::UnstackWindow)
        } else if same_text(name, "CycleStack") {
            Some(CommandKind::CycleStack)
        } else if same_text(name, "MoveContainerToMonitorNumber") {
            Some(CommandKind::MoveContainerToMonitorNumber)
        } else if same_text(name, "MoveContainerToWorkspaceNumber") {
            Some(CommandKind::MoveContainerToWorkspaceNumber)
        } else if same_text(name, "SendContainerToMonitorNumber") {
            Some(CommandKind::SendContainerToMonitorNumber)
        } else if same_text(name, "SendContainerToWorkspaceNumber") {
            Some(CommandKind::SendContainerToWorkspaceNumber)
        } else if same_text(name, "MoveWorkspaceToMonitorNumber") {
            Some(CommandKind::MoveWorkspaceToMonitorNumber)
        } else if same_text(name, "Promote") {
            Some(CommandKind::Promote)
        } else if same_text(name, "ToggleFloat") {
            Some(CommandKind::ToggleFloat)
        } else if same_text(name, "ToggleMonocle") {
            Some(CommandKind::ToggleMonocle)
        } else if same_text(name, "ToggleMaximize") {
            Some(CommandKind::ToggleMaximize)
        } else if same_text(name, "ToggleWindowContainerBehaviour") {
            Some(CommandKind::ToggleWindowContainerBehaviour)
        } else if same_text(name, "WindowHidingBehaviour") {
            Some(CommandKind::WindowHidingBehaviour)
        } else if same_text(name, "ManageFocusedWindow") {
            Some(CommandKind::ManageFocusedWindow)
        } else if same_text(name, "UnmanageFocusedWindow") {
            Some(CommandKind::UnmanageFocusedWindow)
        } else if same_text(name, "AdjustContainerPadding") {
            Some(CommandKind::AdjustContainerPadding)
        } else if same_text(name, "AdjustWorkspacePadding") {
            Some(CommandKind::AdjustWorkspacePadding)
        } else if same_text(name, "ChangeLayout") {
            Some(CommandKind::ChangeLayout)
        } else if same_text(name, "ChangeLayoutCustom") {
            Some(CommandKind::ChangeLayoutCustom)
        } else if same_text(name, "FlipLayout") {
            Some(CommandKind::FlipLayout)
        } else if same_text(name, "EnsureWorkspaces") {
            Some(CommandKind::EnsureWorkspaces)
        } else if same_text(name, "NewWorkspace") {
            Some(CommandKind::NewWorkspace)
        } else if same_text(name, "ToggleTiling") {
            Some(CommandKind::ToggleTiling)
        } else if same_text(name, "Stop") {
            Some(CommandKind::Stop)
        } else if same_text(name, "TogglePause") {
            Some(CommandKind::TogglePause)
        } else if same_text(name, "Retile") {
            Some(CommandKind::Retile)
        } else if same_text(name, "QuickSave") {
            Some(CommandKind::QuickSave)
        } else if same_text(name, "QuickLoad") {
            Some(CommandKind::QuickLoad)
        } else if same_text(name, "Save") {
            Some(CommandKind::Save)
        } else if same_text(name, "Load") {
            Some(CommandKind::Load)
        } else if same_text(name, "CycleFocusMonitor") {
            Some(CommandKind::CycleFocusMonitor)
        } else if same_text(name, "CycleFocusWorkspace") {
            Some(CommandKind::CycleFocusWorkspace)
        } else if same_text(name, "FocusMonitorNumber") {
            Some(CommandKind::FocusMonitorNumber)
        } else if same_text(name, "FocusWorkspaceNumber") {
            Some(CommandKind::FocusWorkspaceNumber)
        } else if same_text(name, "FocusMonitorWorkspaceNumber") {
            Some(CommandKind::FocusMonitorWorkspaceNumber)
        } else if same_text(name, "ContainerPadding") {
            Some(CommandKind::ContainerPadding)
        } else if same_text(name, "WorkspacePadding") {
            Some(CommandKind::WorkspacePadding)
        } else if same_text(name, "WorkspaceTiling") {
            Some(CommandKind::WorkspaceTiling)
        } else if same_text(name, "WorkspaceName") {
            Some(CommandKind::WorkspaceName)
        } else if same_text(name, "WorkspaceLayout") {
            Some(CommandKind::WorkspaceLayout)
        } else if same_text(name, "WorkspaceLayoutCustom") {
            Some(CommandKind::WorkspaceLayoutCustom)
        } else if same_text(name, "ReloadConfiguration") {
            Some(CommandKind::ReloadConfiguration)
        } else if same_text(name, "WatchConfiguration") {
            Some(CommandKind::WatchConfiguration)
        } else if same_text(name, "InvisibleBorders") {
            Some(CommandKind::InvisibleBorders)
        } else if same_text(name, "WorkAreaOffset") {
            Some(CommandKind::WorkAreaOffset)
        } else if same_text(name, "ResizeDelta") {
            Some(CommandKind::ResizeDelta)
        } else if same_text(name, "WorkspaceRule") {
            Some(CommandKind::WorkspaceRule)
        } else if same_text(name, "FloatRule") {
            Some(CommandKind::FloatRule)
        } else if same_text(name, "ManageRule") {
            Some(CommandKind::ManageRule)
        } else if same_text(name, "IdentifyTrayApplication") {
            Some(CommandKind::IdentifyTrayApplication)
        } else if same_text(name, "IdentifyBorderOverflow") {
            Some(CommandKind::IdentifyBorderOverflow)
        } else if same_text(name, "State") {
            Some(CommandKind::State)
        } else if same_text(name, "Query") {
            Some(CommandKind::Query)
        } else if same_text(name, "FocusFollowsMouse") {
            Some(CommandKind::FocusFollowsMouse)
        } else if same_text(name, "ToggleFocusFollowsMouse") {
            Some(CommandKind::ToggleFocusFollowsMouse)
        } else if same_text(name, "MouseFollowsFocus") {
            Some(CommandKind::MouseFollowsFocus)
        } else if same_text(name, "ToggleMouseFollowsFocus") {
            Some(CommandKind::ToggleMouseFollowsFocus)
        } else if same_text(name, "AddSubscriber") {
            Some(CommandKind::AddSubscriber)
        } else if same_text(name, "RemoveSubscriber") {
            Some(CommandKind::RemoveSubscriber)
        } else {
            None
        }
    }

    /// No two commands travel under one name.
    pub proof fn lemma_names_differ(self, other: CommandKind)
        requires
            self.wire_name() == other.wire_name(),
        ensures
            self == other,
    {
        reveal_strlit("FocusWindow");
        reveal_strlit("MoveWindow");
        reveal_strlit("CycleFocusWindow");
        reveal_strlit("CycleMoveWindow");
        reveal_strlit("StackWindow");
        reveal_strlit("ResizeWindowEdge");
        reveal_strlit("ResizeWindowAxis");
        reveal_strlit("UnstackWindow");
        reveal_strlit("CycleStack");
        reveal_strlit("MoveContainerToMonitorNumber");
        reveal_strlit("MoveContainerToWorkspaceNumber");
        reveal_strlit("SendContainerToMonitorNumber");
        reveal_strlit("SendContainerToWorkspaceNumber");
        reveal_strlit("MoveWorkspaceToMonitorNumber");
        reveal_strlit("Promote");
        reveal_strlit("ToggleFloat");
        reveal_strlit("ToggleMonocle");
        reveal_strlit("ToggleMaximize");
        reveal_strlit("ToggleWindowContainerBehaviour");
        reveal_strlit("WindowHidingBehaviour");
        reveal_strlit("ManageFocusedWindow");
        reveal_strlit("UnmanageFocusedWindow");
        reveal_strlit("AdjustContainerPadding");
        reveal_strlit("AdjustWorkspacePadding");
        reveal_strlit("ChangeLayout");
        reveal_strlit("ChangeLayoutCustom");
        reveal_strlit("FlipLayout");
        reveal_strlit("EnsureWorkspaces");
        reveal_strlit("NewWorkspace");
        reveal_strlit("ToggleTiling");
        reveal_strlit("Stop");
        reveal_strlit("TogglePause");
        reveal_strlit("Retile");
        reveal_strlit("QuickSave");
        reveal_strlit("QuickLoad");
        reveal_strlit("Save");
        reveal_strlit("Load");
        reveal_strlit("CycleFocusMonitor");
        reveal_strlit("CycleFocusWorkspace");
        reveal_strlit("FocusMonitorNumber");
        reveal_strlit("FocusWorkspaceNumber");
        reveal_strlit("FocusMonitorWorkspaceNumber");
        reveal_strlit("ContainerPadding");
        reveal_strlit("WorkspacePadding");
        reveal_strlit("WorkspaceTiling");
        reveal_strlit("WorkspaceName");
        reveal_strlit("WorkspaceLayout");
        reveal_strlit("WorkspaceLayoutCustom");
        reveal_strlit("ReloadConfiguration");
        reveal_strlit("WatchConfiguration");
        reveal_strlit("InvisibleBorders");
        reveal_strlit("WorkAreaOffset");
        reveal_strlit("ResizeDelta");
        reveal_strlit("WorkspaceRule");
        reveal_strlit("FloatRule");
        reveal_strlit("ManageRule");
        reveal_strlit("IdentifyTrayApplication");
        reveal_strlit("IdentifyBorderOverflow");
        reveal_strlit("State");
        reveal_strlit("Query");
        reveal_strlit("FocusFollowsMouse");
        reveal_strlit("ToggleFocusFollowsMouse");
        reveal_strlit("MouseFollowsFocus");
        reveal_strlit("ToggleMouseFollowsFocus");
        reveal_strlit("AddSubscriber");
        reveal_strlit("RemoveSubscriber");
        assert("FocusWindow"@.len() == 11);
        assert("FocusWindow"@[0] == 'F');
        assert("FocusWindow"@[6] == 'i');
        assert("MoveWindow"@.len() == 10);
        assert("MoveWindow"@[1] == 'o');
        assert("CycleFocusWindow"@.len() == 16);
        assert("CycleFocusWindow"@[2] == 'c');
        assert("CycleFocusWindow"@[12] == 'n');
        assert("CycleMoveWindow"@.len() == 15);
        assert("CycleMoveWindow"@[9] == 'W');
        assert("StackWindow"@.len() == 11);
        assert("StackWindow"@[0] == 'S');
        assert("StackWindow"@[6] == 'i');
        assert("ResizeWindowEdge"@.len() == 16);
        assert("ResizeWindowEdge"@[2] == 's');
        assert("ResizeWindowEdge"@[12] == 'E');
        assert("ResizeWindowAxis"@.len() == 16);
        assert("ResizeWindowAxis"@[2] == 's');
        assert("ResizeWindowAxis"@[12] == 'A');
        assert("UnstackWindow"@.len() == 13);
        assert("UnstackWindow"@[9] == 'n');
        assert("CycleStack"@.len() == 10);
        assert("CycleStack"@[1] == 'y');
        assert("MoveContainerToMonitorNumber"@.len() == 28);
        assert("MoveContainerToMonitorNumber"@[0] == 'M');
        assert("MoveContainerToMonitorNumber"@[4] == 'C');
        assert("MoveContainerToWorkspaceNumber"@.len() == 30);
        assert("MoveContainerToWorkspaceNumber"@[0] == 'M');
        assert("SendContainerToMonitorNumber"@.len() == 28);
        assert("SendContainerToMonitorNumber"@[0] == 'S');
        assert("SendContainerToMonitorNumber"@[4] == 'C');
        assert("SendContainerToWorkspaceNumber"@.len() == 30);
        assert("SendContainerToWorkspaceNumber"@[0] == 'S');
        assert("MoveWorkspaceToMonitorNumber"@.len() == 28);
        assert("MoveWorkspaceToMonitorNumber"@[0] == 'M');
        assert("MoveWorkspaceToMonitorNumber"@[4] == 'W');
        assert("Promote"@.len() == 7);
        assert("ToggleFloat"@.len() == 11);
        assert("ToggleFloat"@[0] == 'T');
        assert("ToggleFloat"@[6] == 'F');
        assert("ToggleMonocle"@.len() == 13);
        assert("ToggleMonocle"@[9] == 'o');
        assert("ToggleMaximize"@.len() == 14);
        assert("ToggleMaximize"@[0] == 'T');
        assert("ToggleWindowContainerBehaviour"@.len() == 30);
        assert("ToggleWindowContainerBehaviour"@[0] == 'T');
        assert("WindowHidingBehaviour"@.len() == 21);
        assert("WindowHidingBehaviour"@[1] == 'i');
        assert("ManageFocusedWindow"@.len() == 19);
        assert("ManageFocusedWindow"@[0] == 'M');
        assert("UnmanageFocusedWindow"@.len() == 21);
        assert("UnmanageFocusedWindow"@[1] == 'n');
        assert("AdjustContainerPadding"@.len() == 22);
        assert("AdjustContainerPadding"@[6] == 'C');
        assert("AdjustWorkspacePadding"@.len() == 22);
        assert("AdjustWorkspacePadding"@[6] == 'W');
        assert("ChangeLayout"@.len() == 12);
        assert("ChangeLayout"@[0] == 'C');
        assert("ChangeLayoutCustom"@.len() == 18);
        assert("ChangeLayoutCustom"@[0] == 'C');
        assert("FlipLayout"@.len() == 10);
        assert("FlipLayout"@[1] == 'l');
        assert("EnsureWorkspaces"@.len() == 16);
        assert("EnsureWorkspaces"@[2] == 's');
        assert("EnsureWorkspaces"@[12] == 'a');
        assert("NewWorkspace"@.len() == 12);
        assert("NewWorkspace"@[0] == 'N');
        assert("ToggleTiling"@.len() == 12);
        assert("ToggleTiling"@[0] == 'T');
        assert("Stop"@.len() == 4);
        assert("Stop"@[1] == 't');
        assert("TogglePause"@.len() == 11);
        assert("TogglePause"@[0] == 'T');
        assert("TogglePause"@[6] == 'P');
        assert("Retile"@.len() == 6);
        assert("QuickSave"@.len() == 9);
        assert("QuickSave"@[5] == 'S');
        assert("QuickLoad"@.len() == 9);
        assert("QuickLoad"@[5] == 'L');
        assert("Save"@.len() == 4);
        assert("Save"@[1] == 'a');
        assert("Load"@.len() == 4);
        assert("Load"@[1] == 'o');
        assert("CycleFocusMonitor"@.len() == 17);
        assert("CycleFocusMonitor"@[0] == 'C');
        assert("CycleFocusWorkspace"@.len() == 19);
        assert("CycleFocusWorkspace"@[0] == 'C');
        assert("FocusMonitorNumber"@.len() == 18);
        assert("FocusMonitorNumber"@[0] == 'F');
        assert("FocusWorkspaceNumber"@.len() == 20);
        assert("FocusMonitorWorkspaceNumber"@.len() == 27);
        assert("ContainerPadding"@.len() == 16);
        assert("ContainerPadding"@[2] == 'n');
        assert("ContainerPadding"@[12] == 'd');
        assert("WorkspacePadding"@.len() == 16);
        assert("WorkspacePadding"@[2] == 'r');
        assert("WorkspacePadding"@[12] == 'd');
        assert("WorkspaceTiling"@.len() == 15);
        assert("WorkspaceTiling"@[9] == 'T');
        assert("WorkspaceName"@.len() == 13);
        assert("WorkspaceName"@[9] == 'N');
        assert("WorkspaceLayout"@.len() == 15);
        assert("WorkspaceLayout"@[9] == 'L');
        assert("WorkspaceLayoutCustom"@.len() == 21);
        assert("WorkspaceLayoutCustom"@[1] == 'o');
        assert("ReloadConfiguration"@.len() == 19);
        assert("ReloadConfiguration"@[0] == 'R');
        assert("WatchConfiguration"@.len() == 18);
        assert("WatchConfiguration"@[0] == 'W');
        assert("InvisibleBorders"@.len() == 16);
        assert("InvisibleBorders"@[2] == 'v');
        assert("InvisibleBorders"@[12] == 'd');
        assert("WorkAreaOffset"@.len() == 14);
        assert("WorkAreaOffset"@[0] == 'W');
        assert("ResizeDelta"@.len() == 11);
        assert("ResizeDelta"@[0] == 'R');
        assert("ResizeDelta"@[6] == 'D');
        assert("WorkspaceRule"@.len() == 13);
        assert("WorkspaceRule"@[9] == 'R');
        assert("FloatRule"@.len() == 9);
        assert("FloatRule"@[5] == 'R');
        assert("ManageRule"@.len() == 10);
        assert("ManageRule"@[1] == 'a');
        assert("IdentifyTrayApplication"@.len() == 23);
        assert("IdentifyTrayApplication"@[6] == 'f');
        assert("IdentifyBorderOverflow"@.len() == 22);
        assert("IdentifyBorderOverflow"@[6] == 'f');
        assert("State"@.len() == 5);
        assert("State"@[0] == 'S');
        assert("Query"@.len() == 5);
        assert("Query"@[0] == 'Q');
        assert("FocusFollowsMouse"@.len() == 17);
        assert("FocusFollowsMouse"@[0] == 'F');
        assert("ToggleFocusFollowsMouse"@.len() == 23);
        assert("ToggleFocusFollowsMouse"@[6] == 'F');
        assert("MouseFollowsFocus"@.len() == 17);
        assert("MouseFollowsFocus"@[0] == 'M');
        assert("ToggleMouseFollowsFocus"@.len() == 23);
        assert("ToggleMouseFollowsFocus"@[6] == 'M');
        assert("AddSubscriber"@.len() == 13);
        assert("AddSubscriber"@[9] == 'i');
        assert("RemoveSubscriber"@.len() == 16);
        assert("RemoveSubscriber"@[2] == 'm');
        assert("RemoveSubscriber"@[12] == 'i');
    }
}

/// The document view of an optional document.
pub open spec fn content_view(content: Option<Json>) -> Option<JsonView> {
    match content {
        Some(content) => Some(content@),
        None => None,
    }
}

/// The wire form of a command named `name` with the arguments `content`.
pub open spec fn frame(name: Seq<char>, content: Option<JsonView>) -> JsonView {
    match content {
        None => JsonView::Object(seq![("type"@, JsonView::Text(name))]),
        Some(content) => JsonView::Object(
            seq![("type"@, JsonView::Text(name)), ("content"@, content)],
        ),
    }
}

/// The members of a frame, one by one.
pub proof fn lemma_frame_members(name: Seq<char>, content: Option<JsonView>)
    ensures
        frame(name, content) is Object,
        frame(name, content)->Object_0.len() == if content is Some {
            2nat
        } else {
            1nat
        },
        frame(name, content)->Object_0[0] == ("type"@, JsonView::Text(name)),
        content is Some ==> frame(name, content)->Object_0[1] == ("content"@, content.unwrap()),
{
}

/// A frame has one name and one content.
pub proof fn lemma_frame_injective(
    name: Seq<char>,
    content: Option<JsonView>,
    other_name: Seq<char>,
    other_content: Option<JsonView>,
)
    requires
        frame(name, content) == frame(other_name, other_content),
    ensures
        name == other_name,
        content == other_content,
{
    lemma_frame_members(name, content);
    lemma_frame_members(other_name, other_content);
}

/// Builds the wire form of a command named `name` with the arguments `content`.
fn frame_of(name: &str, content: Option<Json>) -> (json: Json)
    ensures
        json@ == frame(name@, content_view(content)),
        (content matches Some(content) ==> content@.renderable()) ==> json@.renderable(),
{
    let ghost view = content_view(content);
    let json = match content {
        None => Json::Object(vec![("type".to_owned(), Json::text(name))]),
        Some(content) => Json::Object(
            vec![("type".to_owned(), Json::text(name)), ("content".to_owned(), content)],
        ),
    };
    proof {
        lemma_frame_members(name@, view);
        assert(json@->Object_0 =~= frame(name@, view)->Object_0);
        reveal_strlit("type");
        reveal_strlit("content");
        assert("type"@.len() == 4);
        assert("content"@.len() == 7);
    }
    json
}

/// Takes a wire form apart into the name and the arguments.
fn unframe(json: &Json) -> (parts: Option<(&str, Option<&Json>)>)
    ensures
        match parts {
            Some((name, Some(content))) => json@ == frame(name@, Some(content@)),
            Some((name, None)) => json@ == frame(name@, None),
            None => forall|name: Seq<char>, content: Option<JsonView>|
                json@ != #[trigger] frame(name, content),
        },
{
    let members = match json {
        Json::Object(members) => members,
        _ => {
            assert forall|name: Seq<char>, content: Option<JsonView>|
                json@ != #[trigger] frame(name, content) by {
                lemma_frame_members(name, content);
            }
            return None;
        },
    };
    if members.len() >= 1 && members.len() <= 2 && same_text(members[0].0.as_str(), "type") {
        match members[0].1.as_text() {
            Some(name) => {
                if members.len() == 1 {
                    proof {
                        lemma_frame_members(name@, None);
                        assert(json@->Object_0 =~= frame(name@, None)->Object_0);
                    }
                    return Some((name, None));
                } else if same_text(members[1].0.as_str(), "content") {
                    proof {
                        lemma_frame_members(name@, Some(members[1].1@));
                        assert(json@->Object_0 =~= frame(
                            name@,
                            Some(members[1].1@),
                        )->Object_0);
                    }
                    return Some((name, Some(&members[1].1)));
                }
            },
            None => {},
        }
    }
    assert forall|name: Seq<char>, content: Option<JsonView>|
        json@ != #[trigger] frame(name, content) by {
        lemma_frame_members(name, content);
        if json@ == frame(name, content) {
            assert(json@->Object_0[0] == frame(name, content)->Object_0[0]);
            if content is Some {
                assert(json@->Object_0[1] == frame(name, content)->Object_0[1]);
            }
        }
    }
    None
}

/// Mathematical model of a [`SocketMessage`]: which command it is, and the
/// document of its arguments.
pub struct MessageView {
    pub kind: CommandKind,
    pub content: Option<JsonView>,
}

impl View for SocketMessage {
    type V = MessageView;

    open spec fn view(&self) -> MessageView {
        MessageView { kind: self.spec_kind(), content: self.content() }
    }
}

/// Whether `result` is what reading a command from `json` gives: the command
/// whose wire form `json` is, or [`WireError::NotACommand`] where `json` is
/// the wire form of no command.
pub open spec fn reads_as(json: JsonView, result: Result<SocketMessage, WireError>) -> bool {
    match result {
        Ok(message) => message.wire_form() == json,
        Err(error) => {
            &&& error == WireError::NotACommand
            &&& forall|message: SocketMessage| #[trigger] message.wire_form() != json
        },
    }
}

impl SocketMessage {
    pub open spec fn spec_kind(&self) -> CommandKind {
        match self {
            SocketMessage::FocusWindow(..) => CommandKind::FocusWindow,
            SocketMessage::MoveWindow(..) => CommandKind::MoveWindow,
            SocketMessage::CycleFocusWindow(..) => CommandKind::CycleFocusWindow,
            SocketMessage::CycleMoveWindow(..) => CommandKind::CycleMoveWindow,
            SocketMessage::StackWindow(..) => CommandKind::StackWindow,
            SocketMessage::ResizeWindowEdge(..) => CommandKind::ResizeWindowEdge,
            SocketMessage::ResizeWindowAxis(..) => CommandKind::ResizeWindowAxis,
            SocketMessage::UnstackWindow => CommandKind::UnstackWindow,
            SocketMessage::CycleStack(..) => CommandKind::CycleStack,
            SocketMessage::MoveContainerToMonitorNumber(..) =>
                CommandKind::MoveContainerToMonitorNumber,
            SocketMessage::MoveContainerToWorkspaceNumber(..) =>
                CommandKind::MoveContainerToWorkspaceNumber,
            SocketMessage::SendContainerToMonitorNumber(..) =>
                CommandKind::SendContainerToMonitorNumber,
            SocketMessage::SendContainerToWorkspaceNumber(..) =>
                CommandKind::SendContainerToWorkspaceNumber,
            SocketMessage::MoveWorkspaceToMonitorNumber(..) =>
                CommandKind::MoveWorkspaceToMonitorNumber,
            SocketMessage::Promote => CommandKind::Promote,
            SocketMessage::ToggleFloat => CommandKind::ToggleFloat,
            SocketMessage::ToggleMonocle => CommandKind::ToggleMonocle,
            SocketMessage::ToggleMaximize => CommandKind::ToggleMaximize,
            SocketMessage::ToggleWindowContainerBehaviour =>
                CommandKind::ToggleWindowContainerBehaviour,
            SocketMessage::WindowHidingBehaviour(..) => CommandKind::WindowHidingBehaviour,
            SocketMessage::ManageFocusedWindow => CommandKind::ManageFocusedWindow,
            SocketMessage::UnmanageFocusedWindow => CommandKind::UnmanageFocusedWindow,
            SocketMessage::AdjustContainerPadding(..) => CommandKind::AdjustContainerPadding,
            SocketMessage::AdjustWorkspacePadding(..) => CommandKind::AdjustWorkspacePadding,
            SocketMessage::ChangeLayout(..) => CommandKind::ChangeLayout,
            SocketMessage::ChangeLayoutCustom(..) => CommandKind::ChangeLayoutCustom,
            SocketMessage::FlipLayout(..) => CommandKind::FlipLayout,
            SocketMessage::EnsureWorkspaces(..) => CommandKind::EnsureWorkspaces,
            SocketMessage::NewWorkspace => CommandKind::NewWorkspace,
            SocketMessage::ToggleTiling => CommandKind::ToggleTiling,
            SocketMessage::Stop => CommandKind::Stop,
            SocketMessage::TogglePause => CommandKind::TogglePause,
            SocketMessage::Retile => CommandKind::Retile,
            SocketMessage::QuickSave => CommandKind::QuickSave,
            SocketMessage::QuickLoad => CommandKind::QuickLoad,
            SocketMessage::Save(..) => CommandKind::Save,
            SocketMessage::Load(..) => CommandKind::Load,
            SocketMessage::CycleFocusMonitor(..) => CommandKind::CycleFocusMonitor,
            SocketMessage::CycleFocusWorkspace(..) => CommandKind::CycleFocusWorkspace,
            SocketMessage::FocusMonitorNumber(..) => CommandKind::FocusMonitorNumber,
            SocketMessage::FocusWorkspaceNumber(..) => CommandKind::FocusWorkspaceNumber,
            SocketMessage::FocusMonitorWorkspaceNumber(..) =>
                CommandKind::FocusMonitorWorkspaceNumber,
            SocketMessage::ContainerPadding(..) => CommandKind::ContainerPadding,
            SocketMessage::WorkspacePadding(..) => CommandKind::WorkspacePadding,
            SocketMessage::WorkspaceTiling(..) => CommandKind::WorkspaceTiling,
            SocketMessage::WorkspaceName(..) => CommandKind::WorkspaceName,
            SocketMessage::WorkspaceLayout(..) => CommandKind::WorkspaceLayout,
            SocketMessage::WorkspaceLayoutCustom(..) => CommandKind::WorkspaceLayoutCustom,
            SocketMessage::ReloadConfiguration => CommandKind::ReloadConfiguration,
            SocketMessage::WatchConfiguration(..) => CommandKind::WatchConfiguration,
            SocketMessage::InvisibleBorders(..) => CommandKind::InvisibleBorders,
            SocketMessage::WorkAreaOffset(..) => CommandKind::WorkAreaOffset,
            SocketMessage::ResizeDelta(..) => CommandKind::ResizeDelta,
            SocketMessage::WorkspaceRule(..) => CommandKind::WorkspaceRule,
            SocketMessage::FloatRule(..) => CommandKind::FloatRule,
            SocketMessage::ManageRule(..) => CommandKind::ManageRule,
            SocketMessage::IdentifyTrayApplication(..) => CommandKind::IdentifyTrayApplication,
            SocketMessage::IdentifyBorderOverflow(..) => CommandKind::IdentifyBorderOverflow,
            SocketMessage::State => CommandKind::State,
            SocketMessage::Query(..) => CommandKind::Query,
            SocketMessage::FocusFollowsMouse(..) => CommandKind::FocusFollowsMouse,
            SocketMessage::ToggleFocusFollowsMouse(..) => CommandKind::ToggleFocusFollowsMouse,
            SocketMessage::MouseFollowsFocus(..) => CommandKind::MouseFollowsFocus,
            SocketMessage::ToggleMouseFollowsFocus => CommandKind::ToggleMouseFollowsFocus,
            SocketMessage::AddSubscriber(..) => CommandKind::AddSubscriber,
            SocketMessage::RemoveSubscriber(..) => CommandKind::RemoveSubscriber,
        }
    }

    /// Which command this is.
    #[verifier::when_used_as_spec(spec_kind)]
    pub fn kind(&self) -> (kind: CommandKind)
        ensures
            kind == self.spec_kind(),
    {
        match self {
            SocketMessage::FocusWindow(..) => CommandKind::FocusWindow,
            SocketMessage::MoveWindow(..) => CommandKind::MoveWindow,
            SocketMessage::CycleFocusWindow(..) => CommandKind::CycleFocusWindow,
            SocketMessage::CycleMoveWindow(..) => CommandKind::CycleMoveWindow,
            SocketMessage::StackWindow(..) => CommandKind::StackWindow,
            SocketMessage::ResizeWindowEdge(..) => CommandKind::ResizeWindowEdge,
            SocketMessage::ResizeWindowAxis(..) => CommandKind::ResizeWindowAxis,
            SocketMessage::UnstackWindow => CommandKind::UnstackWindow,
            SocketMessage::CycleStack(..) => CommandKind::CycleStack,
            SocketMessage::MoveContainerToMonitorNumber(..) =>
                CommandKind::MoveContainerToMonitorNumber,
            SocketMessage::MoveContainerToWorkspaceNumber(..) =>
                CommandKind::MoveContainerToWorkspaceNumber,
            SocketMessage::SendContainerToMonitorNumber(..) =>
                CommandKind::SendContainerToMonitorNumber,
            SocketMessage::SendContainerToWorkspaceNumber(..) =>
                CommandKind::SendContainerToWorkspaceNumber,
            SocketMessage::MoveWorkspaceToMonitorNumber(..) =>
                CommandKind::MoveWorkspaceToMonitorNumber,
            SocketMessage::Promote => CommandKind::Promote,
            SocketMessage::ToggleFloat => CommandKind::ToggleFloat,
            SocketMessage::ToggleMonocle => CommandKind::ToggleMonocle,
            SocketMessage::ToggleMaximize => CommandKind::ToggleMaximize,
            SocketMessage::ToggleWindowContainerBehaviour =>
                CommandKind::ToggleWindowContainerBehaviour,
            SocketMessage::WindowHidingBehaviour(..) => CommandKind::WindowHidingBehaviour,
            SocketMessage::ManageFocusedWindow => CommandKind::ManageFocusedWindow,
            SocketMessage::UnmanageFocusedWindow => CommandKind::UnmanageFocusedWindow,
            SocketMessage::AdjustContainerPadding(..) => CommandKind::AdjustContainerPadding,
            SocketMessage::AdjustWorkspacePadding(..) => CommandKind::AdjustWorkspacePadding,
            SocketMessage::ChangeLayout(..) => CommandKind::ChangeLayout,
            SocketMessage::ChangeLayoutCustom(..) => CommandKind::ChangeLayoutCustom,
            SocketMessage::FlipLayout(..) => CommandKind::FlipLayout,
            SocketMessage::EnsureWorkspaces(..) => CommandKind::EnsureWorkspaces,
            SocketMessage::NewWorkspace => CommandKind::NewWorkspace,
            SocketMessage::ToggleTiling => CommandKind::ToggleTiling,
            SocketMessage::Stop => CommandKind::Stop,
            SocketMessage::TogglePause => CommandKind::TogglePause,
            SocketMessage::Retile => CommandKind::Retile,
            SocketMessage::QuickSave => CommandKind::QuickSave,
            SocketMessage::QuickLoad => CommandKind::QuickLoad,
            SocketMessage::Save(..) => CommandKind::Save,
            SocketMessage::Load(..) => CommandKind::Load,
            SocketMessage::CycleFocusMonitor(..) => CommandKind::CycleFocusMonitor,
            SocketMessage::CycleFocusWorkspace(..) => CommandKind::CycleFocusWorkspace,
            SocketMessage::FocusMonitorNumber(..) => CommandKind::FocusMonitorNumber,
            SocketMessage::FocusWorkspaceNumber(..) => CommandKind::FocusWorkspaceNumber,
            SocketMessage::FocusMonitorWorkspaceNumber(..) =>
                CommandKind::FocusMonitorWorkspaceNumber,
            SocketMessage::ContainerPadding(..) => CommandKind::ContainerPadding,
            SocketMessage::WorkspacePadding(..) => CommandKind::WorkspacePadding,
            SocketMessage::WorkspaceTiling(..) => CommandKind::WorkspaceTiling,
            SocketMessage::WorkspaceName(..) => CommandKind::WorkspaceName,
            SocketMessage::WorkspaceLayout(..) => CommandKind::WorkspaceLayout,
            SocketMessage::WorkspaceLayoutCustom(..) => CommandKind::WorkspaceLayoutCustom,
            SocketMessage::ReloadConfiguration => CommandKind::ReloadConfiguration,
            SocketMessage::WatchConfiguration(..) => CommandKind::WatchConfiguration,
            SocketMessage::InvisibleBorders(..) => CommandKind::InvisibleBorders,
            SocketMessage::WorkAreaOffset(..) => CommandKind::WorkAreaOffset,
            SocketMessage::ResizeDelta(..) => CommandKind::ResizeDelta,
            SocketMessage::WorkspaceRule(..) => CommandKind::WorkspaceRule,
            SocketMessage::FloatRule(..) => CommandKind::FloatRule,
            SocketMessage::ManageRule(..) => CommandKind::ManageRule,
            SocketMessage::IdentifyTrayApplication(..) => CommandKind::IdentifyTrayApplication,
            SocketMessage::IdentifyBorderOverflow(..) => CommandKind::IdentifyBorderOverflow,
            SocketMessage::State => CommandKind::State,
            SocketMessage::Query(..) => CommandKind::Query,
            SocketMessage::FocusFollowsMouse(..) => CommandKind::FocusFollowsMouse,
            SocketMessage::ToggleFocusFollowsMouse(..) => CommandKind::ToggleFocusFollowsMouse,
            SocketMessage::MouseFollowsFocus(..) => CommandKind::MouseFollowsFocus,
            SocketMessage::ToggleMouseFollowsFocus => CommandKind::ToggleMouseFollowsFocus,
            SocketMessage::AddSubscriber(..) => CommandKind::AddSubscriber,
            SocketMessage::RemoveSubscriber(..) => CommandKind::RemoveSubscriber,
        }
    }

    /// The document of the arguments: none for a command without arguments,
    /// the argument itself for one argument, the list of them for more.
    pub open spec fn content(self) -> Option<JsonView> {
        match self {
            SocketMessage::FocusWindow(direction) => Some(direction.json()),
            SocketMessage::MoveWindow(direction) => Some(direction.json()),
            SocketMessage::CycleFocusWindow(direction) => Some(direction.json()),
            SocketMessage::CycleMoveWindow(direction) => Some(direction.json()),
            SocketMessage::StackWindow(direction) => Some(direction.json()),
            SocketMessage::ResizeWindowEdge(edge, sizing) => Some(
                JsonView::pair(edge.json(), sizing.json()),
            ),
            SocketMessage::ResizeWindowAxis(axis, sizing) => Some(
                JsonView::pair(axis.json(), sizing.json()),
            ),
            SocketMessage::CycleStack(direction) => Some(direction.json()),
            SocketMessage::MoveContainerToMonitorNumber(monitor_idx) => Some(
                JsonView::index(monitor_idx),
            ),
            SocketMessage::MoveContainerToWorkspaceNumber(workspace_idx) => Some(
                JsonView::index(workspace_idx),
            ),
            SocketMessage::SendContainerToMonitorNumber(monitor_idx) => Some(
                JsonView::index(monitor_idx),
            ),
            SocketMessage::SendContainerToWorkspaceNumber(workspace_idx) => Some(
                JsonView::index(workspace_idx),
            ),
            SocketMessage::MoveWorkspaceToMonitorNumber(monitor_idx) => Some(
                JsonView::index(monitor_idx),
            ),
            SocketMessage::WindowHidingBehaviour(behaviour) => Some(behaviour.json()),
            SocketMessage::AdjustContainerPadding(sizing, adjustment) => Some(
                JsonView::pair(sizing.json(), JsonView::number(adjustment)),
            ),
            SocketMessage::AdjustWorkspacePadding(sizing, adjustment) => Some(
                JsonView::pair(sizing.json(), JsonView::number(adjustment)),
            ),
            SocketMessage::ChangeLayout(layout) => Some(layout.json()),
            SocketMessage::ChangeLayoutCustom(path) => Some(JsonView::Text(path@)),
            SocketMessage::FlipLayout(axis) => Some(axis.json()),
            SocketMessage::EnsureWorkspaces(monitor_idx, workspace_count) => Some(
                JsonView::pair(JsonView::index(monitor_idx), JsonView::index(workspace_count)),
            ),
            SocketMessage::Save(path) => Some(JsonView::Text(path@)),
            SocketMessage::Load(path) => Some(JsonView::Text(path@)),
            SocketMessage::CycleFocusMonitor(direction) => Some(direction.json()),
            SocketMessage::CycleFocusWorkspace(direction) => Some(direction.json()),
            SocketMessage::FocusMonitorNumber(monitor_idx) => Some(JsonView::index(monitor_idx)),
            SocketMessage::FocusWorkspaceNumber(workspace_idx) => Some(
                JsonView::index(workspace_idx),
            ),
            SocketMessage::FocusMonitorWorkspaceNumber(monitor_idx, workspace_idx) => Some(
                JsonView::pair(JsonView::index(monitor_idx), JsonView::index(workspace_idx)),
            ),
            SocketMessage::ContainerPadding(monitor_idx, workspace_idx, padding) => Some(
                JsonView::triple(
                    JsonView::index(monitor_idx),
                    JsonView::index(workspace_idx),
                    JsonView::number(padding),
                ),
            ),
            SocketMessage::WorkspacePadding(monitor_idx, workspace_idx, padding) => Some(
                JsonView::triple(
                    JsonView::index(monitor_idx),
                    JsonView::index(workspace_idx),
                    JsonView::number(padding),
                ),
            ),
            SocketMessage::WorkspaceTiling(monitor_idx, workspace_idx, tile) => Some(
                JsonView::triple(
                    JsonView::index(monitor_idx),
                    JsonView::index(workspace_idx),
                    JsonView::Bool(tile),
                ),
            ),
            SocketMessage::WorkspaceName(monitor_idx, workspace_idx, name) => Some(
                JsonView::triple(
                    JsonView::index(monitor_idx),
                    JsonView::index(workspace_idx),
                    JsonView::Text(name@),
                ),
            ),
            SocketMessage::WorkspaceLayout(monitor_idx, workspace_idx, layout) => Some(
                JsonView::triple(
                    JsonView::index(monitor_idx),
                    JsonView::index(workspace_idx),
                    layout.json(),
                ),
            ),
            SocketMessage::WorkspaceLayoutCustom(monitor_idx, workspace_idx, path) => Some(
                JsonView::triple(
                    JsonView::index(monitor_idx),
                    JsonView::index(workspace_idx),
                    JsonView::Text(path@),
                ),
            ),
            SocketMessage::WatchConfiguration(watch) => Some(JsonView::Bool(watch)),
            SocketMessage::InvisibleBorders(borders) => Some(borders.json()),
            SocketMessage::WorkAreaOffset(offset) => Some(offset.json()),
            SocketMessage::ResizeDelta(delta) => Some(JsonView::number(delta)),
            SocketMessage::WorkspaceRule(identifier, id, monitor_idx, workspace_idx) => Some(
                JsonView::quad(
                    identifier.json(),
                    JsonView::Text(id@),
                    JsonView::index(monitor_idx),
                    JsonView::index(workspace_idx),
                ),
            ),
            SocketMessage::FloatRule(identifier, id) => Some(
                JsonView::pair(identifier.json(), JsonView::Text(id@)),
            ),
            SocketMessage::ManageRule(identifier, id) => Some(
                JsonView::pair(identifier.json(), JsonView::Text(id@)),
            ),
            SocketMessage::IdentifyTrayApplication(identifier, id) => Some(
                JsonView::pair(identifier.json(), JsonView::Text(id@)),
            ),
            SocketMessage::IdentifyBorderOverflow(identifier, id) => Some(
                JsonView::pair(identifier.json(), JsonView::Text(id@)),
            ),
            SocketMessage::Query(query) => Some(query.json()),
            SocketMessage::FocusFollowsMouse(implementation, enable) => Some(
                JsonView::pair(implementation.json(), JsonView::Bool(enable)),
            ),
            SocketMessage::ToggleFocusFollowsMouse(implementation) => Some(implementation.json()),
            SocketMessage::MouseFollowsFocus(enable) => Some(JsonView::Bool(enable)),
            SocketMessage::AddSubscriber(name) => Some(JsonView::Text(name@)),
            SocketMessage::RemoveSubscriber(name) => Some(JsonView::Text(name@)),
            _ => None,
        }
    }

    /// The document under which the command travels.
    pub open spec fn wire_form(self) -> JsonView {
        frame(self.spec_kind().wire_name(), self.content())
    }

    /// Builds the document of the arguments for the window and container commands.
    fn window_content(&self) -> (content: Json)
        requires
            Self::is_window_command(self.spec_kind()),
        ensures
            Some(content@) == self.content(),
            content@.renderable(),
    {
        match self {
            SocketMessage::FocusWindow(direction) => direction.to_json(),
            SocketMessage::MoveWindow(direction) => direction.to_json(),
            SocketMessage::CycleFocusWindow(direction) => direction.to_json(),
            SocketMessage::CycleMoveWindow(direction) => direction.to_json(),
            SocketMessage::StackWindow(direction) => direction.to_json(),
            SocketMessage::ResizeWindowEdge(edge, sizing) => Json::pair(
                edge.to_json(),
                sizing.to_json(),
            ),
            SocketMessage::ResizeWindowAxis(axis, sizing) => Json::pair(
                axis.to_json(),
                sizing.to_json(),
            ),
            SocketMessage::CycleStack(direction) => direction.to_json(),
            SocketMessage::MoveContainerToMonitorNumber(monitor_idx) => Json::index(*monitor_idx),
            SocketMessage::MoveContainerToWorkspaceNumber(workspace_idx) =>
                Json::index(*workspace_idx),
            SocketMessage::SendContainerToMonitorNumber(monitor_idx) => Json::index(*monitor_idx),
            SocketMessage::SendContainerToWorkspaceNumber(workspace_idx) =>
                Json::index(*workspace_idx),
            SocketMessage::MoveWorkspaceToMonitorNumber(monitor_idx) => Json::index(*monitor_idx),
            SocketMessage::WindowHidingBehaviour(behaviour) => behaviour.to_json(),
            _ => Json::Null,
        }
    }

    /// Builds the document of the arguments for the commands on the current workspace.
    fn workspace_content(&self) -> (content: Json)
        requires
            Self::is_workspace_command(self.spec_kind()),
        ensures
            Some(content@) == self.content(),
            content@.renderable(),
    {
        match self {
            SocketMessage::AdjustContainerPadding(sizing, adjustment) => Json::pair(
                sizing.to_json(),
                Json::number(*adjustment),
            ),
            SocketMessage::AdjustWorkspacePadding(sizing, adjustment) => Json::pair(
                sizing.to_json(),
                Json::number(*adjustment),
            ),
            SocketMessage::ChangeLayout(layout) => layout.to_json(),
            SocketMessage::ChangeLayoutCustom(path) => Json::text(path.as_str()),
            SocketMessage::FlipLayout(axis) => axis.to_json(),
            _ => Json::Null,
        }
    }

    /// Builds the document of the arguments for the monitor and workspace commands.
    fn monitor_content(&self) -> (content: Json)
        requires
            Self::is_monitor_command(self.spec_kind()),
        ensures
            Some(content@) == self.content(),
            content@.renderable(),
    {
        match self {
            SocketMessage::EnsureWorkspaces(monitor_idx, workspace_count) => Json::pair(
                Json::index(*monitor_idx),
                Json::index(*workspace_count),
            ),
            SocketMessage::Save(path) => Json::text(path.as_str()),
            SocketMessage::Load(path) => Json::text(path.as_str()),
            SocketMessage::CycleFocusMonitor(direction) => direction.to_json(),
            SocketMessage::CycleFocusWorkspace(direction) => direction.to_json(),
            SocketMessage::FocusMonitorNumber(monitor_idx) => Json::index(*monitor_idx),
            SocketMessage::FocusWorkspaceNumber(workspace_idx) => Json::index(*workspace_idx),
            SocketMessage::FocusMonitorWorkspaceNumber(monitor_idx, workspace_idx) => Json::pair(
                Json::index(*monitor_idx),
                Json::index(*workspace_idx),
            ),
            SocketMessage::ContainerPadding(monitor_idx, workspace_idx, padding) => Json::triple(
                Json::index(*monitor_idx),
                Json::index(*workspace_idx),
                Json::number(*padding),
            ),
            SocketMessage::WorkspacePadding(monitor_idx, workspace_idx, padding) => Json::triple(
                Json::index(*monitor_idx),
                Json::index(*workspace_idx),
                Json::number(*padding),
            ),
            SocketMessage::WorkspaceTiling(monitor_idx, workspace_idx, tile) => Json::triple(
                Json::index(*monitor_idx),
                Json::index(*workspace_idx),
                Json::flag(*tile),
            ),
            SocketMessage::WorkspaceName(monitor_idx, workspace_idx, name) => Json::triple(
                Json::index(*monitor_idx),
                Json::index(*workspace_idx),
                Json::text(name.as_str()),
            ),
            SocketMessage::WorkspaceLayout(monitor_idx, workspace_idx, layout) => Json::triple(
                Json::index(*monitor_idx),
                Json::index(*workspace_idx),
                layout.to_json(),
            ),
            SocketMessage::WorkspaceLayoutCustom(monitor_idx, workspace_idx, path) => Json::triple(
                Json::index(*monitor_idx),
                Json::index(*workspace_idx),
                Json::text(path.as_str()),
            ),
            _ => Json::Null,
        }
    }

    /// Builds the document of the arguments for the configuration commands.
    fn configuration_content(&self) -> (content: Json)
        requires
            Self::is_configuration_command(self.spec_kind()),
        ensures
            Some(content@) == self.content(),
            content@.renderable(),
    {
        match self {
            SocketMessage::WatchConfiguration(watch) => Json::flag(*watch),
            SocketMessage::InvisibleBorders(borders) => borders.to_json(),
            SocketMessage::WorkAreaOffset(offset) => offset.to_json(),
            SocketMessage::ResizeDelta(delta) => Json::number(*delta),
            SocketMessage::WorkspaceRule(identifier, id, monitor_idx, workspace_idx) => Json::quad(
                identifier.to_json(),
                Json::text(id.as_str()),
                Json::index(*monitor_idx),
                Json::index(*workspace_idx),
            ),
            SocketMessage::FloatRule(identifier, id) => Json::pair(
                identifier.to_json(),
                Json::text(id.as_str()),
            ),
            SocketMessage::ManageRule(identifier, id) => Json::pair(
                identifier.to_json(),
                Json::text(id.as_str()),
            ),
            SocketMessage::IdentifyTrayApplication(identifier, id) => Json::pair(
                identifier.to_json(),
                Json::text(id.as_str()),
            ),
            SocketMessage::IdentifyBorderOverflow(identifier, id) => Json::pair(
                identifier.to_json(),
                Json::text(id.as_str()),
            ),
            SocketMessage::Query(query) => query.to_json(),
            SocketMessage::FocusFollowsMouse(implementation, enable) => Json::pair(
                implementation.to_json(),
                Json::flag(*enable),
            ),
            SocketMessage::ToggleFocusFollowsMouse(implementation) => implementation.to_json(),
            SocketMessage::MouseFollowsFocus(enable) => Json::flag(*enable),
            SocketMessage::AddSubscriber(name) => Json::text(name.as_str()),
            SocketMessage::RemoveSubscriber(name) => Json::text(name.as_str()),
            _ => Json::Null,
        }
    }

    /// Builds the document of the arguments.
    fn content_json(&self) -> (content: Option<Json>)
        ensures
            content_view(content) == self.content(),
            content matches Some(content) ==> content@.renderable(),
    {
        let kind = self.kind();
        if Self::takes_window_arguments(kind) {
            Some(self.window_content())
        } else if Self::takes_workspace_arguments(kind) {
            Some(self.workspace_content())
        } else if Self::takes_monitor_arguments(kind) {
            Some(self.monitor_content())
        } else if Self::takes_configuration_arguments(kind) {
            Some(self.configuration_content())
        } else {
            None
        }
    }

    /// The document under which the command travels.
    pub fn to_json(&self) -> (json: Json)
        ensures
            json@ == self.wire_form(),
            json@.renderable(),
    {
        frame_of(self.kind().name(), self.content_json())
    }

    /// The command of kind `kind` that has no arguments, if `kind` is such a
    /// command.
    fn build_bare(kind: CommandKind) -> (message: Option<SocketMessage>)
        ensures
            match message {
                Some(message) => message.spec_kind() == kind && message.content() is None,
                None => forall|other: SocketMessage|
                    #[trigger] other.spec_kind() == kind ==> other.content() is Some,
            },
    {
        match kind {
            CommandKind::UnstackWindow => Some(SocketMessage::UnstackWindow),
            CommandKind::Promote => Some(SocketMessage::Promote),
            CommandKind::ToggleFloat => Some(SocketMessage::ToggleFloat),
            CommandKind::ToggleMonocle => Some(SocketMessage::ToggleMonocle),
            CommandKind::ToggleMaximize => Some(SocketMessage::ToggleMaximize),
            CommandKind::ToggleWindowContainerBehaviour =>
                Some(SocketMessage::ToggleWindowContainerBehaviour),
            CommandKind::ManageFocusedWindow => Some(SocketMessage::ManageFocusedWindow),
            CommandKind::UnmanageFocusedWindow => Some(SocketMessage::UnmanageFocusedWindow),
            CommandKind::NewWorkspace => Some(SocketMessage::NewWorkspace),
            CommandKind::ToggleTiling => Some(SocketMessage::ToggleTiling),
            CommandKind::Stop => Some(SocketMessage::Stop),
            CommandKind::TogglePause => Some(SocketMessage::TogglePause),
            CommandKind::Retile => Some(SocketMessage::Retile),
            CommandKind::QuickSave => Some(SocketMessage::QuickSave),
            CommandKind::QuickLoad => Some(SocketMessage::QuickLoad),
            CommandKind::ReloadConfiguration => Some(SocketMessage::ReloadConfiguration),
            CommandKind::State => Some(SocketMessage::State),
            CommandKind::ToggleMouseFollowsFocus => Some(SocketMessage::ToggleMouseFollowsFocus),
            _ => None,
        }
    }

    /// Whether `kind` is one of the window and container commands that take
    /// arguments.
    pub open spec fn is_window_command(kind: CommandKind) -> bool {
        match kind {
            CommandKind::FocusWindow
            | CommandKind::MoveWindow
            | CommandKind::CycleFocusWindow
            | CommandKind::CycleMoveWindow
            | CommandKind::StackWindow
            | CommandKind::ResizeWindowEdge
            | CommandKind::ResizeWindowAxis
            | CommandKind::CycleStack
            | CommandKind::MoveContainerToMonitorNumber
            | CommandKind::MoveContainerToWorkspaceNumber
            | CommandKind::SendContainerToMonitorNumber
            | CommandKind::SendContainerToWorkspaceNumber
            | CommandKind::MoveWorkspaceToMonitorNumber
            | CommandKind::WindowHidingBehaviour => true,
            _ => false,
        }
    }

    /// Reads one of the window and container commands from its arguments.
    fn build_window_command(kind: CommandKind, content: &Json) -> (message: Option<
        SocketMessage,
    >)
        requires
            Self::is_window_command(kind),
        ensures
            match message {
                Some(message) => message.spec_kind() == kind && message.content() == Some(
                    content@,
                ),
                None => forall|other: SocketMessage|
                    #[trigger] other.spec_kind() == kind ==> other.content() != Some(content@),
            },
    {
        match kind {
            CommandKind::FocusWindow => match OperationDirection::from_json(content) {
                Some(direction) => Some(SocketMessage::FocusWindow(direction)),
                None => None,
            },
            CommandKind::MoveWindow => match OperationDirection::from_json(content) {
                Some(direction) => Some(SocketMessage::MoveWindow(direction)),
                None => None,
            },
            CommandKind::CycleFocusWindow => match CycleDirection::from_json(content) {
                Some(direction) => Some(SocketMessage::CycleFocusWindow(direction)),
                None => None,
            },
            CommandKind::CycleMoveWindow => match CycleDirection::from_json(content) {
                Some(direction) => Some(SocketMessage::CycleMoveWindow(direction)),
                None => None,
            },
            CommandKind::StackWindow => match OperationDirection::from_json(content) {
                Some(direction) => Some(SocketMessage::StackWindow(direction)),
                None => None,
            },
            CommandKind::ResizeWindowEdge => match content.as_pair() {
                Some((first, second)) => match (
                    OperationDirection::from_json(first),
                    Sizing::from_json(second),
                ) {
                    (Some(edge), Some(sizing)) => Some(
                        SocketMessage::ResizeWindowEdge(edge, sizing),
                    ),
                    _ => None,
                },
                None => None,
            },
            CommandKind::ResizeWindowAxis => match content.as_pair() {
                Some((first, second)) => match (
                    Axis::from_json(first),
                    Sizing::from_json(second),
                ) {
                    (Some(axis), Some(sizing)) => Some(
                        SocketMessage::ResizeWindowAxis(axis, sizing),
                    ),
                    _ => None,
                },
                None => None,
            },
            CommandKind::CycleStack => match CycleDirection::from_json(content) {
                Some(direction) => Some(SocketMessage::CycleStack(direction)),
                None => None,
            },
            CommandKind::MoveContainerToMonitorNumber => match content.as_index() {
                Some(monitor_idx) => Some(SocketMessage::MoveContainerToMonitorNumber(monitor_idx)),
                None => None,
            },
            CommandKind::MoveContainerToWorkspaceNumber => match content.as_index() {
                Some(workspace_idx) =>
                    Some(SocketMessage::MoveContainerToWorkspaceNumber(workspace_idx)),
                None => None,
            },
            CommandKind::SendContainerToMonitorNumber => match content.as_index() {
                Some(monitor_idx) => Some(SocketMessage::SendContainerToMonitorNumber(monitor_idx)),
                None => None,
            },
            CommandKind::SendContainerToWorkspaceNumber => match content.as_index() {
                Some(workspace_idx) =>
                    Some(SocketMessage::SendContainerToWorkspaceNumber(workspace_idx)),
                None => None,
            },
            CommandKind::MoveWorkspaceToMonitorNumber => match content.as_index() {
                Some(monitor_idx) => Some(SocketMessage::MoveWorkspaceToMonitorNumber(monitor_idx)),
                None => None,
            },
            CommandKind::WindowHidingBehaviour => match HidingBehaviour::from_json(content) {
                Some(behaviour) => Some(SocketMessage::WindowHidingBehaviour(behaviour)),
                None => None,
            },
            _ => None,
        }
    }

    /// Whether `kind` is one of the commands on the current workspace that take
    /// arguments.
    pub open spec fn is_workspace_command(kind: CommandKind) -> bool {
        match kind {
            CommandKind::AdjustContainerPadding
            | CommandKind::AdjustWorkspacePadding
            | CommandKind::ChangeLayout
            | CommandKind::ChangeLayoutCustom
            | CommandKind::FlipLayout => true,
            _ => false,
        }
    }

    /// Reads one of the commands on the current workspace from its arguments.
    fn build_workspace_command(kind: CommandKind, content: &Json) -> (message: Option<
        SocketMessage,
    >)
        requires
            Self::is_workspace_command(kind),
        ensures
            match message {
                Some(message) => message.spec_kind() == kind && message.content() == Some(
                    content@,
                ),
                None => forall|other: SocketMessage|
                    #[trigger] other.spec_kind() == kind ==> other.content() != Some(content@),
            },
    {
        match kind {
            CommandKind::AdjustContainerPadding => match content.as_pair() {
                Some((first, second)) => match (
                    Sizing::from_json(first),
                    second.as_int(),
                ) {
                    (Some(sizing), Some(adjustment)) => Some(
                        SocketMessage::AdjustContainerPadding(sizing, adjustment),
                    ),
                    _ => None,
                },
                None => None,
            },
            CommandKind::AdjustWorkspacePadding => match content.as_pair() {
                Some((first, second)) => match (
                    Sizing::from_json(first),
                    second.as_int(),
                ) {
                    (Some(sizing), Some(adjustment)) => Some(
                        SocketMessage::AdjustWorkspacePadding(sizing, adjustment),
                    ),
                    _ => None,
                },
                None => None,
            },
            CommandKind::ChangeLayout => match DefaultLayout::from_json(content) {
                Some(layout) => Some(SocketMessage::ChangeLayout(layout)),
                None => None,
            },
            CommandKind::ChangeLayoutCustom => match content.as_text() {
                Some(path) => Some(SocketMessage::ChangeLayoutCustom(path.to_owned())),
                None => None,
            },
            CommandKind::FlipLayout => match Axis::from_json(content) {
                Some(axis) => Some(SocketMessage::FlipLayout(axis)),
                None => None,
            },
            _ => None,
        }
    }

    /// Whether `kind` is one of the monitor and workspace commands that take
    /// arguments.
    pub open spec fn is_monitor_command(kind: CommandKind) -> bool {
        match kind {
            CommandKind::EnsureWorkspaces
            | CommandKind::Save
            | CommandKind::Load
            | CommandKind::CycleFocusMonitor
            | CommandKind::CycleFocusWorkspace
            | CommandKind::FocusMonitorNumber
            | CommandKind::FocusWorkspaceNumber
            | CommandKind::FocusMonitorWorkspaceNumber
            | CommandKind::ContainerPadding
            | CommandKind::WorkspacePadding
            | CommandKind::WorkspaceTiling
            | CommandKind::WorkspaceName
            | CommandKind::WorkspaceLayout
            | CommandKind::WorkspaceLayoutCustom => true,
            _ => false,
        }
    }

    /// Reads one of the monitor and workspace commands from its arguments.
    fn build_monitor_command(kind: CommandKind, content: &Json) -> (message: Option<
        SocketMessage,
    >)
        requires
            Self::is_monitor_command(kind),
        ensures
            match message {
                Some(message) => message.spec_kind() == kind && message.content() == Some(
                    content@,
                ),
                None => forall|other: SocketMessage|
                    #[trigger] other.spec_kind() == kind ==> other.content() != Some(content@),
            },
    {
        match kind {
            CommandKind::EnsureWorkspaces => match content.as_pair() {
                Some((first, second)) => match (
                    first.as_index(),
                    second.as_index(),
                ) {
                    (Some(monitor_idx), Some(workspace_count)) => Some(
                        SocketMessage::EnsureWorkspaces(monitor_idx, workspace_count),
                    ),
                    _ => None,
                },
                None => None,
            },
            CommandKind::Save => match content.as_text() {
                Some(path) => Some(SocketMessage::Save(path.to_owned())),
                None => None,
            },
            CommandKind::Load => match content.as_text() {
                Some(path) => Some(SocketMessage::Load(path.to_owned())),
                None => None,
            },
            CommandKind::CycleFocusMonitor => match CycleDirection::from_json(content) {
                Some(direction) => Some(SocketMessage::CycleFocusMonitor(direction)),
                None => None,
            },
            CommandKind::CycleFocusWorkspace => match CycleDirection::from_json(content) {
                Some(direction) => Some(SocketMessage::CycleFocusWorkspace(direction)),
                None => None,
            },
            CommandKind::FocusMonitorNumber => match content.as_index() {
                Some(monitor_idx) => Some(SocketMessage::FocusMonitorNumber(monitor_idx)),
                None => None,
            },
            CommandKind::FocusWorkspaceNumber => match content.as_index() {
                Some(workspace_idx) => Some(SocketMessage::FocusWorkspaceNumber(workspace_idx)),
                None => None,
            },
            CommandKind::FocusMonitorWorkspaceNumber => match content.as_pair() {
                Some((first, second)) => match (
                    first.as_index(),
                    second.as_index(),
                ) {
                    (Some(monitor_idx), Some(workspace_idx)) => Some(
                        SocketMessage::FocusMonitorWorkspaceNumber(monitor_idx, workspace_idx),
                    ),
                    _ => None,
                },
                None => None,
            },
            CommandKind::ContainerPadding => match content.as_triple() {
                Some((first, second, third)) => match (
                    first.as_index(),
                    second.as_index(),
                    third.as_int(),
                ) {
                    (Some(monitor_idx), Some(workspace_idx), Some(padding)) => Some(
                        SocketMessage::ContainerPadding(monitor_idx, workspace_idx, padding),
                    ),
                    _ => None,
                },
                None => None,
            },
            CommandKind::WorkspacePadding => match content.as_triple() {
                Some((first, second, third)) => match (
                    first.as_index(),
                    second.as_index(),
                    third.as_int(),
                ) {
                    (Some(monitor_idx), Some(workspace_idx), Some(padding)) => Some(
                        SocketMessage::WorkspacePadding(monitor_idx, workspace_idx, padding),
                    ),
                    _ => None,
                },
                None => None,
            },
            CommandKind::WorkspaceTiling => match content.as_triple() {
                Some((first, second, third)) => match (
                    first.as_index(),
                    second.as_index(),
                    third.as_flag(),
                ) {
                    (Some(monitor_idx), Some(workspace_idx), Some(tile)) => Some(
                        SocketMessage::WorkspaceTiling(monitor_idx, workspace_idx, tile),
                    ),
                    _ => None,
                },
                None => None,
            },
            CommandKind::WorkspaceName => match content.as_triple() {
                Some((first, second, third)) => match (
                    first.as_index(),
                    second.as_index(),
                    third.as_text(),
                ) {
                    (Some(monitor_idx), Some(workspace_idx), Some(name)) => Some(
                        SocketMessage::WorkspaceName(monitor_idx, workspace_idx, name.to_owned()),
                    ),
                    _ => None,
                },
                None => None,
            },
            CommandKind::WorkspaceLayout => match content.as_triple() {
                Some((first, second, third)) => match (
                    first.as_index(),
                    second.as_index(),
                    DefaultLayout::from_json(third),
                ) {
                    (Some(monitor_idx), Some(workspace_idx), Some(layout)) => Some(
                        SocketMessage::WorkspaceLayout(monitor_idx, workspace_idx, layout),
                    ),
                    _ => None,
                },
                None => None,
            },
            CommandKind::WorkspaceLayoutCustom => match content.as_triple() {
                Some((first, second, third)) => match (
                    first.as_index(),
                    second.as_index(),
                    third.as_text(),
                ) {
                    (Some(monitor_idx), Some(workspace_idx), Some(path)) => Some(
                        SocketMessage::WorkspaceLayoutCustom(monitor_idx, workspace_idx, path.to_owned()),
                    ),
                    _ => None,
                },
                None => None,
            },
            _ => None,
        }
    }

    /// Whether `kind` is one of the configuration commands that take
    /// arguments.
    pub open spec fn is_configuration_command(kind: CommandKind) -> bool {
        match kind {
            CommandKind::WatchConfiguration
            | CommandKind::InvisibleBorders
            | CommandKind::WorkAreaOffset
            | CommandKind::ResizeDelta
            | CommandKind::WorkspaceRule
            | CommandKind::FloatRule
            | CommandKind::ManageRule
            | CommandKind::IdentifyTrayApplication
            | CommandKind::IdentifyBorderOverflow
            | CommandKind::Query
            | CommandKind::FocusFollowsMouse
            | CommandKind::ToggleFocusFollowsMouse
            | CommandKind::MouseFollowsFocus
            | CommandKind::AddSubscriber
            | CommandKind::RemoveSubscriber => true,
            _ => false,
        }
    }

    /// Reads one of the configuration commands from its arguments.
    fn build_configuration_command(kind: CommandKind, content: &Json) -> (message: Option<
        SocketMessage,
    >)
        requires
            Self::is_configuration_command(kind),
        ensures
            match message {
                Some(message) => message.spec_kind() == kind && message.content() == Some(
                    content@,
                ),
                None => forall|other: SocketMessage|
                    #[trigger] other.spec_kind() == kind ==> other.content() != Some(content@),
            },
    {
        match kind {
            CommandKind::WatchConfiguration => match content.as_flag() {
                Some(watch) => Some(SocketMessage::WatchConfiguration(watch)),
                None => None,
            },
            CommandKind::InvisibleBorders => match Rect::from_json(content) {
                Some(borders) => Some(SocketMessage::InvisibleBorders(borders)),
                None => None,
            },
            CommandKind::WorkAreaOffset => match Rect::from_json(content) {
                Some(offset) => Some(SocketMessage::WorkAreaOffset(offset)),
                None => None,
            },
            CommandKind::ResizeDelta => match content.as_int() {
                Some(delta) => Some(SocketMessage::ResizeDelta(delta)),
                None => None,
            },
            CommandKind::WorkspaceRule => match content.as_quad() {
                Some((first, second, third, fourth)) => match (
                    ApplicationIdentifier::from_json(first),
                    second.as_text(),
                    third.as_index(),
                    fourth.as_index(),
                ) {
                    (Some(identifier), Some(id), Some(monitor_idx), Some(workspace_idx)) => Some(
                        SocketMessage::WorkspaceRule(identifier, id.to_owned(), monitor_idx, workspace_idx),
                    ),
                    _ => None,
                },
                None => None,
            },
            CommandKind::FloatRule => match content.as_pair() {
                Some((first, second)) => match (
                    ApplicationIdentifier::from_json(first),
                    second.as_text(),
                ) {
                    (Some(identifier), Some(id)) => Some(
                        SocketMessage::FloatRule(identifier, id.to_owned()),
                    ),
                    _ => None,
                },
                None => None,
            },
            CommandKind::ManageRule => match content.as_pair() {
                Some((first, second)) => match (
                    ApplicationIdentifier::from_json(first),
                    second.as_text(),
                ) {
                    (Some(identifier), Some(id)) => Some(
                        SocketMessage::ManageRule(identifier, id.to_owned()),
                    ),
                    _ => None,
                },
                None => None,
            },
            CommandKind::IdentifyTrayApplication => match content.as_pair() {
                Some((first, second)) => match (
                    ApplicationIdentifier::from_json(first),
                    second.as_text(),
                ) {
                    (Some(identifier), Some(id)) => Some(
                        SocketMessage::IdentifyTrayApplication(identifier, id.to_owned()),
                    ),
                    _ => None,
                },
                None => None,
            },
            CommandKind::IdentifyBorderOverflow => match content.as_pair() {
                Some((first, second)) => match (
                    ApplicationIdentifier::from_json(first),
                    second.as_text(),
                ) {
                    (Some(identifier), Some(id)) => Some(
                        SocketMessage::IdentifyBorderOverflow(identifier, id.to_owned()),
                    ),
                    _ => None,
                },
                None => None,
            },
            CommandKind::Query => match StateQuery::from_json(content) {
                Some(query) => Some(SocketMessage::Query(query)),
                None => None,
            },
            CommandKind::FocusFollowsMouse => match content.as_pair() {
                Some((first, second)) => match (
                    FocusFollowsMouseImplementation::from_json(first),
                    second.as_flag(),
                ) {
                    (Some(implementation), Some(enable)) => Some(
                        SocketMessage::FocusFollowsMouse(implementation, enable),
                    ),
                    _ => None,
                },
                None => None,
            },
            CommandKind::ToggleFocusFollowsMouse => match FocusFollowsMouseImplementation::from_json(
                content,
            ) {
                Some(implementation) =>
                    Some(SocketMessage::ToggleFocusFollowsMouse(implementation)),
                None => None,
            },
            CommandKind::MouseFollowsFocus => match content.as_flag() {
                Some(enable) => Some(SocketMessage::MouseFollowsFocus(enable)),
                None => None,
            },
            CommandKind::AddSubscriber => match content.as_text() {
                Some(name) => Some(SocketMessage::AddSubscriber(name.to_owned())),
                None => None,
            },
            CommandKind::RemoveSubscriber => match content.as_text() {
                Some(name) => Some(SocketMessage::RemoveSubscriber(name.to_owned())),
                None => None,
            },
            _ => None,
        }
    }

    /// Reads the arguments of a command of kind `kind` from `content`.
    fn build_with(kind: CommandKind, content: &Json) -> (message: Option<SocketMessage>)
        ensures
            match message {
                Some(message) => message.spec_kind() == kind && message.content() == Some(
                    content@,
                ),
                None => forall|other: SocketMessage|
                    #[trigger] other.spec_kind() == kind ==> other.content() != Some(content@),
            },
    {
        if Self::takes_window_arguments(kind) {
            Self::build_window_command(kind, content)
        } else if Self::takes_workspace_arguments(kind) {
            Self::build_workspace_command(kind, content)
        } else if Self::takes_monitor_arguments(kind) {
            Self::build_monitor_command(kind, content)
        } else if Self::takes_configuration_arguments(kind) {
            Self::build_configuration_command(kind, content)
        } else {
            None
        }
    }

    fn takes_window_arguments(kind: CommandKind) -> (within: bool)
        ensures
            within == Self::is_window_command(kind),
    {
        match kind {
            CommandKind::FocusWindow
            | CommandKind::MoveWindow
            | CommandKind::CycleFocusWindow
            | CommandKind::CycleMoveWindow
            | CommandKind::StackWindow
            | CommandKind::ResizeWindowEdge
            | CommandKind::ResizeWindowAxis
            | CommandKind::CycleStack
            | CommandKind::MoveContainerToMonitorNumber
            | CommandKind::MoveContainerToWorkspaceNumber
            | CommandKind::SendContainerToMonitorNumber
            | CommandKind::SendContainerToWorkspaceNumber
            | CommandKind::MoveWorkspaceToMonitorNumber
            | CommandKind::WindowHidingBehaviour => true,
            _ => false,
        }
    }

    fn takes_workspace_arguments(kind: CommandKind) -> (within: bool)
        ensures
            within == Self::is_workspace_command(kind),
    {
        match kind {
            CommandKind::AdjustContainerPadding
            | CommandKind::AdjustWorkspacePadding
            | CommandKind::ChangeLayout
            | CommandKind::ChangeLayoutCustom
            | CommandKind::FlipLayout => true,
            _ => false,
        }
    }

    fn takes_monitor_arguments(kind: CommandKind) -> (within: bool)
        ensures
            within == Self::is_monitor_command(kind),
    {
        match kind {
            CommandKind::EnsureWorkspaces
            | CommandKind::Save
            | CommandKind::Load
            | CommandKind::CycleFocusMonitor
            | CommandKind::CycleFocusWorkspace
            | CommandKind::FocusMonitorNumber
            | CommandKind::FocusWorkspaceNumber
            | CommandKind::FocusMonitorWorkspaceNumber
            | CommandKind::ContainerPadding
            | CommandKind::WorkspacePadding
            | CommandKind::WorkspaceTiling
            | CommandKind::WorkspaceName
            | CommandKind::WorkspaceLayout
            | CommandKind::WorkspaceLayoutCustom => true,
            _ => false,
        }
    }

    fn takes_configuration_arguments(kind: CommandKind) -> (within: bool)
        ensures
            within == Self::is_configuration_command(kind),
    {
        match kind {
            CommandKind::WatchConfiguration
            | CommandKind::InvisibleBorders
            | CommandKind::WorkAreaOffset
            | CommandKind::ResizeDelta
            | CommandKind::WorkspaceRule
            | CommandKind::FloatRule
            | CommandKind::ManageRule
            | CommandKind::IdentifyTrayApplication
            | CommandKind::IdentifyBorderOverflow
            | CommandKind::Query
            | CommandKind::FocusFollowsMouse
            | CommandKind::ToggleFocusFollowsMouse
            | CommandKind::MouseFollowsFocus
            | CommandKind::AddSubscriber
            | CommandKind::RemoveSubscriber => true,
            _ => false,
        }
    }

    /// Reads a command from the document under which it travels.
    ///
    /// A document is read as a command exactly where it is the wire form of
    /// that command: the members `type` and `content` in this order and no
    /// others, a known name, and arguments of the right number and kinds.
    pub fn from_json(json: &Json) -> (result: Result<SocketMessage, WireError>)
        ensures
            reads_as(json@, result),
    {
        let (name, content) = match unframe(json) {
            Some(parts) => parts,
            None => {
                return Err(WireError::NotACommand);
            },
        };
        let ghost content_view = match content {
            Some(content) => Some(content@),
            None => None,
        };
        assert(json@ == frame(name@, content_view));
        let kind = match CommandKind::from_name(name) {
            Some(kind) => kind,
            None => {
                assert forall|message: SocketMessage| #[trigger]
                    message.wire_form() != json@ by {
                    if message.wire_form() == json@ {
                        lemma_frame_injective(
                            message.spec_kind().wire_name(),
                            message.content(),
                            name@,
                            content_view,
                        );
                    }
                }
                return Err(WireError::NotACommand);
            },
        };
        let message = match content {
            Some(content) => Self::build_with(kind, content),
            None => Self::build_bare(kind),
        };
        match message {
            Some(message) => Ok(message),
            None => {
                assert forall|other: SocketMessage| #[trigger] other.wire_form() != json@ by {
                    if other.wire_form() == json@ {
                        lemma_frame_injective(
                            other.spec_kind().wire_name(),
                            other.content(),
                            name@,
                            content_view,
                        );
                        other.spec_kind().lemma_names_differ(kind);
                    }
                }
                Err(WireError::NotACommand)
            },
        }
    }

    /// The bytes under which the command travels: the compact JSON text of
    /// its wire form, in UTF-8. Fails exactly where `serde_json` has no text
    /// for the wire form.
    pub fn as_bytes(&self) -> (result: Result<Vec<u8>, WireError>)
        ensures
            match result {
                Ok(bytes) => {
                    &&& text_of_json(self.wire_form()) is Some
                    &&& bytes@ == encode_utf8(text_of_json(self.wire_form()).unwrap())
                },
                Err(error) => {
                    &&& error == WireError::NotWritten
                    &&& text_of_json(self.wire_form()) is None
                },
            },
    {
        match self.to_json().render() {
            Some(text) => Ok(text.as_str().as_bytes_vec()),
            None => Err(WireError::NotWritten),
        }
    }

    /// Reads a command from JSON text.
    pub fn from_text(text: &str) -> (result: Result<SocketMessage, WireError>)
        ensures
            match json_of_text(text@) {
                Some(json) => reads_as(json, result),
                None => result == Err::<SocketMessage, WireError>(WireError::NotJson),
            },
    {
        match Json::parse(text) {
            Some(json) => Self::from_json(&json),
            None => Err(WireError::NotJson),
        }
    }

    /// Two commands with one wire form are the same command with the same
    /// arguments.
    pub proof fn lemma_wire_form_injective(self, other: SocketMessage)
        requires
            self.wire_form() == other.wire_form(),
        ensures
            self@ == other@,
    {
        lemma_frame_injective(
            self.spec_kind().wire_name(),
            self.content(),
            other.spec_kind().wire_name(),
            other.content(),
        );
        self.spec_kind().lemma_names_differ(other.spec_kind());
    }

    /// Reading the wire form of a command gives that command back.
    pub proof fn lemma_reading_inverts_writing(self, result: Result<SocketMessage, WireError>)
        requires
            reads_as(self.wire_form(), result),
        ensures
            result is Ok,
            result.unwrap()@ == self@,
    {
        match result {
            Ok(message) => {
                message.lemma_wire_form_injective(self);
            },
            Err(_) => {
                assert(self.wire_form() != self.wire_form());
            },
        }
    }
}

impl Clone for SocketMessage {
    fn clone(&self) -> (copy: SocketMessage)
        ensures
            copy == *self,
    {
        match self {
            SocketMessage::FocusWindow(direction) => SocketMessage::FocusWindow(*direction),
            SocketMessage::MoveWindow(direction) => SocketMessage::MoveWindow(*direction),
            SocketMessage::CycleFocusWindow(direction) => SocketMessage::CycleFocusWindow(
                *direction,
            ),
            SocketMessage::CycleMoveWindow(direction) => SocketMessage::CycleMoveWindow(*direction),
            SocketMessage::StackWindow(direction) => SocketMessage::StackWindow(*direction),
            SocketMessage::ResizeWindowEdge(edge, sizing) => SocketMessage::ResizeWindowEdge(
                *edge,
                *sizing,
            ),
            SocketMessage::ResizeWindowAxis(axis, sizing) => SocketMessage::ResizeWindowAxis(
                *axis,
                *sizing,
            ),
            SocketMessage::UnstackWindow => SocketMessage::UnstackWindow,
            SocketMessage::CycleStack(direction) => SocketMessage::CycleStack(*direction),
            SocketMessage::MoveContainerToMonitorNumber(monitor_idx) =>
                SocketMessage::MoveContainerToMonitorNumber(
                    *monitor_idx,
                ),
            SocketMessage::MoveContainerToWorkspaceNumber(workspace_idx) =>
                SocketMessage::MoveContainerToWorkspaceNumber(
                    *workspace_idx,
                ),
            SocketMessage::SendContainerToMonitorNumber(monitor_idx) =>
                SocketMessage::SendContainerToMonitorNumber(
                    *monitor_idx,
                ),
            SocketMessage::SendContainerToWorkspaceNumber(workspace_idx) =>
                SocketMessage::SendContainerToWorkspaceNumber(
                    *workspace_idx,
                ),
            SocketMessage::MoveWorkspaceToMonitorNumber(monitor_idx) =>
                SocketMessage::MoveWorkspaceToMonitorNumber(
                    *monitor_idx,
                ),
            SocketMessage::Promote => SocketMessage::Promote,
            SocketMessage::ToggleFloat => SocketMessage::ToggleFloat,
            SocketMessage::ToggleMonocle => SocketMessage::ToggleMonocle,
            SocketMessage::ToggleMaximize => SocketMessage::ToggleMaximize,
            SocketMessage::ToggleWindowContainerBehaviour =>
                SocketMessage::ToggleWindowContainerBehaviour,
            SocketMessage::WindowHidingBehaviour(behaviour) => SocketMessage::WindowHidingBehaviour(
                *behaviour,
            ),
            SocketMessage::ManageFocusedWindow => SocketMessage::ManageFocusedWindow,
            SocketMessage::UnmanageFocusedWindow => SocketMessage::UnmanageFocusedWindow,
            SocketMessage::AdjustContainerPadding(sizing, adjustment) =>
                SocketMessage::AdjustContainerPadding(
                    *sizing,
                    *adjustment,
                ),
            SocketMessage::AdjustWorkspacePadding(sizing, adjustment) =>
                SocketMessage::AdjustWorkspacePadding(
                    *sizing,
                    *adjustment,
                ),
            SocketMessage::ChangeLayout(layout) => SocketMessage::ChangeLayout(*layout),
            SocketMessage::ChangeLayoutCustom(path) => SocketMessage::ChangeLayoutCustom(
                path.clone(),
            ),
            SocketMessage::FlipLayout(axis) => SocketMessage::FlipLayout(*axis),
            SocketMessage::EnsureWorkspaces(monitor_idx, workspace_count) =>
                SocketMessage::EnsureWorkspaces(
                    *monitor_idx,
                    *workspace_count,
                ),
            SocketMessage::NewWorkspace => SocketMessage::NewWorkspace,
            SocketMessage::ToggleTiling => SocketMessage::ToggleTiling,
            SocketMessage::Stop => SocketMessage::Stop,
            SocketMessage::TogglePause => SocketMessage::TogglePause,
            SocketMessage::Retile => SocketMessage::Retile,
            SocketMessage::QuickSave => SocketMessage::QuickSave,
            SocketMessage::QuickLoad => SocketMessage::QuickLoad,
            SocketMessage::Save(path) => SocketMessage::Save(path.clone()),
            SocketMessage::Load(path) => SocketMessage::Load(path.clone()),
            SocketMessage::CycleFocusMonitor(direction) => SocketMessage::CycleFocusMonitor(
                *direction,
            ),
            SocketMessage::CycleFocusWorkspace(direction) => SocketMessage::CycleFocusWorkspace(
                *direction,
            ),
            SocketMessage::FocusMonitorNumber(monitor_idx) => SocketMessage::FocusMonitorNumber(
                *monitor_idx,
            ),
            SocketMessage::FocusWorkspaceNumber(workspace_idx) =>
                SocketMessage::FocusWorkspaceNumber(
                    *workspace_idx,
                ),
            SocketMessage::FocusMonitorWorkspaceNumber(monitor_idx, workspace_idx) =>
                SocketMessage::FocusMonitorWorkspaceNumber(
                    *monitor_idx,
                    *workspace_idx,
                ),
            SocketMessage::ContainerPadding(monitor_idx, workspace_idx, padding) =>
                SocketMessage::ContainerPadding(
                    *monitor_idx,
                    *workspace_idx,
                    *padding,
                ),
            SocketMessage::WorkspacePadding(monitor_idx, workspace_idx, padding) =>
                SocketMessage::WorkspacePadding(
                    *monitor_idx,
                    *workspace_idx,
                    *padding,
                ),
            SocketMessage::WorkspaceTiling(monitor_idx, workspace_idx, tile) =>
                SocketMessage::WorkspaceTiling(
                    *monitor_idx,
                    *workspace_idx,
                    *tile,
                ),
            SocketMessage::WorkspaceName(monitor_idx, workspace_idx, name) =>
                SocketMessage::WorkspaceName(
                    *monitor_idx,
                    *workspace_idx,
                    name.clone(),
                ),
            SocketMessage::WorkspaceLayout(monitor_idx, workspace_idx, layout) =>
                SocketMessage::WorkspaceLayout(
                    *monitor_idx,
                    *workspace_idx,
                    *layout,
                ),
            SocketMessage::WorkspaceLayoutCustom(monitor_idx, workspace_idx, path) =>
                SocketMessage::WorkspaceLayoutCustom(
                    *monitor_idx,
                    *workspace_idx,
                    path.clone(),
                ),
            SocketMessage::ReloadConfiguration => SocketMessage::ReloadConfiguration,
            SocketMessage::WatchConfiguration(watch) => SocketMessage::WatchConfiguration(*watch),
            SocketMessage::InvisibleBorders(borders) => SocketMessage::InvisibleBorders(*borders),
            SocketMessage::WorkAreaOffset(offset) => SocketMessage::WorkAreaOffset(*offset),
            SocketMessage::ResizeDelta(delta) => SocketMessage::ResizeDelta(*delta),
            SocketMessage::WorkspaceRule(identifier, id, monitor_idx, workspace_idx) =>
                SocketMessage::WorkspaceRule(
                    *identifier,
                    id.clone(),
                    *monitor_idx,
                    *workspace_idx,
                ),
            SocketMessage::FloatRule(identifier, id) => SocketMessage::FloatRule(
                *identifier,
                id.clone(),
            ),
            SocketMessage::ManageRule(identifier, id) => SocketMessage::ManageRule(
                *identifier,
                id.clone(),
            ),
            SocketMessage::IdentifyTrayApplication(identifier, id) =>
                SocketMessage::IdentifyTrayApplication(
                    *identifier,
                    id.clone(),
                ),
            SocketMessage::IdentifyBorderOverflow(identifier, id) =>
                SocketMessage::IdentifyBorderOverflow(
                    *identifier,
                    id.clone(),
                ),
            SocketMessage::State => SocketMessage::State,
            SocketMessage::Query(query) => SocketMessage::Query(*query),
            SocketMessage::FocusFollowsMouse(implementation, enable) =>
                SocketMessage::FocusFollowsMouse(
                    *implementation,
                    *enable,
                ),
            SocketMessage::ToggleFocusFollowsMouse(implementation) =>
                SocketMessage::ToggleFocusFollowsMouse(
                    *implementation,
                ),
            SocketMessage::MouseFollowsFocus(enable) => SocketMessage::MouseFollowsFocus(*enable),
            SocketMessage::ToggleMouseFollowsFocus => SocketMessage::ToggleMouseFollowsFocus,
            SocketMessage::AddSubscriber(name) => SocketMessage::AddSubscriber(name.clone()),
            SocketMessage::RemoveSubscriber(name) => SocketMessage::RemoveSubscriber(name.clone()),
        }
    }
}

impl FromStr for SocketMessage {
    type Err = WireError;

    /// Reads a command from JSON text, as [`SocketMessage::from_text`] does.
    fn from_str(s: &str) -> (result: Result<SocketMessage, WireError>)
        ensures
            match json_of_text(s@) {
                Some(json) => reads_as(json, result),
                None => result == Err::<SocketMessage, WireError>(WireError::NotJson),
            },
    {
        SocketMessage::from_text(s)
    }
}

} // verus!

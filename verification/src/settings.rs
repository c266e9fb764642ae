//! Choices that commands make among named alternatives.

use crate::json::{Json, JsonView};
use crate::text::same_text;
use vstd::prelude::*;

verus! {

/// A question about the focused element at one level of the hierarchy.
#[derive(Clone, Copy, Debug, PartialEq, Eq, Structural)]
pub enum StateQuery {
    FocusedMonitorIndex,
    FocusedWorkspaceIndex,
    FocusedContainerIndex,
    FocusedWindowIndex,
}

impl StateQuery {
    /// The name under which the query travels.
    pub open spec fn wire_name(self) -> Seq<char> {
        match self {
            StateQuery::FocusedMonitorIndex => "FocusedMonitorIndex"@,
            StateQuery::FocusedWorkspaceIndex => "FocusedWorkspaceIndex"@,
            StateQuery::FocusedContainerIndex => "FocusedContainerIndex"@,
            StateQuery::FocusedWindowIndex => "FocusedWindowIndex"@,
        }
    }

    /// The document of the query: its name as a text.
    pub open spec fn json(self) -> JsonView {
        JsonView::Text(self.wire_name())
    }

    pub fn name(&self) -> (name: &'static str)
        ensures
            name@ == self.wire_name(),
    {
        match self {
            StateQuery::FocusedMonitorIndex => "FocusedMonitorIndex",
            StateQuery::FocusedWorkspaceIndex => "FocusedWorkspaceIndex",
            StateQuery::FocusedContainerIndex => "FocusedContainerIndex",
            StateQuery::FocusedWindowIndex => "FocusedWindowIndex",
        }
    }

    /// The query of that name, if there is one.
    pub fn from_name(name: &str) -> (value: Option<StateQuery>)
        ensures
            match value {
                Some(value) => value.wire_name() == name@,
                None => forall|other: StateQuery| #[trigger] other.wire_name() != name@,
            },
    {
        if same_text(name, "FocusedMonitorIndex") {
            Some(StateQuery::FocusedMonitorIndex)
        } else if same_text(name, "FocusedWorkspaceIndex") {
            Some(StateQuery::FocusedWorkspaceIndex)
        } else if same_text(name, "FocusedContainerIndex") {
            Some(StateQuery::FocusedContainerIndex)
        } else if same_text(name, "FocusedWindowIndex") {
            Some(StateQuery::FocusedWindowIndex)
        } else {
            None
        }
    }

    pub fn to_json(&self) -> (json: Json)
        ensures
            json@ == self.json(),
            json@.renderable(),
    {
        Json::text(self.name())
    }

    /// Reads the query from its document.
    pub fn from_json(json: &Json) -> (value: Option<StateQuery>)
        ensures
            match value {
                Some(value) => json@ == value.json(),
                None => forall|other: StateQuery| json@ != #[trigger] other.json(),
            },
    {
        match json.as_text() {
            Some(name) => StateQuery::from_name(name),
            None => None,
        }
    }

    /// No two variants travel under one name.
    pub proof fn lemma_names_differ(self, other: StateQuery)
        requires
            self.wire_name() == other.wire_name(),
        ensures
            self == other,
    {
        reveal_strlit("FocusedMonitorIndex");
        reveal_strlit("FocusedWorkspaceIndex");
        reveal_strlit("FocusedContainerIndex");
        reveal_strlit("FocusedWindowIndex");
        assert("FocusedMonitorIndex"@.len() == 19);
        assert("FocusedWorkspaceIndex"@.len() == 21);
        assert("FocusedWorkspaceIndex"@[7] == 'W');
        assert("FocusedContainerIndex"@.len() == 21);
        assert("FocusedContainerIndex"@[7] == 'C');
        assert("FocusedWindowIndex"@.len() == 18);
    }
}

/// The string of a window by which a rule recognises an application.
#[derive(Clone, Copy, Debug, PartialEq, Eq, Structural)]
pub enum ApplicationIdentifier {
    Exe,
    Class,
    Title,
}

impl ApplicationIdentifier {
    /// The name under which the identifier travels.
    pub open spec fn wire_name(self) -> Seq<char> {
        match self {
            ApplicationIdentifier::Exe => "Exe"@,
            ApplicationIdentifier::Class => "Class"@,
            ApplicationIdentifier::Title => "Title"@,
        }
    }

    /// The document of the identifier: its name as a text.
    pub open spec fn json(self) -> JsonView {
        JsonView::Text(self.wire_name())
    }

    pub fn name(&self) -> (name: &'static str)
        ensures
            name@ == self.wire_name(),
    {
        match self {
            ApplicationIdentifier::Exe => "Exe",
            ApplicationIdentifier::Class => "Class",
            ApplicationIdentifier::Title => "Title",
        }
    }

    /// The identifier of that name, if there is one.
    pub fn from_name(name: &str) -> (value: Option<ApplicationIdentifier>)
        ensures
            match value {
                Some(value) => value.wire_name() == name@,
                None => forall|other: ApplicationIdentifier| #[trigger] other.wire_name() != name@,
            },
    {
        if same_text(name, "Exe") {
            Some(ApplicationIdentifier::Exe)
        } else if same_text(name, "Class") {
            Some(ApplicationIdentifier::Class)
        } else if same_text(name, "Title") {
            Some(ApplicationIdentifier::Title)
        } else {
            None
        }
    }

    pub fn to_json(&self) -> (json: Json)
        ensures
            json@ == self.json(),
            json@.renderable(),
    {
        Json::text(self.name())
    }

    /// Reads the identifier from its document.
    pub fn from_json(json: &Json) -> (value: Option<ApplicationIdentifier>)
        ensures
            match value {
                Some(value) => json@ == value.json(),
                None => forall|other: ApplicationIdentifier| json@ != #[trigger] other.json(),
            },
    {
        match json.as_text() {
            Some(name) => ApplicationIdentifier::from_name(name),
            None => None,
        }
    }

    /// No two variants travel under one name.
    pub proof fn lemma_names_differ(self, other: ApplicationIdentifier)
        requires
            self.wire_name() == other.wire_name(),
        ensures
            self == other,
    {
        reveal_strlit("Exe");
        reveal_strlit("Class");
        reveal_strlit("Title");
        assert("Exe"@.len() == 3);
        assert("Class"@.len() == 5);
        assert("Class"@[0] == 'C');
        assert("Title"@.len() == 5);
        assert("Title"@[0] == 'T');
    }
}

/// Who moves focus to the window under the cursor.
#[derive(Clone, Copy, Debug, PartialEq, Eq, Structural)]
pub enum FocusFollowsMouseImplementation {
    Komorebi,
    Windows,
}

impl FocusFollowsMouseImplementation {
    /// The name under which the implementation travels.
    pub open spec fn wire_name(self) -> Seq<char> {
        match self {
            FocusFollowsMouseImplementation::Komorebi => "Komorebi"@,
            FocusFollowsMouseImplementation::Windows => "Windows"@,
        }
    }

    /// The document of the implementation: its name as a text.
    pub open spec fn json(self) -> JsonView {
        JsonView::Text(self.wire_name())
    }

    pub fn name(&self) -> (name: &'static str)
        ensures
            name@ == self.wire_name(),
    {
        match self {
            FocusFollowsMouseImplementation::Komorebi => "Komorebi",
            FocusFollowsMouseImplementation::Windows => "Windows",
        }
    }

    /// The implementation of that name, if there is one.
    pub fn from_name(name: &str) -> (value: Option<FocusFollowsMouseImplementation>)
        ensures
            match value {
                Some(value) => value.wire_name() == name@,
                None => forall|other: FocusFollowsMouseImplementation| #[trigger] other.wire_name() != name@,
            },
    {
        if same_text(name, "Komorebi") {
            Some(FocusFollowsMouseImplementation::Komorebi)
        } else if same_text(name, "Windows") {
            Some(FocusFollowsMouseImplementation::Windows)
        } else {
            None
        }
    }

    pub fn to_json(&self) -> (json: Json)
        ensures
            json@ == self.json(),
            json@.renderable(),
    {
        Json::text(self.name())
    }

    /// Reads the implementation from its document.
    pub fn from_json(json: &Json) -> (value: Option<FocusFollowsMouseImplementation>)
        ensures
            match value {
                Some(value) => json@ == value.json(),
                None => forall|other: FocusFollowsMouseImplementation| json@ != #[trigger] other.json(),
            },
    {
        match json.as_text() {
            Some(name) => FocusFollowsMouseImplementation::from_name(name),
            None => None,
        }
    }

    /// No two variants travel under one name.
    pub proof fn lemma_names_differ(self, other: FocusFollowsMouseImplementation)
        requires
            self.wire_name() == other.wire_name(),
        ensures
            self == other,
    {
        reveal_strlit("Komorebi");
        reveal_strlit("Windows");
        assert("Komorebi"@.len() == 8);
        assert("Windows"@.len() == 7);
    }
}

/// Where a new window goes: into a container of its own, or onto the
/// focused container.
#[derive(Clone, Copy, Debug, PartialEq, Eq, Structural)]
pub enum WindowContainerBehaviour {
    Create,
    Append,
}

impl WindowContainerBehaviour {
    /// The name under which the behaviour travels.
    pub open spec fn wire_name(self) -> Seq<char> {
        match self {
            WindowContainerBehaviour::Create => "Create"@,
            WindowContainerBehaviour::Append => "Append"@,
        }
    }

    /// The document of the behaviour: its name as a text.
    pub open spec fn json(self) -> JsonView {
        JsonView::Text(self.wire_name())
    }

    pub fn name(&self) -> (name: &'static str)
        ensures
            name@ == self.wire_name(),
    {
        match self {
            WindowContainerBehaviour::Create => "Create",
            WindowContainerBehaviour::Append => "Append",
        }
    }

    /// The behaviour of that name, if there is one.
    pub fn from_name(name: &str) -> (value: Option<WindowContainerBehaviour>)
        ensures
            match value {
                Some(value) => value.wire_name() == name@,
                None => forall|other: WindowContainerBehaviour| #[trigger] other.wire_name() != name@,
            },
    {
        if same_text(name, "Create") {
            Some(WindowContainerBehaviour::Create)
        } else if same_text(name, "Append") {
            Some(WindowContainerBehaviour::Append)
        } else {
            None
        }
    }

    pub fn to_json(&self) -> (json: Json)
        ensures
            json@ == self.json(),
            json@.renderable(),
    {
        Json::text(self.name())
    }

    /// Reads the behaviour from its document.
    pub fn from_json(json: &Json) -> (value: Option<WindowContainerBehaviour>)
        ensures
            match value {
                Some(value) => json@ == value.json(),
                None => forall|other: WindowContainerBehaviour| json@ != #[trigger] other.json(),
            },
    {
        match json.as_text() {
            Some(name) => WindowContainerBehaviour::from_name(name),
            None => None,
        }
    }

    /// No two variants travel under one name.
    pub proof fn lemma_names_differ(self, other: WindowContainerBehaviour)
        requires
            self.wire_name() == other.wire_name(),
        ensures
            self == other,
    {
        reveal_strlit("Create");
        reveal_strlit("Append");
        assert("Create"@.len() == 6);
        assert("Create"@[0] == 'C');
        assert("Append"@.len() == 6);
        assert("Append"@[0] == 'A');
    }
}

/// How the windows of a workspace leave the screen.
#[derive(Clone, Copy, Debug, PartialEq, Eq, Structural)]
pub enum HidingBehaviour {
    Hide,
    Minimize,
}

impl HidingBehaviour {
    /// The name under which the behaviour travels.
    pub open spec fn wire_name(self) -> Seq<char> {
        match self {
            HidingBehaviour::Hide => "Hide"@,
            HidingBehaviour::Minimize => "Minimize"@,
        }
    }

    /// The document of the behaviour: its name as a text.
    pub open spec fn json(self) -> JsonView {
        JsonView::Text(self.wire_name())
    }

    pub fn name(&self) -> (name: &'static str)
        ensures
            name@ == self.wire_name(),
    {
        match self {
            HidingBehaviour::Hide => "Hide",
            HidingBehaviour::Minimize => "Minimize",
        }
    }

    /// The behaviour of that name, if there is one.
    pub fn from_name(name: &str) -> (value: Option<HidingBehaviour>)
        ensures
            match value {
                Some(value) => value.wire_name() == name@,
                None => forall|other: HidingBehaviour| #[trigger] other.wire_name() != name@,
            },
    {
        if same_text(name, "Hide") {
            Some(HidingBehaviour::Hide)
        } else if same_text(name, "Minimize") {
            Some(HidingBehaviour::Minimize)
        } else {
            None
        }
    }

    pub fn to_json(&self) -> (json: Json)
        ensures
            json@ == self.json(),
            json@.renderable(),
    {
        Json::text(self.name())
    }

    /// Reads the behaviour from its document.
    pub fn from_json(json: &Json) -> (value: Option<HidingBehaviour>)
        ensures
            match value {
                Some(value) => json@ == value.json(),
                None => forall|other: HidingBehaviour| json@ != #[trigger] other.json(),
            },
    {
        match json.as_text() {
            Some(name) => HidingBehaviour::from_name(name),
            None => None,
        }
    }

    /// No two variants travel under one name.
    pub proof fn lemma_names_differ(self, other: HidingBehaviour)
        requires
            self.wire_name() == other.wire_name(),
        ensures
            self == other,
    {
        reveal_strlit("Hide");
        reveal_strlit("Minimize");
        assert("Hide"@.len() == 4);
        assert("Minimize"@.len() == 8);
    }
}
} // verus!

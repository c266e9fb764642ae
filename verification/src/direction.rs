//! Directions of movement, cycling and flipping.

use crate::json::{Json, JsonView};
use crate::text::same_text;
use vstd::prelude::*;

verus! {

/// A direction on screen in which focus or a window moves.
#[derive(Clone, Copy, Debug, PartialEq, Eq, Structural)]
pub enum OperationDirection {
    Left,
    Right,
    Up,
    Down,
}

impl OperationDirection {
    /// The name under which the direction travels.
    pub open spec fn wire_name(self) -> Seq<char> {
        match self {
            OperationDirection::Left => "Left"@,
            OperationDirection::Right => "Right"@,
            OperationDirection::Up => "Up"@,
            OperationDirection::Down => "Down"@,
        }
    }

    /// The document of the direction: its name as a text.
    pub open spec fn json(self) -> JsonView {
        JsonView::Text(self.wire_name())
    }

    pub fn name(&self) -> (name: &'static str)
        ensures
            name@ == self.wire_name(),
    {
        match self {
            OperationDirection::Left => "Left",
            OperationDirection::Right => "Right",
            OperationDirection::Up => "Up",
            OperationDirection::Down => "Down",
        }
    }

    /// The direction of that name, if there is one.
    pub fn from_name(name: &str) -> (value: Option<OperationDirection>)
        ensures
            match value {
                Some(value) => value.wire_name() == name@,
                None => forall|other: OperationDirection| #[trigger] other.wire_name() != name@,
            },
    {
        if same_text(name, "Left") {
            Some(OperationDirection::Left)
        } else if same_text(name, "Right") {
            Some(OperationDirection::Right)
        } else if same_text(name, "Up") {
            Some(OperationDirection::Up)
        } else if same_text(name, "Down") {
            Some(OperationDirection::Down)
        } else {
            None
        }
    }

    pub fn to_json(&self) -> (json: Json)
        ensures
            json@ == self.json(),
            json@.renderable(),
    {
        Json::text(self.name())
    }

    /// Reads the direction from its document.
    pub fn from_json(json: &Json) -> (value: Option<OperationDirection>)
        ensures
            match value {
                Some(value) => json@ == value.json(),
                None => forall|other: OperationDirection| json@ != #[trigger] other.json(),
            },
    {
        match json.as_text() {
            Some(name) => OperationDirection::from_name(name),
            None => None,
        }
    }

    /// No two variants travel under one name.
    pub proof fn lemma_names_differ(self, other: OperationDirection)
        requires
            self.wire_name() == other.wire_name(),
        ensures
            self == other,
    {
        reveal_strlit("Left");
        reveal_strlit("Right");
        reveal_strlit("Up");
        reveal_strlit("Down");
        assert("Left"@.len() == 4);
        assert("Left"@[0] == 'L');
        assert("Right"@.len() == 5);
        assert("Up"@.len() == 2);
        assert("Down"@.len() == 4);
        assert("Down"@[0] == 'D');
    }
}

/// A step through an ordered collection.
#[derive(Clone, Copy, Debug, PartialEq, Eq, Structural)]
pub enum CycleDirection {
    Previous,
    Next,
}

impl CycleDirection {
    /// The name under which the direction travels.
    pub open spec fn wire_name(self) -> Seq<char> {
        match self {
            CycleDirection::Previous => "Previous"@,
            CycleDirection::Next => "Next"@,
        }
    }

    /// The document of the direction: its name as a text.
    pub open spec fn json(self) -> JsonView {
        JsonView::Text(self.wire_name())
    }

    pub fn name(&self) -> (name: &'static str)
        ensures
            name@ == self.wire_name(),
    {
        match self {
            CycleDirection::Previous => "Previous",
            CycleDirection::Next => "Next",
        }
    }

    /// The direction of that name, if there is one.
    pub fn from_name(name: &str) -> (value: Option<CycleDirection>)
        ensures
            match value {
                Some(value) => value.wire_name() == name@,
                None => forall|other: CycleDirection| #[trigger] other.wire_name() != name@,
            },
    {
        if same_text(name, "Previous") {
            Some(CycleDirection::Previous)
        } else if same_text(name, "Next") {
            Some(CycleDirection::Next)
        } else {
            None
        }
    }

    pub fn to_json(&self) -> (json: Json)
        ensures
            json@ == self.json(),
            json@.renderable(),
    {
        Json::text(self.name())
    }

    /// Reads the direction from its document.
    pub fn from_json(json: &Json) -> (value: Option<CycleDirection>)
        ensures
            match value {
                Some(value) => json@ == value.json(),
                None => forall|other: CycleDirection| json@ != #[trigger] other.json(),
            },
    {
        match json.as_text() {
            Some(name) => CycleDirection::from_name(name),
            None => None,
        }
    }

    /// No two variants travel under one name.
    pub proof fn lemma_names_differ(self, other: CycleDirection)
        requires
            self.wire_name() == other.wire_name(),
        ensures
            self == other,
    {
        reveal_strlit("Previous");
        reveal_strlit("Next");
        assert("Previous"@.len() == 8);
        assert("Next"@.len() == 4);
    }
}

/// The axis along which a layout is flipped or a window resized.
#[derive(Clone, Copy, Debug, PartialEq, Eq, Structural)]
pub enum Axis {
    Horizontal,
    Vertical,
    HorizontalAndVertical,
}

impl Axis {
    /// The name under which the axis travels.
    pub open spec fn wire_name(self) -> Seq<char> {
        match self {
            Axis::Horizontal => "Horizontal"@,
            Axis::Vertical => "Vertical"@,
            Axis::HorizontalAndVertical => "HorizontalAndVertical"@,
        }
    }

    /// The document of the axis: its name as a text.
    pub open spec fn json(self) -> JsonView {
        JsonView::Text(self.wire_name())
    }

    pub fn name(&self) -> (name: &'static str)
        ensures
            name@ == self.wire_name(),
    {
        match self {
            Axis::Horizontal => "Horizontal",
            Axis::Vertical => "Vertical",
            Axis::HorizontalAndVertical => "HorizontalAndVertical",
        }
    }

    /// The axis of that name, if there is one.
    pub fn from_name(name: &str) -> (value: Option<Axis>)
        ensures
            match value {
                Some(value) => value.wire_name() == name@,
                None => forall|other: Axis| #[trigger] other.wire_name() != name@,
            },
    {
        if same_text(name, "Horizontal") {
            Some(Axis::Horizontal)
        } else if same_text(name, "Vertical") {
            Some(Axis::Vertical)
        } else if same_text(name, "HorizontalAndVertical") {
            Some(Axis::HorizontalAndVertical)
        } else {
            None
        }
    }

    pub fn to_json(&self) -> (json: Json)
        ensures
            json@ == self.json(),
            json@.renderable(),
    {
        Json::text(self.name())
    }

    /// Reads the axis from its document.
    pub fn from_json(json: &Json) -> (value: Option<Axis>)
        ensures
            match value {
                Some(value) => json@ == value.json(),
                None => forall|other: Axis| json@ != #[trigger] other.json(),
            },
    {
        match json.as_text() {
            Some(name) => Axis::from_name(name),
            None => None,
        }
    }

    /// No two variants travel under one name.
    pub proof fn lemma_names_differ(self, other: Axis)
        requires
            self.wire_name() == other.wire_name(),
        ensures
            self == other,
    {
        reveal_strlit("Horizontal");
        reveal_strlit("Vertical");
        reveal_strlit("HorizontalAndVertical");
        assert("Horizontal"@.len() == 10);
        assert("Vertical"@.len() == 8);
        assert("HorizontalAndVertical"@.len() == 21);
    }
}
} // verus!

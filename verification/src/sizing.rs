//! Signed adjustments of paddings and sizes.

use crate::json::{Json, JsonView};
use crate::text::same_text;
use vstd::prelude::*;

verus! {

/// Direction of a size or padding adjustment.
#[derive(Clone, Copy, Debug, PartialEq, Eq, Structural)]
pub enum Sizing {
    Increase,
    Decrease,
}

impl Sizing {
    /// The value that [`Sizing::adjust_by`] yields, over mathematical integers.
    ///
    /// An increase adds the adjustment. A decrease subtracts it, but only from a
    /// positive value and only when the difference stays non-negative; otherwise
    /// the value is left as it is.
    pub open spec fn adjusted(self, value: int, adjustment: int) -> int {
        match self {
            Sizing::Increase => value + adjustment,
            Sizing::Decrease => if value > 0 && value - adjustment >= 0 {
                value - adjustment
            } else {
                value
            },
        }
    }

    /// Applies the adjustment to `value`.
    ///
    /// The caller bounds the operands so that the adjusted value fits in an `i32`.
    #[must_use]
    pub fn adjust_by(&self, value: i32, adjustment: i32) -> (adjusted: i32)
        requires
            i32::MIN <= self.adjusted(value as int, adjustment as int) <= i32::MAX,
        ensures
            adjusted == self.adjusted(value as int, adjustment as int),
    {
        match self {
            Sizing::Increase => value + adjustment,
            Sizing::Decrease => {
                if value > 0 && adjustment <= value {
                    value - adjustment
                } else {
                    value
                }
            },
        }
    }
}

impl Sizing {
    /// The name under which the adjustment travels.
    pub open spec fn wire_name(self) -> Seq<char> {
        match self {
            Sizing::Increase => "Increase"@,
            Sizing::Decrease => "Decrease"@,
        }
    }

    /// The document of the adjustment: its name as a text.
    pub open spec fn json(self) -> JsonView {
        JsonView::Text(self.wire_name())
    }

    pub fn name(&self) -> (name: &'static str)
        ensures
            name@ == self.wire_name(),
    {
        match self {
            Sizing::Increase => "Increase",
            Sizing::Decrease => "Decrease",
        }
    }

    /// The adjustment of that name, if there is one.
    pub fn from_name(name: &str) -> (value: Option<Sizing>)
        ensures
            match value {
                Some(value) => value.wire_name() == name@,
                None => forall|other: Sizing| #[trigger] other.wire_name() != name@,
            },
    {
        if same_text(name, "Increase") {
            Some(Sizing::Increase)
        } else if same_text(name, "Decrease") {
            Some(Sizing::Decrease)
        } else {
            None
        }
    }

    pub fn to_json(&self) -> (json: Json)
        ensures
            json@ == self.json(),
            json@.renderable(),
    {
        Json::text(self.name())
    }

    /// Reads the adjustment from its document.
    pub fn from_json(json: &Json) -> (value: Option<Sizing>)
        ensures
            match value {
                Some(value) => json@ == value.json(),
                None => forall|other: Sizing| json@ != #[trigger] other.json(),
            },
    {
        match json.as_text() {
            Some(name) => Sizing::from_name(name),
            None => None,
        }
    }

    /// No two variants travel under one name.
    pub proof fn lemma_names_differ(self, other: Sizing)
        requires
            self.wire_name() == other.wire_name(),
        ensures
            self == other,
    {
        reveal_strlit("Increase");
        reveal_strlit("Decrease");
        assert("Increase"@.len() == 8);
        assert("Increase"@[0] == 'I');
        assert("Decrease"@.len() == 8);
        assert("Decrease"@[0] == 'D');
    }
}

} // verus!

//! Built-in arrangements of tiles.

use crate::json::{Json, JsonView};
use crate::text::same_text;
use vstd::prelude::*;

verus! {

/// The built-in ways to arrange the containers of a workspace.
#[derive(Clone, Copy, Debug, PartialEq, Eq, Structural)]
pub enum DefaultLayout {
    BSP,
    Columns,
    Rows,
    VerticalStack,
    HorizontalStack,
    UltrawideVerticalStack,
}

impl DefaultLayout {
    /// The name under which the layout travels.
    pub open spec fn wire_name(self) -> Seq<char> {
        match self {
            DefaultLayout::BSP => "BSP"@,
            DefaultLayout::Columns => "Columns"@,
            DefaultLayout::Rows => "Rows"@,
            DefaultLayout::VerticalStack => "VerticalStack"@,
            DefaultLayout::HorizontalStack => "HorizontalStack"@,
            DefaultLayout::UltrawideVerticalStack => "UltrawideVerticalStack"@,
        }
    }

    /// The document of the layout: its name as a text.
    pub open spec fn json(self) -> JsonView {
        JsonView::Text(self.wire_name())
    }

    pub fn name(&self) -> (name: &'static str)
        ensures
            name@ == self.wire_name(),
    {
        match self {
            DefaultLayout::BSP => "BSP",
            DefaultLayout::Columns => "Columns",
            DefaultLayout::Rows => "Rows",
            DefaultLayout::VerticalStack => "VerticalStack",
            DefaultLayout::HorizontalStack => "HorizontalStack",
            DefaultLayout::UltrawideVerticalStack => "UltrawideVerticalStack",
        }
    }

    /// The layout of that name, if there is one.
    pub fn from_name(name: &str) -> (value: Option<DefaultLayout>)
        ensures
            match value {
                Some(value) => value.wire_name() == name@,
                None => forall|other: DefaultLayout| #[trigger] other.wire_name() != name@,
            },
    {
        if same_text(name, "BSP") {
            Some(DefaultLayout::BSP)
        } else if same_text(name, "Columns") {
            Some(DefaultLayout::Columns)
        } else if same_text(name, "Rows") {
            Some(DefaultLayout::Rows)
        } else if same_text(name, "VerticalStack") {
            Some(DefaultLayout::VerticalStack)
        } else if same_text(name, "HorizontalStack") {
            Some(DefaultLayout::HorizontalStack)
        } else if same_text(name, "UltrawideVerticalStack") {
            Some(DefaultLayout::UltrawideVerticalStack)
        } else {
            None
        }
    }

    pub fn to_json(&self) -> (json: Json)
        ensures
            json@ == self.json(),
            json@.renderable(),
    {
        Json::text(self.name())
    }

    /// Reads the layout from its document.
    pub fn from_json(json: &Json) -> (value: Option<DefaultLayout>)
        ensures
            match value {
                Some(value) => json@ == value.json(),
                None => forall|other: DefaultLayout| json@ != #[trigger] other.json(),
            },
    {
        match json.as_text() {
            Some(name) => DefaultLayout::from_name(name),
            None => None,
        }
    }

    /// No two variants travel under one name.
    pub proof fn lemma_names_differ(self, other: DefaultLayout)
        requires
            self.wire_name() == other.wire_name(),
        ensures
            self == other,
    {
        reveal_strlit("BSP");
        reveal_strlit("Columns");
        reveal_strlit("Rows");
        reveal_strlit("VerticalStack");
        reveal_strlit("HorizontalStack");
        reveal_strlit("UltrawideVerticalStack");
        assert("BSP"@.len() == 3);
        assert("Columns"@.len() == 7);
        assert("Rows"@.len() == 4);
        assert("VerticalStack"@.len() == 13);
        assert("HorizontalStack"@.len() == 15);
        assert("UltrawideVerticalStack"@.len() == 22);
    }
}
} // verus!

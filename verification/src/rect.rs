//! Screen rectangles.

use crate::json::{Json, JsonView};
use crate::text::same_text;
use vstd::prelude::*;

verus! {

/// A rectangle on screen, or a set of insets from the four edges of one.
#[derive(Clone, Copy, Debug, PartialEq, Eq, Structural)]
pub struct Rect {
    pub left: i32,
    pub top: i32,
    pub right: i32,
    pub bottom: i32,
}

impl Rect {
    /// The rectangle with all four components zero.
    pub open spec fn zero() -> Rect {
        Rect { left: 0, top: 0, right: 0, bottom: 0 }
    }

    /// Whether shrinking `self` by the insets of `offset` stays within `i32`.
    pub open spec fn offset_fits(self, offset: Rect) -> bool {
        &&& i32::MIN <= self.left + offset.left <= i32::MAX
        &&& i32::MIN <= self.top + offset.top <= i32::MAX
        &&& i32::MIN <= self.right - offset.right <= i32::MAX
        &&& i32::MIN <= self.bottom - offset.bottom <= i32::MAX
    }

    /// `self` moved in by `offset`: the origin advances by the left and top
    /// insets, the extent gives up the right and bottom insets.
    pub open spec fn inset_by(self, offset: Rect) -> Rect {
        Rect {
            left: (self.left + offset.left) as i32,
            top: (self.top + offset.top) as i32,
            right: (self.right - offset.right) as i32,
            bottom: (self.bottom - offset.bottom) as i32,
        }
    }

    /// Shrinks the rectangle by the insets of `offset`, or reports that a
    /// component would leave the range of `i32`.
    pub fn checked_inset(&self, offset: &Rect) -> (inset: Option<Rect>)
        ensures
            inset == if self.offset_fits(*offset) {
                Some(self.inset_by(*offset))
            } else {
                None
            },
    {
        let left = self.left.checked_add(offset.left);
        let top = self.top.checked_add(offset.top);
        let right = self.right.checked_sub(offset.right);
        let bottom = self.bottom.checked_sub(offset.bottom);
        match (left, top, right, bottom) {
            (Some(left), Some(top), Some(right), Some(bottom)) => Some(
                Rect { left, top, right, bottom },
            ),
            _ => None,
        }
    }
}

impl Rect {
    /// The document of the rectangle: an object of its four components by
    /// name, in the order left, top, right, bottom.
    pub open spec fn json(self) -> JsonView {
        JsonView::Object(
            seq![
                ("left"@, JsonView::number(self.left)),
                ("top"@, JsonView::number(self.top)),
                ("right"@, JsonView::number(self.right)),
                ("bottom"@, JsonView::number(self.bottom)),
            ],
        )
    }

    /// The members of the document of a rectangle, one by one.
    pub proof fn lemma_json_members(self)
        ensures
            self.json() is Object,
            self.json()->Object_0.len() == 4,
            self.json()->Object_0[0] == ("left"@, JsonView::number(self.left)),
            self.json()->Object_0[1] == ("top"@, JsonView::number(self.top)),
            self.json()->Object_0[2] == ("right"@, JsonView::number(self.right)),
            self.json()->Object_0[3] == ("bottom"@, JsonView::number(self.bottom)),
    {
    }

    pub fn to_json(&self) -> (json: Json)
        ensures
            json@ == self.json(),
            json@.renderable(),
    {
        let json = Json::Object(
            vec![
                ("left".to_owned(), Json::number(self.left)),
                ("top".to_owned(), Json::number(self.top)),
                ("right".to_owned(), Json::number(self.right)),
                ("bottom".to_owned(), Json::number(self.bottom)),
            ],
        );
        proof {
            self.lemma_json_members();
            assert(json@->Object_0 =~= self.json()->Object_0);
            reveal_strlit("left");
            reveal_strlit("top");
            reveal_strlit("right");
            reveal_strlit("bottom");
            assert("left"@.len() == 4);
            assert("top"@.len() == 3);
            assert("right"@.len() == 5);
            assert("bottom"@.len() == 6);
        }
        json
    }

    /// Reads a rectangle from its document.
    pub fn from_json(json: &Json) -> (rect: Option<Rect>)
        ensures
            match rect {
                Some(rect) => json@ == rect.json(),
                None => forall|other: Rect| json@ != #[trigger] other.json(),
            },
    {
        let members = match json {
            Json::Object(members) => members,
            _ => {
                return None;
            },
        };
        if members.len() != 4 {
            assert forall|other: Rect| json@ != #[trigger] other.json() by {
                other.lemma_json_members();
            }
            return None;
        }
        let named = same_text(members[0].0.as_str(), "left") && same_text(
            members[1].0.as_str(),
            "top",
        ) && same_text(members[2].0.as_str(), "right") && same_text(
            members[3].0.as_str(),
            "bottom",
        );
        let sides = (
            members[0].1.as_int(),
            members[1].1.as_int(),
            members[2].1.as_int(),
            members[3].1.as_int(),
        );
        match sides {
            (Some(left), Some(top), Some(right), Some(bottom)) => {
                if named {
                    let rect = Rect { left, top, right, bottom };
                    proof {
                        rect.lemma_json_members();
                        assert(json@->Object_0 =~= rect.json()->Object_0);
                    }
                    return Some(rect);
                }
            },
            _ => {},
        }
        assert forall|other: Rect| json@ != #[trigger] other.json() by {
            other.lemma_json_members();
            if json@ == other.json() {
                assert(json@->Object_0[0] == other.json()->Object_0[0]);
                assert(json@->Object_0[1] == other.json()->Object_0[1]);
                assert(json@->Object_0[2] == other.json()->Object_0[2]);
                assert(json@->Object_0[3] == other.json()->Object_0[3]);
            }
        }
        None
    }
}

impl Default for Rect {
    fn default() -> (rect: Rect)
        ensures
            rect == Rect::zero(),
    {
        Rect { left: 0, top: 0, right: 0, bottom: 0 }
    }
}

} // verus!

//! JSON documents as trees, and their text.

use vstd::prelude::*;

verus! {

/// Mathematical model of a JSON document.
pub enum JsonView {
    Null,
    Bool(bool),
    /// An integer from 0 to `u64::MAX`.
    Unsigned(u64),
    /// An integer below 0, down to `i64::MIN`.
    Negative(i64),
    /// Any other number.
    Fraction,
    Text(Seq<char>),
    List(Seq<JsonView>),
    /// The members of an object in the order of the text.
    Object(Seq<(Seq<char>, JsonView)>),
}

/// A JSON document.
#[derive(Debug, PartialEq, Eq)]
pub enum Json {
    Null,
    Bool(bool),
    /// An integer from 0 to `u64::MAX`.
    Unsigned(u64),
    /// An integer below 0, down to `i64::MIN`.
    Negative(i64),
    /// A number that is no integer of 64 bits; its value is not kept.
    Fraction,
    Text(String),
    List(Vec<Json>),
    /// The members of an object in the order of the text.
    Object(Vec<(String, Json)>),
}

impl Json {
    /// The document that the tree holds.
    pub open spec fn model(&self) -> JsonView
        decreases self,
    {
        match self {
            Json::Null => JsonView::Null,
            Json::Bool(value) => JsonView::Bool(*value),
            Json::Unsigned(value) => JsonView::Unsigned(*value),
            Json::Negative(value) => JsonView::Negative(*value),
            Json::Fraction => JsonView::Fraction,
            Json::Text(text) => JsonView::Text(text@),
            Json::List(items) => JsonView::List(
                Seq::new(
                    items.len() as nat,
                    |i: int|
                        if 0 <= i < items.len() {
                            items[i].model()
                        } else {
                            JsonView::Null
                        },
                ),
            ),
            Json::Object(members) => JsonView::Object(
                Seq::new(
                    members.len() as nat,
                    |i: int|
                        if 0 <= i < members.len() {
                            (members[i].0@, members[i].1.model())
                        } else {
                            (Seq::empty(), JsonView::Null)
                        },
                ),
            ),
        }
    }
}

impl View for Json {
    type V = JsonView;

    open spec fn view(&self) -> JsonView {
        self.model()
    }
}

impl JsonView {
    /// Whether the document is one that text can be written for and read back:
    /// it holds no fraction, every negative integer is below 0, and no object
    /// names a member twice.
    pub open spec fn renderable(self) -> bool
        decreases self,
    {
        match self {
            JsonView::Fraction => false,
            JsonView::Negative(value) => value < 0,
            JsonView::List(items) => forall|i: int|
                0 <= i < items.len() ==> (#[trigger] items[i]).renderable(),
            JsonView::Object(members) => {
                &&& forall|i: int|
                    0 <= i < members.len() ==> (#[trigger] members[i]).1.renderable()
                &&& forall|i: int, j: int|
                    0 <= i < j < members.len() ==> (#[trigger] members[i]).0 != (
                    #[trigger] members[j]).0
            },
            _ => true,
        }
    }
}

impl JsonView {
    /// The document of an index or a count.
    pub open spec fn index(value: usize) -> JsonView {
        JsonView::Unsigned(value as u64)
    }

    /// The document of a signed number.
    pub open spec fn number(value: i32) -> JsonView {
        if value >= 0 {
            JsonView::Unsigned(value as u64)
        } else {
            JsonView::Negative(value as i64)
        }
    }

    pub open spec fn pair(first: JsonView, second: JsonView) -> JsonView {
        JsonView::List(seq![first, second])
    }

    pub open spec fn triple(first: JsonView, second: JsonView, third: JsonView) -> JsonView {
        JsonView::List(seq![first, second, third])
    }

    pub open spec fn quad(
        first: JsonView,
        second: JsonView,
        third: JsonView,
        fourth: JsonView,
    ) -> JsonView {
        JsonView::List(seq![first, second, third, fourth])
    }

    /// Whether the document is a list of `len` items.
    pub open spec fn is_list_of(self, len: nat) -> bool {
        self matches JsonView::List(items) && items.len() == len
    }

    /// The item at `idx` of a list.
    pub open spec fn item(self, idx: int) -> JsonView
        recommends
            self is List,
    {
        self->List_0[idx]
    }
}

/// `serde_json::Value`, carried between the calls into `serde_json`.
#[verifier::external_type_specification]
#[verifier::external_body]
pub struct ExValue(serde_json::Value);

/// `serde_json::Error`, which says why a text is no JSON document.
#[verifier::external_type_specification]
#[verifier::external_body]
pub struct ExError(serde_json::Error);

/// The document that a `serde_json::Value` holds: the value itself, variant
/// for variant, with a number that is no integer of 64 bits as a fraction.
pub uninterp spec fn value_tree(value: serde_json::Value) -> JsonView;

/// The document that `serde_json::from_str` reads from `text`, or `None` where
/// it reports an error.
pub uninterp spec fn json_of_text(text: Seq<char>) -> Option<JsonView>;

/// The text that `serde_json::to_string` writes for a value that holds `tree`,
/// or `None` where it reports an error.
pub uninterp spec fn text_of_json(tree: JsonView) -> Option<Seq<char>>;

/// `serde_json::from_str`, reading a `serde_json::Value`: the value holds the
/// document that the text stands for, and there is an error exactly where the
/// text is not one JSON document.
#[verifier::external_body]
fn parse_value(text: &str) -> (parsed: Result<serde_json::Value, serde_json::Error>)
    ensures
        match parsed {
            Ok(value) => json_of_text(text@) == Some(value_tree(value)),
            Err(_) => json_of_text(text@) is None,
        },
{
    serde_json::from_str::<serde_json::Value>(text)
}

/// One level of a `serde_json::Value`: which variant it is, with the values
/// of its parts as they are.
enum ValueParts {
    Null,
    Bool(bool),
    Unsigned(u64),
    Negative(i64),
    Fraction,
    Text(String),
    List(Vec<serde_json::Value>),
    Object(Vec<(String, serde_json::Value)>),
}

impl ValueParts {
    /// The document of the value that has these parts.
    spec fn document(self) -> JsonView {
        match self {
            ValueParts::Null => JsonView::Null,
            ValueParts::Bool(value) => JsonView::Bool(value),
            ValueParts::Unsigned(value) => JsonView::Unsigned(value),
            ValueParts::Negative(value) => JsonView::Negative(value),
            ValueParts::Fraction => JsonView::Fraction,
            ValueParts::Text(text) => JsonView::Text(text@),
            ValueParts::List(items) => JsonView::List(
                items@.map_values(|item: serde_json::Value| value_tree(item)),
            ),
            ValueParts::Object(members) => JsonView::Object(
                members@.map_values(
                    |member: (String, serde_json::Value)| (member.0@, value_tree(member.1)),
                ),
            ),
        }
    }

    /// Whether a value can be put together from the parts: they are no
    /// fraction, a negative integer is below 0, and no two members of an
    /// object share a name.
    spec fn fit_together(self) -> bool {
        match self {
            ValueParts::Fraction => false,
            ValueParts::Negative(value) => value < 0,
            ValueParts::Object(members) => forall|i: int, j: int|
                0 <= i < j < members@.len() ==> (#[trigger] members@[i]).0@ != (
                #[trigger] members@[j]).0@,
            _ => true,
        }
    }
}

/// Takes a `serde_json::Value` apart: one arm for each variant, which moves
/// the fields out. A number is told apart by `Number::as_u64` and
/// `Number::as_i64`; the members of an object come in the order of
/// `Map::into_iter`.
#[verifier::external_body]
fn take_apart(value: serde_json::Value) -> (parts: ValueParts)
    ensures
        parts.document() == value_tree(value),
{
    match value {
        serde_json::Value::Null => ValueParts::Null,
        serde_json::Value::Bool(b) => ValueParts::Bool(b),
        serde_json::Value::Number(n) => match (n.as_u64(), n.as_i64()) {
            (Some(u), _) => ValueParts::Unsigned(u),
            (None, Some(i)) => ValueParts::Negative(i),
            (None, None) => ValueParts::Fraction,
        },
        serde_json::Value::String(s) => ValueParts::Text(s),
        serde_json::Value::Array(a) => ValueParts::List(a),
        serde_json::Value::Object(o) => ValueParts::Object(o.into_iter().collect()),
    }
}

/// Puts a `serde_json::Value` together from its parts: one arm for each
/// variant, numbers by `Value::from`, the members of an object collected
/// into a `Map` in their order. A fraction, which has no value to build, is
/// left out by the precondition.
#[verifier::external_body]
fn put_together(parts: ValueParts) -> (value: serde_json::Value)
    requires
        parts.fit_together(),
    ensures
        value_tree(value) == parts.document(),
{
    match parts {
        ValueParts::Null | ValueParts::Fraction => serde_json::Value::Null,
        ValueParts::Bool(b) => serde_json::Value::Bool(b),
        ValueParts::Unsigned(u) => serde_json::Value::from(u),
        ValueParts::Negative(i) => serde_json::Value::from(i),
        ValueParts::Text(s) => serde_json::Value::String(s),
        ValueParts::List(a) => serde_json::Value::Array(a),
        ValueParts::Object(m) => serde_json::Value::Object(m.into_iter().collect()),
    }
}

/// The tree that holds the document of `value`.
fn tree_of(value: serde_json::Value) -> (tree: Json)
    ensures
        tree@ == value_tree(value),
    decreases value_tree(value),
{
    match take_apart(value) {
        ValueParts::Null => Json::Null,
        ValueParts::Bool(flag) => Json::Bool(flag),
        ValueParts::Unsigned(number) => Json::Unsigned(number),
        ValueParts::Negative(number) => Json::Negative(number),
        ValueParts::Fraction => Json::Fraction,
        ValueParts::Text(text) => Json::Text(text),
        ValueParts::List(items) => {
            let ghost documents = items@.map_values(|item: serde_json::Value| value_tree(item));
            let mut trees: Vec<Json> = Vec::new();
            for item in iter: items
                invariant
                    documents == items@.map_values(|item: serde_json::Value| value_tree(item)),
                    value_tree(value) == JsonView::List(documents),
                    trees@.len() == iter.index(),
                    forall|k: int| 0 <= k < trees@.len() ==> (#[trigger] trees@[k])@ == documents[k],
            {
                assert(value_tree(item) == documents[iter.index() as int]);
                assert(decreases_to!(value_tree(value) => value_tree(value)->List_0));
                assert(decreases_to!(documents => documents[iter.index() as int]));
                trees.push(tree_of(item));
            }
            let tree = Json::List(trees);
            assert(tree@->List_0 =~= documents);
            tree
        },
        ValueParts::Object(members) => {
            let ghost documents = members@.map_values(
                |member: (String, serde_json::Value)| (member.0@, value_tree(member.1)),
            );
            let mut trees: Vec<(String, Json)> = Vec::new();
            for member in iter: members
                invariant
                    documents == members@.map_values(
                        |member: (String, serde_json::Value)| (member.0@, value_tree(member.1)),
                    ),
                    value_tree(value) == JsonView::Object(documents),
                    trees@.len() == iter.index(),
                    forall|k: int|
                        0 <= k < trees@.len() ==> ((#[trigger] trees@[k]).0@, trees@[k].1@)
                            == documents[k],
            {
                assert((member.0@, value_tree(member.1)) == documents[iter.index() as int]);
                assert(decreases_to!(value_tree(value) => value_tree(value)->Object_0));
                assert(decreases_to!(documents => documents[iter.index() as int]));
                assert(decreases_to!(documents[iter.index() as int] => documents[iter.index() as int].1));
                let (name, part) = member;
                trees.push((name, tree_of(part)));
            }
            let tree = Json::Object(trees);
            assert(tree@->Object_0 =~= documents);
            tree
        },
    }
}

/// The value that holds the document of `tree`.
fn value_of(tree: &Json) -> (value: serde_json::Value)
    requires
        tree@.renderable(),
    ensures
        value_tree(value) == tree@,
    decreases tree,
{
    match tree {
        Json::Null => put_together(ValueParts::Null),
        Json::Bool(flag) => put_together(ValueParts::Bool(*flag)),
        Json::Unsigned(number) => put_together(ValueParts::Unsigned(*number)),
        Json::Negative(number) => put_together(ValueParts::Negative(*number)),
        Json::Fraction => put_together(ValueParts::Null),
        Json::Text(text) => put_together(ValueParts::Text(text.clone())),
        Json::List(items) => {
            let mut values: Vec<serde_json::Value> = Vec::new();
            let mut i: usize = 0;
            while i < items.len()
                invariant
                    i <= items.len(),
                    *tree == Json::List(*items),
                    tree@.renderable(),
                    values@.len() == i,
                    forall|k: int| 0 <= k < i ==> value_tree(#[trigger] values@[k]) == items[k]@,
                decreases items.len() - i,
            {
                assert(tree@->List_0[i as int] == items[i as int]@);
                values.push(value_of(&items[i]));
                i = i + 1;
            }
            let parts = ValueParts::List(values);
            assert(parts.document()->List_0 =~= tree@->List_0);
            put_together(parts)
        },
        Json::Object(members) => {
            let mut values: Vec<(String, serde_json::Value)> = Vec::new();
            let mut i: usize = 0;
            while i < members.len()
                invariant
                    i <= members.len(),
                    *tree == Json::Object(*members),
                    tree@.renderable(),
                    values@.len() == i,
                    forall|k: int|
                        0 <= k < i ==> (#[trigger] values@[k]).0@ == members[k].0@ && value_tree(
                            values@[k].1,
                        ) == members[k].1@,
                decreases members.len() - i,
            {
                assert(tree@->Object_0[i as int] == (members[i as int].0@, members[i as int].1@));
                values.push((members[i].0.clone(), value_of(&members[i].1)));
                i = i + 1;
            }
            let parts = ValueParts::Object(values);
            assert(parts.document()->Object_0 =~= tree@->Object_0);
            assert forall|i: int, j: int| 0 <= i < j < values@.len() implies (
            #[trigger] values@[i]).0@ != (#[trigger] values@[j]).0@ by {
                assert(tree@->Object_0[i].0 != tree@->Object_0[j].0);
            }
            put_together(parts)
        },
    }
}

/// `serde_json::to_string` on a `serde_json::Value` without fractions: what
/// it returns goes by the document alone, the compact JSON text of the
/// document or an error. That it succeeds is not claimed.
#[verifier::external_body]
fn render_value(value: &serde_json::Value) -> (text: Result<String, serde_json::Error>)
    requires
        value_tree(*value).renderable(),
    ensures
        match text {
            Ok(text) => text_of_json(value_tree(*value)) == Some(text@),
            Err(_) => text_of_json(value_tree(*value)) is None,
        },
{
    serde_json::to_string(value)
}

impl Json {
    /// Reads one JSON document from `text`.
    pub fn parse(text: &str) -> (tree: Option<Json>)
        ensures
            match tree {
                Some(tree) => json_of_text(text@) == Some(tree@),
                None => json_of_text(text@) is None,
            },
    {
        match parse_value(text) {
            Ok(value) => Some(tree_of(value)),
            Err(_) => None,
        }
    }

    pub fn text(text: &str) -> (json: Json)
        ensures
            json@ == JsonView::Text(text@),
            json@.renderable(),
    {
        Json::Text(text.to_owned())
    }

    pub fn index(value: usize) -> (json: Json)
        ensures
            json@ == JsonView::index(value),
            json@.renderable(),
    {
        Json::Unsigned(value as u64)
    }

    pub fn number(value: i32) -> (json: Json)
        ensures
            json@ == JsonView::number(value),
            json@.renderable(),
    {
        if value >= 0 {
            Json::Unsigned(value as u64)
        } else {
            Json::Negative(value as i64)
        }
    }

    pub fn flag(value: bool) -> (json: Json)
        ensures
            json@ == JsonView::Bool(value),
            json@.renderable(),
    {
        Json::Bool(value)
    }

    pub fn pair(first: Json, second: Json) -> (json: Json)
        ensures
            json@ == JsonView::pair(first@, second@),
            first@.renderable() && second@.renderable() ==> json@.renderable(),
    {
        let json = Json::List(vec![first, second]);
        assert(json@->List_0 =~= seq![first@, second@]);
        json
    }

    pub fn triple(first: Json, second: Json, third: Json) -> (json: Json)
        ensures
            json@ == JsonView::triple(first@, second@, third@),
            first@.renderable() && second@.renderable() && third@.renderable()
                ==> json@.renderable(),
    {
        let json = Json::List(vec![first, second, third]);
        assert(json@->List_0 =~= seq![first@, second@, third@]);
        json
    }

    pub fn quad(first: Json, second: Json, third: Json, fourth: Json) -> (json: Json)
        ensures
            json@ == JsonView::quad(first@, second@, third@, fourth@),
            first@.renderable() && second@.renderable() && third@.renderable()
                && fourth@.renderable() ==> json@.renderable(),
    {
        let json = Json::List(vec![first, second, third, fourth]);
        assert(json@->List_0 =~= seq![first@, second@, third@, fourth@]);
        json
    }

    /// The characters of a text.
    pub fn as_text(&self) -> (text: Option<&str>)
        ensures
            match text {
                Some(text) => self@ == JsonView::Text(text@),
                None => !(self@ is Text),
            },
    {
        match self {
            Json::Text(text) => Some(text.as_str()),
            _ => None,
        }
    }

    /// The value of a number that is an index.
    pub fn as_index(&self) -> (value: Option<usize>)
        ensures
            match value {
                Some(value) => self@ == JsonView::index(value),
                None => forall|other: usize| self@ != #[trigger] JsonView::index(other),
            },
    {
        match self {
            Json::Unsigned(value) => if *value <= usize::MAX as u64 {
                Some(*value as usize)
            } else {
                None
            },
            _ => None,
        }
    }

    /// The value of a number that fits an `i32`.
    pub fn as_int(&self) -> (value: Option<i32>)
        ensures
            match value {
                Some(value) => self@ == JsonView::number(value),
                None => forall|other: i32| self@ != #[trigger] JsonView::number(other),
            },
    {
        match self {
            Json::Unsigned(value) => if *value <= i32::MAX as u64 {
                Some(*value as i32)
            } else {
                None
            },
            Json::Negative(value) => if i32::MIN as i64 <= *value && *value < 0 {
                Some(*value as i32)
            } else {
                None
            },
            _ => None,
        }
    }

    pub fn as_flag(&self) -> (value: Option<bool>)
        ensures
            match value {
                Some(value) => self@ == JsonView::Bool(value),
                None => !(self@ is Bool),
            },
    {
        match self {
            Json::Bool(value) => Some(*value),
            _ => None,
        }
    }

    /// The items of a list of two.
    pub fn as_pair(&self) -> (items: Option<(&Json, &Json)>)
        ensures
            match items {
                Some((first, second)) => {
                    &&& self@ == JsonView::pair(first@, second@)
                    &&& self@.item(0) == first@
                    &&& self@.item(1) == second@
                },
                None => !self@.is_list_of(2),
            },
    {
        match self {
            Json::List(items) => if items.len() == 2 {
                assert(self@->List_0 =~= seq![items[0]@, items[1]@]);
                Some((&items[0], &items[1]))
            } else {
                None
            },
            _ => None,
        }
    }

    /// The items of a list of three.
    pub fn as_triple(&self) -> (items: Option<(&Json, &Json, &Json)>)
        ensures
            match items {
                Some((first, second, third)) => {
                    &&& self@ == JsonView::triple(first@, second@, third@)
                    &&& self@.item(0) == first@
                    &&& self@.item(1) == second@
                    &&& self@.item(2) == third@
                },
                None => !self@.is_list_of(3),
            },
    {
        match self {
            Json::List(items) => if items.len() == 3 {
                assert(self@->List_0 =~= seq![items[0]@, items[1]@, items[2]@]);
                Some((&items[0], &items[1], &items[2]))
            } else {
                None
            },
            _ => None,
        }
    }

    /// The items of a list of four.
    pub fn as_quad(&self) -> (items: Option<(&Json, &Json, &Json, &Json)>)
        ensures
            match items {
                Some((first, second, third, fourth)) => {
                    &&& self@ == JsonView::quad(first@, second@, third@, fourth@)
                    &&& self@.item(0) == first@
                    &&& self@.item(1) == second@
                    &&& self@.item(2) == third@
                    &&& self@.item(3) == fourth@
                },
                None => !self@.is_list_of(4),
            },
    {
        match self {
            Json::List(items) => if items.len() == 4 {
                assert(self@->List_0 =~= seq![items[0]@, items[1]@, items[2]@, items[3]@]);
                Some((&items[0], &items[1], &items[2], &items[3]))
            } else {
                None
            },
            _ => None,
        }
    }

    /// Writes the compact JSON text of a renderable document: the text that
    /// `serde_json` has for the document, and `None` exactly where it has
    /// none.
    pub(crate) fn render(&self) -> (text: Option<String>)
        requires
            self@.renderable(),
        ensures
            match text {
                Some(text) => text_of_json(self@) == Some(text@),
                None => text_of_json(self@) is None,
            },
    {
        let value = value_of(self);
        match render_value(&value) {
            Ok(text) => Some(text),
            Err(_) => None,
        }
    }
}


} // verus!

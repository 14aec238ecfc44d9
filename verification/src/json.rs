//! JSON documents.
use vstd::prelude::*;

verus! {

/// A JSON value. The values of numbers are not kept.
#[derive(Debug)]
pub enum Json {
    Null,
    Bool(bool),
    Number,
    Text(String),
    Array(Vec<Json>),
    Object(Vec<(String, Json)>),
}

#[verifier::ext_equal]
pub enum JsonView {
    Null,
    Bool(bool),
    Number,
    Text(Seq<char>),
    Array(Seq<JsonView>),
    Object(Seq<(Seq<char>, JsonView)>),
}

impl Json {
    pub open spec fn model(self) -> JsonView
        decreases self,
    {
        match self {
            Json::Null => JsonView::Null,
            Json::Bool(b) => JsonView::Bool(b),
            Json::Number => JsonView::Number,
            Json::Text(s) => JsonView::Text(s@),
            Json::Array(items) => JsonView::Array(
                Seq::new(
                    items@.len(),
                    |i: int|
                        if 0 <= i < items@.len() {
                            items@[i].model()
                        } else {
                            JsonView::Null
                        },
                ),
            ),
            Json::Object(members) => JsonView::Object(
                Seq::new(
                    members@.len(),
                    |i: int|
                        if 0 <= i < members@.len() {
                            (members@[i].0@, members@[i].1.model())
                        } else {
                            (Seq::empty(), JsonView::Null)
                        },
                ),
            ),
        }
    }
}

impl View for Json {
    type V = JsonView;

    open spec fn view(&self) -> JsonView {
        self.model()
    }
}

/// A JSON value as the crate `serde_json` holds it.
#[verifier::external_type_specification]
#[verifier::external_body]
pub struct ExValue(serde_json::Value);

/// What a value of `serde_json` holds.
pub uninterp spec fn content(value: serde_json::Value) -> JsonView;

/// What `serde_json` makes of a document: the value that it holds, or what is
/// wrong with it.
pub uninterp spec fn document(bytes: Seq<u8>) -> Result<JsonView, Seq<char>>;

/// Calls `from_slice` of the crate `serde_json`. Believed of it: the value, or
/// the text of the error, is determined by the bytes, and named `document`.
#[verifier::external_body]
fn decode(bytes: &[u8]) -> (r: Result<serde_json::Value, String>)
    ensures
        match r {
            Ok(value) => document(bytes@) == Ok::<JsonView, Seq<char>>(content(value)),
            Err(message) => document(bytes@) == Err::<JsonView, Seq<char>>(message@),
        },
{
    match serde_json::from_slice::<serde_json::Value>(bytes) {
        Ok(value) => Ok(value),
        Err(e) => Err(e.to_string()),
    }
}

/// The variants of a value, one level deep.
enum Shape {
    Null,
    Bool(bool),
    Number,
    Text(String),
    Array(Vec<serde_json::Value>),
    Object(Vec<(String, serde_json::Value)>),
}

/// Takes a `Value` of the crate `serde_json` apart. Believed of it: the variant
/// and its fields are those that the value holds, members in the order in which
/// the map iterates.
#[verifier::external_body]
fn take_apart(value: serde_json::Value) -> (r: Shape)
    ensures
        match r {
            Shape::Null => content(value) == JsonView::Null,
            Shape::Bool(b) => content(value) == JsonView::Bool(b),
            Shape::Number => content(value) == JsonView::Number,
            Shape::Text(s) => content(value) == JsonView::Text(s@),
            Shape::Array(items) => content(value) == JsonView::Array(
                Seq::new(items@.len(), |i: int| content(items@[i])),
            ),
            Shape::Object(members) => content(value) == JsonView::Object(
                Seq::new(members@.len(), |i: int| (members@[i].0@, content(members@[i].1))),
            ),
        },
{
    match value {
        serde_json::Value::Null => Shape::Null,
        serde_json::Value::Bool(b) => Shape::Bool(b),
        serde_json::Value::Number(_) => Shape::Number,
        serde_json::Value::String(s) => Shape::Text(s),
        serde_json::Value::Array(items) => Shape::Array(items),
        serde_json::Value::Object(members) => Shape::Object(members.into_iter().collect()),
    }
}

fn convert(value: serde_json::Value) -> (r: Json)
    ensures
        r@ == content(value),
    decreases content(value),
{
    let ghost whole = content(value);
    match take_apart(value) {
        Shape::Null => Json::Null,
        Shape::Bool(b) => Json::Bool(b),
        Shape::Number => Json::Number,
        Shape::Text(s) => Json::Text(s),
        Shape::Array(items) => {
            let ghost source = items@;
            let mut out: Vec<Json> = Vec::new();
            for item in it: items
                invariant
                    it.seq() == source,
                    whole == content(value),
                    whole == JsonView::Array(
                        Seq::new(source.len(), |i: int| content(source[i])),
                    ),
                    out@.len() == it.index(),
                    forall|j: int|
                        0 <= j < out@.len() ==> (#[trigger] out@[j]).model() == content(source[j]),
            {
                assert(item == source[it.index() as int]);
                assert(whole->Array_0[it.index() as int] == content(item));
                out.push(convert(item));
            }
            let r = Json::Array(out);
            assert(r.model()->Array_0 =~= whole->Array_0);
            r
        },
        Shape::Object(members) => {
            let ghost source = members@;
            let mut out: Vec<(String, Json)> = Vec::new();
            for member in it: members
                invariant
                    it.seq() == source,
                    whole == content(value),
                    whole == JsonView::Object(
                        Seq::new(source.len(), |i: int| (source[i].0@, content(source[i].1))),
                    ),
                    out@.len() == it.index(),
                    forall|j: int|
                        0 <= j < out@.len() ==> (#[trigger] out@[j]).0@ == source[j].0@
                            && out@[j].1.model() == content(source[j].1),
            {
                assert(member == source[it.index() as int]);
                assert(whole->Object_0[it.index() as int].1 == content(member.1));
                let (name, inner) = member;
                out.push((name, convert(inner)));
            }
            let r = Json::Object(out);
            assert(r.model()->Object_0 =~= whole->Object_0);
            r
        },
    }
}

/// The value that a document holds, or what is wrong with it.
pub fn parse(bytes: &[u8]) -> (r: Result<Json, String>)
    ensures
        match r {
            Ok(value) => document(bytes@) == Ok::<JsonView, Seq<char>>(value@),
            Err(message) => document(bytes@) == Err::<JsonView, Seq<char>>(message@),
        },
{
    match decode(bytes) {
        Ok(value) => Ok(convert(value)),
        Err(message) => Err(message),
    }
}

/// The value of the first member of that name, among those from `from` on.
pub open spec fn named(members: Seq<(Seq<char>, JsonView)>, name: Seq<char>, from: int) -> JsonView
    decreases members.len() - from,
{
    if from < 0 || from >= members.len() {
        JsonView::Null
    } else if members[from].0 == name {
        members[from].1
    } else {
        named(members, name, from + 1)
    }
}

impl JsonView {
    /// The member of that name; null where there is none.
    pub open spec fn member(self, name: Seq<char>) -> JsonView {
        match self {
            JsonView::Object(members) => named(members, name, 0),
            _ => JsonView::Null,
        }
    }

    /// There is a member of that name.
    pub open spec fn has(self, name: Seq<char>) -> bool {
        self matches JsonView::Object(members) && exists|i: int|
            0 <= i < members.len() && (#[trigger] members[i]).0 == name
    }

    /// The text that a value is, if it is one.
    pub open spec fn text(self) -> Option<Seq<char>> {
        match self {
            JsonView::Text(s) => Some(s),
            _ => None,
        }
    }
}

impl Json {
    /// The member of that name, if there is one.
    pub fn member<'a>(&'a self, name: &str) -> (r: Option<&'a Json>)
        ensures
            match r {
                Some(value) => self@.has(name@) && value@ == self@.member(name@),
                None => !self@.has(name@) && self@.member(name@) == JsonView::Null,
            },
    {
        match self {
            Json::Object(members) => {
                let ghost all = self@->Object_0;
                let mut i: usize = 0;
                while i < members.len()
                    invariant
                        i <= members@.len(),
                        *self == Json::Object(*members),
                        all == self@->Object_0,
                        named(all, name@, 0) == named(all, name@, i as int),
                        forall|j: int| 0 <= j < i ==> (#[trigger] all[j]).0 != name@,
                    decreases members.len() - i,
                {
                    assert(all[i as int] == (members@[i as int].0@, members@[i as int].1.model()));
                    if crate::text::same(members[i].0.as_str(), name) {
                        return Some(&members[i].1);
                    }
                    i = i + 1;
                }
                None
            },
            _ => None,
        }
    }

    /// The text that the member of that name is, if it is one.
    pub fn text_member<'a>(&'a self, name: &str) -> (r: Option<&'a String>)
        ensures
            match r {
                Some(text) => self@.member(name@).text() == Some(text@),
                None => self@.member(name@).text() is None,
            },
    {
        match self.member(name) {
            Some(Json::Text(text)) => Some(text),
            _ => None,
        }
    }
}

} // verus!

//! JSON values as the library builds them for request bodies.

use vstd::prelude::*;
use vstd::string::*;

verus! {

/// A JSON value. Object members keep the order in which they were added; every
/// builder in this library adds each key at most once.
#[derive(Debug, PartialEq)]
pub enum JsonValue {
    Null,
    Bool(bool),
    /// A number, as its JSON text.
    Number(String),
    Str(String),
    Array(Vec<JsonValue>),
    Object(Vec<(String, JsonValue)>),
}

/// The mathematical form of a JSON value.
pub enum Json {
    Null,
    Bool(bool),
    Number(Seq<char>),
    Str(Seq<char>),
    Array(Seq<Json>),
    Object(Seq<(Seq<char>, Json)>),
}

/// The mathematical form of a JSON value.
pub open spec fn json_view(v: JsonValue) -> Json
    decreases v, 1nat,
{
    match v {
        JsonValue::Null => Json::Null,
        JsonValue::Bool(b) => Json::Bool(b),
        JsonValue::Number(n) => Json::Number(n@),
        JsonValue::Str(s) => Json::Str(s@),
        JsonValue::Array(items) => Json::Array(json_views(items@)),
        JsonValue::Object(members) => Json::Object(member_views(members@)),
    }
}

/// The mathematical forms of a list of values.
pub open spec fn json_views(items: Seq<JsonValue>) -> Seq<Json>
    decreases items, 0nat,
{
    if items.len() == 0 {
        Seq::empty()
    } else {
        json_views(items.drop_last()).push(json_view(items.last()))
    }
}

/// The mathematical forms of a list of object members.
pub open spec fn member_views(members: Seq<(String, JsonValue)>) -> Seq<(Seq<char>, Json)>
    decreases members, 0nat,
{
    if members.len() == 0 {
        Seq::empty()
    } else {
        member_views(members.drop_last()).push(
            (members.last().0@, json_view(members.last().1)),
        )
    }
}

impl View for JsonValue {
    type V = Json;

    open spec fn view(&self) -> Json {
        json_view(*self)
    }
}

/// An object under construction: members are appended in order.
pub struct ObjectBuilder {
    pub members: Vec<(String, JsonValue)>,
}

impl ObjectBuilder {
    /// An object with no members.
    pub fn new() -> (b: Self)
        ensures
            member_views(b.members@) == Seq::<(Seq<char>, Json)>::empty(),
    {
        ObjectBuilder { members: Vec::new() }
    }

    /// Appends the member `key: value`.
    pub fn add(&mut self, key: &str, value: JsonValue)
        ensures
            member_views(final(self).members@) == member_views(old(self).members@).push(
                (key@, value@),
            ),
    {
        let ghost before = self.members@;
        self.members.push((String::from_str(key), value));
        assert(self.members@.drop_last() =~= before);
    }

    /// Appends the member `key: "text"`.
    pub fn add_str(&mut self, key: &str, text: String)
        ensures
            member_views(final(self).members@) == member_views(old(self).members@).push(
                (key@, Json::Str(text@)),
            ),
    {
        self.add(key, JsonValue::Str(text));
    }

    /// Appends the member `key: "text"` when `text` is present.
    pub fn add_opt_str(&mut self, key: &str, text: Option<String>)
        ensures
            member_views(final(self).members@) == match text {
                Some(t) => member_views(old(self).members@).push((key@, Json::Str(t@))),
                None => member_views(old(self).members@),
            },
    {
        match text {
            Some(t) => self.add_str(key, t),
            None => {},
        }
    }

    /// The finished object.
    pub fn build(self) -> (v: JsonValue)
        ensures
            v@ == Json::Object(member_views(self.members@)),
    {
        JsonValue::Object(self.members)
    }
}

/// The member `key: "text"` when `text` is present, else nothing.
pub open spec fn opt_member(key: Seq<char>, text: Option<String>) -> Seq<(Seq<char>, Json)> {
    match text {
        Some(t) => seq![(key, Json::Str(t@))],
        None => Seq::empty(),
    }
}

/// The object `{key: "text"}`.
pub fn object1(key: &str, text: String) -> (v: JsonValue)
    ensures
        v@ == Json::Object(seq![(key@, Json::Str(text@))]),
{
    let mut b = ObjectBuilder::new();
    b.add_str(key, text);
    let v = b.build();
    assert(member_views(b.members@) =~= seq![(key@, Json::Str(text@))]);
    v
}

/// A one-element array.
pub fn array1(item: JsonValue) -> (v: JsonValue)
    ensures
        v@ == Json::Array(seq![item@]),
{
    let mut items: Vec<JsonValue> = Vec::new();
    items.push(item);
    assert(items@.drop_last() =~= Seq::<JsonValue>::empty());
    assert(json_views(items@.drop_last()) =~= Seq::<Json>::empty());
    assert(items@.last() == item);
    assert(json_views(items@) =~= seq![item@]);
    let v = JsonValue::Array(items);
    v
}

#[verifier::external_type_specification]
#[verifier::external_body]
pub struct ExJsonDocument(serde_json::Value);

/// What `serde_json` reads from `text` as a JSON document: the value, or the
/// text of its error.
pub uninterp spec fn json_parse(text: Seq<char>) -> Result<Json, Seq<char>>;

/// A `serde_json::Value` as a library value, variant for variant; a number is
/// kept as the text `serde_json` prints for it.
#[verifier::external_body]
fn json_value_from(v: serde_json::Value) -> JsonValue {
    match v {
        serde_json::Value::Null => JsonValue::Null,
        serde_json::Value::Bool(b) => JsonValue::Bool(b),
        serde_json::Value::Number(n) => JsonValue::Number(n.to_string()),
        serde_json::Value::String(t) => JsonValue::Str(t),
        serde_json::Value::Array(a) => JsonValue::Array(a.into_iter().map(json_value_from).collect()),
        serde_json::Value::Object(m) => JsonValue::Object(
            m.into_iter().map(|(k, x)| (k, json_value_from(x))).collect(),
        ),
    }
}

/// Parses `text` as JSON (`serde_json::from_str` into `serde_json::Value`). The
/// result is named `json_parse`: what `serde_json` reads depends on the text
/// alone. A number is kept as `serde_json` prints it, and object members in the
/// order `serde_json` keeps them (sorted by key).
#[verifier::external_body]
fn parse_json(text: &str) -> (r: Result<JsonValue, String>)
    ensures
        match r {
            Ok(v) => json_parse(text@) == Ok::<Json, Seq<char>>(v@),
            Err(e) => json_parse(text@) == Err::<Json, Seq<char>>(e@),
        },
{
    match serde_json::from_str::<serde_json::Value>(text) {
        Ok(v) => Ok(json_value_from(v)),
        Err(e) => Err(e.to_string()),
    }
}

/// The request body held in `text`: the JSON value it holds, or an `Invalid
/// JSON` error with what went wrong.
pub fn parse_json_body(text: &str) -> (r: Result<JsonValue, String>)
    ensures
        match json_parse(text@) {
            Ok(j) => r matches Ok(v) && v@ == j,
            Err(e) => r matches Err(m) && m@ == "Invalid JSON: "@ + e,
        },
{
    match parse_json(text) {
        Ok(v) => Ok(v),
        Err(e) => {
            let m = String::from_str("Invalid JSON: ").concat(e.as_str());
            proof {
                reveal_strlit("Invalid JSON: ");
            }
            Err(m)
        },
    }
}

} // verus!

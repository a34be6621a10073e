//! JSON documents as the remote services send them.
//!
//! `serde_json` reads the text. What it finds is copied into [`Json`], a tree of
//! plain values, and everything the library decides from a document it decides
//! on that tree.

use vstd::prelude::*;

verus! {

/// A document as `serde_json` holds it. Only `serde_json` looks inside one.
#[verifier::external_type_specification]
#[verifier::external_body]
pub struct ExJsonValue(serde_json::Value);

/// What `serde_json` reports for text that is not one JSON document.
#[verifier::external_type_specification]
#[verifier::external_body]
pub struct ExJsonError(serde_json::Error);

/// A JSON document.
#[derive(Debug, PartialEq, Eq)]
pub enum Json {
    Null,
    Bool(bool),
    /// A number. `Some` holds its value where it is an integer in the range of
    /// `i64`; any other number is `None`.
    Number(Option<i64>),
    Text(String),
    Array(Vec<Json>),
    /// The members of an object, in order. A name that comes twice is read at its
    /// first place.
    Object(Vec<(String, Json)>),
}

/// A [`Json`] document with its strings and lists as sequences.
pub enum JsonModel {
    Null,
    Bool(bool),
    Number(Option<i64>),
    Text(Seq<char>),
    Array(Seq<JsonModel>),
    Object(Seq<(Seq<char>, JsonModel)>),
}

impl Json {
    /// What the document holds.
    pub open spec fn model(self) -> JsonModel
        decreases self,
    {
        match self {
            Json::Null => JsonModel::Null,
            Json::Bool(b) => JsonModel::Bool(b),
            Json::Number(n) => JsonModel::Number(n),
            Json::Text(s) => JsonModel::Text(s@),
            Json::Array(items) => JsonModel::Array(
                Seq::new(
                    items@.len(),
                    |i: int|
                        if 0 <= i < items@.len() {
                            items@[i].model()
                        } else {
                            JsonModel::Null
                        },
                ),
            ),
            Json::Object(fields) => JsonModel::Object(
                Seq::new(
                    fields@.len(),
                    |i: int|
                        if 0 <= i < fields@.len() {
                            (fields@[i].0@, fields@[i].1.model())
                        } else {
                            (Seq::empty(), JsonModel::Null)
                        },
                ),
            ),
        }
    }
}

/// The value under the first name equal to `key` in a list of members.
pub open spec fn lookup(fields: Seq<(Seq<char>, JsonModel)>, key: Seq<char>) -> Option<JsonModel>
    decreases fields.len(),
{
    if fields.len() == 0 {
        None
    } else if fields[0].0 == key {
        Some(fields[0].1)
    } else {
        lookup(fields.drop_first(), key)
    }
}

/// The member `key` of an object; `None` where there is none, or no object.
pub open spec fn member_of(m: JsonModel, key: Seq<char>) -> Option<JsonModel> {
    match m {
        JsonModel::Object(fields) => lookup(fields, key),
        _ => None,
    }
}

/// The element at `at` of an array; `None` where there is none, or no array.
pub open spec fn element_of(m: JsonModel, at: int) -> Option<JsonModel> {
    match m {
        JsonModel::Array(items) => if 0 <= at < items.len() {
            Some(items[at])
        } else {
            None
        },
        _ => None,
    }
}

/// The characters of a JSON string; `None` for any other kind.
pub open spec fn text_of(m: JsonModel) -> Option<Seq<char>> {
    match m {
        JsonModel::Text(s) => Some(s),
        _ => None,
    }
}

/// The value of a JSON number that is an integer in the range of `i64`.
pub open spec fn int_of(m: JsonModel) -> Option<i64> {
    match m {
        JsonModel::Number(n) => n,
        _ => None,
    }
}

/// The elements of a JSON array; `None` for any other kind.
pub open spec fn items_of(m: JsonModel) -> Option<Seq<JsonModel>> {
    match m {
        JsonModel::Array(items) => Some(items),
        _ => None,
    }
}

/// [`member_of`] below a parent that may be missing.
pub open spec fn member_in(parent: Option<JsonModel>, key: Seq<char>) -> Option<JsonModel> {
    match parent {
        Some(m) => member_of(m, key),
        None => None,
    }
}

/// [`element_of`] below a parent that may be missing.
pub open spec fn element_in(parent: Option<JsonModel>, at: int) -> Option<JsonModel> {
    match parent {
        Some(m) => element_of(m, at),
        None => None,
    }
}

/// [`text_of`] for a value that may be missing.
pub open spec fn text_in(value: Option<JsonModel>) -> Option<Seq<char>> {
    match value {
        Some(m) => text_of(m),
        None => None,
    }
}

/// [`int_of`] for a value that may be missing.
pub open spec fn int_in(value: Option<JsonModel>) -> Option<i64> {
    match value {
        Some(m) => int_of(m),
        None => None,
    }
}

/// [`items_of`] for a value that may be missing.
pub open spec fn items_in(value: Option<JsonModel>) -> Option<Seq<JsonModel>> {
    match value {
        Some(m) => items_of(m),
        None => None,
    }
}

/// A reference that may be missing, as the model of what it points to.
pub open spec fn model_in(value: Option<&Json>) -> Option<JsonModel> {
    match value {
        Some(j) => Some(j.model()),
        None => None,
    }
}

/// Past a member of another name, the lookup goes on in what follows it.
proof fn lemma_lookup_skip(fields: Seq<(Seq<char>, JsonModel)>, key: Seq<char>, i: int)
    requires
        0 <= i < fields.len(),
        fields[i].0 != key,
    ensures
        lookup(fields.skip(i), key) == lookup(fields.skip(i + 1), key),
{
    assert(fields.skip(i).drop_first() == fields.skip(i + 1));
}

impl Json {
    /// The member named `key`, where this is an object that has one.
    pub fn member(&self, key: &str) -> (r: Option<&Json>)
        ensures
            model_in(r) == member_of(self.model(), key@),
    {
        match self {
            Json::Object(fields) => {
                let wanted = key.to_string();
                let ghost all = self.model()->Object_0;
                assert(all.skip(0) == all);
                let mut i: usize = 0;
                while i < fields.len()
                    invariant
                        0 <= i <= fields@.len(),
                        wanted@ == key@,
                        *self == Json::Object(*fields),
                        all == self.model()->Object_0,
                        lookup(all, key@) == lookup(all.skip(i as int), key@),
                    decreases fields@.len() - i,
                {
                    assert(all[i as int] == (fields@[i as int].0@, fields@[i as int].1.model()));
                    if fields[i].0 == wanted {
                        return Some(&fields[i].1);
                    }
                    proof {
                        lemma_lookup_skip(all, key@, i as int);
                    }
                    i += 1;
                }
                None
            },
            _ => None,
        }
    }

    /// The element at `at`, where this is an array that long.
    pub fn element(&self, at: usize) -> (r: Option<&Json>)
        ensures
            model_in(r) == element_of(self.model(), at as int),
    {
        match self {
            Json::Array(items) => if at < items.len() {
                Some(&items[at])
            } else {
                None
            },
            _ => None,
        }
    }

    /// The characters, where this is a string.
    pub fn as_text(&self) -> (r: Option<&String>)
        ensures
            match r {
                Some(s) => text_of(self.model()) == Some(s@),
                None => text_of(self.model()) is None,
            },
    {
        match self {
            Json::Text(s) => Some(s),
            _ => None,
        }
    }

    /// The value, where this is an integer in the range of `i64`.
    pub fn as_int(&self) -> (r: Option<i64>)
        ensures
            r == int_of(self.model()),
    {
        match self {
            Json::Number(n) => *n,
            _ => None,
        }
    }

    /// The elements in order, where this is an array.
    pub fn as_items(&self) -> (r: Option<&Vec<Json>>)
        ensures
            match r {
                Some(items) => items_of(self.model()) == Some(models_of(items@)),
                None => items_of(self.model()) is None,
            },
    {
        match self {
            Json::Array(items) => {
                assert(self.model()->Array_0 =~= models_of(items@));
                Some(items)
            },
            _ => None,
        }
    }
}

/// An object with the one member `name`.
pub open spec fn object_with(name: Seq<char>, value: JsonModel) -> JsonModel {
    JsonModel::Object(seq![(name, value)])
}

/// `object` with the member `name` added at its end; what is no object stays as
/// it is.
pub open spec fn and_member(object: JsonModel, name: Seq<char>, value: JsonModel) -> JsonModel {
    match object {
        JsonModel::Object(members) => JsonModel::Object(members.push((name, value))),
        _ => object,
    }
}

/// An array with the one element `item`.
pub open spec fn list_with(item: JsonModel) -> JsonModel {
    JsonModel::Array(seq![item])
}

impl Json {
    /// The string `s`.
    pub fn text(s: &str) -> (r: Json)
        ensures
            r.model() == JsonModel::Text(s@),
    {
        Json::Text(s.to_string())
    }

    /// The number `n`.
    pub fn number(n: i64) -> (r: Json)
        ensures
            r.model() == JsonModel::Number(Some(n)),
    {
        Json::Number(Some(n))
    }

    /// An array with the one element `item`.
    pub fn list_with(item: Json) -> (r: Json)
        ensures
            r.model() == list_with(item.model()),
    {
        let mut items: Vec<Json> = Vec::new();
        items.push(item);
        let r = Json::Array(items);
        assert(r.model()->Array_0 =~= seq![item.model()]);
        r
    }

    /// An object with the one member `name`.
    pub fn object_with(name: &str, value: Json) -> (r: Json)
        ensures
            r.model() == object_with(name@, value.model()),
    {
        let mut members: Vec<(String, Json)> = Vec::new();
        members.push((name.to_string(), value));
        let r = Json::Object(members);
        assert(r.model()->Object_0 =~= seq![(name@, value.model())]);
        r
    }

    /// This object with the member `name` added at its end; what is no object
    /// stays as it is.
    pub fn and_member(self, name: &str, value: Json) -> (r: Json)
        ensures
            r.model() == and_member(self.model(), name@, value.model()),
    {
        match self {
            Json::Object(mut members) => {
                let ghost before = self.model()->Object_0;
                members.push((name.to_string(), value));
                let r = Json::Object(members);
                assert(r.model()->Object_0 =~= before.push((name@, value.model())));
                r
            },
            other => other,
        }
    }
}

impl Clone for Json {
    /// A copy that holds the same.
    fn clone(&self) -> (r: Json)
        ensures
            r.model() == self.model(),
        decreases self,
    {
        match self {
            Json::Null => Json::Null,
            Json::Bool(b) => Json::Bool(*b),
            Json::Number(n) => Json::Number(*n),
            Json::Text(s) => Json::Text(s.clone()),
            Json::Array(items) => {
                let mut out: Vec<Json> = Vec::new();
                let mut i: usize = 0;
                while i < items.len()
                    invariant
                        0 <= i <= items@.len(),
                        out@.len() == i,
                        *self == Json::Array(*items),
                        forall|k: int|
                            0 <= k < i ==> (#[trigger] out@[k]).model() == items@[k].model(),
                    decreases items@.len() - i,
                {
                    assert(decreases_to!(self => self->Array_0));
                    assert(decreases_to!(items => items[i as int]));
                    out.push(items[i].clone());
                    i += 1;
                }
                let copy = Json::Array(out);
                assert(copy.model()->Array_0 =~= self.model()->Array_0);
                copy
            },
            Json::Object(members) => {
                let mut out: Vec<(String, Json)> = Vec::new();
                let mut i: usize = 0;
                while i < members.len()
                    invariant
                        0 <= i <= members@.len(),
                        out@.len() == i,
                        *self == Json::Object(*members),
                        forall|k: int|
                            0 <= k < i ==> (#[trigger] out@[k]).0@ == members@[k].0@
                                && out@[k].1.model() == members@[k].1.model(),
                    decreases members@.len() - i,
                {
                    assert(decreases_to!(self => self->Object_0));
                    assert(decreases_to!(members => members[i as int]));
                    assert(decreases_to!(members[i as int] => members[i as int].1));
                    let name = members[i].0.clone();
                    let value = members[i].1.clone();
                    out.push((name, value));
                    i += 1;
                }
                let copy = Json::Object(out);
                assert(copy.model()->Object_0 =~= self.model()->Object_0);
                copy
            },
        }
    }
}

/// The models of a list of documents, in order.
pub open spec fn models_of(items: Seq<Json>) -> Seq<JsonModel> {
    Seq::new(items.len(), |i: int| items[i].model())
}

/// What the document `v` holds.
pub uninterp spec fn json_model(v: serde_json::Value) -> JsonModel;

/// What `text` holds when read as one JSON document; `None` where `serde_json`
/// rejects it.
pub uninterp spec fn json_of_text(text: Seq<char>) -> Option<JsonModel>;

/// `serde_json::from_str` at `serde_json::Value`: the document that `text` holds,
/// or the error where `text` is not one JSON document. Which of the two, and what
/// the document holds, depends on `text` alone.
#[verifier::external_body]
fn parse_value(text: &str) -> (r: Result<serde_json::Value, serde_json::Error>)
    ensures
        match r {
            Ok(v) => json_of_text(text@) == Some(json_model(v)),
            Err(_) => json_of_text(text@) is None,
        },
{
    serde_json::from_str::<serde_json::Value>(text)
}

/// One level of a `serde_json::Value`: which kind it is, and what it holds.
enum Shape<'a> {
    Null,
    Bool(bool),
    Number(Option<i64>),
    Text(String),
    Array(&'a Vec<serde_json::Value>),
    Object(Vec<(String, &'a serde_json::Value)>),
}

/// What a document of the shape `shape` holds.
spec fn shape_model(shape: Shape) -> JsonModel {
    match shape {
        Shape::Null => JsonModel::Null,
        Shape::Bool(b) => JsonModel::Bool(b),
        Shape::Number(n) => JsonModel::Number(n),
        Shape::Text(s) => JsonModel::Text(s@),
        Shape::Array(items) => JsonModel::Array(
            Seq::new(items@.len(), |i: int| json_model(items@[i])),
        ),
        Shape::Object(members) => JsonModel::Object(
            Seq::new(members@.len(), |i: int| (members@[i].0@, json_model(*members@[i].1))),
        ),
    }
}

/// Tells the variants of a `serde_json::Value` apart and hands out what each
/// holds: a number through `serde_json::Number::as_i64`, the elements of an array
/// as they are, the members of an object in the order in which
/// `serde_json::Map::iter` gives them.
#[verifier::external_body]
fn value_shape<'a>(v: &'a serde_json::Value) -> (r: Shape<'a>)
    ensures
        json_model(*v) == shape_model(r),
{
    match v {
        serde_json::Value::Null => Shape::Null,
        serde_json::Value::Bool(b) => Shape::Bool(*b),
        serde_json::Value::Number(n) => Shape::Number(n.as_i64()),
        serde_json::Value::String(s) => Shape::Text(s.clone()),
        serde_json::Value::Array(a) => Shape::Array(a),
        serde_json::Value::Object(o) => Shape::Object(
            o.iter().map(|(k, x)| (k.clone(), x)).collect(),
        ),
    }
}

/// Copies a document into a [`Json`], level by level.
fn json_from(v: &serde_json::Value) -> (r: Json)
    ensures
        r.model() == json_model(*v),
    decreases json_model(*v),
{
    match value_shape(v) {
        Shape::Null => Json::Null,
        Shape::Bool(b) => Json::Bool(b),
        Shape::Number(n) => Json::Number(n),
        Shape::Text(s) => Json::Text(s),
        Shape::Array(items) => {
            let ghost whole = json_model(*v);
            let mut out: Vec<Json> = Vec::new();
            let mut i: usize = 0;
            while i < items.len()
                invariant
                    0 <= i <= items@.len(),
                    out@.len() == i,
                    whole == json_model(*v),
                    whole == JsonModel::Array(
                        Seq::new(items@.len(), |k: int| json_model(items@[k])),
                    ),
                    forall|k: int|
                        0 <= k < i ==> (#[trigger] out@[k]).model() == json_model(items@[k]),
                decreases items@.len() - i,
            {
                assert(whole->Array_0[i as int] == json_model(items@[i as int]));
                assert(decreases_to!(whole => whole->Array_0[i as int]));
                out.push(json_from(&items[i]));
                i += 1;
            }
            let copy = Json::Array(out);
            assert(copy.model()->Array_0 =~= whole->Array_0);
            copy
        },
        Shape::Object(members) => {
            let ghost whole = json_model(*v);
            let mut out: Vec<(String, Json)> = Vec::new();
            let mut i: usize = 0;
            while i < members.len()
                invariant
                    0 <= i <= members@.len(),
                    out@.len() == i,
                    whole == json_model(*v),
                    whole == JsonModel::Object(
                        Seq::new(
                            members@.len(),
                            |k: int| (members@[k].0@, json_model(*members@[k].1)),
                        ),
                    ),
                    forall|k: int|
                        0 <= k < i ==> (#[trigger] out@[k]).0@ == members@[k].0@
                            && out@[k].1.model() == json_model(*members@[k].1),
                decreases members@.len() - i,
            {
                assert(whole->Object_0[i as int].1 == json_model(*members@[i as int].1));
                assert(decreases_to!(whole => whole->Object_0[i as int].1));
                let name = members[i].0.clone();
                let value = json_from(members[i].1);
                out.push((name, value));
                i += 1;
            }
            let copy = Json::Object(out);
            assert(copy.model()->Object_0 =~= whole->Object_0);
            copy
        },
    }
}

/// Reads `text` as one JSON document.
pub fn parse_json(text: &str) -> (r: Option<Json>)
    ensures
        match r {
            Some(j) => json_of_text(text@) == Some(j.model()),
            None => json_of_text(text@) is None,
        },
{
    match parse_value(text) {
        Ok(v) => Some(json_from(&v)),
        Err(_) => None,
    }
}

/// The member `key` below a parent that may be missing.
pub fn member_at<'a>(parent: Option<&'a Json>, key: &str) -> (r: Option<&'a Json>)
    ensures
        model_in(r) == member_in(model_in(parent), key@),
{
    match parent {
        Some(j) => j.member(key),
        None => None,
    }
}

/// The element at `at` below a parent that may be missing.
pub fn element_at<'a>(parent: Option<&'a Json>, at: usize) -> (r: Option<&'a Json>)
    ensures
        model_in(r) == element_in(model_in(parent), at as int),
{
    match parent {
        Some(j) => j.element(at),
        None => None,
    }
}

/// An owned copy of a string value that may be missing.
pub fn text_at(value: Option<&Json>) -> (r: Option<String>)
    ensures
        match r {
            Some(s) => text_in(model_in(value)) == Some(s@),
            None => text_in(model_in(value)) is None,
        },
{
    match value {
        Some(j) => match j.as_text() {
            Some(s) => Some(s.clone()),
            None => None,
        },
        None => None,
    }
}

/// The integer value of a number that may be missing.
pub fn int_at(value: Option<&Json>) -> (r: Option<i64>)
    ensures
        r == int_in(model_in(value)),
{
    match value {
        Some(j) => j.as_int(),
        None => None,
    }
}

} // verus!

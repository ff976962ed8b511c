//! JSON documents, as far as this crate reads and writes them.
//!
//! The text of a document is read and written by `serde_json`. What the
//! crate decides on is a tree of plain values, [`Json`].

use vstd::prelude::*;

verus! {

/// `serde_json::Value`, of which nothing is known here: a value of it is
/// only handed on.
#[verifier::external_type_specification]
#[verifier::external_body]
pub struct ExValue(serde_json::Value);

/// `serde_json::Error`, of which nothing is known here either.
#[verifier::external_type_specification]
#[verifier::external_body]
pub struct ExError(serde_json::Error);

/// A JSON document.
///
/// A number is held as the text that `serde_json` prints for it. The members
/// of an object are held in the order in which `serde_json` hands them out,
/// each name once.
#[derive(Debug, PartialEq, Eq)]
pub enum Json {
    Null,
    Bool(bool),
    Number(String),
    Text(String),
    Array(Vec<Json>),
    Object(Vec<(String, Json)>),
}

/// What a [`Json`] stands for.
pub enum JsonModel {
    Null,
    Bool(bool),
    Number(Seq<char>),
    Text(Seq<char>),
    Array(Seq<JsonModel>),
    Object(Seq<(Seq<char>, JsonModel)>),
}

/// What a document stands for.
pub open spec fn model_of(json: Json) -> JsonModel
    decreases json,
{
    match json {
        Json::Null => JsonModel::Null,
        Json::Bool(b) => JsonModel::Bool(b),
        Json::Number(digits) => JsonModel::Number(digits@),
        Json::Text(text) => JsonModel::Text(text@),
        Json::Array(items) => JsonModel::Array(
            Seq::new(
                items@.len(),
                |i: int|
                    if 0 <= i < items@.len() {
                        model_of(items@[i])
                    } else {
                        JsonModel::Null
                    },
            ),
        ),
        Json::Object(members) => JsonModel::Object(
            Seq::new(
                members@.len(),
                |i: int|
                    if 0 <= i < members@.len() {
                        (members@[i].0@, model_of(members@[i].1))
                    } else {
                        (Seq::empty(), JsonModel::Null)
                    },
            ),
        ),
    }
}

impl View for Json {
    type V = JsonModel;

    open spec fn view(&self) -> JsonModel {
        model_of(*self)
    }
}

/// What an array stands for: its elements, one by one.
pub proof fn lemma_array_view(items: Vec<Json>)
    ensures
        Json::Array(items)@ matches JsonModel::Array(model) && model.len() == items@.len()
            && forall|i: int| 0 <= i < model.len() ==> model[i] == items@[i]@,
{
    let json = Json::Array(items);
    assert(json@ is Array);
    let model = json@->Array_0;
    assert(model.len() == items@.len());
    assert forall|i: int| 0 <= i < model.len() implies model[i] == items@[i]@ by {}
}

/// What an object stands for: its members, one by one.
pub proof fn lemma_object_view(members: Vec<(String, Json)>)
    ensures
        Json::Object(members)@ matches JsonModel::Object(model) && model.len() == members@.len()
            && forall|i: int|
            0 <= i < model.len() ==> model[i] == (members@[i].0@, members@[i].1@),
{
    let json = Json::Object(members);
    assert(json@ is Object);
    let model = json@->Object_0;
    assert(model.len() == members@.len());
    assert forall|i: int| 0 <= i < model.len() implies model[i] == (
        members@[i].0@,
        members@[i].1@,
    ) by {}
}

/// The first of `members` that is called `name`.
pub open spec fn first_member(members: Seq<(Seq<char>, JsonModel)>, name: Seq<char>) -> Option<
    JsonModel,
>
    decreases members.len(),
{
    if members.len() == 0 {
        None
    } else if members[0].0 == name {
        Some(members[0].1)
    } else {
        first_member(members.drop_first(), name)
    }
}

impl JsonModel {
    /// The element at `index`, where this is an array that has one there.
    pub open spec fn element(self, index: int) -> Option<JsonModel> {
        match self {
            JsonModel::Array(items) => if 0 <= index < items.len() {
                Some(items[index])
            } else {
                None
            },
            _ => None,
        }
    }

    /// The member called `name`, where this is an object that has one.
    pub open spec fn member(self, name: Seq<char>) -> Option<JsonModel> {
        match self {
            JsonModel::Object(members) => first_member(members, name),
            _ => None,
        }
    }

    /// The text, where this is a string.
    pub open spec fn text(self) -> Option<Seq<char>> {
        match self {
            JsonModel::Text(text) => Some(text),
            _ => None,
        }
    }
}

impl Json {
    /// The element at `index` of an array. `None` for an array without
    /// one there, and for anything that is no array.
    pub fn element(&self, index: usize) -> (found: Option<&Json>)
        ensures
            match found {
                Some(item) => self@.element(index as int) == Some(item@),
                None => self@.element(index as int) is None,
            },
    {
        match self {
            Json::Array(items) => if index < items.len() {
                proof {
                    lemma_array_view(*items);
                }
                Some(&items[index])
            } else {
                None
            },
            _ => None,
        }
    }

    /// The member of an object that is called `name`. `None` for an object
    /// without one, and for anything that is no object.
    pub fn member(&self, name: &str) -> (found: Option<&Json>)
        ensures
            match found {
                Some(value) => self@.member(name@) == Some(value@),
                None => self@.member(name@) is None,
            },
    {
        match self {
            Json::Object(members) => {
                let wanted = String::from_str(name);
                let ghost model = self@->Object_0;
                proof {
                    lemma_object_view(*members);
                    assert(model.skip(0) =~= model);
                }
                let mut i: usize = 0;
                while i < members.len()
                    invariant
                        i <= members.len(),
                        wanted@ == name@,
                        self@ == JsonModel::Object(model),
                        model.len() == members.len(),
                        forall|k: int|
                            0 <= k < members.len() ==> model[k] == (
                                #[trigger] members@[k].0@,
                                members@[k].1@,
                            ),
                        first_member(model, name@) == first_member(model.skip(i as int), name@),
                    decreases members.len() - i,
                {
                    proof {
                        assert(model.skip(i as int).drop_first() =~= model.skip(i + 1));
                        assert(model.skip(i as int)[0] == (members@[i as int].0@, members@[i as int].1@));
                    }
                    if members[i].0 == wanted {
                        return Some(&members[i].1);
                    }
                    i += 1;
                }
                None
            },
            _ => None,
        }
    }

    /// The text of a string. `None` for anything that is no string.
    pub fn text(&self) -> (found: Option<&str>)
        ensures
            match found {
                Some(text) => self@.text() == Some(text@),
                None => self@.text() is None,
            },
    {
        match self {
            Json::Text(text) => Some(text.as_str()),
            _ => None,
        }
    }
}

/// The document that `serde_json::from_slice` reads from `bytes`, as a tree
/// of plain values; `None` where it reports an error.
pub uninterp spec fn json_document(bytes: Seq<u8>) -> Option<JsonModel>;

/// What a `serde_json::Value` holds, as a tree of plain values.
pub uninterp spec fn value_model(value: serde_json::Value) -> JsonModel;

/// The text that `serde_json` writes for the object whose one member is
/// called `name` and holds the string `value`.
pub uninterp spec fn json_object_text(name: Seq<char>, value: Seq<char>) -> Seq<char>;

/// Calls `serde_json::from_slice` for a `serde_json::Value`. The contract
/// gives the document that it reads a name and claims no more: the call
/// returns an error exactly where the name is `None`, and the same bytes
/// always give the same document.
#[verifier::external_body]
pub(crate) fn parse_value(bytes: &[u8]) -> (parsed: Result<serde_json::Value, serde_json::Error>)
    ensures
        match parsed {
            Ok(value) => json_document(bytes@) == Some(value_model(value)),
            Err(_) => json_document(bytes@) is None,
        },
{
    serde_json::from_slice::<serde_json::Value>(bytes)
}

/// Copies a `serde_json::Value` into a [`Json`], variant by variant: a number
/// as the text of `Number`'s `Display`, the elements of an array in their
/// order, the members of an object in the order of `Map`'s `into_iter`. The
/// contract claims that the copy holds what the value holds.
#[verifier::external_body]
pub(crate) fn json_of(value: serde_json::Value) -> (json: Json)
    ensures
        json@ == value_model(value),
{
    match value {
        serde_json::Value::Null => Json::Null,
        serde_json::Value::Bool(b) => Json::Bool(b),
        serde_json::Value::Number(number) => Json::Number(number.to_string()),
        serde_json::Value::String(text) => Json::Text(text),
        serde_json::Value::Array(items) => Json::Array(items.into_iter().map(json_of).collect()),
        serde_json::Value::Object(members) => Json::Object(
            members.into_iter().map(|(name, value)| (name, json_of(value))).collect(),
        ),
    }
}

/// Builds the `serde_json::Value` of an object with the one member `name`,
/// a string that holds `value`, and has the `Display` of `Value` write it:
/// the compact form, which cannot fail for a string. The contract gives that
/// text a name and claims no more.
#[verifier::external_body]
pub(crate) fn write_json_object(name: &str, value: &str) -> (text: String)
    ensures
        text@ == json_object_text(name@, value@),
{
    let mut members = serde_json::Map::new();
    members.insert(name.to_string(), serde_json::Value::String(value.to_string()));
    serde_json::Value::Object(members).to_string()
}

} // verus!

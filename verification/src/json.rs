//! JSON values as the message types produce them.
//!
//! The values themselves are `serde_json::Value`s. Verus cannot look inside
//! one, so this module gives each value a mathematical content, [`Json`], and
//! states every operation that the encoders use in terms of that content.

use serde_json::{Number, Value};
use vstd::prelude::*;

verus! {

/// `serde_json::Value`, a JSON value. Its content is [`json_of`] the value.
#[verifier::external_type_specification]
#[verifier::external_body]
pub struct ExValue(serde_json::Value);

/// `serde_json::Number`, a JSON number. Nothing is said of what one holds.
#[verifier::external_type_specification]
#[verifier::external_body]
pub struct ExNumber(serde_json::Number);

/// `serde_json::Map`, the members of a JSON object. Its content is
/// [`fields_of`] the map.
#[verifier::external_type_specification]
#[verifier::external_body]
#[verifier::reject_recursive_types(K)]
#[verifier::reject_recursive_types(V)]
pub struct ExMap<K, V>(serde_json::Map<K, V>);

/// The content of a JSON value.
///
/// An object is a map from member names to contents: it has no member order
/// and no name twice. A number stays the `serde_json::Number` it was given as.
pub enum Json {
    Null,
    Bool(bool),
    Number(Number),
    String(Seq<char>),
    Array(Seq<Json>),
    Object(Map<Seq<char>, Json>),
}

/// The members of a JSON object, by name.
pub type Fields = Map<Seq<char>, Json>;

/// The content of a `serde_json::Value`.
pub uninterp spec fn json_of(v: serde_json::Value) -> Json;

/// The members that a `serde_json::Map` holds.
pub uninterp spec fn fields_of(m: serde_json::Map<String, serde_json::Value>) -> Fields;

/// The compact JSON text that `serde_json` writes for a value with the given
/// content. The content decides the text because `serde_json` writes the
/// members of an object in the order of their names; with its feature
/// `preserve_order` switched on it would not.
pub uninterp spec fn json_text(j: Json) -> Seq<char>;

/// `serde_json::Map::new`: the new map holds no member.
pub assume_specification[ serde_json::Map::<String, serde_json::Value>::new ]() -> (m:
    serde_json::Map<String, serde_json::Value>)
    ensures
        fields_of(m) == Fields::empty(),
;

/// `serde_json::Map::insert`: afterwards the map holds the value under the
/// key, and every other member as before. The value that the key had before,
/// if it had one, is returned.
pub assume_specification[ serde_json::Map::<String, serde_json::Value>::insert ](
    m: &mut serde_json::Map<String, serde_json::Value>,
    k: String,
    v: serde_json::Value,
) -> (prev: Option<serde_json::Value>)
    ensures
        fields_of(*final(m)) == fields_of(*old(m)).insert(k@, json_of(v)),
        prev is Some <==> fields_of(*old(m)).dom().contains(k@),
        prev matches Some(p) ==> json_of(p) == fields_of(*old(m))[k@],
;

/// `serde_json::Value::is_object`: whether the value is a JSON object.
pub assume_specification[ serde_json::Value::is_object ](v: &serde_json::Value) -> (b: bool)
    ensures
        b == (json_of(*v) is Object),
;

/// `Value::from(&str)`: the JSON string with the characters of `text`.
#[verifier::external_body]
pub(crate) fn text_value(text: &str) -> (v: Value)
    ensures
        json_of(v) == Json::String(text@),
{
    Value::from(text)
}

/// `Value::from(bool)`: the JSON boolean `flag`.
#[verifier::external_body]
pub(crate) fn flag_value(flag: bool) -> (v: Value)
    ensures
        json_of(v) == Json::Bool(flag),
{
    Value::from(flag)
}

/// `Value::from(Number)`, on a clone of the number: the JSON number `number`.
#[verifier::external_body]
pub(crate) fn number_value(number: &Number) -> (v: Value)
    ensures
        json_of(v) == Json::Number(*number),
{
    Value::from(number.clone())
}

/// `Value::from(Vec<Value>)`: the JSON array of the items, in their order.
#[verifier::external_body]
pub(crate) fn array_value(items: Vec<Value>) -> (v: Value)
    ensures
        json_of(v) == Json::Array(contents(items@)),
{
    Value::from(items)
}

/// `Value::from(Map<String, Value>)`: the JSON object with the members of the
/// map.
#[verifier::external_body]
pub(crate) fn object_value(members: serde_json::Map<String, Value>) -> (v: Value)
    ensures
        json_of(v) == Json::Object(fields_of(members)),
{
    Value::from(members)
}

/// `Value::clone`: a value with the same content.
#[verifier::external_body]
pub(crate) fn copy_value(value: &Value) -> (v: Value)
    ensures
        json_of(v) == json_of(*value),
{
    value.clone()
}

/// `Value::to_string`, which goes through the `Display` impl of `Value`: the
/// compact JSON text of the value.
#[verifier::external_body]
pub(crate) fn value_text(value: &Value) -> (s: String)
    ensures
        s@ == json_text(json_of(*value)),
{
    value.to_string()
}

/// The contents of a sequence of values, item by item.
pub open spec fn contents(items: Seq<Value>) -> Seq<Json> {
    Seq::new(items.len(), |i: int| json_of(items[i]))
}

/// The view of an optional borrowed text.
pub open spec fn text_view(text: Option<&str>) -> Option<Seq<char>> {
    match text {
        Some(t) => Some(t@),
        None => None,
    }
}

/// The view of an optional free-form value.
pub open spec fn value_view(value: Option<Value>) -> Option<Json> {
    match value {
        Some(v) => Some(json_of(v)),
        None => None,
    }
}

/// The content of an optional text: a JSON string where there is one.
pub open spec fn text_json(text: Option<Seq<char>>) -> Option<Json> {
    match text {
        Some(t) => Some(Json::String(t)),
        None => None,
    }
}

/// The content of an optional flag: a JSON boolean where there is one.
pub open spec fn flag_json(flag: Option<bool>) -> Option<Json> {
    match flag {
        Some(b) => Some(Json::Bool(b)),
        None => None,
    }
}

/// The content of an optional number: a JSON number where there is one.
pub open spec fn number_json(number: Option<Number>) -> Option<Json> {
    match number {
        Some(n) => Some(Json::Number(n)),
        None => None,
    }
}

/// The JSON strings of a sequence of texts, item by item.
pub open spec fn text_items(texts: Seq<Seq<char>>) -> Seq<Json> {
    Seq::new(texts.len(), |i: int| Json::String(texts[i]))
}

/// The content of an optional list of texts: a JSON array of strings, in the
/// order of the list, where there is one. An empty list gives an empty array.
pub open spec fn list_json(texts: Option<Seq<Seq<char>>>) -> Option<Json> {
    match texts {
        Some(l) => Some(Json::Array(text_items(l))),
        None => None,
    }
}

/// Whether a content is the array of the given texts: an array of as many
/// strings, the string at each place being the text at that place.
pub open spec fn is_text_array(j: Json, texts: Seq<Seq<char>>) -> bool {
    &&& j is Array
    &&& j->Array_0.len() == texts.len()
    &&& forall|i: int| 0 <= i < texts.len() ==> j->Array_0[i] == Json::String(#[trigger] texts[i])
}

/// Whether `fields` holds the array of the given texts under `name`.
pub open spec fn has_text_array(fields: Fields, name: Seq<char>, texts: Seq<Seq<char>>) -> bool {
    fields.dom().contains(name) && is_text_array(fields[name], texts)
}

/// `fields` with one more member, where `value` holds one; `fields` itself
/// where it holds none.
#[verifier::opaque]
pub open spec fn with_member(fields: Fields, name: Seq<char>, value: Option<Json>) -> Fields {
    match value {
        Some(j) => fields.insert(name, j),
        None => fields,
    }
}

/// Whether `fields` holds exactly `value` under `name`: the member is there
/// with that content, or, where `value` is `None`, no member has that name.
pub open spec fn has_member(fields: Fields, name: Seq<char>, value: Option<Json>) -> bool {
    &&& fields.dom().contains(name) <==> value is Some
    &&& value is Some ==> fields[name] == value->0
}

/// Whether a free-form value can stand where an object is required: it is
/// unset, or it is a JSON object.
pub open spec fn is_mapping(value: Option<Json>) -> bool {
    value matches Some(j) ==> j is Object
}

/// Whether a content holds no null: it is not null itself, and neither is an
/// item of an array or a member of an object in it, at any depth.
pub open spec fn null_free(j: Json) -> bool
    decreases j,
{
    match j {
        Json::Null => false,
        Json::Bool(_) => true,
        Json::Number(_) => true,
        Json::String(_) => true,
        Json::Array(items) => forall|i: int|
            0 <= i < items.len() ==> null_free(#[trigger] items[i]),
        Json::Object(fields) => forall|name: Seq<char>|
            fields.dom().contains(name) ==> null_free(#[trigger] fields[name]),
    }
}

/// Whether an optional content holds no null. One that is unset holds none.
pub open spec fn null_free_member(value: Option<Json>) -> bool {
    value matches Some(j) ==> null_free(j)
}

/// The length of a name with its first and its last character: enough to
/// tell apart the names that the library writes, be it the member names of
/// one object or the names of one enum's variants.
pub open spec fn shape(name: Seq<char>) -> (nat, char, char) {
    (name.len(), name.first(), name.last())
}

/// What one more member changes. Under a name that was free, the new fields
/// hold exactly the new value. Under every other name they hold what the old
/// fields held. And they hold no name but the new one and the old ones.
pub broadcast proof fn lemma_member_added(fields: Fields, name: Seq<char>, value: Option<Json>)
    ensures
        #![trigger with_member(fields, name, value)]
        !fields.dom().contains(name) ==> has_member(
            with_member(fields, name, value),
            name,
            value,
        ),
        forall|other: Seq<char>, v: Option<Json>|
            other != name ==> (#[trigger] has_member(with_member(fields, name, value), other, v)
                <==> has_member(fields, other, v)),
        forall|other: Seq<char>| #[trigger]
            with_member(fields, name, value).dom().contains(other) ==> other == name
                || fields.dom().contains(other),
{
    reveal(with_member);
}

/// One more member that holds no null leaves an object without a null.
pub broadcast proof fn lemma_null_free_added(fields: Fields, name: Seq<char>, value: Option<Json>)
    requires
        null_free(Json::Object(fields)),
        null_free_member(value),
    ensures
        #![trigger with_member(fields, name, value)]
        null_free(Json::Object(with_member(fields, name, value))),
{
    reveal(with_member);
    let after = with_member(fields, name, value);
    let before = Json::Object(fields);
    assert(before->Object_0 == fields);
    assert(forall|n: Seq<char>| fields.dom().contains(n) ==> null_free(#[trigger] fields[n]));
    assert forall|n: Seq<char>| after.dom().contains(n) implies null_free(#[trigger] after[n]) by {
        if !(value is Some && n == name) {
            assert(null_free(fields[n]));
        }
    }
}

/// A list of texts is written without a null.
pub broadcast proof fn lemma_list_null_free(texts: Option<Seq<Seq<char>>>)
    ensures
        null_free_member(#[trigger] list_json(texts)),
{
    if let Some(l) = texts {
        assert forall|i: int| 0 <= i < text_items(l).len() implies null_free(
            #[trigger] text_items(l)[i],
        ) by {}
    }
}

/// A list of texts that is set is written as the array of its texts: the
/// order of the list is the order of the array. An empty list is written as
/// the empty array, which is not the same as a list that is unset: that one
/// is not written.
pub proof fn lemma_list_json(texts: Seq<Seq<char>>)
    ensures
        list_json(Some(texts)) matches Some(j) && is_text_array(j, texts),
        list_json(Some(Seq::<Seq<char>>::empty())) == Some(Json::Array(Seq::empty())),
        list_json(None) is None,
{
    assert(text_items(Seq::<Seq<char>>::empty()) =~= Seq::<Json>::empty());
}

/// A free-form `data` or `headers` value is not a JSON object, so the entity
/// that holds it has no encoding.
#[derive(Clone, Copy, Debug, PartialEq, Eq)]
pub struct DataEncodingError;

impl DataEncodingError {
    /// What went wrong, in words.
    pub fn message(&self) -> (s: &'static str)
        ensures
            s@ == "free-form data must be a JSON object"@,
    {
        "free-form data must be a JSON object"
    }
}

/// Puts `value` under `name`, where there is one.
pub(crate) fn put_member(
    members: &mut serde_json::Map<String, Value>,
    name: &str,
    value: Option<Value>,
)
    ensures
        fields_of(*final(members)) == with_member(
            fields_of(*old(members)),
            name@,
            value_view(value),
        ),
{
    proof {
        reveal(with_member);
    }
    if let Some(v) = value {
        let _ = members.insert(name.to_owned(), v);
    }
}

/// Puts a text under `name`, where there is one.
pub(crate) fn put_text(
    members: &mut serde_json::Map<String, Value>,
    name: &str,
    text: Option<&str>,
)
    ensures
        fields_of(*final(members)) == with_member(
            fields_of(*old(members)),
            name@,
            text_json(text_view(text)),
        ),
{
    let value = match text {
        Some(t) => Some(text_value(t)),
        None => None,
    };
    put_member(members, name, value);
}

/// Puts a flag under `name`, where there is one.
pub(crate) fn put_flag(
    members: &mut serde_json::Map<String, Value>,
    name: &str,
    flag: Option<bool>,
)
    ensures
        fields_of(*final(members)) == with_member(fields_of(*old(members)), name@, flag_json(flag)),
{
    let value = match flag {
        Some(b) => Some(flag_value(b)),
        None => None,
    };
    put_member(members, name, value);
}

/// Puts a number under `name`, where there is one.
pub(crate) fn put_number(
    members: &mut serde_json::Map<String, Value>,
    name: &str,
    number: &Option<Number>,
)
    ensures
        fields_of(*final(members)) == with_member(
            fields_of(*old(members)),
            name@,
            number_json(*number),
        ),
{
    let value = match number {
        Some(n) => Some(number_value(n)),
        None => None,
    };
    put_member(members, name, value);
}

/// Puts a free-form value under `name`, where there is one and it is a JSON
/// object. One that is no object is refused, and nothing is put.
pub(crate) fn put_mapping(
    members: &mut serde_json::Map<String, Value>,
    name: &str,
    value: &Option<Value>,
) -> (r: Result<(), DataEncodingError>)
    ensures
        r is Ok <==> is_mapping(value_view(*value)),
        r is Ok ==> fields_of(*final(members)) == with_member(
            fields_of(*old(members)),
            name@,
            value_view(*value),
        ),
        r is Err ==> fields_of(*final(members)) == fields_of(*old(members)),
{
    let copy = match value {
        Some(v) => {
            if !v.is_object() {
                return Err(DataEncodingError);
            }
            Some(copy_value(v))
        },
        None => None,
    };
    put_member(members, name, copy);
    Ok(())
}

} // verus!

//! Texts that a builder takes by value: what counts as a text, and ordered
//! lists of them.

use crate::json::{
    array_value, contents, fields_of, json_of, list_json, put_member, text_items, text_value,
    with_member, Json,
};
use serde_json::Value;
use std::borrow::Cow;
use vstd::prelude::*;

verus! {

/// A value that holds a text. The list setters of the builders accept a slice
/// of any such type and keep a copy of each item's text.
pub trait Text {
    /// The characters of the text.
    spec fn text(&self) -> Seq<char>;

    /// A string of its own with the same characters.
    fn to_text(&self) -> (s: String)
        ensures
            s@ == self.text(),
    ;
}

impl<'a> Text for &'a str {
    open spec fn text(&self) -> Seq<char> {
        (*self)@
    }

    fn to_text(&self) -> (s: String) {
        (*self).to_owned()
    }
}

impl Text for String {
    open spec fn text(&self) -> Seq<char> {
        self@
    }

    fn to_text(&self) -> (s: String) {
        self.clone()
    }
}

impl<'a> Text for Cow<'a, str> {
    open spec fn text(&self) -> Seq<char> {
        self@
    }

    fn to_text(&self) -> (s: String) {
        match self {
            Cow::Borrowed(borrowed) => (*borrowed).to_owned(),
            Cow::Owned(owned) => owned.clone(),
        }
    }
}

/// The lower-case form of a letter from `A` to `Z`; any other character
/// itself.
pub open spec fn lower(c: char) -> char {
    if 'A' <= c <= 'Z' {
        ((c as u8) + 32) as u8 as char
    } else {
        c
    }
}

/// A text with each of its letters in lower case.
pub open spec fn lower_case(text: Seq<char>) -> Seq<char> {
    Seq::new(text.len(), |i: int| lower(text[i]))
}

/// Whether a text is made of the letters `a` to `z` alone.
pub open spec fn is_lower_case(text: Seq<char>) -> bool {
    forall|i: int| 0 <= i < text.len() ==> 'a' <= #[trigger] text[i] <= 'z'
}

/// The texts of a sequence of items, in the order of the items.
pub open spec fn texts<S: Text>(items: Seq<S>) -> Seq<Seq<char>> {
    Seq::new(items.len(), |i: int| items[i].text())
}

/// The texts of a sequence of strings, in the order of the strings.
pub open spec fn owned_texts(items: Seq<String>) -> Seq<Seq<char>> {
    Seq::new(items.len(), |i: int| items[i]@)
}

/// The view of an optional list of strings.
pub open spec fn list_view(list: Option<Vec<String>>) -> Option<Seq<Seq<char>>> {
    match list {
        Some(l) => Some(owned_texts(l@)),
        None => None,
    }
}

/// Copies the text of each item, keeping the order of the items.
pub(crate) fn copy_texts<S: Text>(items: &[S]) -> (out: Vec<String>)
    ensures
        owned_texts(out@) == texts(items@),
{
    let mut out: Vec<String> = Vec::new();
    let mut i: usize = 0;
    while i < items.len()
        invariant
            i <= items.len(),
            out@.len() == i,
            forall|j: int| 0 <= j < i ==> out@[j]@ == items@[j].text(),
        decreases items.len() - i,
    {
        out.push(items[i].to_text());
        i += 1;
    }
    assert(owned_texts(out@) =~= texts(items@));
    out
}

/// The JSON array of the strings in `items`, in their order.
pub(crate) fn list_value(items: &Vec<String>) -> (v: Value)
    ensures
        json_of(v) == Json::Array(text_items(owned_texts(items@))),
{
    let mut values: Vec<Value> = Vec::new();
    let mut i: usize = 0;
    while i < items.len()
        invariant
            i <= items.len(),
            values@.len() == i,
            forall|j: int| 0 <= j < i ==> json_of(values@[j]) == Json::String(items@[j]@),
        decreases items.len() - i,
    {
        values.push(text_value(items[i].as_str()));
        i += 1;
    }
    assert(contents(values@) =~= text_items(owned_texts(items@)));
    array_value(values)
}

/// Puts a list of texts under `name`, where there is one.
pub(crate) fn put_list(
    members: &mut serde_json::Map<String, Value>,
    name: &str,
    list: &Option<Vec<String>>,
)
    ensures
        fields_of(*final(members)) == with_member(
            fields_of(*old(members)),
            name@,
            list_json(list_view(*list)),
        ),
{
    let value = match list {
        Some(l) => Some(list_value(l)),
        None => None,
    };
    put_member(members, name, value);
}

} // verus!

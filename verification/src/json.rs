//! Records as ordered lists of named values, and their JSON text.

use vstd::prelude::*;
use crate::text::{is_plain, text_less};

verus! {

/// The value of one member of a record: a text or a list of texts.
#[derive(Clone, Debug, PartialEq, Eq)]
pub enum FieldValue {
    Text(String),
    List(Vec<String>),
}

/// What a `FieldValue` holds.
pub enum ValueModel {
    Text(Seq<char>),
    List(Seq<Seq<char>>),
}

/// The texts that a list of strings holds.
pub open spec fn texts_model(items: Seq<String>) -> Seq<Seq<char>> {
    Seq::new(items.len(), |i: int| items[i]@)
}

impl View for FieldValue {
    type V = ValueModel;

    open spec fn view(&self) -> ValueModel {
        match *self {
            FieldValue::Text(s) => ValueModel::Text(s@),
            FieldValue::List(items) => ValueModel::List(texts_model(items@)),
        }
    }
}

/// The names and values that a list of members holds.
pub open spec fn members_model(members: Seq<(String, FieldValue)>) -> Seq<(Seq<char>, ValueModel)> {
    Seq::new(members.len(), |i: int| (members[i].0@, members[i].1@))
}

/// Whether every text of a value is plain.
pub open spec fn value_is_plain(value: ValueModel) -> bool {
    match value {
        ValueModel::Text(s) => is_plain(s),
        ValueModel::List(items) => forall|i: int| 0 <= i < items.len() ==> is_plain(#[trigger] items[i]),
    }
}

/// Members in strictly ascending order of their names, all names and texts
/// plain.
pub open spec fn well_formed_members(members: Seq<(Seq<char>, ValueModel)>) -> bool {
    &&& forall|i: int|
        0 <= i < members.len() ==> is_plain((#[trigger] members[i]).0) && value_is_plain(
            members[i].1,
        )
    &&& forall|i: int|
        0 <= i && i + 1 < members.len() ==> text_less(
            (#[trigger] members[i]).0,
            members[i + 1].0,
        )
}

/// A text between double quotes.
pub open spec fn quoted(s: Seq<char>) -> Seq<char> {
    seq!['"'] + s + seq!['"']
}

/// The items one after the other, each but the first after a comma.
pub open spec fn comma_joined(items: Seq<Seq<char>>) -> Seq<char>
    decreases items.len(),
{
    if items.len() == 0 {
        Seq::empty()
    } else if items.len() == 1 {
        items[0]
    } else {
        comma_joined(items.drop_last()) + seq![','] + items.last()
    }
}

/// The JSON text of a value: a quoted text, or the quoted texts of a list
/// between square brackets.
pub open spec fn value_text(value: ValueModel) -> Seq<char> {
    match value {
        ValueModel::Text(s) => quoted(s),
        ValueModel::List(items) => seq!['['] + comma_joined(
            Seq::new(items.len(), |i: int| quoted(items[i])),
        ) + seq![']'],
    }
}

/// The JSON text of an object with the given members in the given order,
/// without white space: each member is its quoted name, a colon and its value.
pub open spec fn object_text(members: Seq<(Seq<char>, ValueModel)>) -> Seq<char> {
    seq!['{'] + comma_joined(
        Seq::new(
            members.len(),
            |i: int| quoted(members[i].0) + seq![':'] + value_text(members[i].1),
        ),
    ) + seq!['}']
}

/// Builds a `serde_json::Value` with `serde_json::Map::insert`, member by
/// member, and calls `to_string` on it. That writes the object in compact
/// form, its members in ascending order of their names, and a string of plain
/// characters unchanged between quotes. With the members given in that order
/// the text is the one stated.
#[verifier::external_body]
pub(crate) fn object_to_string(members: &Vec<(String, FieldValue)>) -> (text: String)
    requires
        well_formed_members(members_model(members@)),
    ensures
        text@ == object_text(members_model(members@)),
{
    let mut object = serde_json::Map::new();
    for (name, value) in members.iter() {
        let converted = match value {
            FieldValue::Text(s) => serde_json::Value::String(s.clone()),
            FieldValue::List(items) => serde_json::Value::Array(
                items.iter().map(|s| serde_json::Value::String(s.clone())).collect(),
            ),
        };
        object.insert(name.clone(), converted);
    }
    serde_json::Value::Object(object).to_string()
}

} // verus!

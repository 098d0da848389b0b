//! JSON documents, as `serde_json` parses them.
//!
//! The parser is outside this crate. What the crate knows of a parsed value is its
//! [`Json`] shape, which the functions below read member by member.

use crate::text::views;
use vstd::prelude::*;

verus! {

/// The shape of a JSON value.
pub enum Json {
    Null,
    Bool(bool),
    /// A number that is held as an integer: one written without fraction or
    /// exponent, from `i64::MIN` to `u64::MAX`.
    Int(int),
    /// Any other number.
    Real,
    Text(Seq<char>),
    List(Seq<Json>),
    /// The members of an object, in the order in which the value lists them. No
    /// two members have the same name.
    Record(Seq<(Seq<char>, Json)>),
}

/// `serde_json::Value`, a parsed JSON value. Nothing of it is known here but what
/// the functions below say of its shape.
#[verifier::external_type_specification]
#[verifier::external_body]
pub struct ExValue(serde_json::Value);

/// The shape of a parsed value.
pub uninterp spec fn json_shape(value: serde_json::Value) -> Json;

/// The shape of the value that a text parses to, where it is a JSON document.
pub uninterp spec fn json_document(text: Seq<u8>) -> Option<Json>;

/// The value of the first member called `name`.
pub open spec fn member_of(members: Seq<(Seq<char>, Json)>, name: Seq<char>) -> Option<Json>
    decreases members.len(),
{
    if members.len() == 0 {
        None
    } else if members[0].0 == name {
        Some(members[0].1)
    } else {
        member_of(members.drop_first(), name)
    }
}

/// The member `name` of an object; nothing for a value that is no object.
pub open spec fn member(doc: Json, name: Seq<char>) -> Option<Json> {
    match doc {
        Json::Record(members) => member_of(members, name),
        _ => None,
    }
}

/// `serde_json::from_slice`, read as a `Value`: the value that `text` parses to, or
/// nothing where `text` is no JSON document. The shape of the result is the shape
/// that `json_document` names for `text`.
#[verifier::external_body]
pub(crate) fn parse_json(text: &[u8]) -> (parsed: Option<serde_json::Value>)
    ensures
        parsed.is_some() == json_document(text@).is_some(),
        parsed matches Some(value) ==> json_document(text@) == Some(json_shape(value)),
{
    match serde_json::from_slice::<serde_json::Value>(text) {
        Ok(value) => Some(value),
        Err(_) => None,
    }
}

/// `Value::get` with a member's name: the member of an object that has this name,
/// nothing if there is none or if the value is no object.
#[verifier::external_body]
pub(crate) fn json_member<'a>(doc: &'a serde_json::Value, name: &str) -> (found: Option<&'a serde_json::Value>)
    ensures
        found.is_some() == member(json_shape(*doc), name@).is_some(),
        found matches Some(value) ==> member(json_shape(*doc), name@) == Some(json_shape(*value)),
{
    doc.get(name)
}

/// `Value::as_str`: the text of a string value, nothing for any other value.
#[verifier::external_body]
pub(crate) fn json_text<'a>(value: &'a serde_json::Value) -> (text: Option<&'a str>)
    ensures
        text.is_some() == (json_shape(*value) is Text),
        text matches Some(t) ==> json_shape(*value) == Json::Text(t@),
{
    value.as_str()
}

/// `Value::as_u64`: the number, where the value is an integer from 0 to `u64::MAX`;
/// nothing for a negative integer, another number or any other value. This is how
/// `serde_json` holds numbers without its feature for arbitrary precision.
#[verifier::external_body]
pub(crate) fn json_unsigned(value: &serde_json::Value) -> (number: Option<u64>)
    ensures
        number.is_some() == (json_shape(*value) matches Json::Int(n) && 0 <= n <= u64::MAX),
        number matches Some(n) ==> json_shape(*value) == Json::Int(n as int),
{
    value.as_u64()
}

/// The shapes of some values, in order.
pub open spec fn item_shapes(items: Seq<serde_json::Value>) -> Seq<Json> {
    Seq::new(items.len(), |i: int| json_shape(items[i]))
}

/// The names and the shapes of some members, in order.
pub open spec fn member_shapes(members: Seq<(&String, &serde_json::Value)>) -> Seq<
    (Seq<char>, Json),
> {
    Seq::new(members.len(), |i: int| (members[i].0@, json_shape(*members[i].1)))
}

/// Whether no two members have the same name.
pub open spec fn distinct_names(members: Seq<(Seq<char>, Json)>) -> bool {
    forall|i: int, j: int| 0 <= i < j < members.len() ==> members[i].0 != members[j].0
}

/// `Value::as_array`: the items of an array in order, nothing for any other value.
#[verifier::external_body]
pub(crate) fn json_items<'a>(value: &'a serde_json::Value) -> (items: Option<&'a Vec<serde_json::Value>>)
    ensures
        items.is_some() == (json_shape(*value) is List),
        items matches Some(list) ==> json_shape(*value) == Json::List(item_shapes(list@)),
{
    value.as_array()
}

/// `Value::as_object` and `Map::iter`: the members of an object, each with its name,
/// in the order in which the map lists them; nothing for any other value. A map
/// holds each name once.
#[verifier::external_body]
pub(crate) fn json_members<'a>(value: &'a serde_json::Value) -> (members: Option<
    Vec<(&'a String, &'a serde_json::Value)>,
>)
    ensures
        members.is_some() == (json_shape(*value) is Record),
        members matches Some(list) ==> json_shape(*value) == Json::Record(member_shapes(list@)),
        members matches Some(list) ==> distinct_names(member_shapes(list@)),
{
    match value.as_object() {
        Some(map) => Some(map.iter().collect()),
        None => None,
    }
}

/// The text of the member `name`; nothing where the member is missing or is no text.
pub open spec fn text_member(doc: Json, name: Seq<char>) -> Option<Seq<char>> {
    match member(doc, name) {
        Some(Json::Text(text)) => Some(text),
        _ => None,
    }
}

/// The text of the member `name`, which may be missing. The outer `None` stands for
/// a member that is there and is no text.
pub open spec fn optional_text_member(doc: Json, name: Seq<char>) -> Option<Option<Seq<char>>> {
    match member(doc, name) {
        None => Some(None),
        Some(Json::Text(text)) => Some(Some(text)),
        Some(_) => None,
    }
}

/// The number that a value holds, where it is an integer from 0 to `u64::MAX`.
pub open spec fn unsigned_of(value: Json) -> Option<u64> {
    match value {
        Json::Int(n) => if 0 <= n <= u64::MAX {
            Some(n as u64)
        } else {
            None
        },
        _ => None,
    }
}

/// The number of the member `name`; nothing where the member is missing or holds
/// anything but an integer from 0 to `u64::MAX`.
pub open spec fn unsigned_member(doc: Json, name: Seq<char>) -> Option<u64> {
    match member(doc, name) {
        Some(value) => unsigned_of(value),
        None => None,
    }
}

/// The number of the member `name`, which may be missing. The outer `None` stands
/// for a member that is there and holds anything but an integer from 0 to `u64::MAX`.
pub open spec fn optional_unsigned_member(doc: Json, name: Seq<char>) -> Option<Option<u64>> {
    match member(doc, name) {
        None => Some(None),
        Some(value) => match unsigned_of(value) {
            Some(n) => Some(Some(n)),
            None => None,
        },
    }
}

/// The texts of a list whose items are all texts.
pub open spec fn texts_of(items: Seq<Json>) -> Option<Seq<Seq<char>>> {
    if forall|i: int| 0 <= i < items.len() ==> (#[trigger] items[i]) is Text {
        Some(Seq::new(items.len(), |i: int| items[i]->Text_0))
    } else {
        None
    }
}

/// The texts of the member `name`, a list of texts that may be missing: a missing
/// list is an empty one. Nothing where the member is there and is no list of texts.
pub open spec fn optional_texts_member(doc: Json, name: Seq<char>) -> Option<Seq<Seq<char>>> {
    match member(doc, name) {
        None => Some(Seq::empty()),
        Some(Json::List(items)) => texts_of(items),
        Some(_) => None,
    }
}

/// Reads the text of the member `name`.
pub fn read_text(doc: &serde_json::Value, name: &str) -> (text: Option<String>)
    ensures
        text.is_some() == text_member(json_shape(*doc), name@).is_some(),
        text matches Some(t) ==> text_member(json_shape(*doc), name@) == Some(t@),
{
    match json_member(doc, name) {
        Some(value) => match json_text(value) {
            Some(text) => Some(text.to_owned()),
            None => None,
        },
        None => None,
    }
}

/// Reads the text of the member `name`, which may be missing.
pub fn read_optional_text(doc: &serde_json::Value, name: &str) -> (text: Option<Option<String>>)
    ensures
        text.is_some() == optional_text_member(json_shape(*doc), name@).is_some(),
        text matches Some(inner) ==> {
            let named = optional_text_member(json_shape(*doc), name@).unwrap();
            &&& inner.is_some() == named.is_some()
            &&& inner matches Some(t) ==> named == Some(t@)
        },
{
    match json_member(doc, name) {
        Some(value) => match json_text(value) {
            Some(text) => Some(Some(text.to_owned())),
            None => None,
        },
        None => Some(None),
    }
}

/// Reads the number of the member `name`.
pub fn read_unsigned(doc: &serde_json::Value, name: &str) -> (number: Option<u64>)
    ensures
        number == unsigned_member(json_shape(*doc), name@),
{
    match json_member(doc, name) {
        Some(value) => json_unsigned(value),
        None => None,
    }
}

/// Reads the number of the member `name`, which may be missing.
pub fn read_optional_unsigned(doc: &serde_json::Value, name: &str) -> (number: Option<Option<u64>>)
    ensures
        number == optional_unsigned_member(json_shape(*doc), name@),
{
    match json_member(doc, name) {
        Some(value) => match json_unsigned(value) {
            Some(n) => Some(Some(n)),
            None => None,
        },
        None => Some(None),
    }
}

/// Reads a list whose items are all texts.
pub fn read_texts(items: &Vec<serde_json::Value>) -> (texts: Option<Vec<String>>)
    ensures
        texts.is_some() == texts_of(item_shapes(items@)).is_some(),
        texts matches Some(list) ==> texts_of(item_shapes(items@)) == Some(views(list@)),
{
    let ghost shapes = item_shapes(items@);
    let mut list: Vec<String> = Vec::new();
    let mut i: usize = 0;
    while i < items.len()
        invariant
            i <= items.len(),
            list@.len() == i,
            shapes == item_shapes(items@),
            forall|k: int| 0 <= k < i ==> (#[trigger] shapes[k]) == Json::Text(list@[k]@),
        decreases items.len() - i,
    {
        match json_text(&items[i]) {
            Some(text) => {
                list.push(text.to_owned());
            },
            None => {
                assert(!(shapes[i as int] is Text));
                return None;
            },
        }
        i = i + 1;
    }
    assert(views(list@) =~= texts_of(shapes).unwrap());
    Some(list)
}

/// Reads the member `name`, a list of texts that may be missing.
pub fn read_optional_texts(doc: &serde_json::Value, name: &str) -> (texts: Option<Vec<String>>)
    ensures
        texts.is_some() == optional_texts_member(json_shape(*doc), name@).is_some(),
        texts matches Some(list) ==> optional_texts_member(json_shape(*doc), name@) == Some(
            views(list@),
        ),
{
    match json_member(doc, name) {
        Some(value) => match json_items(value) {
            Some(items) => read_texts(items),
            None => None,
        },
        None => {
            let list: Vec<String> = Vec::new();
            assert(views(list@) =~= Seq::<Seq<char>>::empty());
            Some(list)
        },
    }
}

} // verus!

//! JSON documents, as `serde_json` reads them.
//!
//! A document is kept as a `serde_json::Value`. Contracts speak about it
//! through [`json_tree`], the mathematical tree that the value holds. Nothing
//! in this file is proved: each item states what one function of `serde_json`
//! does.

use serde_json::Value;
use vstd::prelude::*;

verus! {

/// `serde_json::Value`, whose inside is not looked into here.
#[verifier::external_type_specification]
#[verifier::external_body]
pub struct ExValue(serde_json::Value);

/// The content of a JSON value.
///
/// An integer number is kept exactly; a number that is not an integer is kept
/// only as `Real`, for nothing here reads it.
pub enum JsonTree {
    Null,
    Bool(bool),
    Integer(int),
    Real,
    Text(Seq<char>),
    Array(Seq<JsonTree>),
    Object(Map<Seq<char>, JsonTree>),
}

impl JsonTree {
    /// The member stored under `key`, and `Null` where `self` is no object or
    /// has no such member.
    pub open spec fn member(self, key: Seq<char>) -> JsonTree {
        match self {
            JsonTree::Object(members) => if members.contains_key(key) {
                members[key]
            } else {
                JsonTree::Null
            },
            _ => JsonTree::Null,
        }
    }

    /// Whether `self` is an object with a member under `key`.
    pub open spec fn has_member(self, key: Seq<char>) -> bool {
        match self {
            JsonTree::Object(members) => members.contains_key(key),
            _ => false,
        }
    }

    /// The value as a signed 64-bit integer, where it is an integer in range.
    pub open spec fn as_i64(self) -> Option<i64> {
        match self {
            JsonTree::Integer(n) => if i64::MIN <= n <= i64::MAX {
                Some(n as i64)
            } else {
                None
            },
            _ => None,
        }
    }

    /// The value as an unsigned 64-bit integer, where it is an integer in range.
    pub open spec fn as_u64(self) -> Option<u64> {
        match self {
            JsonTree::Integer(n) => if 0 <= n <= u64::MAX {
                Some(n as u64)
            } else {
                None
            },
            _ => None,
        }
    }

    /// The value as a boolean.
    pub open spec fn as_bool(self) -> Option<bool> {
        match self {
            JsonTree::Bool(b) => Some(b),
            _ => None,
        }
    }

    /// The value as text.
    pub open spec fn as_text(self) -> Option<Seq<char>> {
        match self {
            JsonTree::Text(s) => Some(s),
            _ => None,
        }
    }
}

/// The tree that a `serde_json::Value` holds.
pub uninterp spec fn json_tree(value: Value) -> JsonTree;

/// The tree that `serde_json::from_str` reads from a text, `None` where it
/// reports an error.
pub uninterp spec fn json_document(text: Seq<char>) -> Option<JsonTree>;

/// `serde_json::from_str::<Value>`: the document that the text denotes, or
/// `None` for any error. The result is a function of the text alone.
#[verifier::external_body]
pub(crate) fn parse_document(text: &str) -> (document: Option<Value>)
    ensures
        match document {
            Some(value) => json_document(text@) == Some(json_tree(value)),
            None => json_document(text@) is None,
        },
{
    serde_json::from_str::<Value>(text).ok()
}

/// `Value`'s `Index<&str>`: the member under `key` if the value is an object
/// that has one, else a null value. It never panics.
#[verifier::external_body]
pub(crate) fn member<'a>(value: &'a Value, key: &str) -> (found: &'a Value)
    ensures
        json_tree(*found) == json_tree(*value).member(key@),
{
    &value[key]
}

/// `Value::as_i64`: the number, if the value is an integer that fits `i64`.
#[verifier::external_body]
pub(crate) fn as_i64(value: &Value) -> (number: Option<i64>)
    ensures
        number == json_tree(*value).as_i64(),
{
    value.as_i64()
}

/// `Value::as_u64`: the number, if the value is an integer that fits `u64`.
#[verifier::external_body]
pub(crate) fn as_u64(value: &Value) -> (number: Option<u64>)
    ensures
        number == json_tree(*value).as_u64(),
{
    value.as_u64()
}

/// `Value::as_bool`: the boolean, if the value is one.
#[verifier::external_body]
pub(crate) fn as_bool(value: &Value) -> (flag: Option<bool>)
    ensures
        flag == json_tree(*value).as_bool(),
{
    value.as_bool()
}

/// `Value::as_str`: the text, if the value is a string.
#[verifier::external_body]
pub(crate) fn as_str<'a>(value: &'a Value) -> (text: Option<&'a str>)
    ensures
        match text {
            Some(s) => json_tree(*value).as_text() == Some(s@),
            None => json_tree(*value).as_text() is None,
        },
{
    value.as_str()
}

/// `Value::is_object`: whether the value is an object.
#[verifier::external_body]
pub(crate) fn is_object(value: &Value) -> (answer: bool)
    ensures
        answer == (json_tree(*value) is Object),
{
    value.is_object()
}

/// `Value::as_array`: the items, if the value is an array.
#[verifier::external_body]
pub(crate) fn as_array(value: &Value) -> (items: Option<&Vec<Value>>)
    ensures
        match items {
            Some(list) => json_tree(*value) == JsonTree::Array(
                list@.map_values(|item: Value| json_tree(item)),
            ),
            None => !(json_tree(*value) is Array),
        },
{
    value.as_array()
}

/// `Value::get` with a string: the member under `key`, if the value is an
/// object that has one.
#[verifier::external_body]
pub(crate) fn get<'a>(value: &'a Value, key: &str) -> (found: Option<&'a Value>)
    ensures
        match found {
            Some(member) => json_tree(*value).has_member(key@) && json_tree(*member) == json_tree(
                *value,
            ).member(key@),
            None => !json_tree(*value).has_member(key@),
        },
{
    value.get(key)
}

} // verus!

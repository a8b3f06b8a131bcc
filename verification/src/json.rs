//! JSON values of `serde_json`, and what the rest of the crate may rely on about them.
//!
//! A [`Value`] is opaque to the verifier. [`json_of`] names the content of one, and the trusted
//! items below say how the calls into `serde_json` read and build that content.
use serde_json::Value;
use vstd::prelude::*;

verus! {

/// `serde_json::Value`, a JSON value.
#[verifier::external_type_specification]
#[verifier::external_body]
pub struct ExValue(serde_json::Value);

/// `serde_json::Number`, the number inside a JSON value.
#[verifier::external_type_specification]
#[verifier::external_body]
pub struct ExNumber(serde_json::Number);

/// The content of a JSON value.
pub enum Json {
    /// `null`.
    Null,
    /// `true` or `false`.
    Bool(bool),
    /// A number that is held as an unsigned 64-bit integer.
    Natural(u64),
    /// Any other number: negative, fractional, or beyond 64 bits.
    Number(serde_json::Number),
    /// A string.
    Text(Seq<char>),
    /// An array.
    Array(Seq<Json>),
    /// An object, without the order of its members.
    Object(Map<Seq<char>, Json>),
}

/// The content of `v`: the variant of `v`, and below it the content of each item or member.
pub uninterp spec fn json_of(v: Value) -> Json;

/// What `serde_json::from_str` makes of `raw` when it is asked for an array of values: the values,
/// or the message of the error.
pub uninterp spec fn parsed_array(raw: Seq<char>) -> Result<Seq<Value>, Seq<char>>;

/// What `serde_json::to_string_pretty` makes of `v`: the text, or the message of the error.
pub uninterp spec fn pretty_printed(v: Value) -> Result<Seq<char>, Seq<char>>;

/// The member `key` of `v`; `None` where `v` is no object or has no such member.
pub open spec fn member(v: Value, key: Seq<char>) -> Option<Json> {
    match json_of(v) {
        Json::Object(members) => if members.contains_key(key) {
            Some(members[key])
        } else {
            None
        },
        _ => None,
    }
}

/// The member `key` of `v`, where it is a string.
pub open spec fn text_of(v: Value, key: Seq<char>) -> Option<Seq<char>> {
    match member(v, key) {
        Some(Json::Text(s)) => Some(s),
        _ => None,
    }
}

/// The member `key` of `v`, where it is a number held as an unsigned 64-bit integer.
pub open spec fn natural_of(v: Value, key: Seq<char>) -> Option<u64> {
    match member(v, key) {
        Some(Json::Natural(n)) => Some(n),
        _ => None,
    }
}

/// The contents of a sequence of values.
pub open spec fn contents(items: Seq<Value>) -> Seq<Json> {
    items.map_values(|v: Value| json_of(v))
}

/// A parsed array or a message, seen as sequences.
pub open spec fn array_view(r: Result<Vec<Value>, String>) -> Result<Seq<Value>, Seq<char>> {
    match r {
        Ok(items) => Ok(items@),
        Err(message) => Err(message@),
    }
}

/// A written text or a message, seen as sequences.
pub open spec fn written_view(r: Result<String, String>) -> Result<Seq<char>, Seq<char>> {
    match r {
        Ok(text) => Ok(text@),
        Err(message) => Err(message@),
    }
}

/// `Value::as_str` gives the text of a string, and nothing of any other value.
pub assume_specification[ Value::as_str ](v: &Value) -> (r: Option<&str>)
    ensures
        r is Some <==> json_of(*v) is Text,
        r matches Some(s) ==> json_of(*v) == Json::Text(s@),
;

/// `Value::as_u64` gives a number that is held as an unsigned 64-bit integer, and nothing of any
/// other value.
pub assume_specification[ Value::as_u64 ](v: &Value) -> (r: Option<u64>)
    ensures
        r is Some <==> json_of(*v) is Natural,
        r matches Some(n) ==> json_of(*v) == Json::Natural(n),
;

/// The derived `Value::clone` gives the same value again.
pub assume_specification[ <Value as Clone>::clone ](v: &Value) -> (r: Value)
    ensures
        r == *v,
;

/// `Value::get` with a string index gives the member of that name of an object, and nothing
/// where there is none or where the value is no object.
#[verifier::external_body]
fn get<'a>(v: &'a Value, key: &str) -> (r: Option<&'a Value>)
    ensures
        r is Some <==> member(*v, key@) is Some,
        r matches Some(w) ==> member(*v, key@) == Some(json_of(*w)),
{
    v.get(key)
}

/// `serde_json::from_str` parses a text into an array of values, or fails with an error whose
/// `Display` gives the message; which of the two, and with what, depends on the text alone.
#[verifier::external_body]
pub(crate) fn parse_array(raw: &str) -> (r: Result<Vec<Value>, String>)
    ensures
        array_view(r) == parsed_array(raw@),
{
    match serde_json::from_str(raw) {
        Ok(items) => Ok(items),
        Err(e) => Err(e.to_string()),
    }
}

/// `serde_json::to_string_pretty` writes a value as indented JSON. The text depends on the value
/// alone. It fails only where a `Serialize` impl does or where a key is no string, and with a
/// `Value` neither happens.
#[verifier::external_body]
pub(crate) fn to_string_pretty(v: &Value) -> (r: Result<String, String>)
    ensures
        r is Ok,
        written_view(r) == pretty_printed(*v),
{
    match serde_json::to_string_pretty(v) {
        Ok(text) => Ok(text),
        Err(e) => Err(e.to_string()),
    }
}

/// `Value::Null`.
#[verifier::external_body]
pub(crate) fn null() -> (r: Value)
    ensures
        json_of(r) == Json::Null,
{
    Value::Null
}

/// `Value::from` on a `bool` makes a JSON boolean.
#[verifier::external_body]
pub(crate) fn boolean(b: bool) -> (r: Value)
    ensures
        json_of(r) == Json::Bool(b),
{
    Value::from(b)
}

/// `Value::from` on a `u64` makes a number that holds it as an unsigned 64-bit integer.
#[verifier::external_body]
pub(crate) fn natural(n: u64) -> (r: Value)
    ensures
        json_of(r) == Json::Natural(n),
{
    Value::from(n)
}

/// `Value::from` on a `&str` makes a JSON string with that text.
#[verifier::external_body]
pub(crate) fn text(s: &str) -> (r: Value)
    ensures
        json_of(r) == Json::Text(s@),
{
    Value::from(s)
}

/// `Value::Array` makes an array of the values, in their order.
#[verifier::external_body]
pub(crate) fn array(items: Vec<Value>) -> (r: Value)
    ensures
        json_of(r) == Json::Array(contents(items@)),
{
    Value::Array(items)
}

/// `serde_json::Map::new`, as a value: an object without members.
#[verifier::external_body]
pub(crate) fn object() -> (r: Value)
    ensures
        json_of(r) == Json::Object(Map::empty()),
{
    Value::Object(serde_json::Map::new())
}

/// Assignment through `Value::index_mut` sets one member of an object, in place of an earlier one
/// of that name, and leaves the others. On a value that is no object the call can panic.
#[verifier::external_body]
pub(crate) fn set_member(obj: &mut Value, key: &str, value: Value)
    requires
        json_of(*old(obj)) is Object,
    ensures
        json_of(*final(obj)) == Json::Object(
            json_of(*old(obj))->Object_0.insert(key@, json_of(value)),
        ),
{
    obj[key] = value;
}

/// The member `key` of `v`, where it is a string.
pub fn text_member<'a>(v: &'a Value, key: &str) -> (r: Option<&'a str>)
    ensures
        r is Some <==> text_of(*v, key@) is Some,
        r matches Some(s) ==> text_of(*v, key@) == Some(s@),
{
    match get(v, key) {
        Some(found) => found.as_str(),
        None => None,
    }
}

/// The member `key` of `v`, where it is a number held as an unsigned 64-bit integer.
pub fn natural_member(v: &Value, key: &str) -> (r: Option<u64>)
    ensures
        r == natural_of(*v, key@),
{
    match get(v, key) {
        Some(found) => found.as_u64(),
        None => None,
    }
}

/// A text or a number is read of an object alone, from the member of the name, and only where that
/// member is of the type.
pub proof fn members_are_read_by_name_and_type(
    v: Value,
    members: Map<Seq<char>, Json>,
    key: Seq<char>,
    s: Seq<char>,
    n: u64,
)
    ensures
        json_of(v) !is Object ==> text_of(v, key) is None && natural_of(v, key) is None,
        json_of(v) == Json::Object(members) ==> {
            &&& text_of(v, key) == Some(s) <==> members.contains_key(key) && members[key]
                == Json::Text(s)
            &&& natural_of(v, key) == Some(n) <==> members.contains_key(key) && members[key]
                == Json::Natural(n)
            &&& members.contains_key(key) && members[key] !is Text ==> text_of(v, key) is None
            &&& members.contains_key(key) && members[key] !is Natural ==> natural_of(v, key) is None
            &&& !members.contains_key(key) ==> text_of(v, key) is None && natural_of(v, key) is None
        },
{
}

} // verus!

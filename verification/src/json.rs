//! JSON values as `serde_json` holds and writes them.
//!
//! A value is opaque to the verifier. It is modelled by the compact text that
//! `serde_json` writes for it, and an object under construction by the text of
//! each of its members.

use vstd::prelude::*;

verus! {

/// `serde_json::Value`, taken as it is: nothing inside it is seen here.
#[verifier::external_type_specification]
#[verifier::external_body]
pub struct ExJsonValue(serde_json::Value);

/// `serde_json::Map`, taken as it is.
#[verifier::external_type_specification]
#[verifier::external_body]
#[verifier::reject_recursive_types(K)]
#[verifier::reject_recursive_types(V)]
pub struct ExJsonMap<K, V>(serde_json::Map<K, V>);

/// A JSON object while it is being put together.
pub type JsonObject = serde_json::Map<String, serde_json::Value>;

/// The compact text that `serde_json` writes for `v`.
pub uninterp spec fn json_text(v: serde_json::Value) -> Seq<char>;

/// What an object under construction holds: for each key, the compact text of
/// the member stored under it.
pub uninterp spec fn json_members(m: JsonObject) -> Map<Seq<char>, Seq<char>>;

/// The members of `v` where `v` is an object, each as the text of what is
/// stored under its key; `None` for any other kind of value.
pub uninterp spec fn value_members(v: serde_json::Value) -> Option<Map<Seq<char>, Seq<char>>>;

/// The compact text of the JSON object with the given members, which
/// `serde_json` writes in ascending order of their keys.
pub uninterp spec fn object_text(members: Map<Seq<char>, Seq<char>>) -> Seq<char>;

/// The compact text of a JSON string: `s` between double quotes, with the
/// escapes that `serde_json` applies.
pub uninterp spec fn quoted_text(s: Seq<char>) -> Seq<char>;

/// The string stored under `key` in `v`, where `v` is an object that has such
/// a member and the member is a string.
pub uninterp spec fn string_member(v: serde_json::Value, key: Seq<char>) -> Option<Seq<char>>;

/// The number stored under `key` in `v`, where `v` is an object that has such
/// a member and the member is an integer that fits `u64`.
pub uninterp spec fn u64_member(v: serde_json::Value, key: Seq<char>) -> Option<u64>;

/// The decimal digit for `d`.
pub open spec fn digit_char(d: nat) -> char {
    if d == 0 {
        '0'
    } else if d == 1 {
        '1'
    } else if d == 2 {
        '2'
    } else if d == 3 {
        '3'
    } else if d == 4 {
        '4'
    } else if d == 5 {
        '5'
    } else if d == 6 {
        '6'
    } else if d == 7 {
        '7'
    } else if d == 8 {
        '8'
    } else {
        '9'
    }
}

/// `n` in decimal, without sign or leading zeros.
pub open spec fn decimal_text(n: nat) -> Seq<char>
    decreases n,
{
    if n < 10 {
        seq![digit_char(n)]
    } else {
        decimal_text(n / 10).push(digit_char(n % 10))
    }
}

/// The members of an empty object.
pub open spec fn no_members() -> Map<Seq<char>, Seq<char>> {
    Map::empty()
}

/// The text of the JSON value `null`.
pub open spec fn null_text() -> Seq<char> {
    seq!['n', 'u', 'l', 'l']
}

/// The text of a JSON boolean.
pub open spec fn bool_text(b: bool) -> Seq<char> {
    if b {
        seq!['t', 'r', 'u', 'e']
    } else {
        seq!['f', 'a', 'l', 's', 'e']
    }
}

/// Trusted: `Value::from(bool)`, which is written as `true` or `false`.
#[verifier::external_body]
pub(crate) fn json_bool(b: bool) -> (v: serde_json::Value)
    ensures
        json_text(v) == bool_text(b),
{
    serde_json::Value::from(b)
}

/// Trusted: `serde_json::Value::Null`, which is written as `null`.
#[verifier::external_body]
pub(crate) fn json_null() -> (v: serde_json::Value)
    ensures
        json_text(v) == null_text(),
{
    serde_json::Value::Null
}

/// Trusted: `Value::from(u64)`, a JSON number that is written in decimal.
#[verifier::external_body]
pub(crate) fn json_number(n: u64) -> (v: serde_json::Value)
    ensures
        json_text(v) == decimal_text(n as nat),
{
    serde_json::Value::from(n)
}

/// Trusted: `Value::from(&str)`, a JSON string that is written quoted and
/// escaped.
#[verifier::external_body]
pub(crate) fn json_string(s: &str) -> (v: serde_json::Value)
    ensures
        json_text(v) == quoted_text(s@),
{
    serde_json::Value::from(s)
}

/// Trusted: `Value::clone` gives a value that is written alike and, where it
/// is an object, has the same members, strings and numbers among them.
pub assume_specification[ <serde_json::Value as Clone>::clone ](v: &serde_json::Value) -> (c:
    serde_json::Value)
    ensures
        json_text(c) == json_text(*v),
        value_members(c) == value_members(*v),
        forall|key: Seq<char>| #[trigger] string_member(c, key) == string_member(*v, key),
        forall|key: Seq<char>| #[trigger] u64_member(c, key) == u64_member(*v, key),
        forall|key: Seq<char>| #[trigger] i64_member(c, key) == i64_member(*v, key),
;

/// Trusted: `Value::is_null`. `null` is the only value whose text is `null`.
#[verifier::external_body]
pub(crate) fn json_is_null(v: &serde_json::Value) -> (r: bool)
    ensures
        r == (json_text(*v) == null_text()),
{
    v.is_null()
}

/// Trusted: `Map::new`, an object without members.
#[verifier::external_body]
pub(crate) fn members_new() -> (m: JsonObject)
    ensures
        json_members(m) == no_members(),
{
    serde_json::Map::new()
}

/// Trusted: `Map::insert` stores `v` under `key`, in place of a member that
/// was there under the same key, and leaves the other members alone.
#[verifier::external_body]
pub(crate) fn members_insert(
    m: &mut JsonObject,
    key: &str,
    v: serde_json::Value,
)
    ensures
        json_members(*final(m)) == json_members(*old(m)).insert(key@, json_text(v)),
{
    m.insert(key.to_string(), v);
}

/// Trusted: `Map::clone` gives an object with the same members.
pub assume_specification[ <serde_json::Map<String, serde_json::Value> as Clone>::clone ](
    m: &serde_json::Map<String, serde_json::Value>,
) -> (c: serde_json::Map<String, serde_json::Value>)
    ensures
        json_members(c) == json_members(*m),
;

/// Trusted: `Map::remove` takes out the member under `key`, if there is one,
/// and leaves the other members alone.
#[verifier::external_body]
pub(crate) fn members_remove(m: &mut JsonObject, key: &str)
    ensures
        json_members(*final(m)) == json_members(*old(m)).remove(key@),
{
    m.remove(key);
}

/// Trusted: `Value::Object` makes the object with the members of `m`, whose
/// text is that of an object with those members.
#[verifier::external_body]
pub(crate) fn json_object(m: JsonObject) -> (v: serde_json::Value)
    ensures
        json_text(v) == object_text(json_members(m)),
        value_members(v) == Some(json_members(m)),
{
    serde_json::Value::Object(m)
}

/// Trusted: tells an object from the other kinds of value. An object comes
/// back as its members, any other value unchanged.
#[verifier::external_body]
pub(crate) fn json_into_object(v: serde_json::Value) -> (r: Result<JsonObject, serde_json::Value>)
    ensures
        match r {
            Ok(m) => value_members(v) == Some(json_members(m)) && json_text(v) == object_text(
                json_members(m),
            ),
            Err(other) => value_members(v) is None && json_text(other) == json_text(v),
        },
{
    match v {
        serde_json::Value::Object(m) => Ok(m),
        other => Err(other),
    }
}

/// Trusted: `serde_json::to_string` on a value. Writing a `Value` into memory
/// has no way to fail (its keys are strings and it holds no number that JSON
/// cannot express), so the text always comes back.
#[verifier::external_body]
pub(crate) fn json_to_text(v: &serde_json::Value) -> (s: String)
    ensures
        s@ == json_text(*v),
{
    serde_json::to_string(v).unwrap_or_default()
}

/// Trusted: `Value::get` with a key, then `Value::as_str`.
#[verifier::external_body]
pub(crate) fn json_string_member(v: &serde_json::Value, key: &str) -> (r: Option<String>)
    ensures
        match r {
            Some(s) => string_member(*v, key@) == Some(s@),
            None => string_member(*v, key@) is None,
        },
{
    match v.get(key) {
        Some(member) => member.as_str().map(String::from),
        None => None,
    }
}

/// Trusted: `Value::get` with a key, then `Value::as_u64`.
#[verifier::external_body]
pub(crate) fn json_u64_member(v: &serde_json::Value, key: &str) -> (r: Option<u64>)
    ensures
        r == u64_member(*v, key@),
{
    match v.get(key) {
        Some(member) => member.as_u64(),
        None => None,
    }
}

/// The number stored under `key` in `v`, where `v` is an object that has such
/// a member and the member is an integer that fits `i64`.
pub uninterp spec fn i64_member(v: serde_json::Value, key: Seq<char>) -> Option<i64>;

/// Trusted: `Value::get` with a key, then `Value::as_i64`.
#[verifier::external_body]
pub(crate) fn json_i64_member(v: &serde_json::Value, key: &str) -> (r: Option<i64>)
    ensures
        r == i64_member(*v, key@),
{
    match v.get(key) {
        Some(member) => member.as_i64(),
        None => None,
    }
}

/// Whether `v` is an object with a member under `key`.
pub open spec fn has_member(v: serde_json::Value, key: Seq<char>) -> bool {
    match value_members(v) {
        Some(members) => members.contains_key(key),
        None => false,
    }
}

/// Trusted: `Value::get` with a key finds something exactly in an object
/// that has a member under that key.
#[verifier::external_body]
pub(crate) fn json_has_member(v: &serde_json::Value, key: &str) -> (r: bool)
    ensures
        r == has_member(*v, key@),
{
    v.get(key).is_some()
}

/// The text of what `v` holds under `key`, where `v` is an object with such a
/// member.
pub open spec fn member_text(v: serde_json::Value, key: Seq<char>) -> Option<Seq<char>> {
    match value_members(v) {
        Some(members) => if members.contains_key(key) {
            Some(members[key])
        } else {
            None
        },
        None => None,
    }
}

/// Trusted: `Value::get` with a key, and `Value::clone` of what it finds.
#[verifier::external_body]
pub(crate) fn json_member(v: &serde_json::Value, key: &str) -> (r: Option<serde_json::Value>)
    ensures
        match r {
            Some(member) => member_text(*v, key@) == Some(json_text(member)),
            None => member_text(*v, key@) is None,
        },
{
    v.get(key).cloned()
}

} // verus!

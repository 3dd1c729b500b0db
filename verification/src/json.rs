//! Thin wrappers over `serde_json` and `std::path` calls made by the
//! library's JSON handling, each with what the library relies on, and the
//! names under which the library speaks of a JSON value.

use vstd::prelude::*;

verus! {

/// The parsed JSON value of `text`, when `text` is valid JSON.
pub uninterp spec fn json_parse(text: Seq<char>) -> Option<serde_json::Value>;

/// The JSON value a byte string parses to, when it is valid JSON.
pub uninterp spec fn json_parse_bytes(bytes: Seq<u8>) -> Option<serde_json::Value>;

/// What `Value::get` with a string key gives: the member `key` of an object
/// value (nothing for a value that is no object, or has no such member).
pub uninterp spec fn json_get(v: serde_json::Value, key: Seq<char>) -> Option<serde_json::Value>;

/// What `Value::as_str` gives: the text of a string value.
pub uninterp spec fn json_str(v: serde_json::Value) -> Option<Seq<char>>;

/// What `Value::as_bool` gives: the boolean of a boolean value.
pub uninterp spec fn json_bool_of(v: serde_json::Value) -> Option<bool>;

/// What `Value::as_u64` gives: the number of a number value that is a
/// non-negative integer within `u64`.
pub uninterp spec fn json_u64_of(v: serde_json::Value) -> Option<u64>;

/// What `Value::as_i64` gives: the number of a number value that is an
/// integer within `i64`.
pub uninterp spec fn json_i64_of(v: serde_json::Value) -> Option<i64>;

/// What `Value::as_array` gives: the elements of an array value.
pub uninterp spec fn json_elements(v: serde_json::Value) -> Option<Seq<serde_json::Value>>;

/// What `Value::as_object` gives: the members of an object value, in the
/// order the map walks them.
pub uninterp spec fn json_entries(v: serde_json::Value) -> Option<Seq<(Seq<char>, serde_json::Value)>>;

/// What `Value::is_null` gives: whether a value is JSON `null`.
pub uninterp spec fn json_is_null_value(v: serde_json::Value) -> bool;

/// The members a `serde_json::Map` holds, by key.
pub uninterp spec fn json_map_members(m: serde_json::Map<String, serde_json::Value>) -> Map<
    Seq<char>,
    serde_json::Value,
>;

/// What `serde_json::to_vec` gives for a value: its JSON text.
pub uninterp spec fn json_bytes_of(v: serde_json::Value) -> Option<Seq<u8>>;

/// What `Path::to_string_lossy` gives for a path.
pub uninterp spec fn path_lossy(p: std::path::PathBuf) -> Seq<char>;

/// What `PathBuf::from` gives for a string.
pub uninterp spec fn path_of_text(s: Seq<char>) -> std::path::PathBuf;

/// A JSON value made of `null`, strings, booleans, integers, and
/// arrays and objects of such values nested at most `depth` deep.
pub open spec fn json_plain(v: serde_json::Value, depth: nat) -> bool
    decreases depth,
{
    ||| json_is_null_value(v)
    ||| json_str(v) is Some
    ||| json_bool_of(v) is Some
    ||| json_u64_of(v) is Some
    ||| json_i64_of(v) is Some
    ||| depth > 0 && (json_elements(v) matches Some(es) && forall|i: int|
        0 <= i < es.len() ==> json_plain(#[trigger] es[i], (depth - 1) as nat))
    ||| depth > 0 && json_entries(v) is Some && forall|k: Seq<char>|
        (#[trigger] json_get(v, k) matches Some(x) ==> json_plain(x, (depth - 1) as nat))
}

/// `serde_json::from_str::<serde_json::Value>`.
#[verifier::external_body]
pub(crate) fn parse_json(text: &str) -> (r: Option<serde_json::Value>)
    ensures
        r == json_parse(text@),
{
    serde_json::from_str::<serde_json::Value>(text).ok()
}

/// `serde_json::Map`, the object a block payload is built from.
#[verifier::external_type_specification]
#[verifier::external_body]
#[verifier::reject_recursive_types(K)]
#[verifier::reject_recursive_types(V)]
pub struct ExJsonMap<K, V>(serde_json::Map<K, V>);

/// `serde_json::from_slice::<Value>`: the parsed value, or nothing when the
/// bytes are not valid JSON.
#[verifier::external_body]
pub(crate) fn parse_json_bytes(bytes: &[u8]) -> (r: Option<serde_json::Value>)
    ensures
        r == json_parse_bytes(bytes@),
{
    serde_json::from_slice::<serde_json::Value>(bytes).ok()
}

/// `serde_json::to_vec`: the JSON text of a value. It always succeeds: its
/// documentation names as the only failures a `Serialize` impl that
/// decides to fail and a map with non-string keys, and `Value`'s impl only
/// hands its parts to the serializer, its maps have string keys, and
/// writing to a `Vec` cannot fail. Text written for a plain value (see
/// `json_plain`) nested fewer than 128 deep parses back to that same value:
/// strings are written with escapes that the parser undoes, and integers
/// as their digits (after `-` when negative), which the parser reads back
/// as the same integer. The parser refuses values nested 128 deep or more.
#[verifier::external_body]
pub(crate) fn json_to_vec(v: &serde_json::Value) -> (r: Option<Vec<u8>>)
    ensures
        r is Some,
        match r {
            Some(b) => json_bytes_of(*v) == Some(b@),
            None => json_bytes_of(*v) is None,
        },
        r matches Some(b) ==> ((exists|d: nat| d < 128 && json_plain(*v, d)) ==> json_parse_bytes(b@) == Some(
            *v,
        )),
{
    serde_json::to_vec(v).ok()
}

/// `Value::get` with a string key: the member `key` of an object.
#[verifier::external_body]
pub(crate) fn json_member<'a>(v: &'a serde_json::Value, key: &str) -> (r: Option<&'a serde_json::Value>)
    ensures
        match r {
            Some(m) => json_get(*v, key@) == Some(*m),
            None => json_get(*v, key@) is None,
        },
{
    v.get(key)
}

/// `Value::as_str`: the text of a string value.
#[verifier::external_body]
pub(crate) fn json_as_str(v: &serde_json::Value) -> (r: Option<&str>)
    ensures
        match r {
            Some(s) => json_str(*v) == Some(s@),
            None => json_str(*v) is None,
        },
{
    v.as_str()
}

/// `Value::as_bool`: the boolean of a boolean value.
#[verifier::external_body]
pub(crate) fn json_as_bool(v: &serde_json::Value) -> (r: Option<bool>)
    ensures
        r == json_bool_of(*v),
{
    v.as_bool()
}

/// `Value::as_u64`: the number of a value that is a non-negative integer
/// that fits.
#[verifier::external_body]
pub(crate) fn json_as_u64(v: &serde_json::Value) -> (r: Option<u64>)
    ensures
        r == json_u64_of(*v),
{
    v.as_u64()
}

/// `Value::is_object`: whether a value is an object.
#[verifier::external_body]
pub(crate) fn json_is_object(v: &serde_json::Value) -> (r: bool)
    ensures
        r == (json_entries(*v) is Some),
{
    v.is_object()
}

/// `Value::is_null`: whether a value is `null`.
#[verifier::external_body]
pub(crate) fn json_is_null(v: &serde_json::Value) -> (r: bool)
    ensures
        r == json_is_null_value(*v),
{
    v.is_null()
}

/// `Value::as_array`: the elements of an array value.
#[verifier::external_body]
pub(crate) fn json_as_array(v: &serde_json::Value) -> (r: Option<&Vec<serde_json::Value>>)
    ensures
        match r {
            Some(a) => json_elements(*v) == Some(a@),
            None => json_elements(*v) is None,
        },
{
    v.as_array()
}

/// `Value::Null`, which is `null` and holds no text, boolean, number,
/// elements or members.
#[verifier::external_body]
pub(crate) fn json_null() -> (r: serde_json::Value)
    ensures
        json_is_null_value(r),
        json_str(r) is None,
        json_bool_of(r) is None,
        json_u64_of(r) is None,
        json_elements(r) is None,
        json_entries(r) is None,
        forall|k: Seq<char>| #[trigger] json_get(r, k) is None,
{
    serde_json::Value::Null
}

/// `Value::String`: a string value with the text `s`.
#[verifier::external_body]
pub(crate) fn json_string(s: String) -> (r: serde_json::Value)
    ensures
        json_str(r) == Some(s@),
        !json_is_null_value(r),
        json_elements(r) is None,
        json_entries(r) is None,
{
    serde_json::Value::String(s)
}

/// `Value::Bool`: a boolean value.
#[verifier::external_body]
pub(crate) fn json_bool(b: bool) -> (r: serde_json::Value)
    ensures
        json_bool_of(r) == Some(b),
        json_str(r) is None,
        !json_is_null_value(r),
        json_entries(r) is None,
{
    serde_json::Value::Bool(b)
}

/// `Value::from(u64)`: a number value holding `n`.
#[verifier::external_body]
pub(crate) fn json_u64(n: u64) -> (r: serde_json::Value)
    ensures
        json_u64_of(r) == Some(n),
        json_i64_of(r) == (if n <= i64::MAX {
            Some(n as i64)
        } else {
            None
        }),
        json_str(r) is None,
        !json_is_null_value(r),
        json_entries(r) is None,
{
    serde_json::Value::from(n)
}

/// `Value::Array`: an array value with the elements `items`.
#[verifier::external_body]
pub(crate) fn json_array(items: Vec<serde_json::Value>) -> (r: serde_json::Value)
    ensures
        json_elements(r) == Some(items@),
        json_str(r) is None,
        !json_is_null_value(r),
        json_entries(r) is None,
{
    serde_json::Value::Array(items)
}

/// `Map::new`: an empty JSON object map.
#[verifier::external_body]
pub(crate) fn json_map_new() -> (r: serde_json::Map<String, serde_json::Value>)
    ensures
        json_map_members(r) =~= Map::empty(),
{
    serde_json::Map::new()
}

/// `Map::insert`: set member `key` to `v`.
#[verifier::external_body]
pub(crate) fn json_map_insert(m: &mut serde_json::Map<String, serde_json::Value>, key: &str, v: serde_json::Value)
    ensures
        json_map_members(*final(m)) == json_map_members(*old(m)).insert(key@, v),
{
    m.insert(key.to_string(), v);
}

/// `Value::Object`: an object value whose members are those of `m`.
#[verifier::external_body]
pub(crate) fn json_object(m: serde_json::Map<String, serde_json::Value>) -> (r: serde_json::Value)
    ensures
        json_entries(r) is Some,
        forall|k: Seq<char>| #[trigger]
            json_get(r, k) == (if json_map_members(m).contains_key(k) {
                Some(json_map_members(m)[k])
            } else {
                None
            }),
        json_str(r) is None,
        !json_is_null_value(r),
        json_elements(r) is None,
{
    serde_json::Value::Object(m)
}

/// `Path::to_string_lossy`, as an owned string.
#[verifier::external_body]
pub(crate) fn path_text(p: &std::path::PathBuf) -> (r: String)
    ensures
        r@ == path_lossy(*p),
{
    p.to_string_lossy().into_owned()
}

/// `PathBuf::from` a string.
#[verifier::external_body]
pub(crate) fn path_from(s: &str) -> (r: std::path::PathBuf)
    ensures
        r == path_of_text(s@),
{
    std::path::PathBuf::from(s)
}

/// `Value::get` with an array index: element `i` of an array value.
#[verifier::external_body]
pub(crate) fn json_element(v: &serde_json::Value, i: usize) -> (r: Option<&serde_json::Value>)
    ensures
        match r {
            Some(x) => json_elements(*v) matches Some(es) && i < es.len() && es[i as int] == *x,
            None => !(json_elements(*v) matches Some(es) && i < es.len()),
        },
{
    v.get(i)
}

} // verus!

verus! {

/// `Value::as_object`, its members copied out in the order the map walks
/// them, when the value is an object.
#[verifier::external_body]
pub(crate) fn json_object_members(v: &serde_json::Value) -> (r: Option<Vec<(String, serde_json::Value)>>)
    ensures
        match r {
            Some(ms) => json_entries(*v) == Some(ms@.map_values(|e: (String, serde_json::Value)| (e.0@, e.1))),
            None => json_entries(*v) is None,
        },
{
    match v.as_object() {
        Some(m) => Some(m.iter().map(|(k, x)| (k.clone(), x.clone())).collect()),
        None => None,
    }
}

/// `value[key] = member` (`IndexMut` with a string key): a `null` value
/// first becomes an empty object; then member `key` of the object is set.
/// Any other value would make the call panic, so it is not accepted.
#[verifier::external_body]
pub(crate) fn json_set_member(v: &mut serde_json::Value, key: String, member: serde_json::Value)
    requires
        json_entries(*old(v)) is Some || json_is_null_value(*old(v)),
    ensures
        json_entries(*final(v)) is Some,
        !json_is_null_value(*final(v)),
        forall|k: Seq<char>| #[trigger]
            json_get(*final(v), k) == (if k == key@ {
                Some(member)
            } else if json_is_null_value(*old(v)) {
                None
            } else {
                json_get(*old(v), k)
            }),
{
    v[key.as_str()] = member;
}

} // verus!

//! Trusted boundary to the outside crates the gateway computes with:
//! the clock, random material, URL validation, and JSON payloads carried
//! through opaquely.

use vstd::prelude::*;


verus! {

/// A reading of the UTC clock, broken into the parts the metric keys use.
#[derive(Debug, Clone, Copy)]
pub struct UtcInstant {
    pub millis: i64,
    pub year: i64,
    pub month: u64,
    pub day: u64,
}

/// Whether a clock reading is in the ranges its parts are documented to
/// stay in.
pub open spec fn utc_instant_wf(t: UtcInstant) -> bool {
    &&& t.millis >= 0
    &&& 1970 <= t.year <= 9999
    &&& 1 <= t.month <= 12
    &&& 1 <= t.day <= 31
}

/// Relies on `chrono::Utc::now` and `chrono::Datelike`: the current UTC
/// time in milliseconds since the epoch, with its calendar date. `month`
/// and `day` are documented to lie in 1..=12 and 1..=31. The year bounds
/// are environment assumptions of the same kind as machine limits: chrono
/// itself stops (by its own `expect`) on a host clock before 1970, and
/// the upper bound holds on any host clock before the year 10000.
#[verifier::external_body]
pub fn utc_now() -> (r: UtcInstant)
    ensures
        utc_instant_wf(r),
{
    let now = chrono::Utc::now();
    UtcInstant {
        millis: now.timestamp_millis(),
        year: chrono::Datelike::year(&now) as i64,
        month: chrono::Datelike::month(&now) as u64,
        day: chrono::Datelike::day(&now) as u64,
    }
}

/// Whether `c` is a lowercase hexadecimal digit.
pub open spec fn is_lower_hex(c: char) -> bool {
    ('0' <= c <= '9') || ('a' <= c <= 'f')
}

/// Relies on `uuid::Uuid::new_v4` and its simple formatting: 32
/// lowercase hexadecimal characters.
#[verifier::external_body]
pub fn uuid_simple_hex() -> (r: String)
    ensures
        r@.len() == 32,
        forall|i: int| 0 <= i < 32 ==> is_lower_hex(#[trigger] r@[i]),
{
    let id = uuid::Uuid::new_v4();
    id.simple().to_string()
}

/// Whether `c` is an ASCII letter or digit.
pub open spec fn is_alnum(c: char) -> bool {
    ('0' <= c <= '9') || ('a' <= c <= 'z') || ('A' <= c <= 'Z')
}

/// Relies on `rand::distributions::Alphanumeric::sample_string`: `len`
/// characters drawn from `A-Z`, `a-z` and `0-9`.
#[verifier::external_body]
pub fn alnum_token(len: usize) -> (r: String)
    ensures
        r@.len() == len,
        forall|i: int| 0 <= i < r@.len() ==> is_alnum(#[trigger] r@[i]),
{
    <rand::distributions::Alphanumeric as rand::distributions::DistString>::sample_string(
        &rand::distributions::Alphanumeric,
        &mut rand::thread_rng(),
        len,
    )
}

/// Whether `url::Url::parse` accepts `s`: a fixed function of the
/// characters alone.
pub uninterp spec fn url_ok(s: Seq<char>) -> bool;

/// Relies on `url::Url::parse`: whether `s` is a parseable URL.
#[verifier::external_body]
pub fn url_is_valid(s: &str) -> (r: bool)
    ensures
        r == url_ok(s@),
{
    url::Url::parse(s).is_ok()
}

#[verifier::external_type_specification]
#[verifier::external_body]
pub struct ExJsonValue(serde_json::Value);

pub assume_specification[ <serde_json::Value as Clone>::clone ](v: &serde_json::Value) -> (r:
    serde_json::Value)
    ensures
        r == v,
;

/// Whether a value is the JSON null: `Value::is_null`'s verdict, a fixed
/// function of the value.
pub uninterp spec fn json_is_null(v: serde_json::Value) -> bool;

pub assume_specification[ serde_json::Value::is_null ](v: &serde_json::Value) -> (r: bool)
    ensures
        r == json_is_null(*v),
;

/// Relies on `serde_json::Value::Null`: the null JSON value, which is
/// neither an object nor anything else.
#[verifier::external_body]
pub fn json_null() -> (r: serde_json::Value)
    ensures
        json_is_null(r),
        !json_is_object(r),
{
    serde_json::Value::Null
}

/// Relies on `serde_json::Value::is_object`: whether the value is a JSON
/// object, a fixed function of the value.
pub uninterp spec fn json_is_object(v: serde_json::Value) -> bool;

pub assume_specification[ serde_json::Value::is_object ](v: &serde_json::Value) -> (r: bool)
    ensures
        r == json_is_object(*v),
;

/// The text an object holds under a key, as `Value::get` followed by
/// `Value::as_str` read it: a fixed function of the value and the key;
/// `None` where the key is absent or its value is not a string.
pub uninterp spec fn json_text_field(v: serde_json::Value, key: Seq<char>) -> Option<Seq<char>>;

/// Relies on `serde_json::Map::insert` through `Value::as_object_mut`:
/// an object gains (or overwrites) the pair, so the inserted key then
/// reads back as the given text; anything else is left unchanged.
#[verifier::external_body]
pub fn json_object_insert(v: &mut serde_json::Value, key: &str, text: &str)
    ensures
        json_is_object(*old(v)) == json_is_object(*final(v)),
        !json_is_object(*old(v)) ==> *final(v) == *old(v),
        json_is_object(*old(v)) ==> json_text_field(*final(v), key@) == Some(text@),
{
    if let Some(map) = v.as_object_mut() {
        map.insert(key.to_owned(), serde_json::Value::String(text.to_owned()));
    }
}

/// Relies on `serde_json::Map::extend`: the first object with the
/// second's members written over it; a non-object first value is handed
/// back unchanged.
#[verifier::external_body]
pub fn json_merge_objects(a: serde_json::Value, b: serde_json::Value) -> (r: serde_json::Value) {
    match (a, b) {
        (serde_json::Value::Object(mut m), serde_json::Value::Object(o)) => {
            m.extend(o);
            serde_json::Value::Object(m)
        },
        (a, _) => a,
    }
}

} // verus!

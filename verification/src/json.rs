//! The trusted boundary to serde_json.
//!
//! The client reads inbound frames and the token endpoint's reply as JSON
//! documents. A parsed document is a `serde_json::Value`, opaque to the
//! verifier; what this module's contracts say of one is said through
//! uninterpreted names for what the document holds: `parsed` for the
//! outcome of parsing a text, `field_or_null` for the member a string key
//! selects, `text_of` for the characters of a JSON string, and
//! `pretty_of` for the pretty-printed rendering. Every function that
//! makes a serde_json call lives here, one call per function.

use vstd::prelude::*;

verus! {

#[verifier::external_type_specification]
#[verifier::external_body]
pub struct ExValue(serde_json::Value);

/// The outcome of parsing a text as JSON: `None` when the text is not
/// well-formed JSON, otherwise the document it denotes. Parsing is a
/// function of the text alone.
pub uninterp spec fn parsed(text: Seq<char>) -> Option<serde_json::Value>;

/// The member of `v` that the string key selects, or the JSON null when
/// `v` is not an object or has no member under that key.
pub uninterp spec fn field_or_null(v: serde_json::Value, key: Seq<char>) -> serde_json::Value;

/// The characters of `v` when `v` is a JSON string, `None` otherwise.
pub uninterp spec fn text_of(v: serde_json::Value) -> Option<Seq<char>>;

/// The pretty-printed rendering of `v`, a function of `v` alone.
pub uninterp spec fn pretty_of(v: serde_json::Value) -> Seq<char>;

/// The string member of a document under a key: the characters of the
/// member the key selects, when that member is a JSON string.
pub open spec fn str_field(v: serde_json::Value, key: Seq<char>) -> Option<Seq<char>> {
    text_of(field_or_null(v, key))
}

/// Relies on serde_json::from_str::<Value>: it returns `Ok` exactly on
/// well-formed JSON text, and its outcome depends on the text alone;
/// `parsed` names that outcome.
#[verifier::external_body]
pub fn parse_json(text: &str) -> (v: Option<serde_json::Value>)
    ensures
        v matches Some(doc) ==> parsed(text@) == Some(doc),
        v is None ==> parsed(text@) is None,
{
    serde_json::from_str::<serde_json::Value>(text).ok()
}

/// Relies on the `Index<&str>` impl of serde_json::Value: it returns the
/// member under the key, or `Value::Null` when `v` is not an object or
/// the key is absent; it never panics on a string key.
#[verifier::external_body]
pub fn index_field<'a>(v: &'a serde_json::Value, key: &str) -> (f: &'a serde_json::Value)
    ensures
        *f == field_or_null(*v, key@),
{
    &v[key]
}

/// Relies on serde_json::Value::as_str: it returns `Some` exactly when
/// the value is a JSON string, and then its characters.
#[verifier::external_body]
pub fn as_text(v: &serde_json::Value) -> (t: Option<String>)
    ensures
        t matches Some(s) ==> text_of(*v) == Some(s@),
        t is None ==> text_of(*v) is None,
{
    v.as_str().map(|s| s.to_string())
}

/// Relies on serde_json::to_string_pretty: serialization fails only when
/// a `Serialize` impl fails or a map key is not a string, and neither
/// happens for a `Value`, so for a `Value` it returns `Ok`; the text
/// depends on the value alone and `pretty_of` names it. The error arm
/// below is unreachable.
#[verifier::external_body]
pub fn to_pretty(v: &serde_json::Value) -> (t: String)
    ensures
        t@ == pretty_of(*v),
{
    match serde_json::to_string_pretty(v) {
        Ok(s) => s,
        Err(_) => String::new(),
    }
}

} // verus!

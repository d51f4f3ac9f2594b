//! What the library asks of `serde_json`: reading a JSON text, looking up a
//! member of an object, reading a string or an unsigned number, and writing
//! an object of two strings. None of it is proved here; each item says what
//! it takes on trust.
use vstd::prelude::*;
use vstd::utf8::encode_utf8;

verus! {

/// `serde_json::Value`, a JSON document. Nothing inside it is visible here.
#[verifier::external_type_specification]
#[verifier::external_body]
pub struct ExValue(serde_json::Value);

/// `serde_json::Error`, what `serde_json` reports of a text that it cannot
/// read.
#[verifier::external_type_specification]
#[verifier::external_body]
pub struct ExError(serde_json::Error);

/// The document that `serde_json::from_slice` reads from `text`, if it
/// reads one.
pub uninterp spec fn json_document(text: Seq<u8>) -> Option<serde_json::Value>;

/// The member that `serde_json::Value::get` finds under `key`, if `doc` is
/// an object that has it.
pub uninterp spec fn json_member(doc: serde_json::Value, key: Seq<char>) -> Option<
    serde_json::Value,
>;

/// The string that `serde_json::Value::as_str` reads from `doc`, if `doc` is
/// a string.
pub uninterp spec fn json_string(doc: serde_json::Value) -> Option<Seq<char>>;

/// The number that `serde_json::Value::as_u64` reads from `doc`, if `doc`
/// is an integer that fits in 64 bits without a sign.
pub uninterp spec fn json_number(doc: serde_json::Value) -> Option<u64>;

/// The text that `serde_json` writes for the object whose member `k1` is the
/// string `v1` and whose member `k2` is the string `v2`.
pub uninterp spec fn json_pair(k1: Seq<char>, v1: Seq<char>, k2: Seq<char>, v2: Seq<char>) -> Seq<
    char,
>;

/// The string under `key` in `doc`, if `doc` is an object whose member of
/// that name is a string.
pub open spec fn member_string(doc: serde_json::Value, key: Seq<char>) -> Option<Seq<char>> {
    match json_member(doc, key) {
        Some(member) => json_string(member),
        None => None,
    }
}

/// The string member `key` of the document that `text` holds, if `text` is
/// JSON, the document an object, and the member a string.
pub open spec fn text_string_member(text: Seq<u8>, key: Seq<char>) -> Option<Seq<char>> {
    match json_document(text) {
        Some(doc) => member_string(doc, key),
        None => None,
    }
}

/// `serde_json::from_slice` at `serde_json::Value`: the result is the
/// document named `json_document` of the bytes, and an error exactly where
/// the bytes hold none.
#[verifier::external_body]
pub(crate) fn parse_json(text: &[u8]) -> (doc: Result<serde_json::Value, serde_json::Error>)
    ensures
        match doc {
            Ok(d) => json_document(text@) == Some(d),
            Err(_) => json_document(text@) is None,
        },
{
    serde_json::from_slice::<serde_json::Value>(text)
}

/// `serde_json::Value::get` with a string key: the member of that name where
/// the document is an object that has it, else nothing.
#[verifier::external_body]
pub(crate) fn member<'a>(doc: &'a serde_json::Value, key: &str) -> (found: Option<
    &'a serde_json::Value,
>)
    ensures
        match found {
            Some(m) => json_member(*doc, key@) == Some(*m),
            None => json_member(*doc, key@) is None,
        },
{
    doc.get(key)
}

/// `serde_json::Value::as_str`: the string where the document is one, else
/// nothing.
pub assume_specification<'a>[ serde_json::Value::as_str ](doc: &'a serde_json::Value) -> (text:
    Option<&'a str>)
    ensures
        match text {
            Some(s) => json_string(*doc) == Some(s@),
            None => json_string(*doc) is None,
        },
;

/// The string under `key` in `doc`, where `doc` is an object whose member
/// of that name is a string.
pub fn string_member(doc: &serde_json::Value, key: &str) -> (found: Option<String>)
    ensures
        match found {
            Some(s) => member_string(*doc, key@) == Some(s@),
            None => member_string(*doc, key@) is None,
        },
{
    match member(doc, key) {
        Some(m) => match m.as_str() {
            Some(s) => Some(s.to_owned()),
            None => None,
        },
        None => None,
    }
}

/// `serde_json::Value::as_u64`: the number where the document is an integer
/// from 0 to 2^64 - 1, else nothing.
pub assume_specification[ serde_json::Value::as_u64 ](doc: &serde_json::Value) -> (number: Option<
    u64,
>)
    ensures
        number == json_number(*doc),
;

/// Builds with `serde_json::Map::insert` the object that gives `k1` the
/// string `v1` and `k2` the string `v2`, and writes it with `to_string`. The
/// result is the text named `json_pair`. The second clause claims that
/// `serde_json` reads what it writes: where the two keys differ, the text
/// read back is an object in which each key has its string, whatever
/// characters the strings hold.
#[verifier::external_body]
pub(crate) fn pair_text(k1: &str, v1: &str, k2: &str, v2: &str) -> (text: String)
    ensures
        text@ == json_pair(k1@, v1@, k2@, v2@),
        k1@ != k2@ ==> text_string_member(encode_utf8(text@), k1@) == Some(v1@)
            && text_string_member(encode_utf8(text@), k2@) == Some(v2@),
{
    let mut object = serde_json::Map::new();
    object.insert(k1.to_string(), serde_json::Value::String(v1.to_string()));
    object.insert(k2.to_string(), serde_json::Value::String(v2.to_string()));
    serde_json::Value::Object(object).to_string()
}

} // verus!

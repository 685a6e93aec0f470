//! The JSON documents that carry a configuration, as `serde_json` reads,
//! builds and prints them.
//!
//! A document is opaque here: what is known of one is what the functions of
//! this module say about it. Each of them makes a single call into
//! `serde_json`; its contract is taken on trust from that crate.

use vstd::prelude::*;

verus! {

/// `serde_json::Value`, a JSON document, carried through as it is.
#[verifier::external_type_specification]
#[verifier::external_body]
pub struct ExValue(serde_json::Value);

/// `serde_json::Error`, the reason why a text was not parsed or a document
/// not printed.
#[verifier::external_type_specification]
#[verifier::external_body]
pub struct ExError(serde_json::Error);

/// The document that a text parses to, if it is well-formed JSON.
pub uninterp spec fn parsed_document(text: Seq<char>) -> Option<serde_json::Value>;

/// The member of a document under a key: present only in an object that
/// holds the key.
pub uninterp spec fn member_of(doc: serde_json::Value, key: Seq<char>) -> Option<serde_json::Value>;

/// The text of a document that is a JSON string.
pub uninterp spec fn text_of(doc: serde_json::Value) -> Option<Seq<char>>;

/// The number of a document that is a JSON integer within `i64`.
pub uninterp spec fn integer_of(doc: serde_json::Value) -> Option<i64>;

/// The JSON string with the given text.
pub uninterp spec fn text_document(text: Seq<char>) -> serde_json::Value;

/// The JSON number with the given value.
pub uninterp spec fn integer_document(number: i64) -> serde_json::Value;

/// The JSON object built from the given members, in order.
pub uninterp spec fn object_document(members: Seq<(Seq<char>, serde_json::Value)>) -> serde_json::Value;

/// The pretty-printed text of a document, if the printer accepts it.
pub uninterp spec fn pretty_text(doc: serde_json::Value) -> Option<Seq<char>>;

/// The members of an object under construction, keys taken as texts.
pub open spec fn members_view(members: Seq<(String, serde_json::Value)>) -> Seq<(Seq<char>, serde_json::Value)> {
    members.map_values(|m: (String, serde_json::Value)| (m.0@, m.1))
}

/// No two of the members share a key.
pub open spec fn distinct_keys(members: Seq<(Seq<char>, serde_json::Value)>) -> bool {
    forall|i: int, j: int| 0 <= i < j < members.len() ==> members[i].0 != members[j].0
}

/// `serde_json::from_str` at `Value`: parses a text as one JSON document.
/// Trusted: the outcome is a function of the text alone, and the empty text
/// is no document.
#[verifier::external_body]
pub(crate) fn parse_document(text: &str) -> (parsed: Result<serde_json::Value, serde_json::Error>)
    ensures
        match parsed {
            Ok(doc) => parsed_document(text@) == Some(doc),
            Err(_) => parsed_document(text@) is None,
        },
        text@.len() == 0 ==> parsed is Err,
{
    serde_json::from_str::<serde_json::Value>(text)
}

/// `serde_json::Value::get` with a string key: the member of an object under
/// that key. Trusted: the outcome is a function of the document and the key.
#[verifier::external_body]
pub(crate) fn member<'a>(doc: &'a serde_json::Value, key: &str) -> (found: Option<&'a serde_json::Value>)
    ensures
        match found {
            Some(value) => member_of(*doc, key@) == Some(*value),
            None => member_of(*doc, key@) is None,
        },
{
    doc.get(key)
}

/// `serde_json::Value::as_str`: the text of a JSON string, nothing for any
/// other document.
pub assume_specification<'a>[ serde_json::Value::as_str ](doc: &'a serde_json::Value) -> (text: Option<&'a str>)
    ensures
        match text {
            Some(s) => text_of(*doc) == Some(s@),
            None => text_of(*doc) is None,
        },
;

/// `serde_json::Value::as_i64`: the value of a JSON integer that fits `i64`,
/// nothing for any other document.
pub assume_specification[ serde_json::Value::as_i64 ](doc: &serde_json::Value) -> (number: Option<i64>)
    ensures
        number == integer_of(*doc),
;

/// `serde_json::Value::from` at `&str`: the JSON string with that text.
/// Trusted: read back as a text it gives the same text.
#[verifier::external_body]
pub(crate) fn text_value(text: &str) -> (doc: serde_json::Value)
    ensures
        doc == text_document(text@),
        text_of(doc) == Some(text@),
{
    serde_json::Value::from(text)
}

/// `serde_json::Value::from` at `i64`: the JSON number with that value.
/// Trusted: read back as an `i64` it gives the same number.
#[verifier::external_body]
pub(crate) fn integer_value(number: i64) -> (doc: serde_json::Value)
    ensures
        doc == integer_document(number),
        integer_of(doc) == Some(number),
{
    serde_json::Value::from(number)
}

/// `serde_json::Value::from_iter` at key-value pairs: the JSON object with
/// those members. Trusted: where no key occurs twice, each member is found
/// under its key.
#[verifier::external_body]
pub(crate) fn object_value(members: Vec<(String, serde_json::Value)>) -> (doc: serde_json::Value)
    ensures
        doc == object_document(members_view(members@)),
        distinct_keys(members_view(members@)) ==> forall|i: int|
            0 <= i < members@.len() ==> #[trigger] member_of(doc, members@[i].0@) == Some(
                members@[i].1,
            ),
{
    serde_json::Value::from_iter(members)
}

/// `serde_json::to_string_pretty` at `Value`: the indented text of a
/// document. Trusted: the outcome is a function of the document alone.
#[verifier::external_body]
pub(crate) fn print_document(doc: &serde_json::Value) -> (printed: Result<String, serde_json::Error>)
    ensures
        match printed {
            Ok(text) => pretty_text(*doc) == Some(text@),
            Err(_) => pretty_text(*doc) is None,
        },
{
    serde_json::to_string_pretty(doc)
}

} // verus!

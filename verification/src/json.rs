//! JSON documents, read and written by `serde_json`.
//!
//! A document is opaque here. It stands in the contracts of the library by
//! its text, and what `serde_json` returns for a text or a document has a
//! name that those contracts speak of.

use vstd::prelude::*;

verus! {

/// A JSON document.
#[verifier::external_type_specification]
#[verifier::external_body]
pub struct ExValue(serde_json::Value);

/// The reason why a text is no JSON document.
#[verifier::external_type_specification]
#[verifier::external_body]
pub struct ExJsonError(serde_json::Error);

/// The text of a document: what `serde_json` writes for it, in its compact
/// form. The contracts of the library speak of a document by this text.
pub uninterp spec fn json_text(doc: serde_json::Value) -> Seq<char>;

/// The message of a reason why a text is no JSON document.
pub uninterp spec fn json_error_text(error: serde_json::Error) -> Seq<char>;

/// What `serde_json::from_str` makes of a text: the text of the document
/// that it denotes, or the message that says why it denotes none.
pub uninterp spec fn parsed_json(text: Seq<char>) -> Result<Seq<char>, Seq<char>>;

/// What indexing a document by a key gives, both as texts: the member under
/// that key, and `null` where the document is no object or has no such
/// member.
pub uninterp spec fn member_text(doc: Seq<char>, key: Seq<char>) -> Seq<char>;

/// The result of reading a document, as texts.
pub open spec fn parse_view(r: Result<serde_json::Value, serde_json::Error>) -> Result<
    Seq<char>,
    Seq<char>,
> {
    match r {
        Ok(doc) => Ok(json_text(doc)),
        Err(error) => Err(json_error_text(error)),
    }
}

/// Calls `serde_json::from_str` for a `Value`. The call returns what
/// `parsed_json` names: the document, or the reason why there is none.
#[verifier::external_body]
pub(crate) fn parse_json(text: &str) -> (r: Result<serde_json::Value, serde_json::Error>)
    ensures
        parse_view(r) == parsed_json(text@),
{
    serde_json::from_str::<serde_json::Value>(text)
}

/// Indexes a document by a key, with `Value`'s `Index<&str>`. The call never
/// fails: a missing member is the null document.
#[verifier::external_body]
pub(crate) fn member<'a>(doc: &'a serde_json::Value, key: &str) -> (r: &'a serde_json::Value)
    ensures
        json_text(*r) == member_text(json_text(*doc), key@),
{
    &doc[key]
}

/// Calls `Value`'s `to_string`, which writes the document as compact JSON.
#[verifier::external_body]
pub(crate) fn render(doc: &serde_json::Value) -> (r: String)
    ensures
        r@ == json_text(*doc),
{
    doc.to_string()
}

/// Calls `Value`'s `clone`, which gives an equal document.
#[verifier::external_body]
pub(crate) fn copy_of(doc: &serde_json::Value) -> (r: serde_json::Value)
    ensures
        json_text(r) == json_text(*doc),
{
    doc.clone()
}

/// Calls `to_string` of `serde_json::Error`, which gives its message.
#[verifier::external_body]
pub(crate) fn error_message(error: &serde_json::Error) -> (r: String)
    ensures
        r@ == json_error_text(*error),
{
    error.to_string()
}

/// The text of the member under two keys, one below the other.
pub open spec fn member_text2(doc: Seq<char>, a: Seq<char>, b: Seq<char>) -> Seq<char> {
    member_text(member_text(doc, a), b)
}

/// The text of the member under three keys, each below the one before.
pub open spec fn member_text3(doc: Seq<char>, a: Seq<char>, b: Seq<char>, c: Seq<char>) -> Seq<
    char,
> {
    member_text(member_text2(doc, a, b), c)
}

/// The text of the member under two keys, one below the other.
pub fn text_at2(doc: &serde_json::Value, a: &str, b: &str) -> (r: String)
    ensures
        r@ == member_text2(json_text(*doc), a@, b@),
{
    render(member(member(doc, a), b))
}

/// The text of the member under three keys, each below the one before.
pub fn text_at3(doc: &serde_json::Value, a: &str, b: &str, c: &str) -> (r: String)
    ensures
        r@ == member_text3(json_text(*doc), a@, b@, c@),
{
    render(member(member(member(doc, a), b), c))
}

} // verus!

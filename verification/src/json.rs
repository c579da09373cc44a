//! The boundary to `serde_json`, which parses and serialises every document.
//!
//! Nothing in this module is proved. Each function below makes one call into
//! `serde_json` and gives its result a name, so that the rest of the crate can
//! say exactly what it hands on. The claim behind every name is the same: the
//! call is a pure function of its argument.

use vstd::prelude::*;

verus! {

/// `serde_json::Value`, a parsed JSON document. Its contents are never
/// inspected here: a document is parsed, carried, and serialised.
#[verifier::external_type_specification]
#[verifier::external_body]
pub struct ExValue(serde_json::Value);

/// `serde_json::Error`, the failure of a parse or of a serialisation.
#[verifier::external_type_specification]
#[verifier::external_body]
pub struct ExError(serde_json::Error);

/// What `serde_json::from_str::<serde_json::Value>` returns for `text`.
pub uninterp spec fn parse_outcome(text: Seq<char>) -> Result<serde_json::Value, serde_json::Error>;

/// What `serde_json::to_string_pretty` returns for `document`.
pub uninterp spec fn pretty_outcome(document: serde_json::Value) -> Result<
    Seq<char>,
    serde_json::Error,
>;

/// What `serde_json::to_string` returns for `document`.
pub uninterp spec fn compact_outcome(document: serde_json::Value) -> Result<
    Seq<char>,
    serde_json::Error,
>;

/// The text that `serde_json::Error`'s `Display` impl writes for `error`.
pub uninterp spec fn diagnostic(error: serde_json::Error) -> Seq<char>;

/// Calls `serde_json::from_str` to parse `text` as one JSON value. Assumed:
/// the result, document or error, depends on the characters of `text` alone.
#[verifier::external_body]
pub(crate) fn parse(text: &str) -> (parsed: Result<serde_json::Value, serde_json::Error>)
    ensures
        parsed == parse_outcome(text@),
{
    serde_json::from_str::<serde_json::Value>(text)
}

/// Calls `serde_json::to_string_pretty` on `document`. Assumed: the text or
/// the error that comes back depends on the document alone.
#[verifier::external_body]
pub(crate) fn to_pretty(document: &serde_json::Value) -> (rendered: Result<
    String,
    serde_json::Error,
>)
    ensures
        match rendered {
            Ok(text) => pretty_outcome(*document) == Ok::<Seq<char>, serde_json::Error>(text@),
            Err(error) => pretty_outcome(*document) == Err::<Seq<char>, serde_json::Error>(error),
        },
{
    serde_json::to_string_pretty(document)
}

/// Calls `serde_json::to_string` on `document`. Assumed: the text or the
/// error that comes back depends on the document alone.
#[verifier::external_body]
pub(crate) fn to_compact(document: &serde_json::Value) -> (rendered: Result<
    String,
    serde_json::Error,
>)
    ensures
        match rendered {
            Ok(text) => compact_outcome(*document) == Ok::<Seq<char>, serde_json::Error>(text@),
            Err(error) => compact_outcome(*document) == Err::<Seq<char>, serde_json::Error>(error),
        },
{
    serde_json::to_string(document)
}

/// Formats `error` through its `Display` impl, as `to_string` does. Assumed:
/// the text depends on the error alone.
#[verifier::external_body]
pub(crate) fn describe(error: &serde_json::Error) -> (text: String)
    ensures
        text@ == diagnostic(*error),
{
    error.to_string()
}

} // verus!

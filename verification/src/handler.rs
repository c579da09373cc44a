//! The two transformations: validate and pretty-print, validate and minify.
//!
//! Both trim the input, refuse it when nothing is left, parse what is left,
//! serialise the parsed document, and report whichever step failed. Parsing
//! and serialising are `serde_json`'s; what is proved here is that every
//! outcome of either lands in the right envelope.

use vstd::prelude::*;

use crate::envelope::{Envelope, JsonRequest, JsonResponse, Rendering};
use crate::json::{compact_outcome, diagnostic, parse_outcome, pretty_outcome};
use crate::text::{blank, lemma_trimmed_blank, lemma_trimmed_empty, trimmed};

verus! {

/// What the serialiser returns for `document` when asked for `kind`.
pub open spec fn render_outcome(kind: Rendering, document: serde_json::Value) -> Result<
    Seq<char>,
    serde_json::Error,
> {
    match kind {
        Rendering::Pretty => pretty_outcome(document),
        Rendering::Compact => compact_outcome(document),
    }
}

/// The answer once the serialiser has returned `rendered`.
pub open spec fn rendered_envelope(
    kind: Rendering,
    rendered: Result<Seq<char>, serde_json::Error>,
) -> Envelope {
    match rendered {
        Ok(text) => Envelope::rendered(text),
        Err(error) => Envelope::unrendered(kind, diagnostic(error)),
    }
}

/// The answer once the parser has returned `parsed`.
pub open spec fn parsed_envelope(
    kind: Rendering,
    parsed: Result<serde_json::Value, serde_json::Error>,
) -> Envelope {
    match parsed {
        Ok(document) => rendered_envelope(kind, render_outcome(kind, document)),
        Err(error) => Envelope::invalid(diagnostic(error)),
    }
}

/// The answer to the raw input `text`.
pub open spec fn response_to(kind: Rendering, text: Seq<char>) -> Envelope {
    if trimmed(text).len() == 0 {
        Envelope::empty_input()
    } else {
        parsed_envelope(kind, parse_outcome(trimmed(text)))
    }
}

/// The text of a serialiser's result, with its error untouched.
pub open spec fn rendered_text(rendered: Result<String, serde_json::Error>) -> Result<
    Seq<char>,
    serde_json::Error,
> {
    match rendered {
        Ok(text) => Ok(text@),
        Err(error) => Err(error),
    }
}

/// Serialises `document` as `kind` asks.
fn render(kind: Rendering, document: &serde_json::Value) -> (rendered: Result<
    String,
    serde_json::Error,
>)
    ensures
        rendered_text(rendered) == render_outcome(kind, *document),
{
    match kind {
        Rendering::Pretty => crate::json::to_pretty(document),
        Rendering::Compact => crate::json::to_compact(document),
    }
}

/// Wraps what the serialiser returned: the text on success, otherwise its
/// diagnostic behind the prefix that names the failed step.
pub fn respond_to_rendered(
    kind: Rendering,
    rendered: Result<String, serde_json::Error>,
) -> (response: JsonResponse)
    ensures
        response@ == rendered_envelope(kind, rendered_text(rendered)),
        response@.well_formed(),
{
    match rendered {
        Ok(text) => JsonResponse::rendered(text),
        Err(error) => {
            let diagnostic = crate::json::describe(&error);
            JsonResponse::unrendered(kind, diagnostic.as_str())
        },
    }
}

/// Wraps what the parser returned: a rejected input is reported invalid with
/// the parser's diagnostic, a parsed document is serialised as `kind` asks.
pub fn respond_to_parsed(
    kind: Rendering,
    parsed: Result<serde_json::Value, serde_json::Error>,
) -> (response: JsonResponse)
    ensures
        response@ == parsed_envelope(kind, parsed),
        response@.well_formed(),
{
    match parsed {
        Ok(document) => {
            let rendered = render(kind, &document);
            respond_to_rendered(kind, rendered)
        },
        Err(error) => {
            let diagnostic = crate::json::describe(&error);
            JsonResponse::invalid(diagnostic.as_str())
        },
    }
}

/// Validates `text` and serialises it as `kind` asks.
pub fn transform(kind: Rendering, text: &str) -> (response: JsonResponse)
    ensures
        response@ == response_to(kind, text@),
        response@.well_formed(),
{
    let document_text = crate::text::trim(text);
    if document_text.is_empty() {
        return JsonResponse::empty_input();
    }
    let parsed = crate::json::parse(document_text);
    respond_to_parsed(kind, parsed)
}

/// Validates the request's text and pretty-prints it. The request's
/// `indent_size` has no effect.
pub fn validate_and_format(request: &JsonRequest) -> (response: JsonResponse)
    ensures
        response@ == response_to(Rendering::Pretty, request.json_text@),
        response@.well_formed(),
{
    transform(Rendering::Pretty, request.json_text.as_str())
}

/// Validates the request's text and minifies it. The request's `indent_size`
/// has no effect.
pub fn minify_json(request: &JsonRequest) -> (response: JsonResponse)
    ensures
        response@ == response_to(Rendering::Compact, request.json_text@),
        response@.well_formed(),
{
    transform(Rendering::Compact, request.json_text.as_str())
}

/// Every answer is well formed: exactly one of text and diagnostic is
/// present, the text exactly on success, and success only on valid input.
pub proof fn law_response_is_well_formed(kind: Rendering, text: Seq<char>)
    ensures
        response_to(kind, text).well_formed(),
{
}

/// An answer calls the input valid exactly when something is left of it
/// after trimming and the parser accepts that, whichever serialisation was
/// asked for and whatever became of it.
pub proof fn law_validity_is_the_parser_verdict(kind: Rendering, text: Seq<char>)
    ensures
        response_to(kind, text).is_valid <==> trimmed(text).len() > 0 && parse_outcome(
            trimmed(text),
        ) is Ok,
        response_to(kind, text).is_valid == response_to(Rendering::Pretty, text).is_valid,
        response_to(kind, text).is_valid == response_to(Rendering::Compact, text).is_valid,
{
}

/// An input that is empty or holds only whitespace is refused, by either
/// transformation, with the message "Empty JSON input".
pub proof fn law_blank_input_is_refused(kind: Rendering, text: Seq<char>)
    requires
        blank(text),
    ensures
        response_to(kind, text) == Envelope::empty_input(),
        !response_to(kind, text).success,
        !response_to(kind, text).is_valid,
        response_to(kind, text).error_message == Some("Empty JSON input"@),
{
    lemma_trimmed_blank(text);
}

/// Nothing but an empty or whitespace-only input is answered as an empty
/// one.
pub proof fn law_only_blank_input_is_refused_as_empty(kind: Rendering, text: Seq<char>)
    requires
        response_to(kind, text) == Envelope::empty_input(),
    ensures
        blank(text),
{
    if trimmed(text).len() == 0 {
        lemma_trimmed_empty(text);
    } else {
        reveal_strlit("Empty JSON input");
        reveal_strlit("Invalid JSON: ");
        let answer = response_to(kind, text);
        match parse_outcome(trimmed(text)) {
            Ok(document) => {
                assert(answer.is_valid);
            },
            Err(error) => {
                assert(answer.error_message->0[0] == 'I');
                assert(Envelope::empty_input().error_message->0[0] == 'E');
            },
        }
    }
}

/// An input that the parser rejects is reported as invalid, and the message
/// is the parser's diagnostic behind "Invalid JSON: ".
pub proof fn law_malformed_input_is_reported(kind: Rendering, text: Seq<char>)
    requires
        trimmed(text).len() > 0,
        parse_outcome(trimmed(text)) is Err,
    ensures
        !response_to(kind, text).success,
        !response_to(kind, text).is_valid,
        response_to(kind, text).formatted_json is None,
        response_to(kind, text).error_message == Some(
            "Invalid JSON: "@ + diagnostic(parse_outcome(trimmed(text))->Err_0),
        ),
        "Invalid JSON: "@.is_prefix_of(response_to(kind, text).error_message->0),
{
}

/// An input that the parser accepts is reported as valid whatever the
/// serialiser does, and succeeds exactly when the serialiser returns a text,
/// which is then the answer's text.
pub proof fn law_parsed_input_is_valid(kind: Rendering, text: Seq<char>)
    requires
        trimmed(text).len() > 0,
        parse_outcome(trimmed(text)) is Ok,
    ensures
        response_to(kind, text).is_valid,
        response_to(kind, text).success <==> render_outcome(
            kind,
            parse_outcome(trimmed(text))->Ok_0,
        ) is Ok,
        response_to(kind, text).success ==> response_to(kind, text).formatted_json == Some(
            render_outcome(kind, parse_outcome(trimmed(text))->Ok_0)->Ok_0,
        ),
{
}

/// An answer depends on the input only through the document it parses to:
/// two inputs that leave something after trimming and parse alike are
/// answered alike.
pub proof fn law_answer_depends_on_the_document(kind: Rendering, one: Seq<char>, other: Seq<char>)
    requires
        trimmed(one).len() > 0,
        trimmed(other).len() > 0,
        parse_outcome(trimmed(one)) == parse_outcome(trimmed(other)),
    ensures
        response_to(kind, one) == response_to(kind, other),
{
}

/// Where pretty-printing succeeds and its text parses back to the document
/// it was made from, transforming that text gives what transforming the
/// input gives: pretty-printing it again returns it unchanged, and minifying
/// it returns the minified input. Whether the text parses back so is the
/// parser's and the serialiser's matter, and not shown here.
pub proof fn law_reparsed_text_is_answered_alike(kind: Rendering, text: Seq<char>)
    requires
        response_to(Rendering::Pretty, text).success,
        trimmed(response_to(Rendering::Pretty, text).formatted_json->0).len() > 0,
        parse_outcome(trimmed(response_to(Rendering::Pretty, text).formatted_json->0))
            == parse_outcome(trimmed(text)),
    ensures
        response_to(kind, response_to(Rendering::Pretty, text).formatted_json->0) == response_to(
            kind,
            text,
        ),
        response_to(Rendering::Pretty, response_to(Rendering::Pretty, text).formatted_json->0)
            .formatted_json == response_to(Rendering::Pretty, text).formatted_json,
{
    law_answer_depends_on_the_document(
        kind,
        response_to(Rendering::Pretty, text).formatted_json->0,
        text,
    );
    law_answer_depends_on_the_document(
        Rendering::Pretty,
        response_to(Rendering::Pretty, text).formatted_json->0,
        text,
    );
}

} // verus!

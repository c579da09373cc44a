//! The request and the response envelope of the two transformations.

use vstd::prelude::*;
use vstd::string::StringExecFns;

verus! {

/// Which serialisation a request asks for.
#[derive(Clone, Copy, Debug, PartialEq, Eq)]
pub enum Rendering {
    /// Indented, one member or element per line.
    Pretty,
    /// No whitespace between tokens.
    Compact,
}

impl Rendering {
    /// What an error message starts with when a parsed document could not be
    /// serialised this way.
    pub open spec fn failure_prefix(self) -> Seq<char> {
        match self {
            Rendering::Pretty => "Formatting error: "@,
            Rendering::Compact => "Minification error: "@,
        }
    }
}

/// A request to transform one JSON text.
#[derive(Clone, Debug, PartialEq, Eq)]
pub struct JsonRequest {
    /// The raw JSON text.
    pub json_text: String,
    /// An indentation hint. It is accepted and has no effect: pretty output
    /// always uses the serialiser's own two-space indentation.
    pub indent_size: Option<usize>,
}

/// The envelope in which both transformations answer.
#[derive(Clone, Debug, PartialEq, Eq)]
pub struct JsonResponse {
    /// Whether the transformation completed.
    pub success: bool,
    /// The transformed text; present exactly when `success` holds.
    pub formatted_json: Option<String>,
    /// A diagnostic; present exactly when `success` does not hold.
    pub error_message: Option<String>,
    /// Whether the input parsed as JSON, whatever happened afterwards.
    pub is_valid: bool,
}

/// The mathematical content of a [`JsonResponse`].
pub struct Envelope {
    pub success: bool,
    pub formatted_json: Option<Seq<char>>,
    pub error_message: Option<Seq<char>>,
    pub is_valid: bool,
}

impl Envelope {
    /// Exactly one of text and diagnostic is present, the text on success,
    /// and nothing succeeds on invalid input.
    pub open spec fn well_formed(self) -> bool {
        &&& self.success <==> self.formatted_json is Some
        &&& self.success <==> self.error_message is None
        &&& self.success ==> self.is_valid
    }

    /// The answer that carries a transformed text.
    pub open spec fn rendered(text: Seq<char>) -> Envelope {
        Envelope { success: true, formatted_json: Some(text), error_message: None, is_valid: true }
    }

    /// The answer to an input with nothing in it but whitespace.
    pub open spec fn empty_input() -> Envelope {
        Envelope {
            success: false,
            formatted_json: None,
            error_message: Some("Empty JSON input"@),
            is_valid: false,
        }
    }

    /// The answer to an input that the parser rejected with `diagnostic`.
    pub open spec fn invalid(diagnostic: Seq<char>) -> Envelope {
        Envelope {
            success: false,
            formatted_json: None,
            error_message: Some("Invalid JSON: "@ + diagnostic),
            is_valid: false,
        }
    }

    /// The answer to an input that parsed and then failed to serialise with
    /// `diagnostic`.
    pub open spec fn unrendered(kind: Rendering, diagnostic: Seq<char>) -> Envelope {
        Envelope {
            success: false,
            formatted_json: None,
            error_message: Some(kind.failure_prefix() + diagnostic),
            is_valid: true,
        }
    }
}

/// The content of an optional string.
pub open spec fn text_of(s: Option<String>) -> Option<Seq<char>> {
    match s {
        Some(s) => Some(s@),
        None => None,
    }
}

impl View for JsonResponse {
    type V = Envelope;

    open spec fn view(&self) -> Envelope {
        Envelope {
            success: self.success,
            formatted_json: text_of(self.formatted_json),
            error_message: text_of(self.error_message),
            is_valid: self.is_valid,
        }
    }
}

impl JsonResponse {
    /// Reports success with the transformed `text`.
    pub fn rendered(text: String) -> (response: JsonResponse)
        ensures
            response@ == Envelope::rendered(text@),
    {
        JsonResponse {
            success: true,
            formatted_json: Some(text),
            error_message: None,
            is_valid: true,
        }
    }

    /// Rejects an input that held nothing but whitespace.
    pub fn empty_input() -> (response: JsonResponse)
        ensures
            response@ == Envelope::empty_input(),
    {
        JsonResponse {
            success: false,
            formatted_json: None,
            error_message: Some(String::from_str("Empty JSON input")),
            is_valid: false,
        }
    }

    /// Rejects an input that did not parse, passing the parser's `diagnostic` on.
    pub fn invalid(diagnostic: &str) -> (response: JsonResponse)
        ensures
            response@ == Envelope::invalid(diagnostic@),
    {
        let mut message = String::from_str("Invalid JSON: ");
        message.append(diagnostic);
        JsonResponse {
            success: false,
            formatted_json: None,
            error_message: Some(message),
            is_valid: false,
        }
    }

    /// Reports that a valid document could not be serialised as `kind`,
    /// passing the serialiser's `diagnostic` on.
    pub fn unrendered(kind: Rendering, diagnostic: &str) -> (response: JsonResponse)
        ensures
            response@ == Envelope::unrendered(kind, diagnostic@),
    {
        let mut message = match kind {
            Rendering::Pretty => String::from_str("Formatting error: "),
            Rendering::Compact => String::from_str("Minification error: "),
        };
        message.append(diagnostic);
        JsonResponse {
            success: false,
            formatted_json: None,
            error_message: Some(message),
            is_valid: true,
        }
    }
}

} // verus!

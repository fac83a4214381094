//! Structured values on the wire: parameters go to a tool as JSON text and
//! its answer comes back as JSON text. Encoding and decoding are serde_json's.

use vstd::prelude::*;

verus! {

/// `serde_json::Value`, a structured value. The library carries such values
/// through and never looks inside one.
#[verifier::external_type_specification]
#[verifier::external_body]
pub struct ExValue(serde_json::Value);

/// `serde_json::Error`, why a value could not be encoded or a text could not
/// be decoded. The library only ever asks one for its text.
#[verifier::external_type_specification]
#[verifier::external_body]
pub struct ExJsonError(serde_json::Error);

/// What `serde_json::to_string` gives for a value.
pub uninterp spec fn json_encoding(value: serde_json::Value) -> Result<
    Seq<char>,
    serde_json::Error,
>;

/// What `serde_json::from_str` gives for a text, read as a `serde_json::Value`.
pub uninterp spec fn json_decoding(text: Seq<char>) -> Result<
    serde_json::Value,
    serde_json::Error,
>;

/// What a `serde_json::Error` displays as.
pub uninterp spec fn json_error_text(error: serde_json::Error) -> Seq<char>;

/// Calls `serde_json::to_string` on a value. The result is a function of the
/// value alone; nothing more is claimed of it.
#[verifier::external_body]
pub(crate) fn encode(value: &serde_json::Value) -> (out: Result<String, serde_json::Error>)
    ensures
        match out {
            Ok(text) => json_encoding(*value) == Ok::<Seq<char>, serde_json::Error>(text@),
            Err(error) => json_encoding(*value) == Err::<Seq<char>, serde_json::Error>(error),
        },
{
    serde_json::to_string(value)
}

/// Calls `serde_json::from_str` for a `serde_json::Value`. The result is a
/// function of the text alone; nothing more is claimed of it.
#[verifier::external_body]
pub(crate) fn decode(text: &str) -> (out: Result<serde_json::Value, serde_json::Error>)
    ensures
        out == json_decoding(text@),
{
    serde_json::from_str(text)
}

/// Calls `to_string` on a `serde_json::Error`, which formats it the way it
/// displays itself. The text is a function of the error alone; nothing more
/// is claimed of it.
#[verifier::external_body]
pub(crate) fn error_text(error: &serde_json::Error) -> (out: String)
    ensures
        out@ == json_error_text(*error),
{
    error.to_string()
}

/// A result as contracts speak of it: the message by its characters.
pub open spec fn result_view(result: Result<serde_json::Value, String>) -> Result<
    serde_json::Value,
    Seq<char>,
> {
    match result {
        Ok(value) => Ok(value),
        Err(message) => Err(message@),
    }
}

/// The payload that encoding the parameters gave, or why there is none.
pub open spec fn payload_of(encoded: Result<Seq<char>, serde_json::Error>) -> Result<
    Seq<char>,
    Seq<char>,
> {
    match encoded {
        Ok(text) => Ok(text),
        Err(error) => Err("Failed to serialize parameters: "@ + json_error_text(error)),
    }
}

/// The tool's answer that decoding its output gave, or why there is none.
/// `output` is the text that was decoded.
pub open spec fn answer_of(
    decoded: Result<serde_json::Value, serde_json::Error>,
    output: Seq<char>,
) -> Result<serde_json::Value, Seq<char>> {
    match decoded {
        Ok(value) => Ok(value),
        Err(error) => Err(
            "Failed to parse Python output as JSON: "@ + json_error_text(error) + " | Output: "@
                + output,
        ),
    }
}

/// The tool's answer, from what decoding its output gave.
pub fn answer_from(decoded: Result<serde_json::Value, serde_json::Error>, output: &str) -> (out:
    Result<serde_json::Value, String>)
    ensures
        result_view(out) == answer_of(decoded, output@),
{
    match decoded {
        Ok(value) => Ok(value),
        Err(error) => {
            let reason = error_text(&error);
            let mut message = crate::text::join2(
                "Failed to parse Python output as JSON: ",
                reason.as_str(),
            );
            message.append(" | Output: ");
            message.append(output);
            Err(message)
        },
    }
}

/// The payload for a tool's input stream, from what encoding the parameters gave.
pub fn payload_from(encoded: Result<String, serde_json::Error>) -> (out: Result<String, String>)
    ensures
        match encoded {
            Ok(text) => out == Ok::<String, String>(text),
            Err(error) => out matches Err(message) && Err::<Seq<char>, Seq<char>>(message@)
                == payload_of(Err(error)),
        },
{
    match encoded {
        Ok(text) => Ok(text),
        Err(error) => {
            let reason = error_text(&error);
            Err(crate::text::join2("Failed to serialize parameters: ", reason.as_str()))
        },
    }
}

} // verus!

//! How results are printed.
use vstd::prelude::*;

use crate::json::{formatted, formatted_json, Json, JsonModel};
use crate::seqs::cat2;
use crate::text::owned;

verus! {

/// How results are printed.
#[derive(Debug, Clone, Copy, PartialEq, Eq, Structural)]
pub enum OutputFormat {
    Markdown,
    Json,
    Sarif,
    Junit,
}

/// What is said where a command does not print in a format.
pub open spec fn unsupported_format_text(command: Seq<char>) -> Seq<char> {
    let t = command + " supports --format markdown or --format json"@;
    t
}

/// What is said where a command does not print in a format.
pub fn unsupported_format(command: &str) -> (r: String)
    ensures
        r@ == unsupported_format_text(command@),
{
    let mut out = owned(command);
    out.append(" supports --format markdown or --format json");
    out
}

/// What a command prints in a format: its words, or its document, or what is said where the
/// command does not print in it.
pub open spec fn printed(
    format: OutputFormat,
    words: Seq<char>,
    document: JsonModel,
    command: Seq<char>,
) -> Result<Seq<char>, Seq<char>> {
    match format {
        OutputFormat::Markdown => Ok(words),
        OutputFormat::Json => Ok(formatted_json(document) + "\n"@),
        OutputFormat::Sarif => Err(unsupported_format_text(command)),
        OutputFormat::Junit => Err(unsupported_format_text(command)),
    }
}

/// Whether a result holds the text that it should.
pub open spec fn gives(
    result: Result<String, String>,
    expected: Result<Seq<char>, Seq<char>>,
) -> bool {
    match (result, expected) {
        (Ok(text), Ok(wanted)) => text@ == wanted,
        (Err(text), Err(wanted)) => text@ == wanted,
        _ => false,
    }
}

/// A document as it is printed.
pub fn print_document(document: &Json) -> (r: String)
    ensures
        r@ == formatted_json(document.deep_view()) + "\n"@,
{
    cat2(formatted(document).as_str(), "\n")
}

} // verus!

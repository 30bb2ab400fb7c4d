//! Values of command-line options: the yes/no switch for transport
//! security and the name of the output encoding. Both are read without
//! regard to case.

use vstd::prelude::*;
use vstd::string::*;
use crate::models::OutputFormat;
use crate::text::same_text;

verus! {

/// The lowercase form of a text, as `str::to_lowercase` gives it.
pub uninterp spec fn lowercase(s: Seq<char>) -> Seq<char>;

/// `str::to_lowercase`: the lowercase form of the text.
#[verifier::external_body]
fn lowercase_of(s: &str) -> (r: String)
    ensures
        r@ == lowercase(s@),
{
    s.to_lowercase()
}

/// The switch that a lowercase word stands for.
pub open spec fn yes_no_of(lower: Seq<char>) -> Option<bool> {
    if lower == "yes"@ || lower == "y"@ {
        Some(true)
    } else if lower == "no"@ || lower == "n"@ {
        Some(false)
    } else {
        None
    }
}

/// The encoding that a lowercase word names.
pub open spec fn format_of(lower: Seq<char>) -> Option<OutputFormat> {
    if lower == "json"@ {
        Some(OutputFormat::Json)
    } else if lower == "csv"@ {
        Some(OutputFormat::Csv)
    } else if lower == "table"@ {
        Some(OutputFormat::Table)
    } else {
        None
    }
}

/// The complaint about a word that is no switch.
pub open spec fn invalid_yes_no(word: Seq<char>) -> Seq<char> {
    "Invalid value '"@ + word + "'. Expected 'yes' or 'no'"@
}

/// The complaint about a word that names no encoding.
pub open spec fn invalid_format(word: Seq<char>) -> Seq<char> {
    "Invalid format '"@ + word + "'. Expected 'json', 'csv', or 'table'"@
}

/// Reads a switch from the lowercase form `lower` of the word `word`.
pub fn yes_no_from_lowercase(lower: &str, word: &str) -> (r: Result<bool, String>)
    ensures
        match r {
            Ok(b) => yes_no_of(lower@) == Some(b),
            Err(message) => yes_no_of(lower@) is None && message@ == invalid_yes_no(word@),
        },
{
    if same_text(lower, "yes") || same_text(lower, "y") {
        Ok(true)
    } else if same_text(lower, "no") || same_text(lower, "n") {
        Ok(false)
    } else {
        let mut message = String::from_str("Invalid value '");
        message.append(word);
        message.append("'. Expected 'yes' or 'no'");
        Err(message)
    }
}

/// Reads the name of an encoding from the lowercase form `lower` of the
/// word `word`.
pub fn format_from_lowercase(lower: &str, word: &str) -> (r: Result<OutputFormat, String>)
    ensures
        match r {
            Ok(f) => format_of(lower@) == Some(f),
            Err(message) => format_of(lower@) is None && message@ == invalid_format(word@),
        },
{
    if same_text(lower, "json") {
        Ok(OutputFormat::Json)
    } else if same_text(lower, "csv") {
        Ok(OutputFormat::Csv)
    } else if same_text(lower, "table") {
        Ok(OutputFormat::Table)
    } else {
        let mut message = String::from_str("Invalid format '");
        message.append(word);
        message.append("'. Expected 'json', 'csv', or 'table'");
        Err(message)
    }
}

/// Reads a yes/no switch: `yes` or `y` for true, `no` or `n` for false, in
/// any mixture of upper and lower case.
pub fn parse_yes_no(s: &str) -> (r: Result<bool, String>)
    ensures
        match r {
            Ok(b) => yes_no_of(lowercase(s@)) == Some(b),
            Err(message) => yes_no_of(lowercase(s@)) is None && message@ == invalid_yes_no(s@),
        },
{
    let lower = lowercase_of(s);
    yes_no_from_lowercase(lower.as_str(), s)
}

/// Reads the name of an output encoding: `json`, `csv` or `table`, in any
/// mixture of upper and lower case.
pub fn parse_format(s: &str) -> (r: Result<OutputFormat, String>)
    ensures
        match r {
            Ok(f) => format_of(lowercase(s@)) == Some(f),
            Err(message) => format_of(lowercase(s@)) is None && message@ == invalid_format(s@),
        },
{
    let lower = lowercase_of(s);
    format_from_lowercase(lower.as_str(), s)
}

} // verus!

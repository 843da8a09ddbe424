use vstd::prelude::*;

use crate::js_code::{is_typescript, js_parse_result, summarize_js_or_ts_code};
use crate::python_code::{python_parse_result, summarize_python_code};
use crate::rust_code::{rust_parse_result, summarize_rust_code};
use crate::text::{join, joined, views};

verus! {

/// The languages whose source files can be summarised.
#[derive(Clone, Copy, Debug, PartialEq, Eq, Structural)]
pub enum SourceLanguage {
    Rust,
    Python,
    JavaScript,
}

pub open spec fn language_name(lang: SourceLanguage) -> Seq<char> {
    match lang {
        SourceLanguage::Rust => "Rust"@,
        SourceLanguage::Python => "Python"@,
        SourceLanguage::JavaScript => "JavaScript/TypeScript"@,
    }
}

/// What a summary says of a file that parsed and holds no top-level function.
pub open spec fn no_functions_text() -> Seq<char> {
    "No functions found in the file."@
}

pub open spec fn extracted_header() -> Seq<char> {
    "Extracted functions:\n"@
}

pub open spec fn parse_error_prefix(lang: SourceLanguage) -> Seq<char> {
    "Error parsing "@ + language_name(lang) + " file: "@
}

/// The summary of a parse outcome: the entries one per line under a header,
/// the fixed "no functions" text when there are none, or the error described.
pub open spec fn summary_text(lang: SourceLanguage, parsed: Result<Seq<Seq<char>>, Seq<char>>) -> Seq<char> {
    match parsed {
        Ok(entries) => if entries.len() == 0 {
            no_functions_text()
        } else {
            extracted_header() + joined(entries, "\n"@)
        },
        Err(e) => parse_error_prefix(lang) + e,
    }
}

pub open spec fn entries_view(r: Result<Vec<String>, String>) -> Result<Seq<Seq<char>>, Seq<char>> {
    match r {
        Ok(v) => Ok(views(v@)),
        Err(e) => Err(e@),
    }
}

impl SourceLanguage {
    /// The language's name as it stands in messages.
    pub fn name(&self) -> (r: String)
        ensures
            r@ == language_name(*self),
    {
        match self {
            SourceLanguage::Rust => String::from_str("Rust"),
            SourceLanguage::Python => String::from_str("Python"),
            SourceLanguage::JavaScript => String::from_str("JavaScript/TypeScript"),
        }
    }
}

/// The extension of the file that a path names, as `std::path` reads it.
pub uninterp spec fn extension_of(path: Seq<char>) -> Option<Seq<char>>;

/// Relies on `std::path::Path::extension`: the part of the file name after
/// its last dot, if it has one.
#[verifier::external_body]
pub(crate) fn file_extension(path: &str) -> (r: Option<String>)
    ensures
        extension_of(path@) == match r {
            Some(e) => Some(e@),
            None => None,
        },
{
    std::path::Path::new(path).extension().and_then(|e| e.to_str()).map(|e| e.to_string())
}

pub open spec fn language_of(path: Seq<char>) -> Option<SourceLanguage> {
    match extension_of(path) {
        Some(e) => if e == "rs"@ {
            Some(SourceLanguage::Rust)
        } else if e == "py"@ {
            Some(SourceLanguage::Python)
        } else if e == "js"@ || e == "ts"@ {
            Some(SourceLanguage::JavaScript)
        } else {
            None
        },
        None => None,
    }
}

/// The language of the file at `path`, chosen by its extension: `rs`, `py`,
/// or `js` and `ts`.
pub fn language_for_path(path: &str) -> (r: Option<SourceLanguage>)
    ensures
        r == language_of(path@),
{
    match file_extension(path) {
        Some(e) => {
            if e == String::from_str("rs") {
                Some(SourceLanguage::Rust)
            } else if e == String::from_str("py") {
                Some(SourceLanguage::Python)
            } else if e == String::from_str("js") || e == String::from_str("ts") {
                Some(SourceLanguage::JavaScript)
            } else {
                None
            }
        },
        None => None,
    }
}

/// Turns the outcome of parsing one file into the single text handed back
/// to the model. An unreadable file is reported as an `Err` too.
pub fn summary_message(lang: SourceLanguage, parsed: &Result<Vec<String>, String>) -> (r: String)
    ensures
        r@ == summary_text(lang, entries_view(*parsed)),
{
    match parsed {
        Ok(entries) => {
            if entries.len() == 0 {
                String::from_str("No functions found in the file.")
            } else {
                let body = join(entries, "\n");
                let mut r = String::from_str("Extracted functions:\n");
                r.append(body.as_str());
                r
            }
        },
        Err(e) => {
            let mut r = String::from_str("Error parsing ");
            let name = lang.name();
            r.append(name.as_str());
            r.append(" file: ");
            r.append(e.as_str());
            r
        },
    }
}

/// The summary of the source text `source` of the file at `path`, read as `lang`.
pub open spec fn source_summary(lang: SourceLanguage, path: Seq<char>, source: Seq<char>) -> Seq<char> {
    match lang {
        SourceLanguage::Rust => summary_text(lang, rust_parse_result(source)),
        SourceLanguage::Python => summary_text(lang, python_parse_result(source)),
        SourceLanguage::JavaScript => summary_text(lang, js_parse_result(source, is_typescript(path))),
    }
}

/// Summarises a source text with the summariser of its language.
pub fn summarize_source(lang: SourceLanguage, path: &str, source: &str) -> (r: String)
    ensures
        r@ == source_summary(lang, path@, source@),
{
    match lang {
        SourceLanguage::Rust => summarize_rust_code(source),
        SourceLanguage::Python => summarize_python_code(source),
        SourceLanguage::JavaScript => summarize_js_or_ts_code(path, source),
    }
}

} // verus!

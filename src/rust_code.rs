use vstd::prelude::*;

use quote::ToTokens;

use crate::summary::{entries_view, summary_message, summary_text, SourceLanguage};
use crate::text::views;

verus! {

/// A top-level item of a Rust file: a function, with its name and the
/// tokens of its signature, or anything else.
pub enum RustItem {
    Function { name: String, signature: String },
    Other,
}

impl View for RustItem {
    type V = Option<(Seq<char>, Seq<char>)>;

    open spec fn view(&self) -> Self::V {
        match self {
            RustItem::Function { name, signature } => Some((name@, signature@)),
            RustItem::Other => None,
        }
    }
}

pub open spec fn rust_item_views(items: Seq<RustItem>) -> Seq<Option<(Seq<char>, Seq<char>)>> {
    items.map_values(|i: RustItem| i@)
}

/// What `syn` makes of a Rust source text: its top-level items in order,
/// or the parser's error message.
pub uninterp spec fn rust_syntax(source: Seq<char>) -> Result<Seq<Option<(Seq<char>, Seq<char>)>>, Seq<char>>;

/// Relies on `syn::parse_file` for the file's top-level items, on the
/// identifier's `to_string` for a function's name and on `quote::ToTokens`
/// for the text of its signature; on failure, on the error's `to_string`.
#[verifier::external_body]
fn rust_top_level_items(source: &str) -> (r: Result<Vec<RustItem>, String>)
    ensures
        rust_syntax(source@) == match r {
            Ok(items) => Ok(rust_item_views(items@)),
            Err(e) => Err(e@),
        },
{
    match syn::parse_file(source) {
        Ok(file) => Ok(file.items.iter().map(|item| match item {
            syn::Item::Fn(f) => RustItem::Function {
                name: f.sig.ident.to_string(),
                signature: f.sig.to_token_stream().to_string(),
            },
            _ => RustItem::Other,
        }).collect()),
        Err(e) => Err(e.to_string()),
    }
}

pub open spec fn rust_entry(name: Seq<char>, signature: Seq<char>) -> Seq<char> {
    "Function: "@ + name + " -> "@ + signature
}

/// One entry per function among `items`, in their order.
pub open spec fn rust_entries(items: Seq<Option<(Seq<char>, Seq<char>)>>) -> Seq<Seq<char>>
    decreases items.len(),
{
    if items.len() == 0 {
        Seq::empty()
    } else {
        let rest = rust_entries(items.drop_last());
        match items.last() {
            Some((name, signature)) => rest.push(rust_entry(name, signature)),
            None => rest,
        }
    }
}

/// What parsing a Rust source text yields: its function entries, or the error.
pub open spec fn rust_parse_result(source: Seq<char>) -> Result<Seq<Seq<char>>, Seq<char>> {
    match rust_syntax(source) {
        Ok(items) => Ok(rust_entries(items)),
        Err(e) => Err(e),
    }
}

/// The entries of the functions among a Rust file's top-level items.
pub fn rust_function_entries(items: &Vec<RustItem>) -> (r: Vec<String>)
    ensures
        views(r@) == rust_entries(rust_item_views(items@)),
{
    let mut r: Vec<String> = Vec::new();
    let mut i: usize = 0;
    while i < items.len()
        invariant
            i <= items@.len(),
            views(r@) == rust_entries(rust_item_views(items@.take(i as int))),
        decreases items@.len() - i,
    {
        proof {
            let next = rust_item_views(items@.take(i as int + 1));
            assert(next.drop_last() =~= rust_item_views(items@.take(i as int)));
            assert(next.last() == items@[i as int]@);
        }
        match &items[i] {
            RustItem::Function { name, signature } => {
                let mut e = String::from_str("Function: ");
                e.append(name.as_str());
                e.append(" -> ");
                e.append(signature.as_str());
                r.push(e);
                proof {
                    assert(views(r@) =~= views(r@.drop_last()).push(e@));
                }
            },
            RustItem::Other => {},
        }
        i = i + 1;
    }
    assert(items@.take(items@.len() as int) =~= items@);
    r
}

/// Extracts the top-level function definitions of a Rust source text.
pub fn parse_rust_file(source: &str) -> (r: Result<Vec<String>, String>)
    ensures
        entries_view(r) == rust_parse_result(source@),
{
    match rust_top_level_items(source) {
        Ok(items) => Ok(rust_function_entries(&items)),
        Err(e) => Err(e),
    }
}

/// Summarises the top-level functions of a Rust source text in one message.
pub fn summarize_rust_code(source: &str) -> (r: String)
    ensures
        r@ == summary_text(SourceLanguage::Rust, rust_parse_result(source@)),
{
    let parsed = parse_rust_file(source);
    summary_message(SourceLanguage::Rust, &parsed)
}

/// Items none of which is a function give no entries.
pub proof fn lemma_rust_entries_empty(items: Seq<Option<(Seq<char>, Seq<char>)>>)
    requires
        forall|i: int| 0 <= i < items.len() ==> (#[trigger] items[i]) is None,
    ensures
        rust_entries(items).len() == 0,
    decreases items.len(),
{
    if items.len() > 0 {
        lemma_rust_entries_empty(items.drop_last());
    }
}

/// A Rust file that parses and has no top-level function is summarised by
/// the fixed "no functions" text, not by an empty list or an error.
pub proof fn rust_summary_without_functions(source: Seq<char>)
    requires
        rust_syntax(source) is Ok,
        forall|i: int| 0 <= i < rust_syntax(source)->Ok_0.len() ==> (#[trigger] rust_syntax(source)->Ok_0[i]) is None,
    ensures
        summary_text(SourceLanguage::Rust, rust_parse_result(source)) == crate::summary::no_functions_text(),
{
    lemma_rust_entries_empty(rust_syntax(source)->Ok_0);
}

/// A Rust file that does not parse is summarised by a description of the
/// parser's error.
pub proof fn rust_summary_of_invalid_source(source: Seq<char>)
    requires
        rust_syntax(source) is Err,
    ensures
        summary_text(SourceLanguage::Rust, rust_parse_result(source)) == crate::summary::parse_error_prefix(
            SourceLanguage::Rust,
        ) + rust_syntax(source)->Err_0,
{
}

} // verus!

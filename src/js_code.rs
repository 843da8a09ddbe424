use vstd::prelude::*;

use swc_common::{FileName, SourceMap};
use swc_ecma_ast::{Decl, ModuleItem, Stmt};
use swc_ecma_parser::{parse_file_as_module, Syntax};

use crate::summary::{entries_view, extension_of, file_extension, summary_message, summary_text, SourceLanguage};
use crate::text::{join, joined, views};

verus! {

/// A top-level item of a JavaScript or TypeScript module: a function
/// declaration, with its name and the rendering of each parameter, or
/// anything else.
pub enum JsItem {
    Function { name: String, params: Vec<String> },
    Other,
}

impl View for JsItem {
    type V = Option<(Seq<char>, Seq<Seq<char>>)>;

    open spec fn view(&self) -> Self::V {
        match self {
            JsItem::Function { name, params } => Some((name@, views(params@))),
            JsItem::Other => None,
        }
    }
}

pub open spec fn js_item_views(items: Seq<JsItem>) -> Seq<Option<(Seq<char>, Seq<Seq<char>>)>> {
    items.map_values(|i: JsItem| i@)
}

/// What `swc` makes of a source text as a module, with the TypeScript
/// grammar or the plain one: how many errors it recovered from and the
/// top-level items in order, or the message of the error it stopped at.
pub uninterp spec fn js_syntax(source: Seq<char>, typescript: bool) -> Result<(nat, Seq<Option<(Seq<char>, Seq<Seq<char>>)>>), Seq<char>>;

/// Relies on `swc_ecma_parser::parse_file_as_module` for the module and the
/// errors it recovered from, on `SyntaxError::msg` for the message of the
/// error it stopped at, and on `Debug` of `swc_ecma_ast::Param` for each
/// parameter's rendering.
#[verifier::external_body]
fn js_top_level_items(source: &str, typescript: bool) -> (r: Result<(usize, Vec<JsItem>), String>)
    ensures
        js_syntax(source@, typescript) == match r {
            Ok((recovered, items)) => Ok((recovered as nat, js_item_views(items@))),
            Err(e) => Err(e@),
        },
{
    let mut errs = Vec::new();
    let module = parse_file_as_module(
        &SourceMap::default().new_source_file(FileName::Anon.into(), source.to_string()),
        if typescript { Syntax::Typescript(Default::default()) } else { Syntax::default() },
        Default::default(), None, &mut errs,
    )
        .map_err(|e| e.into_kind().msg().to_string())?;
    Ok((errs.len(), module.body.iter().map(|item| match item {
        ModuleItem::Stmt(Stmt::Decl(Decl::Fn(f))) => JsItem::Function {
            name: f.ident.sym.to_string(),
            params: f.function.params.iter().map(|p| format!("{p:?}")).collect(),
        },
        _ => JsItem::Other,
    }).collect()))
}

/// Whether a file is read with the TypeScript grammar: its extension is `ts`.
pub open spec fn is_typescript(path: Seq<char>) -> bool {
    extension_of(path) == Some("ts"@)
}

/// Tells whether the file at `path` is to be parsed as TypeScript.
pub fn is_typescript_path(path: &str) -> (r: bool)
    ensures
        r == is_typescript(path@),
{
    match file_extension(path) {
        Some(e) => e == String::from_str("ts"),
        None => false,
    }
}

pub open spec fn js_entry(name: Seq<char>, params: Seq<Seq<char>>) -> Seq<char> {
    "Function: "@ + name + "("@ + joined(params, ", "@) + ")"@
}

/// One entry per function declaration among `items`, in their order.
pub open spec fn js_entries(items: Seq<Option<(Seq<char>, Seq<Seq<char>>)>>) -> Seq<Seq<char>>
    decreases items.len(),
{
    if items.len() == 0 {
        Seq::empty()
    } else {
        let rest = js_entries(items.drop_last());
        match items.last() {
            Some((name, params)) => rest.push(js_entry(name, params)),
            None => rest,
        }
    }
}

pub open spec fn js_syntax_errors_text() -> Seq<char> {
    "the source has syntax errors"@
}

/// What parsing a source text as a module yields: its function entries, or
/// an error where the parser stopped at one or recovered from any.
pub open spec fn js_parse_result(source: Seq<char>, typescript: bool) -> Result<Seq<Seq<char>>, Seq<char>> {
    match js_syntax(source, typescript) {
        Ok((recovered, items)) => if recovered > 0 {
            Err(js_syntax_errors_text())
        } else {
            Ok(js_entries(items))
        },
        Err(e) => Err(e),
    }
}

/// The entries of the function declarations among a module's top-level items.
pub fn js_function_entries(items: &Vec<JsItem>) -> (r: Vec<String>)
    ensures
        views(r@) == js_entries(js_item_views(items@)),
{
    let mut r: Vec<String> = Vec::new();
    let mut i: usize = 0;
    while i < items.len()
        invariant
            i <= items@.len(),
            views(r@) == js_entries(js_item_views(items@.take(i as int))),
        decreases items@.len() - i,
    {
        proof {
            let next = js_item_views(items@.take(i as int + 1));
            assert(next.drop_last() =~= js_item_views(items@.take(i as int)));
            assert(next.last() == items@[i as int]@);
        }
        match &items[i] {
            JsItem::Function { name, params } => {
                let list = join(params, ", ");
                let mut e = String::from_str("Function: ");
                e.append(name.as_str());
                e.append("(");
                e.append(list.as_str());
                e.append(")");
                r.push(e);
                proof {
                    assert(views(r@) =~= views(r@.drop_last()).push(e@));
                }
            },
            JsItem::Other => {},
        }
        i = i + 1;
    }
    assert(items@.take(items@.len() as int) =~= items@);
    r
}

/// Extracts the top-level function declarations of a module's source text.
pub fn parse_js_file(source: &str, typescript: bool) -> (r: Result<Vec<String>, String>)
    ensures
        entries_view(r) == js_parse_result(source@, typescript),
{
    match js_top_level_items(source, typescript) {
        Ok((recovered, items)) => {
            if recovered > 0 {
                Err(String::from_str("the source has syntax errors"))
            } else {
                Ok(js_function_entries(&items))
            }
        },
        Err(e) => Err(e),
    }
}

/// Summarises the top-level functions of the JavaScript or TypeScript
/// source text of the file at `file_path` in one message.
pub fn summarize_js_or_ts_code(file_path: &str, source: &str) -> (r: String)
    ensures
        r@ == summary_text(SourceLanguage::JavaScript, js_parse_result(source@, is_typescript(file_path@))),
{
    let typescript = is_typescript_path(file_path);
    let parsed = parse_js_file(source, typescript);
    summary_message(SourceLanguage::JavaScript, &parsed)
}

/// Items none of which is a function declaration give no entries.
pub proof fn lemma_js_entries_empty(items: Seq<Option<(Seq<char>, Seq<Seq<char>>)>>)
    requires
        forall|i: int| 0 <= i < items.len() ==> (#[trigger] items[i]) is None,
    ensures
        js_entries(items).len() == 0,
    decreases items.len(),
{
    if items.len() > 0 {
        lemma_js_entries_empty(items.drop_last());
    }
}

/// A module that parses without error and has no top-level function
/// declaration is summarised by the fixed "no functions" text, not by an
/// empty list or an error.
pub proof fn js_summary_without_functions(source: Seq<char>, typescript: bool)
    requires
        js_syntax(source, typescript) matches Ok((recovered, items)) && recovered == 0 && forall|i: int|
            0 <= i < items.len() ==> (#[trigger] items[i]) is None,
    ensures
        summary_text(SourceLanguage::JavaScript, js_parse_result(source, typescript))
            == crate::summary::no_functions_text(),
{
    lemma_js_entries_empty(js_syntax(source, typescript)->Ok_0.1);
}

/// A module with a syntax error is summarised by a description of the
/// error the parser stopped at, or by the fixed syntax-error text where it
/// recovered.
pub proof fn js_summary_of_invalid_source(source: Seq<char>, typescript: bool)
    requires
        js_syntax(source, typescript) matches Ok((recovered, items)) ==> recovered > 0,
    ensures
        summary_text(SourceLanguage::JavaScript, js_parse_result(source, typescript))
            == crate::summary::parse_error_prefix(SourceLanguage::JavaScript) + match js_syntax(source, typescript) {
            Ok(_) => js_syntax_errors_text(),
            Err(e) => e,
        },
{
}

} // verus!

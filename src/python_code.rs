use vstd::prelude::*;

use crate::summary::{entries_view, summary_message, summary_text, SourceLanguage};
use crate::text::views;

verus! {

/// A top-level node of a Python syntax tree: its kind, and the text of its
/// `name` field where it has one.
pub struct PyNode {
    pub kind: String,
    pub name: Option<String>,
}

impl View for PyNode {
    type V = (Seq<char>, Option<Seq<char>>);

    open spec fn view(&self) -> Self::V {
        (self.kind@, match self.name {
            Some(n) => Some(n@),
            None => None,
        })
    }
}

pub open spec fn py_node_views(nodes: Seq<PyNode>) -> Seq<(Seq<char>, Option<Seq<char>>)> {
    nodes.map_values(|n: PyNode| n@)
}

/// What tree-sitter's Python grammar makes of a source text, reading the
/// field named `field` of each top-level node: whether the tree holds an
/// error, and the top-level nodes in order; nothing if no tree came out.
pub uninterp spec fn python_syntax(source: Seq<char>, field: Seq<char>) -> Option<(bool, Seq<(Seq<char>, Option<Seq<char>>)>)>;

/// Relies on `tree_sitter::Parser::parse` with `tree_sitter_python::LANGUAGE`,
/// on `Node::has_error` of the root, and on the root's children with their
/// `kind` and the UTF-8 text of their field `field`.
#[verifier::external_body]
fn python_top_level_nodes(source: &str, field: &str) -> (r: Option<(bool, Vec<PyNode>)>)
    ensures
        python_syntax(source@, field@) == match r {
            Some((has_error, nodes)) => Some((has_error, py_node_views(nodes@))),
            None => None,
        },
{
    let mut parser = tree_sitter::Parser::new();
    parser.set_language(&tree_sitter_python::LANGUAGE.into()).ok()?;
    let tree = parser.parse(source, None)?;
    let root = tree.root_node();
    let mut cursor = root.walk();
    let nodes = root.children(&mut cursor).map(|n| PyNode {
        kind: n.kind().to_string(),
        name: n.child_by_field_name(field).and_then(|c| c.utf8_text(source.as_bytes()).ok()).map(|t| t.to_string()),
    }).collect();
    Some((root.has_error(), nodes))
}

pub open spec fn python_entry(name: Seq<char>) -> Seq<char> {
    "Function: "@ + name + "()"@
}

/// One entry per named function definition among `nodes`, in their order.
pub open spec fn python_entries(nodes: Seq<(Seq<char>, Option<Seq<char>>)>) -> Seq<Seq<char>>
    decreases nodes.len(),
{
    if nodes.len() == 0 {
        Seq::empty()
    } else {
        let rest = python_entries(nodes.drop_last());
        let (kind, name) = nodes.last();
        if kind == "function_definition"@ && name is Some {
            rest.push(python_entry(name->0))
        } else {
            rest
        }
    }
}

pub open spec fn no_tree_text() -> Seq<char> {
    "the parser produced no syntax tree"@
}

pub open spec fn syntax_errors_text() -> Seq<char> {
    "the source has syntax errors"@
}

/// What parsing a Python source text yields: its function entries, or an
/// error where no tree came out or the tree holds a syntax error.
pub open spec fn python_parse_result(source: Seq<char>) -> Result<Seq<Seq<char>>, Seq<char>> {
    match python_syntax(source, "name"@) {
        None => Err(no_tree_text()),
        Some((has_error, nodes)) => if has_error {
            Err(syntax_errors_text())
        } else {
            Ok(python_entries(nodes))
        },
    }
}

/// The entries of the named function definitions among a Python tree's
/// top-level nodes.
pub fn python_function_entries(nodes: &Vec<PyNode>) -> (r: Vec<String>)
    ensures
        views(r@) == python_entries(py_node_views(nodes@)),
{
    let definition = String::from_str("function_definition");
    let mut r: Vec<String> = Vec::new();
    let mut i: usize = 0;
    while i < nodes.len()
        invariant
            i <= nodes@.len(),
            definition@ == "function_definition"@,
            views(r@) == python_entries(py_node_views(nodes@.take(i as int))),
        decreases nodes@.len() - i,
    {
        proof {
            let next = py_node_views(nodes@.take(i as int + 1));
            assert(next.drop_last() =~= py_node_views(nodes@.take(i as int)));
            assert(next.last() == nodes@[i as int]@);
        }
        let node = &nodes[i];
        if node.kind == definition {
            match &node.name {
                Some(name) => {
                    let mut e = String::from_str("Function: ");
                    e.append(name.as_str());
                    e.append("()");
                    r.push(e);
                    proof {
                        assert(views(r@) =~= views(r@.drop_last()).push(e@));
                    }
                },
                None => {},
            }
        }
        i = i + 1;
    }
    assert(nodes@.take(nodes@.len() as int) =~= nodes@);
    r
}

/// Extracts the top-level function definitions of a Python source text.
pub fn parse_python_file(source: &str) -> (r: Result<Vec<String>, String>)
    ensures
        entries_view(r) == python_parse_result(source@),
{
    match python_top_level_nodes(source, "name") {
        None => Err(String::from_str("the parser produced no syntax tree")),
        Some((has_error, nodes)) => {
            if has_error {
                Err(String::from_str("the source has syntax errors"))
            } else {
                Ok(python_function_entries(&nodes))
            }
        },
    }
}

/// Summarises the top-level functions of a Python source text in one message.
pub fn summarize_python_code(source: &str) -> (r: String)
    ensures
        r@ == summary_text(SourceLanguage::Python, python_parse_result(source@)),
{
    let parsed = parse_python_file(source);
    summary_message(SourceLanguage::Python, &parsed)
}

pub open spec fn is_named_definition(node: (Seq<char>, Option<Seq<char>>)) -> bool {
    node.0 == "function_definition"@ && node.1 is Some
}

/// Nodes none of which is a named function definition give no entries.
pub proof fn lemma_python_entries_empty(nodes: Seq<(Seq<char>, Option<Seq<char>>)>)
    requires
        forall|i: int| 0 <= i < nodes.len() ==> !is_named_definition(#[trigger] nodes[i]),
    ensures
        python_entries(nodes).len() == 0,
    decreases nodes.len(),
{
    if nodes.len() > 0 {
        lemma_python_entries_empty(nodes.drop_last());
    }
}

/// A Python file whose tree has no error and no top-level function is
/// summarised by the fixed "no functions" text, not by an empty list or an error.
pub proof fn python_summary_without_functions(source: Seq<char>)
    requires
        python_syntax(source, "name"@) matches Some((has_error, nodes)) && !has_error && forall|i: int|
            0 <= i < nodes.len() ==> !is_named_definition(#[trigger] nodes[i]),
    ensures
        summary_text(SourceLanguage::Python, python_parse_result(source)) == crate::summary::no_functions_text(),
{
    lemma_python_entries_empty(python_syntax(source, "name"@)->Some_0.1);
}

/// A Python file whose tree holds a syntax error, or that gives no tree, is
/// summarised by a description of the failure.
pub proof fn python_summary_of_invalid_source(source: Seq<char>)
    requires
        python_syntax(source, "name"@) matches Some((has_error, nodes)) ==> has_error,
    ensures
        summary_text(SourceLanguage::Python, python_parse_result(source)) == crate::summary::parse_error_prefix(
            SourceLanguage::Python,
        ) + (if python_syntax(source, "name"@) is None {
            no_tree_text()
        } else {
            syntax_errors_text()
        }),
{
}

} // verus!

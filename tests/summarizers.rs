use code_assistant::js_code::{is_typescript_path, js_function_entries, parse_js_file, summarize_js_or_ts_code, JsItem};
use code_assistant::python_code::{parse_python_file, python_function_entries, summarize_python_code, PyNode};
use code_assistant::rust_code::{parse_rust_file, rust_function_entries, summarize_rust_code, RustItem};
use code_assistant::summary::{language_for_path, summarize_source, summary_message, SourceLanguage};

const NO_FUNCTIONS: &str = "No functions found in the file.";

#[test]
fn rust_file_without_functions() {
    assert_eq!(summarize_rust_code("struct A;\nconst B: u8 = 1;\n"), NO_FUNCTIONS);
}

#[test]
fn python_file_without_functions() {
    assert_eq!(summarize_python_code("x = 1\nclass C:\n    def m(self):\n        pass\n"), NO_FUNCTIONS);
}

#[test]
fn js_file_without_functions() {
    assert_eq!(summarize_js_or_ts_code("a.js", "const x = () => 1;\n"), NO_FUNCTIONS);
}

#[test]
fn rust_invalid_source() {
    let r = summarize_rust_code("fn (");
    assert!(r.starts_with("Error parsing Rust file: "));
    assert!(r.len() > "Error parsing Rust file: ".len());
}

#[test]
fn python_invalid_source() {
    assert_eq!(
        summarize_python_code("def (:\n"),
        "Error parsing Python file: the source has syntax errors"
    );
}

#[test]
fn js_invalid_source() {
    let r = summarize_js_or_ts_code("a.js", "function (");
    assert!(r.starts_with("Error parsing JavaScript/TypeScript file: "));
    assert!(r.len() > "Error parsing JavaScript/TypeScript file: ".len());
}

#[test]
fn rust_top_level_functions_in_order() {
    let src = "fn add(a: i32, b: i32) -> i32 { fn inner() {} a + b }\nstruct S;\nimpl S { fn m(&self) {} }\npub fn second() {}\n";
    let entries = parse_rust_file(src).unwrap();
    assert_eq!(entries.len(), 2);
    assert!(entries[0].starts_with("Function: add -> fn add"));
    assert!(entries[0].contains("i32"));
    assert!(entries[1].starts_with("Function: second -> fn second"));
    let summary = summarize_rust_code(src);
    assert!(summary.starts_with("Extracted functions:\nFunction: add -> "));
    assert_eq!(summary.lines().count(), 3);
}

#[test]
fn python_top_level_functions_in_order() {
    let src = "def foo(x):\n    def nested():\n        pass\n    return x\n\ndef bar():\n    pass\n";
    assert_eq!(parse_python_file(src).unwrap(), vec!["Function: foo()".to_string(), "Function: bar()".to_string()]);
    assert_eq!(summarize_python_code(src), "Extracted functions:\nFunction: foo()\nFunction: bar()");
}

#[test]
fn js_top_level_functions_in_order() {
    let src = "function add(a, b) { function inner() {} return a + b; }\nconst f = function () {};\nfunction none() {}\n";
    let entries = parse_js_file(src, false).unwrap();
    assert_eq!(entries.len(), 2);
    assert!(entries[0].starts_with("Function: add("));
    assert!(entries[0].contains(", "));
    assert_eq!(entries[1], "Function: none()");
}

#[test]
fn typescript_follows_the_extension() {
    assert!(is_typescript_path("src/app.ts"));
    assert!(!is_typescript_path("src/app.js"));
    assert!(!is_typescript_path("src/ts"));
    let src = "function id(x: number): number { return x; }\n";
    assert!(summarize_js_or_ts_code("m.ts", src).starts_with("Extracted functions:\nFunction: id("));
    assert!(summarize_js_or_ts_code("m.js", src).starts_with("Error parsing JavaScript/TypeScript file: "));
}

#[test]
fn entries_from_given_items() {
    let items = vec![
        RustItem::Other,
        RustItem::Function { name: "f".to_string(), signature: "fn f ()".to_string() },
    ];
    assert_eq!(rust_function_entries(&items), vec!["Function: f -> fn f ()".to_string()]);
    let nodes = vec![
        PyNode { kind: "function_definition".to_string(), name: Some("g".to_string()) },
        PyNode { kind: "expression_statement".to_string(), name: None },
        PyNode { kind: "function_definition".to_string(), name: None },
    ];
    assert_eq!(python_function_entries(&nodes), vec!["Function: g()".to_string()]);
    let js = vec![JsItem::Function { name: "h".to_string(), params: vec!["a".to_string(), "b".to_string()] }, JsItem::Other];
    assert_eq!(js_function_entries(&js), vec!["Function: h(a, b)".to_string()]);
}

#[test]
fn summary_messages() {
    assert_eq!(summary_message(SourceLanguage::Rust, &Ok(vec![])), NO_FUNCTIONS);
    assert_eq!(
        summary_message(SourceLanguage::Python, &Ok(vec!["a".to_string(), "b".to_string()])),
        "Extracted functions:\na\nb"
    );
    assert_eq!(
        summary_message(SourceLanguage::JavaScript, &Err("missing file".to_string())),
        "Error parsing JavaScript/TypeScript file: missing file"
    );
}

#[test]
fn language_by_extension() {
    assert_eq!(language_for_path("src/main.rs"), Some(SourceLanguage::Rust));
    assert_eq!(language_for_path("tool.py"), Some(SourceLanguage::Python));
    assert_eq!(language_for_path("web/app.js"), Some(SourceLanguage::JavaScript));
    assert_eq!(language_for_path("web/app.ts"), Some(SourceLanguage::JavaScript));
    assert_eq!(language_for_path("README.md"), None);
    assert_eq!(language_for_path("Makefile"), None);
    assert_eq!(summarize_source(SourceLanguage::Python, "a.py", "def f():\n    pass\n"), "Extracted functions:\nFunction: f()");
}

use code_assistant::dir_context::{classify_entries, context_root, gather_directory_context, DirEntry};
use code_assistant::fs_access::{create_directory, create_file, io_error_message, read_file, write_to_file, FsAction};
use code_assistant::npm::{install_directory, install_npm_package, NpmOutcome};

fn entry(path: &str, is_dir: bool) -> DirEntry {
    DirEntry { relative_path: path.to_string(), is_dir }
}

#[test]
fn create_directory_twice_reports_existing() {
    let first = create_directory("out", false);
    assert_eq!(first.action, FsAction::CreateDirectory);
    assert_eq!(first.message, "Directory `out` created successfully!");
    let second = create_directory("out", true);
    assert_eq!(second.action, FsAction::Nothing);
    assert_eq!(second.message, "Directory `out` already exists.");
}

#[test]
fn create_file_twice_reports_existing() {
    let first = create_file("notes.txt", "", false);
    assert_eq!(first.action, FsAction::CreateFile);
    assert_eq!(first.message, "File `notes.txt` created successfully!");
    let with_content = create_file("notes.txt", "hi", false);
    assert_eq!(with_content.action, FsAction::CreateFileWithContent);
    assert_eq!(with_content.message, "File `notes.txt` created and content written successfully!");
    let second = create_file("notes.txt", "hi", true);
    assert_eq!(second.action, FsAction::Nothing);
    assert_eq!(second.message, "File `notes.txt` already exists.");
}

#[test]
fn write_with_missing_parent_changes_nothing() {
    let r = write_to_file("missing/a.txt", "missing", false);
    assert_eq!(r.action, FsAction::Nothing);
    assert_eq!(r.message, "Error: Directory `missing` does not exist. Please create it first.");
}

#[test]
fn write_with_existing_or_current_parent() {
    let r = write_to_file("dir/a.txt", "dir", true);
    assert_eq!(r.action, FsAction::WriteFile);
    assert_eq!(r.message, "Successfully wrote to `dir/a.txt`!");
    let r = write_to_file("a.txt", "", false);
    assert_eq!(r.action, FsAction::WriteFile);
}

#[test]
fn read_empty_file() {
    assert_eq!(read_file("e.txt", &Some(String::new())), "File `e.txt` is empty.");
    assert_eq!(read_file("e.txt", &Some(" \n\t ".to_string())), "File `e.txt` is empty.");
}

#[test]
fn read_missing_and_present_file() {
    assert_eq!(read_file("m.txt", &None), "Error: File `m.txt` does not exist.");
    assert_eq!(read_file("f.txt", &Some(" x\n".to_string())), "Contents of `f.txt`:\n x\n");
}

#[test]
fn gather_one_directory_and_one_file() {
    let entries = vec![entry("", true), entry("a", true), entry("b.txt", false)];
    let ctx = classify_entries(&entries);
    assert_eq!(ctx.directories, vec!["a".to_string()]);
    assert_eq!(ctx.files, vec!["b.txt".to_string()]);
    assert_eq!(
        gather_directory_context(".", true, &entries),
        "{\"directories\":[\"a\"],\"files\":[\"b.txt\"]}"
    );
}

#[test]
fn gather_escapes_and_keeps_walk_order() {
    let entries = vec![entry("", true), entry("z\"q", false), entry("a", true), entry("a/x.rs", false)];
    assert_eq!(
        gather_directory_context("src", true, &entries),
        "{\"directories\":[\"a\"],\"files\":[\"z\\\"q\",\"a/x.rs\"]}"
    );
}

#[test]
fn gather_on_missing_directory() {
    assert_eq!(
        gather_directory_context("nope", false, &vec![]),
        "Error: The path `nope` does not exist or is not a directory."
    );
    assert_eq!(context_root(""), ".");
    assert_eq!(context_root("src"), "src");
}

#[test]
fn io_error_text() {
    assert_eq!(io_error_message("x", "denied"), "Error: the operation on `x` failed: denied");
}

#[test]
fn npm_messages() {
    assert_eq!(install_directory(""), ".");
    assert_eq!(install_npm_package("express", "", &NpmOutcome::Succeeded), "Successfully installed `express` in `.`!");
    assert_eq!(install_npm_package("express", "web", &NpmOutcome::Succeeded), "Successfully installed `express` in `web`!");
    assert_eq!(
        install_npm_package("x", "", &NpmOutcome::Failed { stderr: "404".to_string() }),
        "Error installing `x`: 404"
    );
    assert_eq!(install_npm_package("x", "", &NpmOutcome::NotInstalled), "Error: npm is not installed on this system.");
}

use vstd::prelude::*;

use crate::fs_access::{framed, framed_text};
use crate::text::views;

verus! {

/// One entry met while walking a directory tree: its path relative to the
/// walked root (empty for the root itself) and whether it is a directory.
pub struct DirEntry {
    pub relative_path: String,
    pub is_dir: bool,
}

impl View for DirEntry {
    type V = (Seq<char>, bool);

    open spec fn view(&self) -> Self::V {
        (self.relative_path@, self.is_dir)
    }
}

/// The directories and files below a root, as paths relative to it, in the
/// order the walk met them.
pub struct DirectoryContext {
    pub directories: Vec<String>,
    pub files: Vec<String>,
}

pub open spec fn entry_views(entries: Seq<DirEntry>) -> Seq<(Seq<char>, bool)> {
    entries.map_values(|e: DirEntry| e@)
}

/// The paths of the entries, other than the root, whose directory flag is `dirs`.
pub open spec fn paths_of_kind(entries: Seq<(Seq<char>, bool)>, dirs: bool) -> Seq<Seq<char>>
    decreases entries.len(),
{
    if entries.len() == 0 {
        Seq::empty()
    } else {
        let rest = paths_of_kind(entries.drop_last(), dirs);
        let (path, is_dir) = entries.last();
        if path.len() > 0 && is_dir == dirs {
            rest.push(path)
        } else {
            rest
        }
    }
}

/// Sorts the walked entries into directories and files, leaving out the root.
pub fn classify_entries(entries: &Vec<DirEntry>) -> (r: DirectoryContext)
    ensures
        views(r.directories@) == paths_of_kind(entry_views(entries@), true),
        views(r.files@) == paths_of_kind(entry_views(entries@), false),
{
    let mut directories: Vec<String> = Vec::new();
    let mut files: Vec<String> = Vec::new();
    let mut i: usize = 0;
    while i < entries.len()
        invariant
            i <= entries@.len(),
            views(directories@) == paths_of_kind(entry_views(entries@.take(i as int)), true),
            views(files@) == paths_of_kind(entry_views(entries@.take(i as int)), false),
        decreases entries@.len() - i,
    {
        proof {
            let next = entry_views(entries@.take(i as int + 1));
            assert(next.drop_last() =~= entry_views(entries@.take(i as int)));
            assert(next.last() == entries@[i as int]@);
        }
        let entry = &entries[i];
        if entry.relative_path.as_str().unicode_len() > 0 {
            let path = entry.relative_path.clone();
            if entry.is_dir {
                directories.push(path);
                proof {
                    assert(views(directories@) =~= views(directories@.drop_last()).push(path@));
                }
            } else {
                files.push(path);
                proof {
                    assert(views(files@) =~= views(files@.drop_last()).push(path@));
                }
            }
        }
        i = i + 1;
    }
    assert(entries@.take(entries@.len() as int) =~= entries@);
    DirectoryContext { directories, files }
}

/// The JSON text that `serde_json` writes for a list of strings.
pub uninterp spec fn json_string_array(items: Seq<Seq<char>>) -> Seq<char>;

/// Relies on `serde_json::to_string` on a list of strings: the compact JSON
/// array of them, in order. Strings always serialise, so no error comes back.
#[verifier::external_body]
fn to_json_array(items: &Vec<String>) -> (r: String)
    ensures
        r@ == json_string_array(views(items@)),
{
    serde_json::to_string(items).unwrap_or_default()
}

pub open spec fn context_json_text(directories: Seq<Seq<char>>, files: Seq<Seq<char>>) -> Seq<char> {
    "{\"directories\":"@ + json_string_array(directories) + ",\"files\":"@ + json_string_array(files) + "}"@
}

/// The JSON object with the two arrays `directories` and `files`.
pub fn context_json(context: &DirectoryContext) -> (r: String)
    ensures
        r@ == context_json_text(views(context.directories@), views(context.files@)),
{
    let directories = to_json_array(&context.directories);
    let files = to_json_array(&context.files);
    let mut r = String::from_str("{\"directories\":");
    r.append(directories.as_str());
    r.append(",\"files\":");
    r.append(files.as_str());
    r.append("}");
    r
}

pub open spec fn root_of(path: Seq<char>) -> Seq<char> {
    if path.len() == 0 {
        "."@
    } else {
        path
    }
}

/// The directory to walk: `path`, or the working directory `.` when it is empty.
pub fn context_root(path: &str) -> (r: String)
    ensures
        r@ == root_of(path@),
{
    if path.unicode_len() == 0 {
        String::from_str(".")
    } else {
        String::from_str(path)
    }
}

pub open spec fn gather_text(root: Seq<char>, is_directory: bool, entries: Seq<(Seq<char>, bool)>) -> Seq<char> {
    if is_directory {
        context_json_text(paths_of_kind(entries, true), paths_of_kind(entries, false))
    } else {
        framed_text("Error: The path "@, root, " does not exist or is not a directory."@)
    }
}

/// Reports the tree below `root`: `is_directory` tells whether `root` is an
/// existing directory, and `entries` are what walking it met.
pub fn gather_directory_context(root: &str, is_directory: bool, entries: &Vec<DirEntry>) -> (r: String)
    ensures
        r@ == gather_text(root@, is_directory, entry_views(entries@)),
{
    if is_directory {
        let context = classify_entries(entries);
        context_json(&context)
    } else {
        framed("Error: The path ", root, " does not exist or is not a directory.")
    }
}

} // verus!

use vstd::prelude::*;

verus! {

/// The change to the filesystem that a tool call asks for, performed on the
/// call's path by whoever runs the tool.
#[derive(Clone, Copy, Debug, PartialEq, Eq, Structural)]
pub enum FsAction {
    Nothing,
    CreateDirectory,
    CreateFile,
    CreateFileWithContent,
    WriteFile,
}

/// What a filesystem tool decided: the change to make, and the message to
/// report once it is made.
pub struct ToolStep {
    pub action: FsAction,
    pub message: String,
}

impl View for ToolStep {
    type V = (FsAction, Seq<char>);

    open spec fn view(&self) -> Self::V {
        (self.action, self.message@)
    }
}

/// The set of paths that exist after `action` is performed on `path`.
pub open spec fn apply_action(existing: Set<Seq<char>>, path: Seq<char>, action: FsAction) -> Set<Seq<char>> {
    match action {
        FsAction::Nothing => existing,
        _ => existing.insert(path),
    }
}

/// `prefix`, then `path` between backquotes, then `suffix`.
pub open spec fn framed_text(prefix: Seq<char>, path: Seq<char>, suffix: Seq<char>) -> Seq<char> {
    prefix + "`"@ + path + "`"@ + suffix
}

pub(crate) fn framed(prefix: &str, path: &str, suffix: &str) -> (r: String)
    ensures
        r@ == framed_text(prefix@, path@, suffix@),
{
    let mut r = String::from_str(prefix);
    r.append("`");
    r.append(path);
    r.append("`");
    r.append(suffix);
    r
}

pub open spec fn directory_exists_text(path: Seq<char>) -> Seq<char> {
    framed_text("Directory "@, path, " already exists."@)
}

pub open spec fn file_exists_text(path: Seq<char>) -> Seq<char> {
    framed_text("File "@, path, " already exists."@)
}

pub open spec fn create_directory_step(path: Seq<char>, exists: bool) -> (FsAction, Seq<char>) {
    if exists {
        (FsAction::Nothing, directory_exists_text(path))
    } else {
        (FsAction::CreateDirectory, framed_text("Directory "@, path, " created successfully!"@))
    }
}

pub open spec fn create_file_step(path: Seq<char>, content: Seq<char>, exists: bool) -> (FsAction, Seq<char>) {
    if exists {
        (FsAction::Nothing, file_exists_text(path))
    } else if content.len() == 0 {
        (FsAction::CreateFile, framed_text("File "@, path, " created successfully!"@))
    } else {
        (FsAction::CreateFileWithContent, framed_text("File "@, path, " created and content written successfully!"@))
    }
}

/// A parent directory is missing when it is named and does not exist; an
/// empty parent stands for the working directory.
pub open spec fn parent_missing(parent: Seq<char>, parent_exists: bool) -> bool {
    parent.len() > 0 && !parent_exists
}

pub open spec fn write_to_file_step(path: Seq<char>, parent: Seq<char>, parent_exists: bool) -> (FsAction, Seq<char>) {
    if parent_missing(parent, parent_exists) {
        (FsAction::Nothing, framed_text("Error: Directory "@, parent, " does not exist. Please create it first."@))
    } else {
        (FsAction::WriteFile, framed_text("Successfully wrote to "@, path, "!"@))
    }
}

/// Creates the directory at `path`, with its missing ancestors, unless
/// something exists there already; `exists` tells whether it does.
pub fn create_directory(path: &str, exists: bool) -> (r: ToolStep)
    ensures
        r@ == create_directory_step(path@, exists),
{
    if exists {
        ToolStep { action: FsAction::Nothing, message: framed("Directory ", path, " already exists.") }
    } else {
        ToolStep {
            action: FsAction::CreateDirectory,
            message: framed("Directory ", path, " created successfully!"),
        }
    }
}

/// Creates the file at `path`, writing `content` into it when that is not
/// empty, unless something exists there already; `exists` tells whether it does.
pub fn create_file(path: &str, content: &str, exists: bool) -> (r: ToolStep)
    ensures
        r@ == create_file_step(path@, content@, exists),
{
    if exists {
        ToolStep { action: FsAction::Nothing, message: framed("File ", path, " already exists.") }
    } else if content.unicode_len() == 0 {
        ToolStep { action: FsAction::CreateFile, message: framed("File ", path, " created successfully!") }
    } else {
        ToolStep {
            action: FsAction::CreateFileWithContent,
            message: framed("File ", path, " created and content written successfully!"),
        }
    }
}

/// Replaces the content of the file at `path`, unless its parent directory
/// `parent` is missing; `parent_exists` tells whether that directory exists.
pub fn write_to_file(path: &str, parent: &str, parent_exists: bool) -> (r: ToolStep)
    ensures
        r@ == write_to_file_step(path@, parent@, parent_exists),
        parent_missing(parent@, parent_exists) ==> r.action == FsAction::Nothing,
{
    if parent.unicode_len() > 0 && !parent_exists {
        ToolStep {
            action: FsAction::Nothing,
            message: framed("Error: Directory ", parent, " does not exist. Please create it first."),
        }
    } else {
        ToolStep { action: FsAction::WriteFile, message: framed("Successfully wrote to ", path, "!") }
    }
}

/// Whether a character has the Unicode `White_Space` property, which is
/// what `str::trim` removes.
pub uninterp spec fn white_space(c: char) -> bool;

/// Relies on `str::trim`: nothing remains exactly when every character of
/// the text is white space.
#[verifier::external_body]
fn is_blank(s: &str) -> (r: bool)
    ensures
        r == (forall|i: int| 0 <= i < s@.len() ==> white_space(#[trigger] s@[i])),
{
    s.trim().is_empty()
}

pub open spec fn blank(s: Seq<char>) -> bool {
    forall|i: int| 0 <= i < s.len() ==> white_space(#[trigger] s[i])
}

pub open spec fn empty_file_text(path: Seq<char>) -> Seq<char> {
    framed_text("File "@, path, " is empty."@)
}

pub open spec fn read_file_text(path: Seq<char>, content: Option<Seq<char>>) -> Seq<char> {
    match content {
        None => framed_text("Error: File "@, path, " does not exist."@),
        Some(c) => if blank(c) {
            empty_file_text(path)
        } else {
            framed_text("Contents of "@, path, ":\n"@) + c
        },
    }
}

/// Reports on the file at `path` given its content, or `None` where no file exists.
pub fn read_file(path: &str, content: &Option<String>) -> (r: String)
    ensures
        r@ == read_file_text(path@, match content {
            Some(c) => Some(c@),
            None => None,
        }),
        content matches Some(c) && c@.len() == 0 ==> r@ == empty_file_text(path@),
{
    match content {
        None => framed("Error: File ", path, " does not exist."),
        Some(c) => {
            if is_blank(c.as_str()) {
                framed("File ", path, " is empty.")
            } else {
                let mut r = framed("Contents of ", path, ":\n");
                r.append(c.as_str());
                r
            }
        },
    }
}

/// Reports a filesystem operation on `path` that failed with `error`.
pub fn io_error_message(path: &str, error: &str) -> (r: String)
    ensures
        r@ == framed_text("Error: the operation on "@, path@, " failed: "@) + error@,
{
    let mut r = framed("Error: the operation on ", path, " failed: ");
    r.append(error);
    r
}

/// Creating a directory twice on the same path: the second call finds it,
/// reports that it already exists, and leaves the filesystem as the first
/// call left it.
pub proof fn create_directory_twice(existing: Set<Seq<char>>, path: Seq<char>)
    ensures
        ({
            let first = create_directory_step(path, existing.contains(path));
            let after = apply_action(existing, path, first.0);
            let second = create_directory_step(path, after.contains(path));
            &&& second == (FsAction::Nothing, directory_exists_text(path))
            &&& apply_action(after, path, second.0) == after
        }),
{
}

/// Creating a file twice on the same path, with any contents: the second
/// call finds it, reports that it already exists, and leaves the filesystem
/// as the first call left it.
pub proof fn create_file_twice(existing: Set<Seq<char>>, path: Seq<char>, content: Seq<char>, again: Seq<char>)
    ensures
        ({
            let first = create_file_step(path, content, existing.contains(path));
            let after = apply_action(existing, path, first.0);
            let second = create_file_step(path, again, after.contains(path));
            &&& second == (FsAction::Nothing, file_exists_text(path))
            &&& apply_action(after, path, second.0) == after
        }),
{
}

/// Writing below a missing parent directory reports an error and changes
/// nothing.
pub proof fn write_below_missing_parent(existing: Set<Seq<char>>, path: Seq<char>, parent: Seq<char>)
    requires
        parent.len() > 0,
    ensures
        ({
            let step = write_to_file_step(path, parent, false);
            &&& step.1 == framed_text("Error: Directory "@, parent, " does not exist. Please create it first."@)
            &&& apply_action(existing, path, step.0) == existing
        }),
{
}

} // verus!

use vstd::prelude::*;

use crate::dir_context::{context_root, root_of};
use crate::fs_access::{framed, framed_text};

verus! {

/// How running `npm install` went.
pub enum NpmOutcome {
    /// No `npm` executable could be run.
    NotInstalled,
    Succeeded,
    /// `npm` ran and failed, printing `stderr`.
    Failed { stderr: String },
}

/// The directory to install in: `directory`, or `.` when it is empty.
pub fn install_directory(directory: &str) -> (r: String)
    ensures
        r@ == root_of(directory@),
{
    context_root(directory)
}

pub open spec fn npm_text(package: Seq<char>, directory: Seq<char>, outcome: NpmOutcome) -> Seq<char> {
    match outcome {
        NpmOutcome::NotInstalled => "Error: npm is not installed on this system."@,
        NpmOutcome::Succeeded => framed_text("Successfully installed "@, package, " in "@) + framed_text(""@, root_of(directory), "!"@),
        NpmOutcome::Failed { stderr } => framed_text("Error installing "@, package, ": "@) + stderr@,
    }
}

/// Reports on installing `package` in `directory` (the working directory
/// when empty), given how running npm went.
pub fn install_npm_package(package: &str, directory: &str, outcome: &NpmOutcome) -> (r: String)
    ensures
        r@ == npm_text(package@, directory@, *outcome),
{
    match outcome {
        NpmOutcome::NotInstalled => String::from_str("Error: npm is not installed on this system."),
        NpmOutcome::Succeeded => {
            let dir = install_directory(directory);
            let mut r = framed("Successfully installed ", package, " in ");
            let tail = framed("", dir.as_str(), "!");
            r.append(tail.as_str());
            r
        },
        NpmOutcome::Failed { stderr } => {
            let mut r = framed("Error installing ", package, ": ");
            r.append(stderr.as_str());
            r
        },
    }
}

} // verus!

//! A command-line coding assistant's library: the tools that a language
//! model may call (summaries of the top-level functions of Rust, Python and
//! JavaScript or TypeScript files, and file and directory operations), the
//! registry that dispatches them by name, and the driver of a conversation.
//! Reading and writing the filesystem and talking to the model are left to
//! the caller, which hands in what it observed and performs what was decided.

pub mod dir_context;
pub mod driver;
pub mod fs_access;
pub mod js_code;
pub mod npm;
pub mod python_code;
pub mod registry;
pub mod rust_code;
pub mod summary;
pub mod text;

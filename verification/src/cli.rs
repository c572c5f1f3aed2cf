//! The command line: the commands and their arguments.
use vstd::prelude::*;

verus! {

/// A file-system path.
#[verifier::external_type_specification]
#[verifier::external_body]
pub struct ExPathBuf(std::path::PathBuf);

/// The parsed command line.
#[derive(Debug)]
pub struct Cli {
    pub command: Option<Commands>,
}

/// The commands.
#[derive(Debug)]
pub enum Commands {
    Add { name: String, file_path: Option<std::path::PathBuf>, url: Option<String> },
    Remove { hash_or_name: Option<String>, file_path: Option<std::path::PathBuf> },
    List { tag: Option<String> },
    Tag { hash_or_name: String, tag: String },
    Untag { hash_or_name: String, tag: String },
    Rename { old_name: String, new_name: String },
    Tui,
    Nuke,
    Serve { port: u16 },
}

/// The port `serve` listens on unless told otherwise.
pub const DEFAULT_PORT: u16 = 7878;

} // verus!

//! The `test` command.
use vstd::prelude::*;

verus! {

#[verifier::external_type_specification]
#[verifier::external_body]
pub struct ExPathBuf(std::path::PathBuf);

/// The arguments of the `test` command.
#[derive(Debug)]
pub struct Arguments {
    pub command: Command,
}

/// What to test.
#[derive(Debug)]
pub enum Command {
    /// The module whose test definition is in `path`, loaded from the libraries in `bin`.
    Module { path: std::path::PathBuf, bin: std::path::PathBuf },
}

} // verus!

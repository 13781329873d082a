//! The `generate` command.
use vstd::prelude::*;

verus! {

/// The arguments of the `generate` command.
#[derive(Debug)]
pub struct Arguments {
    pub command: Command,
}

/// What to generate.
#[derive(Debug)]
pub enum Command {
    /// A module, in the given language.
    Module { language: String },
}

/// Runs the `generate` command; generating a module does nothing yet, and succeeds.
pub fn execute(args: Arguments) -> (r: Result<(), String>)
    ensures
        r is Ok,
{
    match args.command {
        Command::Module { language } => {},
    }
    Ok(())
}

} // verus!

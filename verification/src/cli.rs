//! The command line of the `osc` tool: its commands and their arguments.
use vstd::prelude::*;

pub mod generate;
pub mod test;

verus! {

/// The command line.
#[derive(Debug)]
pub struct Cli {
    pub command: Command,
}

/// The commands of the command line.
#[derive(Debug)]
pub enum Command {
    Test(crate::cli::test::Arguments),
}

/// The stored settings of the command line tool.
#[derive(Debug)]
pub struct Config {
    pub session: String,
}

impl Default for Config {
    fn default() -> (r: Self)
        ensures
            r.session@ == Seq::<char>::empty(),
    {
        Config { session: String::new() }
    }
}

} // verus!

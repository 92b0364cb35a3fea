//! The parsed command line, as far as configuration is concerned.

use vstd::prelude::*;

verus! {

/// Subcommands of `config`.
#[derive(Debug, Clone, Copy, PartialEq, Eq)]
pub enum ConfigCommand {
    /// Print the default configuration.
    Default,
    /// Print the resolved configuration.
    Current,
}

/// The command to run.
#[derive(Debug, Clone, Copy, PartialEq, Eq)]
pub enum Command {
    /// Configuration management.
    Config { command: ConfigCommand },
    /// A general purpose endpoint for ad hoc experiments.
    Temp,
}

/// The options given on the command line.
#[derive(Debug)]
pub struct Cli {
    /// The command to run.
    pub command: Command,
    /// How often the verbosity flag was given.
    pub verbose: u8,
    /// An explicit configuration file that replaces the search list.
    pub config: Option<String>,
}

} // verus!

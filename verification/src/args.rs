//! The command-line surface of the tool, as plain data. The binary parses
//! the real command line and hands these values in.

use vstd::prelude::*;

verus! {

/// The parsed invocation: exactly one subcommand.
#[derive(Debug)]
pub struct TixArgs {
    pub command: CommandType,
}

/// The available subcommands.
#[derive(Debug)]
pub enum CommandType {
    /// Create a new ticket / branch.
    Create(CreateCommand),
}

/// The arguments of the `create` subcommand.
#[derive(Debug)]
pub struct CreateCommand {
    /// An optional issue title; when absent the workflow prompts for one.
    pub title: Option<String>,
}

} // verus!

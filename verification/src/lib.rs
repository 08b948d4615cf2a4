//! Turns a tracked issue into a local development branch.
//!
//! The crate holds the logic of the tool: deriving a branch name from an
//! issue number and title, validating a repository configuration, checking
//! the working-copy state, and sequencing the `create` workflow as a state
//! machine. The surrounding binary performs the prompts, the network calls
//! and the git plumbing that the workflow requests, and feeds the outcomes
//! back as events.

pub mod args;
pub mod error;
pub mod git;
pub mod github;
pub mod gitlab;
pub mod settings;
pub mod text;
pub mod util;
pub mod workflow;

//! The command-line surface, as plain data: the program around the library
//! parses arguments and hands over one of these values.

use vstd::prelude::*;

verus! {

/// The parsed command line.
pub struct Cli {
    pub command: Option<Commands>,
}

/// The non-interactive subcommands; with none, the interactive client runs.
pub enum Commands {
    /// Send an email without entering the interactive client.
    Send { to: String, subject: String, body: String },
    /// Delete an email by subject.
    Delete { subject: String },
    /// Sync emails with the store.
    Sync,
}

} // verus!

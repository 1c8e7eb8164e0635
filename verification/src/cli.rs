//! The command line: the commands the program takes.

use vstd::prelude::*;

verus! {

/// The parsed command line.
#[derive(Debug)]
pub struct Cli {
    /// The command, if one was given.
    pub command: Option<Commands>,
}

/// The commands of the program.
#[derive(Debug)]
pub enum Commands {
    /// Launch the terminal interface.
    Tui,
    /// Create a new paste from standard input.
    Create {
        /// Optional title for the paste.
        title: Option<String>,
    },
    /// Print the content of a paste.
    Get {
        /// The ID of the paste.
        paste_id: String,
    },
    /// List the IDs of all pastes of the device.
    List,
    /// Show all pastes with their content.
    Show,
    /// Register a new device.
    Register,
}

} // verus!

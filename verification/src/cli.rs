//! The command line of the tool, as plain values.
use crate::model::KeyboardLayout;
use vstd::prelude::*;

verus! {

/// A parsed command line.
#[derive(Clone, Debug)]
pub struct Cli {
    pub command: Commands,
}

/// What the tool is asked to do.
#[derive(Clone, Debug)]
pub enum Commands {
    /// Start recording a new session.
    Start { name: Option<String>, layout: KeyboardLayout },
    /// Show the running or last session.
    Status,
    /// Stop the running session, optionally opening its report.
    Stop { open: bool },
    /// Serve the live view of the running session.
    Live { open: bool },
    /// Serve the report of a session.
    Report { session_id: String, open: bool },
    /// List recent sessions.
    List,
    /// Check the installation.
    Doctor,
    /// Run the background collector of a session.
    Daemon { session_id: String, control_token: String },
}

} // verus!

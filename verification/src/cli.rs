//! The daemon's command line.
use vstd::prelude::*;

verus! {

/// Command line of the `sherpad` daemon.
pub struct Cli {
    pub command: Commands,
}

/// Subcommands of `sherpad`.
pub enum Commands {
    /// Start the server, in the foreground or as a background daemon.
    Start { foreground: bool },
    /// Stop the server, killing it with `force` if it does not stop gracefully.
    Stop { force: bool },
    /// Restart the server.
    Restart { foreground: bool },
    /// Show the server status.
    Status,
    /// Show the server logs, following them with `follow`.
    Logs { follow: bool },
    /// Initialise the server environment.
    Init {
        force: bool,
        db_password: Option<String>,
        server_ip: Option<String>,
        server_port: Option<u16>,
        db_port: Option<u16>,
    },
    /// Fix up the server environment.
    Doctor { boxes: bool },
}

} // verus!

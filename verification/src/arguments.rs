//! The command-line surface, as plain data.  Parsing the actual process
//! arguments into these values is the caller's concern; configuration
//! resolution consumes them.

use vstd::prelude::*;

verus! {

/// The sub-command named on the command line.
pub enum Commands {
    /// Show process status.
    Status { log: bool, tree: bool, filter: Vec<String> },
    /// Enable the named services.
    Enable { services: Vec<String> },
    /// Disable the named services.
    Disable { services: Vec<String> },
    /// Any other sub-command, forwarded to the supervisor-control program.
    External(Vec<String>),
}

/// Every command-line option, fully decoded.
pub struct Args {
    /// Color override: `yes`, `on`, `no`, `off` or `auto`.
    pub color: Option<String>,
    /// Alternate supervision root.
    pub dir: Option<String>,
    /// Show log companions (shortcut for the status flag).
    pub log: bool,
    /// Tree view (shortcut for the status flag).
    pub tree: bool,
    /// User mode: supervision root under the home directory.
    pub user: bool,
    /// Verbosity count.
    pub verbose: usize,
    /// The sub-command, when one was named.
    pub command: Option<Commands>,
}

} // verus!

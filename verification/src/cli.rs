//! What the bootstrap program is asked to do on its command line.

use vstd::prelude::*;

verus! {

/// The task of one run of the program.
#[derive(Clone, Copy, Debug, PartialEq, Eq, Structural)]
pub enum SubCommand {
    /// Run as the long-lived service: find or elect a leader, then lead or
    /// follow.
    Daemon,
    /// Remove the service and what it has set up on this node.
    Remove,
}

/// The options of one run of the program.
#[derive(Clone, Copy, Debug, PartialEq, Eq, Structural)]
pub struct Opts {
    pub subcmd: SubCommand,
}

} // verus!

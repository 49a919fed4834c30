use vstd::prelude::*;

verus! {

/// What the `daemon` command does.
#[derive(Clone, Copy, Debug, PartialEq, Eq, Structural)]
pub enum DaemonCommands {
    /// Run the daemon.
    Run,
    /// Install the service that runs the daemon.
    Install,
    /// Remove the service and the installed binary.
    Remove,
}

} // verus!

use vstd::prelude::*;

use crate::error::EcError;

verus! {

/// The message shown when neither backend is available: it names both ways
/// out, running with privilege or installing the daemon.
pub const EXIT_MSG: &'static str =
    "Run GigaCenter as root or install systemd service with `gigacenter daemon install`";

/// How a process reaches the hardware.
#[derive(Clone, Copy, Debug, PartialEq, Eq, Structural)]
pub enum Backend {
    /// Through the daemon; needs no privilege.
    Daemon,
    /// Directly; needs super-user privilege.
    Direct,
}

/// The steps of picking a backend, once per process.
#[derive(Clone, Copy, Debug, PartialEq, Eq, Structural)]
pub enum RouterStep {
    /// Try to connect to the daemon.
    ConnectDaemon,
    /// Try to open the hardware directly.
    OpenDirect,
    /// Use this backend for the rest of the run.
    Chosen(Backend),
    /// Neither way is available.
    Failed(EcError),
}

/// The first step: the daemon is tried first.
pub fn first_step() -> (r: RouterStep)
    ensures
        r == RouterStep::ConnectDaemon,
{
    RouterStep::ConnectDaemon
}

/// The step after `step`'s attempt, given whether it succeeded. The daemon
/// wins when reachable; otherwise direct access; with neither the router
/// fails with `NoAccess`. A chosen or failed router stays as it is.
pub fn next_step(step: RouterStep, succeeded: bool) -> (r: RouterStep)
    ensures
        step == RouterStep::ConnectDaemon ==> r == (if succeeded {
            RouterStep::Chosen(Backend::Daemon)
        } else {
            RouterStep::OpenDirect
        }),
        step == RouterStep::OpenDirect ==> r == (if succeeded {
            RouterStep::Chosen(Backend::Direct)
        } else {
            RouterStep::Failed(EcError::NoAccess)
        }),
        step is Chosen || step is Failed ==> r == step,
{
    match step {
        RouterStep::ConnectDaemon => if succeeded {
            RouterStep::Chosen(Backend::Daemon)
        } else {
            RouterStep::OpenDirect
        },
        RouterStep::OpenDirect => if succeeded {
            RouterStep::Chosen(Backend::Direct)
        } else {
            RouterStep::Failed(EcError::NoAccess)
        },
        _ => step,
    }
}

} // verus!

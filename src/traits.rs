use vstd::prelude::*;

use crate::codec::DaemonReq;
use crate::ec::RWData;

verus! {

/// A feature state that can be written to the embedded controller.
pub trait WriteEC {
    /// The operations that bring the hardware to this state, in order.
    spec fn write_ops(&self) -> Seq<RWData>;

    /// A series of data to be written to the embedded controller.
    fn data_to_write(&self) -> (r: Vec<RWData>)
        ensures
            r@ == self.write_ops(),
    ;
}

/// A feature state that can be read from the embedded controller.
pub trait ReadEC {
    /// The read descriptor: operations with placeholder values, in the
    /// order in which the feature decodes their results.
    spec fn read_ops() -> Seq<RWData>;

    /// A series of data to be read from the embedded controller.
    fn data_to_read() -> (r: Vec<RWData>)
        ensures
            r@ == Self::read_ops(),
    ;
}

/// A feature state that the daemon can be asked to write.
pub trait InvokeDaemon {
    spec fn request(&self) -> DaemonReq;

    /// The request that asks the daemon to write this state.
    fn daemon_action(&self) -> (r: DaemonReq)
        ensures
            r == self.request(),
    ;
}

/// Outcome of a write batch.
#[derive(Clone, Copy, Debug, PartialEq, Eq, Structural)]
pub enum WriteResult {
    Done,
    Busy,
}

} // verus!

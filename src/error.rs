use vstd::prelude::*;

use crate::ec::Reg;

verus! {

/// The errors that the library's own logic can report.
#[derive(Clone, Copy, Debug, PartialEq, Eq, Structural)]
pub enum EcError {
    /// A bit number outside `0..=7`.
    BitOutOfRange(u8),
    /// A battery threshold outside `60..=100`.
    ThresholdOutOfRange(u8),
    /// A register access that runs past the end of the register file.
    RegisterOutOfRange(Reg),
    /// A reply or a read result whose shape is not the one that was asked for.
    Protocol,
    /// Neither the daemon nor direct hardware access could be reached.
    NoAccess,
}

} // verus!

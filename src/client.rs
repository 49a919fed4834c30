use vstd::prelude::*;

use crate::codec::DaemonResp;
use crate::ec::RWData;
use crate::error::EcError;
use crate::traits::WriteResult;

verus! {

/// The values of the daemon's reply to a read request; any other reply is a
/// protocol error.
pub fn read_reply(resp: DaemonResp) -> (r: Result<Vec<RWData>, EcError>)
    ensures
        resp matches DaemonResp::ReadValues(v) ==> (r matches Ok(w) && w@ == v@),
        !(resp is ReadValues) ==> r == Err::<Vec<RWData>, EcError>(EcError::Protocol),
{
    match resp {
        DaemonResp::ReadValues(values) => Ok(values),
        _ => Err(EcError::Protocol),
    }
}

/// The result in the daemon's reply to a write request; any other reply is
/// a protocol error.
pub fn write_reply(resp: DaemonResp) -> (r: Result<WriteResult, EcError>)
    ensures
        resp matches DaemonResp::WriteResult(w) ==> r == Ok::<WriteResult, EcError>(w),
        !(resp is WriteResult) ==> r == Err::<WriteResult, EcError>(EcError::Protocol),
{
    match resp {
        DaemonResp::WriteResult(result) => Ok(result),
        _ => Err(EcError::Protocol),
    }
}

} // verus!

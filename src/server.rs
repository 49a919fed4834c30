use vstd::prelude::*;
use vstd::string::StringExecFns;

use crate::access::{apply_ops, op_in_bounds, read_all, RegisterBank, RegisterBatch};
use crate::codec::{DaemonReq, DaemonResp};
use crate::error::EcError;
use crate::traits::{WriteEC, WriteResult};

verus! {

/// Filesystem path of the daemon's local socket.
pub const DAEMON_UDS_PATH: &'static str = "/tmp/gigacenter";

/// The reply to a request the daemon refuses.
pub const UNKNOWN_REQUEST: &'static str = "Unknown daemon request";

/// What the daemon does with one request.
pub enum Dispatch {
    /// Carry out the batch on the hardware while holding the hardware lock,
    /// then send `reply(batch)`.
    Hardware(RegisterBatch),
    /// Send this reply without touching the hardware.
    Reply(DaemonResp),
}

/// Decides how the daemon handles a request. A battery threshold outside
/// `60..=100` is refused before any hardware access.
pub fn dispatch(req: DaemonReq) -> (r: Dispatch)
    ensures
        req matches DaemonReq::SetFanMode(m) ==> (r matches Dispatch::Hardware(b) && b.fresh()
            && b.is_writing() && b.ops() == m.write_ops()),
        req matches DaemonReq::SetBatThreshold(t) ==> (t.valid() ==> (r matches Dispatch::Hardware(
            b,
        ) && b.fresh() && b.is_writing() && b.ops() == t.write_ops())),
        req matches DaemonReq::SetBatThreshold(t) ==> (!t.valid() ==> (r matches Dispatch::Reply(
            DaemonResp::Error(msg),
        ) && msg@ == UNKNOWN_REQUEST@)),
        req matches DaemonReq::ReadValues(ops) ==> (r matches Dispatch::Hardware(b) && b.fresh()
            && !b.is_writing() && b.ops() == ops@),
{
    match req {
        DaemonReq::SetFanMode(mode) => Dispatch::Hardware(RegisterBatch::writing(mode.data_to_write())),
        DaemonReq::SetBatThreshold(threshold) => {
            if threshold.is_valid() {
                Dispatch::Hardware(RegisterBatch::writing(threshold.data_to_write()))
            } else {
                Dispatch::Reply(DaemonResp::Error(String::from_str(UNKNOWN_REQUEST)))
            }
        },
        DaemonReq::ReadValues(ops) => Dispatch::Hardware(RegisterBatch::reading(ops)),
    }
}

/// The reply once a batch has been carried out: `Done` for a write, the
/// values read for a read.
pub fn reply(batch: RegisterBatch) -> (r: DaemonResp)
    ensures
        batch.is_writing() ==> r == DaemonResp::WriteResult(WriteResult::Done),
        !batch.is_writing() ==> (r matches DaemonResp::ReadValues(ops) && ops@ == batch.ops()),
{
    if batch.is_write() {
        DaemonResp::WriteResult(WriteResult::Done)
    } else {
        DaemonResp::ReadValues(batch.into_ops())
    }
}

/// Handles one request against an in-memory register file the way the
/// daemon handles it against the hardware. An error ends the connection.
pub fn handle_request(bank: &mut RegisterBank, req: DaemonReq) -> (r: Result<DaemonResp, EcError>)
    requires
        old(bank).wf(),
    ensures
        final(bank).wf(),
        req matches DaemonReq::SetFanMode(m) ==> (r matches Ok(
            DaemonResp::WriteResult(WriteResult::Done),
        ) && final(bank)@ == apply_ops(old(bank)@, m.write_ops())),
        req matches DaemonReq::SetBatThreshold(t) ==> (t.valid() ==> (r matches Ok(
            DaemonResp::WriteResult(WriteResult::Done),
        ) && final(bank)@ == apply_ops(old(bank)@, t.write_ops()))),
        req matches DaemonReq::SetBatThreshold(t) ==> (!t.valid() ==> (r matches Ok(
            DaemonResp::Error(msg),
        ) && msg@ == UNKNOWN_REQUEST@ && final(bank)@ == old(bank)@)),
        req matches DaemonReq::ReadValues(ops) ==> final(bank)@ == old(bank)@ && (r is Ok <==> forall|
            i: int,
        | 0 <= i < ops@.len() ==> op_in_bounds(ops@[i])),
        req matches DaemonReq::ReadValues(ops) ==> (r matches Ok(DaemonResp::ReadValues(v)) ==> v@
            == read_all(old(bank)@, ops@)),
        req matches DaemonReq::ReadValues(ops) ==> (r is Ok ==> r->Ok_0 is ReadValues),
{
    match dispatch(req) {
        Dispatch::Hardware(mut batch) => {
            match bank.run(&mut batch) {
                Ok(()) => Ok(reply(batch)),
                Err(e) => Err(e),
            }
        },
        Dispatch::Reply(resp) => Ok(resp),
    }
}

} // verus!

//! The health-check job's write-back decision. The job itself sleeps and
//! talks to the network, so its loop runs outside the library: each tick
//! it takes a snapshot of the targets, probes them one by one, and hands
//! each outcome back here to be applied under its own lease.

use vstd::prelude::*;

use crate::store::Store;
use crate::store::with_url_status;

verus! {

/// The status code a probe failure is recorded as. Any transport failure
/// — timeout, refusal, failed resolution — is conflated with this one
/// HTTP status.
pub const FAILURE_SENTINEL: i32 = 404;

/// The status code stored for one probe outcome: the observed HTTP
/// status, or the failure sentinel when the probe brought none.
pub open spec fn spec_probe_status(outcome: Option<u16>) -> i32 {
    match outcome {
        Some(code) => code as i32,
        None => FAILURE_SENTINEL,
    }
}

pub fn probe_status(outcome: Option<u16>) -> (r: i32)
    ensures
        r == spec_probe_status(outcome),
{
    match outcome {
        Some(code) => code as i32,
        None => FAILURE_SENTINEL,
    }
}

/// Record one probe outcome against the target it was taken for. The
/// write is non-fatal when the target is gone: a concurrent deletion may
/// have overtaken the probe, and the update then changes nothing.
pub fn apply_probe_outcome(store: &mut Store, id: i32, outcome: Option<u16>)
    requires
        old(store).wf(),
    ensures
        final(store).wf(),
        final(store).urls@ == with_url_status(
            old(store).urls@,
            id,
            spec_probe_status(outcome),
        ),
        final(store).cpu@ == old(store).cpu@,
        final(store).next_cpu_id == old(store).next_cpu_id,
        final(store).next_url_id == old(store).next_url_id,
{
    let code = probe_status(outcome);
    store.update_url_status(id, code);
}

} // verus!

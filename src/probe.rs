//! Bookkeeping of a scan for serial endpoints that accept a DMX session.
use vstd::prelude::*;
use crate::universe::DMX_FRAME_SIZE;

verus! {

/// What probing one endpoint gave.
#[derive(Clone, Copy, Debug, PartialEq, Eq, Structural)]
pub enum ProbeOutcome {
    /// The endpoint opened with the DMX line settings and took the test frame.
    Accepted,
    /// The endpoint could not be opened.
    OpenFailed,
    /// The endpoint opened but the test frame could not be written.
    WriteFailed,
}

/// The all-zero frame written to an endpoint to probe it.
pub fn probe_frame() -> (r: Vec<u8>)
    ensures
        r@ == Seq::new(DMX_FRAME_SIZE as nat, |i: int| 0u8),
{
    let mut r: Vec<u8> = Vec::new();
    while r.len() < DMX_FRAME_SIZE
        invariant
            r@.len() <= DMX_FRAME_SIZE,
            r@ == Seq::new(r@.len(), |i: int| 0u8),
        decreases DMX_FRAME_SIZE - r@.len(),
    {
        r.push(0u8);
        assert(r@ =~= Seq::new(r@.len(), |i: int| 0u8));
    }
    r
}

/// Records the outcome of probing `port`: an accepted endpoint is appended to
/// `found`; a failed one is left out, and `found` keeps every endpoint already
/// in it, in order.
pub fn record_probe(found: &mut Vec<String>, port: String, outcome: ProbeOutcome)
    ensures
        final(found)@ == (if outcome == ProbeOutcome::Accepted {
            old(found)@.push(port)
        } else {
            old(found)@
        }),
{
    match outcome {
        ProbeOutcome::Accepted => found.push(port),
        _ => {},
    }
}

} // verus!

//! The shutdown coordinator's single-use slot. The slot stands for the
//! pending stop-signal sender the server holds; the lock around it and the
//! signal delivery stay outside the library. The take-and-clear decision
//! here is what the lock must be held across.

use vstd::prelude::*;
use crate::errors::ErrorKind;
use crate::errors::GatewayError;

verus! {

/// The one-shot stop trigger: armed while the stop signal is still
/// pending, disarmed forever once any handler consumes it.
#[derive(Debug)]
pub struct ShutdownSlot {
    pub armed: bool,
}

/// The trigger transition: whether the attempt succeeds, and the slot's
/// state after it.
pub open spec fn trigger_transition(armed: bool) -> (bool, bool) {
    if armed {
        (true, false)
    } else {
        (false, false)
    }
}

impl ShutdownSlot {
    /// A freshly armed slot, holding the pending stop signal.
    pub fn new() -> (r: ShutdownSlot)
        ensures
            r.armed,
    {
        ShutdownSlot { armed: true }
    }

    /// Attempts to consume the stop signal: succeeds exactly once, and a
    /// later attempt fails cleanly rather than panicking or blocking.
    pub fn trigger(&mut self) -> (r: Result<(), GatewayError>)
        ensures
            r is Ok == trigger_transition(old(self).armed).0,
            final(self).armed == trigger_transition(old(self).armed).1,
            !old(self).armed ==> (r matches Err(e) && e.kind == ErrorKind::AlreadyShuttingDown
                && e.detail@ == "shutdown failed."@),
    {
        if self.armed {
            self.armed = false;
            Ok(())
        } else {
            Err(GatewayError::new(ErrorKind::AlreadyShuttingDown, "shutdown failed."))
        }
    }
}

/// Any trigger attempt leaves the slot disarmed, so at most one attempt in
/// any sequence succeeds: the first success disarms the slot and every
/// later attempt fails.
pub proof fn lemma_trigger_single_use(armed: bool)
    ensures
        !trigger_transition(armed).1,
        !trigger_transition(trigger_transition(armed).1).0,
{
}

} // verus!

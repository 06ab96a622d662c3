//! The graceful-shutdown gate and the properties of the whole signal path.
//!
//! The shutdown gate is the consumer end of the stop channel: it resolves when a stop
//! signal is received or the channel is closed, both treated identically as
//! "shut down now", and it resolves at most once. `SystemModel` folds
//! arbitrary interleavings of delivered control events and gate polls, and
//! the lemmas at the end state the channel-and-gate guarantees: no premature
//! shutdown, resolution at most once, and resolution guaranteed once a stop
//! request has been accepted.

use vstd::prelude::*;
use crate::control::{ControlEvent, StopChannel, handler_channel_spec, is_stop_request};

verus! {

/// The shutdown gate: the await-point handed to the server as its shutdown
/// trigger. `resolved` is monotone; once it has fired the server is
/// already draining and it is never armed again.
#[derive(Clone, Copy, Debug, PartialEq, Eq)]
pub struct ShutdownGate {
    pub resolved: bool,
}

impl ShutdownGate {
    /// A fresh, unresolved gate.
    pub fn new() -> (g: ShutdownGate)
        ensures
            !g.resolved,
    {
        ShutdownGate { resolved: false }
    }

    /// Does one poll of an unresolved gate fire against this channel state?
    /// It does exactly when a signal is queued or the channel is closed.
    pub open spec fn poll_fires_spec(self, ch: StopChannel) -> bool {
        !self.resolved && (ch.queued || ch.closed)
    }

    /// The shutdown gate after one poll: it resolves exactly when a signal or a close
    /// is pending, and it never becomes unresolved again.
    pub open spec fn poll_gate_spec(self, ch: StopChannel) -> ShutdownGate {
        ShutdownGate { resolved: self.resolved || ch.queued || ch.closed }
    }

    /// The channel after one poll: an unresolved gate consumes the queued
    /// signal; a resolved gate no longer reads the channel.
    pub open spec fn poll_channel_spec(self, ch: StopChannel) -> StopChannel {
        StopChannel { queued: ch.queued && self.resolved, closed: ch.closed }
    }

    /// Poll the shutdown gate once against the channel. Returns whether it
    /// resolved on this poll; a gate that is already resolved never fires
    /// again and leaves the channel alone.
    pub fn poll(&mut self, ch: &mut StopChannel) -> (fired: bool)
        ensures
            fired == old(self).poll_fires_spec(*old(ch)),
            *final(self) == old(self).poll_gate_spec(*old(ch)),
            *final(ch) == old(self).poll_channel_spec(*old(ch)),
    {
        if self.resolved {
            false
        } else if ch.queued {
            ch.queued = false;
            self.resolved = true;
            true
        } else if ch.closed {
            self.resolved = true;
            true
        } else {
            false
        }
    }
}

/// One step of the whole signal path: either the service manager delivers a
/// control event to the handler, or the shutdown-gate task polls its receive end.
#[derive(Clone, Copy, Debug, PartialEq, Eq)]
pub enum SystemOp {
    Deliver(ControlEvent),
    PollGate,
}

/// The state of the whole signal path, together with a count of how many
/// polls have fired; the count is what "resolves at most once" is stated
/// over.
pub struct SystemModel {
    pub channel: StopChannel,
    pub gate: ShutdownGate,
    pub fired_count: int,
}

/// The signal path at service start: empty open channel, unresolved gate,
/// nothing fired.
pub open spec fn initial_system_spec() -> SystemModel {
    SystemModel {
        channel: StopChannel { queued: false, closed: false },
        gate: ShutdownGate { resolved: false },
        fired_count: 0,
    }
}

/// One step of the signal path model.
pub open spec fn system_step_spec(s: SystemModel, op: SystemOp) -> SystemModel {
    match op {
        SystemOp::Deliver(e) => SystemModel {
            channel: handler_channel_spec(e, s.channel),
            gate: s.gate,
            fired_count: s.fired_count,
        },
        SystemOp::PollGate => SystemModel {
            channel: s.gate.poll_channel_spec(s.channel),
            gate: s.gate.poll_gate_spec(s.channel),
            fired_count: s.fired_count
                + if s.gate.poll_fires_spec(s.channel) { 1int } else { 0int },
        },
    }
}

/// The signal path after a whole sequence of deliveries and polls.
pub open spec fn system_run_spec(s: SystemModel, ops: Seq<SystemOp>) -> SystemModel
    decreases ops.len(),
{
    if ops.len() == 0 {
        s
    } else {
        system_run_spec(system_step_spec(s, ops[0]), ops.skip(1))
    }
}

/// The invariant tying the fired count to the shutdown gate, which has fired
/// exactly once when it is resolved and never otherwise.
pub open spec fn system_inv(s: SystemModel) -> bool {
    s.fired_count == if s.gate.resolved { 1int } else { 0int }
}

/// No premature shutdown: as long as every delivered event is something
/// other than a stop request and the receiver stays alive, any number of
/// deliveries and polls leaves the channel empty, the shutdown gate unresolved, and
/// nothing fired.
pub proof fn lemma_no_premature_shutdown(s: SystemModel, ops: Seq<SystemOp>)
    requires
        !s.channel.queued,
        !s.channel.closed,
        !s.gate.resolved,
        forall|i: int|
            0 <= i < ops.len() ==> (#[trigger] ops[i] matches SystemOp::Deliver(e) ==> !is_stop_request(e)),
    ensures
        system_run_spec(s, ops).channel == s.channel,
        !system_run_spec(s, ops).gate.resolved,
        system_run_spec(s, ops).fired_count == s.fired_count,
    decreases ops.len(),
{
    if ops.len() > 0 {
        assert(ops[0] matches SystemOp::Deliver(e) ==> !is_stop_request(e));
        let s1 = system_step_spec(s, ops[0]);
        assert(s1.channel == s.channel);
        lemma_no_premature_shutdown(s1, ops.skip(1));
    }
}

/// Idempotent shutdown: from any state satisfying the invariant, every
/// sequence of deliveries and polls preserves it, so the shutdown gate fires at most
/// once however many stop requests are delivered; and a resolved gate stays
/// resolved.
pub proof fn lemma_shutdown_at_most_once(s: SystemModel, ops: Seq<SystemOp>)
    requires
        system_inv(s),
    ensures
        system_inv(system_run_spec(s, ops)),
        system_run_spec(s, ops).fired_count <= 1,
        s.gate.resolved ==> system_run_spec(s, ops).gate.resolved,
    decreases ops.len(),
{
    if ops.len() > 0 {
        lemma_shutdown_at_most_once(system_step_spec(s, ops[0]), ops.skip(1));
    }
}

/// Idempotent shutdown from service start: whatever mix of control events
/// is delivered, at whatever points the shutdown-gate task polls, the
/// shutdown fires at most once.
pub proof fn lemma_shutdown_at_most_once_from_start(ops: Seq<SystemOp>)
    ensures
        system_run_spec(initial_system_spec(), ops).fired_count <= 1,
{
    lemma_shutdown_at_most_once(initial_system_spec(), ops);
}

/// A stop request that found the slot free resolves the shutdown gate: delivering it
/// and then polling fires it exactly then, bringing the fired count to
/// one.
pub proof fn lemma_accepted_stop_resolves_gate(s: SystemModel, e: ControlEvent)
    requires
        system_inv(s),
        !s.gate.resolved,
        !s.channel.queued,
        !s.channel.closed,
        is_stop_request(e),
    ensures
        ({
            let after = system_step_spec(system_step_spec(s, SystemOp::Deliver(e)), SystemOp::PollGate);
            after.gate.resolved && after.fired_count == 1 && !after.channel.queued
        }),
{
}

} // verus!

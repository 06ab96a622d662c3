//! The service control handler and the single-slot stop channel.
//!
//! The OS service manager delivers discrete control events on its own thread;
//! the only side effect a handler may have is a non-blocking attempt to post a
//! stop signal onto a capacity-one channel whose receiving half drives the
//! shutdown gate. `StopChannel` is the verified model of that channel, and
//! `handle_control` is the handler's full decision logic over it. The handler
//! that posts onto a live runtime channel is `handle_control_event`.

use vstd::prelude::*;

verus! {

/// The custom user-defined control code that requests a graceful stop, by
/// convention layered on top of the standard code space.
pub const GRACEFUL_STOP_CODE: u32 = 130;

/// The handler-level code acknowledged when a stop signal could not be posted
/// (the channel was already full or its receiver had exited); both conditions
/// are benign and must not crash the handler.
pub const SEND_REFUSED_CODE: u32 = 1;

/// A discrete control request delivered by the service manager.
#[derive(Clone, Copy, Debug, PartialEq, Eq)]
pub enum ControlEvent {
    /// A liveness probe; acknowledged with "no error" and has no effect.
    Interrogate,
    /// The standard stop request.
    Stop,
    /// A user-defined code; only `GRACEFUL_STOP_CODE` is mapped to a stop.
    UserEvent(u32),
    /// Any control code this service does not handle.
    Unsupported,
}

/// The acknowledgment the control handler returns to the service manager.
#[derive(Clone, Copy, Debug, PartialEq, Eq)]
pub enum HandlerResult {
    NoError,
    NotImplemented,
    Other(u32),
}

/// The outcome of one non-blocking send attempt on the stop channel.
#[derive(Clone, Copy, Debug, PartialEq, Eq)]
pub enum ChannelOutcome {
    /// The signal was posted into the free slot.
    Accepted,
    /// The slot was already occupied: a stop is already pending.
    Full,
    /// The receiving half is gone: the consumer already exited.
    Closed,
}

/// Does this event request a stop? Exactly `Stop` and the graceful-stop
/// user code do; everything else must leave the channel untouched.
pub open spec fn is_stop_request(e: ControlEvent) -> bool {
    match e {
        ControlEvent::Stop => true,
        ControlEvent::UserEvent(code) => code == GRACEFUL_STOP_CODE,
        _ => false,
    }
}

/// Model of the capacity-one stop channel: at most one signal is queued, and
/// the channel is closed once the receiving half is dropped.
#[derive(Clone, Copy, Debug, PartialEq, Eq)]
pub struct StopChannel {
    /// A stop signal is sitting in the single slot, not yet consumed.
    pub queued: bool,
    /// The receiving half has been dropped.
    pub closed: bool,
}

impl StopChannel {
    /// What one non-blocking send attempt returns.
    pub open spec fn try_send_outcome_spec(self) -> ChannelOutcome {
        if self.closed {
            ChannelOutcome::Closed
        } else if self.queued {
            ChannelOutcome::Full
        } else {
            ChannelOutcome::Accepted
        }
    }

    /// The channel after one non-blocking send attempt: only an accepted send
    /// changes anything, and it fills the slot.
    pub open spec fn try_send_channel_spec(self) -> StopChannel {
        if self.closed || self.queued {
            self
        } else {
            StopChannel { queued: true, closed: self.closed }
        }
    }

    /// A fresh channel: empty slot, receiver alive.
    pub fn new() -> (c: StopChannel)
        ensures
            !c.queued,
            !c.closed,
    {
        StopChannel { queued: false, closed: false }
    }

    /// Attempt a non-blocking send of the stop signal.
    pub fn try_send(&mut self) -> (r: ChannelOutcome)
        ensures
            r == old(self).try_send_outcome_spec(),
            *final(self) == old(self).try_send_channel_spec(),
    {
        if self.closed {
            ChannelOutcome::Closed
        } else if self.queued {
            ChannelOutcome::Full
        } else {
            self.queued = true;
            ChannelOutcome::Accepted
        }
    }

    /// Drop the receiving half: the channel is closed from then on.
    pub fn close(&mut self)
        ensures
            final(self).closed,
            final(self).queued == old(self).queued,
    {
        self.closed = true;
    }
}

/// The acknowledgment owed for a send attempt's outcome: an accepted send is
/// "no error"; a full or closed channel is reported as the benign
/// handler-level `Other(SEND_REFUSED_CODE)`.
pub open spec fn ack_for_outcome_spec(o: ChannelOutcome) -> HandlerResult {
    match o {
        ChannelOutcome::Accepted => HandlerResult::NoError,
        ChannelOutcome::Full => HandlerResult::Other(SEND_REFUSED_CODE),
        ChannelOutcome::Closed => HandlerResult::Other(SEND_REFUSED_CODE),
    }
}

/// The acknowledgment owed for an event that requests no stop: probes and
/// unmapped user codes are accepted with "no error", while an unsupported
/// control code is explicitly acknowledged as "not implemented".
pub open spec fn plain_ack_spec(e: ControlEvent) -> HandlerResult {
    match e {
        ControlEvent::Interrogate => HandlerResult::NoError,
        ControlEvent::Stop => HandlerResult::NoError,
        ControlEvent::UserEvent(_) => HandlerResult::NoError,
        ControlEvent::Unsupported => HandlerResult::NotImplemented,
    }
}

/// The acknowledgment the handler returns for `e` against channel state `ch`.
pub open spec fn handler_ack_spec(e: ControlEvent, ch: StopChannel) -> HandlerResult {
    if is_stop_request(e) {
        ack_for_outcome_spec(ch.try_send_outcome_spec())
    } else {
        plain_ack_spec(e)
    }
}

/// The channel after the handler has processed `e`: only a stop request
/// touches it.
pub open spec fn handler_channel_spec(e: ControlEvent, ch: StopChannel) -> StopChannel {
    if is_stop_request(e) {
        ch.try_send_channel_spec()
    } else {
        ch
    }
}

/// Turn a send attempt's outcome into the handler's acknowledgment.
pub fn ack_for_outcome(o: ChannelOutcome) -> (r: HandlerResult)
    ensures
        r == ack_for_outcome_spec(o),
{
    match o {
        ChannelOutcome::Accepted => HandlerResult::NoError,
        ChannelOutcome::Full => HandlerResult::Other(SEND_REFUSED_CODE),
        ChannelOutcome::Closed => HandlerResult::Other(SEND_REFUSED_CODE),
    }
}

/// An event that requests no stop has no effect at all: the handler's only
/// side effect is the channel send, and for probes, unmapped user codes and
/// unsupported codes the channel is left exactly as it was — in particular
/// no signal is posted, so nothing downstream (gate, reported status) can
/// change on their account.
pub proof fn lemma_non_stop_event_has_no_effect(e: ControlEvent, ch: StopChannel)
    requires
        !is_stop_request(e),
    ensures
        handler_channel_spec(e, ch) == ch,
        handler_ack_spec(e, ch) == plain_ack_spec(e),
{
}

#[verifier::external_type_specification]
#[verifier::external_body]
#[verifier::reject_recursive_types(T)]
pub struct ExSender<T>(tokio::sync::mpsc::Sender<T>);

/// Relies on tokio's `mpsc::Sender::try_send`: the attempt never blocks; it
/// is accepted when the bounded channel has a free slot, refused as full
/// when it has none, and refused as closed when the receiving half is gone.
/// Which of the three happens depends on the live state of the channel, so
/// nothing is promised of the outcome.
#[verifier::external_body]
fn try_send_stop(tx: &tokio::sync::mpsc::Sender<()>) -> (r: ChannelOutcome) {
    match tx.try_send(()) {
        Ok(()) => ChannelOutcome::Accepted,
        Err(tokio::sync::mpsc::error::TrySendError::Full(())) => ChannelOutcome::Full,
        Err(tokio::sync::mpsc::error::TrySendError::Closed(())) => ChannelOutcome::Closed,
    }
}

/// The control handler against the live runtime channel whose receiving half
/// drives the shutdown gate. A stop request attempts one non-blocking send
/// and acknowledges whatever outcome came back; every other event is
/// acknowledged without touching the channel.
pub fn handle_control_event(e: ControlEvent, tx: &tokio::sync::mpsc::Sender<()>) -> (r: HandlerResult)
    ensures
        !is_stop_request(e) ==> r == plain_ack_spec(e),
        is_stop_request(e) ==> (r == HandlerResult::NoError || r == HandlerResult::Other(
            SEND_REFUSED_CODE,
        )),
{
    match e {
        ControlEvent::Interrogate => HandlerResult::NoError,
        ControlEvent::Stop => ack_for_outcome(try_send_stop(tx)),
        ControlEvent::UserEvent(code) => {
            if code == GRACEFUL_STOP_CODE {
                ack_for_outcome(try_send_stop(tx))
            } else {
                HandlerResult::NoError
            }
        },
        ControlEvent::Unsupported => HandlerResult::NotImplemented,
    }
}

/// The control handler's complete decision logic over the channel model:
/// stop requests attempt one non-blocking send and acknowledge its outcome;
/// every other event leaves the channel exactly as it was.
pub fn handle_control(e: ControlEvent, ch: &mut StopChannel) -> (r: HandlerResult)
    ensures
        r == handler_ack_spec(e, *old(ch)),
        *final(ch) == handler_channel_spec(e, *old(ch)),
{
    match e {
        ControlEvent::Interrogate => HandlerResult::NoError,
        ControlEvent::Stop => {
            let outcome = ch.try_send();
            ack_for_outcome(outcome)
        },
        ControlEvent::UserEvent(code) => {
            if code == GRACEFUL_STOP_CODE {
                let outcome = ch.try_send();
                ack_for_outcome(outcome)
            } else {
                HandlerResult::NoError
            }
        },
        ControlEvent::Unsupported => HandlerResult::NotImplemented,
    }
}

} // verus!

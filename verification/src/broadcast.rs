//! Fan-out of published control states to any number of subscribers, and
//! the per-consumer streaming-session decisions.
//!
//! The distribution primitive is a broadcast channel of capacity 1: the
//! publisher never blocks and never fails, a subscription observes only
//! states published after it was created, and a slow subscriber skips
//! stale undelivered values in favor of the newest one (latest-state-wins).

use vstd::prelude::*;
use crate::state::{ControlState, spec_encode};
use crate::translate::{RawInputEvent, spec_translate, translate};

verus! {

#[verifier::external_type_specification]
#[verifier::external_body]
#[verifier::reject_recursive_types(T)]
pub struct ExSender<T>(tokio::sync::broadcast::Sender<T>);

#[verifier::external_type_specification]
#[verifier::external_body]
#[verifier::reject_recursive_types(T)]
pub struct ExReceiver<T>(tokio::sync::broadcast::Receiver<T>);

/// Distributes each published state to every live subscription; with none,
/// the state is simply dropped.
pub struct Broadcaster {
    tx: tokio::sync::broadcast::Sender<ControlState>,
}

/// A handle entitling one consumer to every state published after the
/// handle was created. It owns no part of the broadcaster; dropping it
/// merely ends the consumer's interest.
pub struct Subscription {
    /// The underlying receiver; exposed so that an asynchronous session
    /// can await the next value on it.
    pub rx: tokio::sync::broadcast::Receiver<ControlState>,
}

/// What polling a subscription yields: the next published state, nothing
/// yet, notice that older undelivered states were skipped, or notice that
/// the broadcaster is gone.
#[derive(Clone, Copy, Debug, PartialEq, Eq, Structural)]
pub enum RecvOutcome {
    /// The next state published after this subscription was created.
    Value(ControlState),
    /// No state is waiting right now; more may come.
    Empty,
    /// The given number of undelivered states were dropped in favor of
    /// newer ones; the subscription is still live.
    Lagged(u64),
    /// The broadcaster has been torn down; no further state will come.
    Closed,
}

/// What a streaming session does with one polled outcome: forward a
/// message, wait for the next value, or end the session.
#[derive(Debug)]
pub enum SessionStep {
    /// Forward this message to the consumer and keep going.
    Send(String),
    /// Nothing to forward; keep the subscription and keep going.
    Skip,
    /// End the session and release the subscription.
    Stop,
}

impl Broadcaster {
    /// Relies on `tokio::sync::broadcast::channel`: creates a channel whose
    /// sender never blocks; capacity 1 keeps only the newest undelivered
    /// value per subscriber. The initial receiver is dropped, so the
    /// channel starts with zero subscriptions.
    #[verifier::external_body]
    fn new_channel() -> Broadcaster {
        let (tx, _rx) = tokio::sync::broadcast::channel(1);
        Broadcaster { tx }
    }

    /// Relies on `tokio::sync::broadcast::Sender::send`: never blocks and
    /// never panics; queues the value for every live receiver and returns
    /// their count, or fails — only — when there is no receiver, in which
    /// case the value is dropped.
    #[verifier::external_body]
    fn send_state(&self, state: ControlState) -> usize {
        match self.tx.send(state) {
            Ok(receivers) => receivers,
            Err(_) => 0,
        }
    }

    /// Relies on `tokio::sync::broadcast::Sender::subscribe`: the new
    /// receiver observes only values sent after this call, never earlier
    /// ones.
    #[verifier::external_body]
    fn subscribe_channel(&self) -> Subscription {
        Subscription { rx: self.tx.subscribe() }
    }

    /// Publishes a state to every live subscription and reports how many
    /// there were. With zero subscriptions the state is dropped: the call
    /// still returns normally, with 0.
    pub fn publish(&self, state: ControlState) -> (receivers: usize) {
        self.send_state(state)
    }

    /// Registers a new consumer. The subscription sees only states
    /// published after this call.
    pub fn subscribe(&self) -> (s: Subscription) {
        self.subscribe_channel()
    }
}

/// Creates the broadcaster together with the all-zero state every run
/// starts from.
pub fn start_bridge() -> (r: (Broadcaster, ControlState))
    ensures
        r.1 == (ControlState { left: 0, right: 0, mower: 0 }),
        r.1.wf(),
{
    (Broadcaster::new_channel(), ControlState::init())
}

/// One step of the polling loop: translate the event against the current
/// state and publish the result, whether or not it differs from the
/// previous value. Returns the new current state.
pub fn run_step(b: &Broadcaster, current: ControlState, event: RawInputEvent) -> (next: ControlState)
    ensures
        next == spec_translate(event, current),
        current.wf() ==> next.wf(),
{
    let next = translate(event, current);
    let _receivers: usize = b.publish(next);
    next
}

/// One decision of a streaming session, given what its subscription
/// yielded: forward the encoded state, wait for the next one (nothing yet,
/// or older values were skipped for newer ones), or end the session once
/// the broadcaster is gone. A state outside the valid range — which the
/// bridge never publishes — is not forwarded.
pub fn session_decide(outcome: RecvOutcome) -> (r: SessionStep)
    ensures
        match outcome {
            RecvOutcome::Value(v) => {
                if v.wf() {
                    r is Send && r->Send_0@ == spec_encode(v)
                } else {
                    r is Skip
                }
            },
            RecvOutcome::Empty => r is Skip,
            RecvOutcome::Lagged(_) => r is Skip,
            RecvOutcome::Closed => r is Stop,
        },
{
    match outcome {
        RecvOutcome::Value(v) => {
            if v.left <= 99 && v.right <= 99 && (v.mower == 0 || v.mower == 99) {
                SessionStep::Send(v.encode())
            } else {
                SessionStep::Skip
            }
        },
        RecvOutcome::Empty => SessionStep::Skip,
        RecvOutcome::Lagged(_) => SessionStep::Skip,
        RecvOutcome::Closed => SessionStep::Stop,
    }
}

impl Subscription {
    /// Relies on `tokio::sync::broadcast::Receiver::try_recv`: returns the
    /// oldest value still undelivered to this receiver, or says that none
    /// is waiting, that older values were skipped for newer ones, or that
    /// the channel is closed. Never blocks and never panics.
    #[verifier::external_body]
    fn try_recv_raw(&mut self) -> RecvOutcome {
        match self.rx.try_recv() {
            Ok(v) => RecvOutcome::Value(v),
            Err(tokio::sync::broadcast::error::TryRecvError::Empty) => RecvOutcome::Empty,
            Err(tokio::sync::broadcast::error::TryRecvError::Lagged(n)) => RecvOutcome::Lagged(n),
            Err(tokio::sync::broadcast::error::TryRecvError::Closed) => RecvOutcome::Closed,
        }
    }

    /// Polls the subscription without blocking.
    pub fn try_next(&mut self) -> (r: RecvOutcome) {
        self.try_recv_raw()
    }

    /// Polls the subscription and returns the message a session would
    /// forward for what arrived, if any. Every message returned is the
    /// canonical encoding of some well-formed state.
    pub fn poll_message(&mut self) -> (r: Option<String>)
        ensures
            r matches Some(m) ==> exists|v: ControlState| v.wf() && m@ == spec_encode(v),
    {
        let outcome = self.try_recv_raw();
        let step = session_decide(outcome);
        match step {
            SessionStep::Send(m) => {
                proof {
                    let v = outcome->Value_0;
                    assert(v.wf() && m@ == spec_encode(v));
                }
                Some(m)
            },
            SessionStep::Skip => None,
            SessionStep::Stop => None,
        }
    }
}

} // verus!

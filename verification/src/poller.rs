//! Completion poller: the recurring, non-blocking routine that drains
//! completed I/O from a channel's poll group and triggers reconnection when
//! the transport reports the queue pair as disconnected.

use vstd::prelude::*;

use crate::channel::{DriverCall, NvmeIoChannel};

verus! {

/// What one poll of the poll group observed, as reported by the driver's
/// completion processing.
pub struct PollEvent {
    /// Number of completions the driver drained in this pass.
    pub num_completions: i64,
    /// The transport reported the channel's queue pair as disconnected.
    pub qpair_disconnected: bool,
}

/// Decision taken when the transport reports a queue pair as disconnected:
/// reconnect that pair, in place, with no other bookkeeping.  Reconnection is
/// attempted on every disconnect observation; an explicit reset elsewhere
/// supersedes it and silences further disconnect reports for the pair.
pub fn disconnected_qpair_cb(qpair: u64) -> (c: DriverCall)
    ensures
        c == DriverCall::ReconnectQpair(qpair),
{
    DriverCall::ReconnectQpair(qpair)
}

/// One poller invocation over a channel.
///
/// Returns the work indicator for the run loop - `1` when any completion was
/// processed, `0` otherwise - and the driver calls to issue: exactly one
/// reconnect of the channel's own queue pair when this invocation observed a
/// disconnect, and none otherwise.  The channel is only read: a poll never
/// allocates, releases or replaces a handle.  A slot with no established
/// channel is an internal-consistency error; the invocation is skipped
/// rather than acted on.
pub fn nvme_poll(channel: &NvmeIoChannel, event: &PollEvent) -> (r: (i32, Vec<DriverCall>))
    ensures
        channel.inner is None ==> r.0 == 0 && r.1@ =~= Seq::<DriverCall>::empty(),
        channel.inner matches Some(i) ==> ({
            &&& r.0 == if event.num_completions > 0 { 1int } else { 0int }
            &&& (event.qpair_disconnected ==> r.1@ =~= seq![DriverCall::ReconnectQpair(i.qpair)])
            &&& (!event.qpair_disconnected ==> r.1@ =~= Seq::<DriverCall>::empty())
        }),
{
    let inner = match channel.inner_from_channel() {
        None => {
            return (0, Vec::new());
        },
        Some(i) => i,
    };

    let mut calls: Vec<DriverCall> = Vec::new();
    if event.qpair_disconnected {
        calls.push(disconnected_qpair_cb(inner.qpair));
    }

    if event.num_completions > 0 {
        (1, calls)
    } else {
        (0, calls)
    }
}

/// Lifecycle of a queue pair as this subsystem observes it.
#[derive(Clone, Copy, Debug, PartialEq, Eq, Structural)]
pub enum QpairState {
    /// Allocated create-only; not yet connected.
    Created,
    /// Connected and serving I/O.
    Connected,
    /// The transport reported a disconnect.
    Disconnected,
    /// A reconnect was issued and has not completed yet.
    Reconnecting,
    /// Released; terminal.
    Destroyed,
}

/// Transitions a queue pair can take.
#[derive(Clone, Copy, Debug, PartialEq, Eq, Structural)]
pub enum QpairEvent {
    /// The pair was connected to its controller.
    Connect,
    /// A poll observed the transport disconnect.
    DisconnectObserved,
    /// The poller issued a reconnect.
    ReconnectIssued,
    /// The driver completed the reconnect.
    ReconnectDone,
    /// The channel owning the pair was destroyed.
    Destroy,
}

/// The queue-pair state machine:
/// created, then connected, then around the disconnect/reconnect loop, until
/// destroyed.  `Destroyed` is terminal and is reached only by the explicit
/// destroy event, never from within polling.
pub fn qpair_next_state(s: QpairState, ev: QpairEvent) -> (n: QpairState)
    ensures
        n == spec_qpair_next_state(s, ev),
        s is Destroyed ==> n is Destroyed,
        n is Destroyed <==> (s is Destroyed || ev is Destroy),
{
    match (s, ev) {
        (QpairState::Destroyed, _) => QpairState::Destroyed,
        (_, QpairEvent::Destroy) => QpairState::Destroyed,
        (QpairState::Created, QpairEvent::Connect) => QpairState::Connected,
        (QpairState::Connected, QpairEvent::DisconnectObserved) => QpairState::Disconnected,
        (QpairState::Disconnected, QpairEvent::ReconnectIssued) => QpairState::Reconnecting,
        (QpairState::Reconnecting, QpairEvent::ReconnectDone) => QpairState::Connected,
        (_, _) => s,
    }
}

/// The transition relation of the queue-pair state machine.
pub open spec fn spec_qpair_next_state(s: QpairState, ev: QpairEvent) -> QpairState {
    match (s, ev) {
        (QpairState::Destroyed, _) => QpairState::Destroyed,
        (_, QpairEvent::Destroy) => QpairState::Destroyed,
        (QpairState::Created, QpairEvent::Connect) => QpairState::Connected,
        (QpairState::Connected, QpairEvent::DisconnectObserved) => QpairState::Disconnected,
        (QpairState::Disconnected, QpairEvent::ReconnectIssued) => QpairState::Reconnecting,
        (QpairState::Reconnecting, QpairEvent::ReconnectDone) => QpairState::Connected,
        (_, _) => s,
    }
}

} // verus!

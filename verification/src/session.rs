//! The subscription manager and the connection supervisor.
//!
//! Both are pure state machines.  The unverified shell owns the mutable
//! cell holding the active instrument and the reconnect loop; every
//! decision it takes goes through the functions here.  A switch request is
//! decided by [`switch_step`] inside one critical section on the cell, so
//! a concurrent reconnect never observes a half-switched state.

use vstd::prelude::*;
use crate::catalog::TradePair;
use crate::catalog::spec_ws_name;
use crate::wire::{
    spec_sub_msg, spec_unsub_msg, spec_notify_switching, spec_notify_reconnecting, sub_message,
    unsub_message, notify_switching, notify_reconnecting, WireDialect,
};

verus! {

/// What an accepted or ignored switch request demands.
#[derive(Debug)]
pub struct SwitchOutcome {
    /// The instrument that is active after the request.
    pub active: TradePair,
    /// Control messages to enqueue, in order.
    pub to_send: Vec<Vec<u8>>,
    /// Notification to show the user, if any.
    pub notify: Option<Vec<u8>>,
}

/// The mathematical shadow of [`SwitchOutcome`].
pub struct SwitchModel {
    pub active: TradePair,
    pub to_send: Seq<Seq<u8>>,
    pub notify: Option<Seq<u8>>,
}

impl View for SwitchOutcome {
    type V = SwitchModel;

    open spec fn view(&self) -> SwitchModel {
        SwitchModel {
            active: self.active,
            to_send: Seq::new(self.to_send@.len(), |i: int| self.to_send@[i]@),
            notify: match self.notify {
                Some(v) => Some(v@),
                None => None,
            },
        }
    }
}

/// What a switch request demands: nothing when the requested instrument is
/// already active; otherwise one unsubscribe for the old instrument
/// followed by one subscribe for the new one, the new active instrument,
/// and a switch notification.
pub open spec fn spec_switch(d: WireDialect, current: TradePair, requested: TradePair) -> SwitchModel {
    if requested == current {
        SwitchModel { active: current, to_send: Seq::empty(), notify: None }
    } else {
        SwitchModel {
            active: requested,
            to_send: seq![
                spec_unsub_msg(d, spec_ws_name(current)),
                spec_sub_msg(d, spec_ws_name(requested)),
            ],
            notify: Some(spec_notify_switching()),
        }
    }
}

/// Decides one switch request.  The caller must hold the lock on the
/// active-instrument cell for the whole of the call and for the enqueueing
/// of the returned messages, and must store `active` back into the cell,
/// so that a concurrent reconnect reads either the old or the new
/// instrument, never a half-switched state.
pub fn switch_step(d: WireDialect, current: TradePair, requested: TradePair) -> (r: SwitchOutcome)
    ensures
        r@ == spec_switch(d, current, requested),
{
    if requested == current {
        let r = SwitchOutcome { active: current, to_send: Vec::new(), notify: None };
        assert(r@.to_send =~= spec_switch(d, current, requested).to_send);
        r
    } else {
        let mut to_send: Vec<Vec<u8>> = Vec::new();
        to_send.push(unsub_message(d, current));
        to_send.push(sub_message(d, requested));
        let r = SwitchOutcome { active: requested, to_send, notify: Some(notify_switching()) };
        assert(r@.to_send =~= spec_switch(d, current, requested).to_send);
        r
    }
}

/// Law: switching to the instrument that is already active is a no-op:
/// no message is sent and no notification is shown.
pub proof fn lemma_switch_same_is_noop(d: WireDialect, p: TradePair)
    ensures
        spec_switch(d, p, p).active == p,
        spec_switch(d, p, p).to_send.len() == 0,
        spec_switch(d, p, p).notify is None,
{
}

/// Law: switching to a different instrument sends exactly one unsubscribe
/// for the old instrument followed by one subscribe for the new one, and
/// makes the requested instrument the active one.
pub proof fn lemma_switch_order(d: WireDialect, current: TradePair, requested: TradePair)
    requires
        current != requested,
    ensures
        spec_switch(d, current, requested).to_send =~= seq![
            spec_unsub_msg(d, spec_ws_name(current)),
            spec_sub_msg(d, spec_ws_name(requested)),
        ],
        spec_switch(d, current, requested).active == requested,
        spec_switch(d, current, requested).notify == Some(spec_notify_switching()),
{
}

/// The states of one supervised connection.
#[derive(Debug, Clone, Copy, PartialEq, Eq, Structural)]
pub enum ConnState {
    /// Tunnel and handshake are being attempted.
    Connecting,
    /// The read and write loops are running.
    Active,
    /// The last attempt is over; a retry is owed.
    Disconnected,
}

/// What the supervisor observes.
#[derive(Debug, Clone, Copy, PartialEq, Eq, Structural)]
pub enum ConnEvent {
    /// Tunnel and handshake both succeeded.
    Established,
    /// Tunnel or handshake failed, including a malformed proxy string.
    ConnectFailed,
    /// The read loop or the write loop ended.
    LinkEnded,
    /// The unconditional retry fires.
    Retry,
}

/// What one supervisor transition demands.
#[derive(Debug)]
pub struct SupervisorStep {
    /// The state after the transition.
    pub next: ConnState,
    /// Notification to show the user, if any.
    pub notify: Option<Vec<u8>>,
}

/// The supervisor's transition relation.  An event that cannot occur in a
/// state leaves the state unchanged and demands nothing.
pub open spec fn spec_supervisor(s: ConnState, e: ConnEvent) -> (ConnState, Option<Seq<u8>>) {
    match (s, e) {
        (ConnState::Connecting, ConnEvent::Established) => (ConnState::Active, None),
        (ConnState::Connecting, ConnEvent::ConnectFailed) => (ConnState::Disconnected, None),
        (ConnState::Active, ConnEvent::LinkEnded) => (ConnState::Disconnected, None),
        (ConnState::Disconnected, ConnEvent::Retry) => (
            ConnState::Connecting,
            Some(spec_notify_reconnecting()),
        ),
        (s, _) => (s, None),
    }
}

/// Runs one supervisor transition.
pub fn supervisor_step(s: ConnState, e: ConnEvent) -> (r: SupervisorStep)
    ensures
        r.next == spec_supervisor(s, e).0,
        match r.notify {
            Some(v) => spec_supervisor(s, e).1 == Some(v@),
            None => spec_supervisor(s, e).1 is None,
        },
{
    match (s, e) {
        (ConnState::Connecting, ConnEvent::Established) => SupervisorStep {
            next: ConnState::Active,
            notify: None,
        },
        (ConnState::Connecting, ConnEvent::ConnectFailed) => SupervisorStep {
            next: ConnState::Disconnected,
            notify: None,
        },
        (ConnState::Active, ConnEvent::LinkEnded) => SupervisorStep {
            next: ConnState::Disconnected,
            notify: None,
        },
        (ConnState::Disconnected, ConnEvent::Retry) => SupervisorStep {
            next: ConnState::Connecting,
            notify: Some(notify_reconnecting()),
        },
        (s, _) => SupervisorStep { next: s, notify: None },
    }
}

/// Law: when the link ends while a connection is active the supervisor
/// falls to the disconnected state, and the retry from there announces the
/// reconnect and starts a fresh connecting attempt.  No state is terminal.
pub proof fn lemma_link_end_leads_to_reconnect()
    ensures
        spec_supervisor(ConnState::Active, ConnEvent::LinkEnded).0 == ConnState::Disconnected,
        spec_supervisor(ConnState::Disconnected, ConnEvent::Retry).0 == ConnState::Connecting,
        spec_supervisor(ConnState::Disconnected, ConnEvent::Retry).1 == Some(
            spec_notify_reconnecting(),
        ),
{
}

/// Law: a failed connection attempt is not fatal either: it falls to the
/// disconnected state, from which the retry starts a fresh attempt.
pub proof fn lemma_connect_failure_retries()
    ensures
        spec_supervisor(ConnState::Connecting, ConnEvent::ConnectFailed).0
            == ConnState::Disconnected,
        spec_supervisor(ConnState::Disconnected, ConnEvent::Retry).0 == ConnState::Connecting,
{
}

} // verus!

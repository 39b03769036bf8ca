use vstd::prelude::*;

verus! {

/// The state of a WebRTC peer connection, as the transport reports it.
#[derive(PartialEq, Eq, Structural, Clone, Copy, Debug)]
pub enum ConnectionState {
    Unspecified,
    New,
    Connecting,
    Connected,
    Disconnected,
    Failed,
    Closed,
}

/// Watches a peer connection's state changes and raises the one-shot
/// disconnect signal on the first transition to `Failed`.
pub struct FailureObserver {
    fired: bool,
}

impl FailureObserver {
    pub closed spec fn fired_spec(&self) -> bool {
        self.fired
    }

    /// An observer that has not signalled yet.
    pub fn new() -> (r: FailureObserver)
        ensures
            !r.fired_spec(),
    {
        FailureObserver { fired: false }
    }

    /// Called on every state transition; returns whether to send the disconnect signal now.
    /// `Disconnected` is tolerated: the connection may recover by itself.
    pub fn on_state_change(&mut self, state: ConnectionState) -> (signal: bool)
        ensures
            signal == (state == ConnectionState::Failed && !old(self).fired_spec()),
            final(self).fired_spec() == (old(self).fired_spec() || state == ConnectionState::Failed),
    {
        if state == ConnectionState::Failed && !self.fired {
            self.fired = true;
            true
        } else {
            false
        }
    }
}

/// What the RTCP drain task is woken by.
#[derive(PartialEq, Eq, Structural, Clone, Copy, Debug)]
pub enum DrainEvent {
    /// An RTCP packet was read from the sender (and passed through the interceptors).
    Rtcp,
    /// The disconnect signal fired.
    Disconnect,
}

/// What the RTCP drain task does next.
#[derive(PartialEq, Eq, Structural, Clone, Copy, Debug)]
pub enum DrainAction {
    /// Discard the packet and read the next one.
    KeepReading,
    /// Stop the sender, then exit.
    StopSenderAndExit,
    /// The task has already finished: do nothing.
    Exit,
}

/// The background task that drains a sender's RTCP feedback until the session ends.
pub struct DrainTask {
    stopped: bool,
}

impl DrainTask {
    pub closed spec fn stopped_spec(&self) -> bool {
        self.stopped
    }

    /// A running drain task.
    pub fn new() -> (r: DrainTask)
        ensures
            !r.stopped_spec(),
    {
        DrainTask { stopped: false }
    }

    /// Decides what to do on `event`; the sender is stopped on the first disconnect only.
    pub fn on_event(&mut self, event: DrainEvent) -> (r: DrainAction)
        ensures
            r == drain_action(old(self).stopped_spec(), event),
            final(self).stopped_spec() == (old(self).stopped_spec() || event == DrainEvent::Disconnect),
    {
        if self.stopped {
            DrainAction::Exit
        } else if event == DrainEvent::Disconnect {
            self.stopped = true;
            DrainAction::StopSenderAndExit
        } else {
            DrainAction::KeepReading
        }
    }
}

/// The drain task's action on `event`, once stopped or not.
pub open spec fn drain_action(stopped: bool, event: DrainEvent) -> DrainAction {
    if stopped {
        DrainAction::Exit
    } else if event == DrainEvent::Disconnect {
        DrainAction::StopSenderAndExit
    } else {
        DrainAction::KeepReading
    }
}

/// How many disconnect signals an observer sends over `states`, starting `fired` or not.
pub open spec fn signals_sent(fired: bool, states: Seq<ConnectionState>) -> nat
    decreases states.len(),
{
    if states.len() == 0 {
        0
    } else {
        let now = states[0] == ConnectionState::Failed && !fired;
        (if now { 1nat } else { 0nat }) + signals_sent(
            fired || states[0] == ConnectionState::Failed,
            states.drop_first(),
        )
    }
}

/// How many times a drain task stops the sender over `events`, starting stopped or not.
pub open spec fn sender_stops(stopped: bool, events: Seq<DrainEvent>) -> nat
    decreases events.len(),
{
    if events.len() == 0 {
        0
    } else {
        (if drain_action(stopped, events[0]) == DrainAction::StopSenderAndExit {
            1nat
        } else {
            0nat
        }) + sender_stops(stopped || events[0] == DrainEvent::Disconnect, events.drop_first())
    }
}

/// A fresh observer sends the disconnect signal exactly once if the connection
/// ever fails, however often `Failed` is reported, and never otherwise; in
/// particular `Disconnected` alone never tears the session down.
pub proof fn lemma_signal_at_most_once(states: Seq<ConnectionState>)
    ensures
        signals_sent(false, states) == (if states.contains(ConnectionState::Failed) {
            1nat
        } else {
            0nat
        }),
    decreases states.len(),
{
    if states.len() > 0 {
        if states[0] == ConnectionState::Failed {
            lemma_no_signal_after_firing(states.drop_first());
            assert(states.contains(ConnectionState::Failed));
        } else {
            lemma_signal_at_most_once(states.drop_first());
            assert(states.contains(ConnectionState::Failed) == states.drop_first().contains(
                ConnectionState::Failed,
            )) by {
                if states.contains(ConnectionState::Failed) {
                    let k = choose|k: int| 0 <= k < states.len() && states[k] == ConnectionState::Failed;
                    assert(states.drop_first()[k - 1] == ConnectionState::Failed);
                }
                if states.drop_first().contains(ConnectionState::Failed) {
                    let k = choose|k: int|
                        0 <= k < states.drop_first().len() && states.drop_first()[k]
                            == ConnectionState::Failed;
                    assert(states[k + 1] == ConnectionState::Failed);
                }
            }
        }
    }
}

/// Once the signal has been sent, no further one is.
pub proof fn lemma_no_signal_after_firing(states: Seq<ConnectionState>)
    ensures
        signals_sent(true, states) == 0,
    decreases states.len(),
{
    if states.len() > 0 {
        lemma_no_signal_after_firing(states.drop_first());
    }
}

/// A running drain task stops its sender exactly once if a disconnect signal
/// ever arrives, however many arrive, and never otherwise.
pub proof fn lemma_sender_stopped_at_most_once(events: Seq<DrainEvent>)
    ensures
        sender_stops(false, events) == (if events.contains(DrainEvent::Disconnect) {
            1nat
        } else {
            0nat
        }),
    decreases events.len(),
{
    if events.len() > 0 {
        if events[0] == DrainEvent::Disconnect {
            lemma_no_stop_after_stopping(events.drop_first());
            assert(events.contains(DrainEvent::Disconnect));
        } else {
            lemma_sender_stopped_at_most_once(events.drop_first());
            assert(events.contains(DrainEvent::Disconnect) == events.drop_first().contains(
                DrainEvent::Disconnect,
            )) by {
                if events.contains(DrainEvent::Disconnect) {
                    let k = choose|k: int| 0 <= k < events.len() && events[k] == DrainEvent::Disconnect;
                    assert(events.drop_first()[k - 1] == DrainEvent::Disconnect);
                }
                if events.drop_first().contains(DrainEvent::Disconnect) {
                    let k = choose|k: int|
                        0 <= k < events.drop_first().len() && events.drop_first()[k]
                            == DrainEvent::Disconnect;
                    assert(events[k + 1] == DrainEvent::Disconnect);
                }
            }
        }
    }
}

/// Once stopped, a drain task never stops its sender again.
pub proof fn lemma_no_stop_after_stopping(events: Seq<DrainEvent>)
    ensures
        sender_stops(true, events) == 0,
    decreases events.len(),
{
    if events.len() > 0 {
        lemma_no_stop_after_stopping(events.drop_first());
    }
}

/// How many disconnect signals are among `events`.
pub open spec fn disconnects(events: Seq<DrainEvent>) -> nat
    decreases events.len(),
{
    if events.len() == 0 {
        0
    } else {
        (if events[0] == DrainEvent::Disconnect {
            1nat
        } else {
            0nat
        }) + disconnects(events.drop_first())
    }
}

/// A running drain task stops its sender once if any disconnect signal is among
/// `events`, wherever RTCP packets fall in between, and never otherwise.
proof fn lemma_stops_follow_disconnects(events: Seq<DrainEvent>)
    ensures
        sender_stops(false, events) == (if disconnects(events) > 0 {
            1nat
        } else {
            0nat
        }),
    decreases events.len(),
{
    if events.len() > 0 {
        if events[0] == DrainEvent::Disconnect {
            lemma_no_stop_after_stopping(events.drop_first());
        } else {
            lemma_stops_follow_disconnects(events.drop_first());
        }
    }
}

/// A peer session whose drain task receives one disconnect signal for each
/// signal that its observer sends, amid any RTCP traffic, has its sender stopped
/// exactly once if the connection ever fails, however often `Failed` is
/// reported, and never otherwise.
pub proof fn lemma_teardown_once(states: Seq<ConnectionState>, events: Seq<DrainEvent>)
    requires
        disconnects(events) == signals_sent(false, states),
    ensures
        sender_stops(false, events) == (if states.contains(ConnectionState::Failed) {
            1nat
        } else {
            0nat
        }),
{
    lemma_signal_at_most_once(states);
    lemma_stops_follow_disconnects(events);
}

} // verus!

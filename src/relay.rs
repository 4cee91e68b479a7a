//! The decisions of the progress relay.
//!
//! A relay thread drains the backend's progress reports and republishes
//! them: it stores the normalized value in the shared progress slot, sends
//! the consumer a signal that carries no data, pauses briefly, and goes back
//! to waiting, until the transfer ends or a channel or the slot fails.
//!
//! [`RelayState::step`] makes each of those decisions. The thread that runs
//! the relay performs the [`RelayAction`] it is handed and reports back what
//! happened as a [`RelayEvent`].
use vstd::prelude::*;

use crate::notification::{progress_of, ProgressNotification};
use crate::progress::RemoteProgress;

verus! {

/// Why a relay stopped.
#[derive(Clone, Copy, Debug, PartialEq, Eq, Structural)]
pub enum Termination {
    /// The transfer reported its end and the last value was relayed.
    Completed,
    /// The inbound channel closed before the transfer reported its end.
    InboundClosed,
    /// The progress slot's lock was poisoned by a holder that panicked.
    LockCorrupted,
    /// Nobody listens on the outbound channel any more.
    SignalSendFailure,
}

impl Termination {
    /// Whether this ending is a failure to report, rather than a normal close.
    pub open spec fn spec_is_fatal(self) -> bool {
        self is LockCorrupted || self is SignalSendFailure
    }

    /// Whether this ending is a failure to report, rather than a normal close.
    pub fn is_fatal(&self) -> (r: bool)
        ensures
            r == self.spec_is_fatal(),
    {
        match self {
            Termination::LockCorrupted => true,
            Termination::SignalSendFailure => true,
            _ => false,
        }
    }
}

/// What the thread running the relay is to do next.
#[derive(Clone, Copy, Debug, PartialEq, Eq, Structural)]
pub enum RelayAction {
    /// Block on the inbound channel for the next report.
    Receive,
    /// Replace the content of the progress slot with this value.
    Store(RemoteProgress),
    /// Send one update signal on the outbound channel.
    Signal,
    /// Wait a short, fixed time before going on.
    Pause,
    /// Leave the loop.
    Stop(Termination),
}

/// What came of the last action.
#[derive(Clone, Debug)]
pub enum RelayEvent {
    /// A report arrived on the inbound channel.
    Received(ProgressNotification),
    /// The inbound channel has no sender left.
    InboundClosed,
    /// The value is in the progress slot.
    Stored,
    /// The progress slot's lock was poisoned.
    StoreFailed,
    /// The signal was sent.
    Signalled,
    /// The outbound channel has no receiver left.
    SignalFailed,
    /// The pause is over.
    Paused,
}

/// Where the relay stands. `terminal` records whether the report being
/// relayed ends the transfer.
#[derive(Clone, Copy, Debug, PartialEq, Eq, Structural)]
pub enum RelayState {
    /// Waiting for the next report.
    Listening,
    /// A value was handed over for the progress slot.
    Updating { value: RemoteProgress, terminal: bool },
    /// The update signal was handed over for sending.
    Signalling { terminal: bool },
    /// Pacing between two updates.
    Pausing { terminal: bool },
    /// The relay has stopped for good.
    Terminated { reason: Termination },
}

impl RelayState {
    /// Whether the relay has stopped.
    pub open spec fn spec_is_terminated(self) -> bool {
        self is Terminated
    }

    /// The action that this state waits on the outcome of.
    pub open spec fn spec_pending(self) -> RelayAction {
        match self {
            RelayState::Listening => RelayAction::Receive,
            RelayState::Updating { value, .. } => RelayAction::Store(value),
            RelayState::Signalling { .. } => RelayAction::Signal,
            RelayState::Pausing { .. } => RelayAction::Pause,
            RelayState::Terminated { reason } => RelayAction::Stop(reason),
        }
    }

    /// The next state and action once `event` has happened in this state.
    ///
    /// A report is mapped to its progress value and stored; a stored value
    /// is signalled; a signal is followed by a pause; after the pause the
    /// relay listens again, or stops if the report ended the transfer. A
    /// closed inbound channel stops the relay normally; a poisoned slot or a
    /// failed signal stops it with a fatal reason. An event that this state
    /// does not wait for changes nothing and asks again for the pending
    /// action.
    pub open spec fn spec_step(self, event: RelayEvent) -> (RelayState, RelayAction) {
        match (self, event) {
            (RelayState::Listening, RelayEvent::Received(n)) => (
                RelayState::Updating { value: progress_of(n), terminal: n.spec_is_terminal() },
                RelayAction::Store(progress_of(n)),
            ),
            (RelayState::Listening, RelayEvent::InboundClosed) => (
                RelayState::Terminated { reason: Termination::InboundClosed },
                RelayAction::Stop(Termination::InboundClosed),
            ),
            (RelayState::Updating { terminal, .. }, RelayEvent::Stored) => (
                RelayState::Signalling { terminal },
                RelayAction::Signal,
            ),
            (RelayState::Updating { .. }, RelayEvent::StoreFailed) => (
                RelayState::Terminated { reason: Termination::LockCorrupted },
                RelayAction::Stop(Termination::LockCorrupted),
            ),
            (RelayState::Signalling { terminal }, RelayEvent::Signalled) => (
                RelayState::Pausing { terminal },
                RelayAction::Pause,
            ),
            (RelayState::Signalling { .. }, RelayEvent::SignalFailed) => (
                RelayState::Terminated { reason: Termination::SignalSendFailure },
                RelayAction::Stop(Termination::SignalSendFailure),
            ),
            (RelayState::Pausing { terminal }, RelayEvent::Paused) => if terminal {
                (
                    RelayState::Terminated { reason: Termination::Completed },
                    RelayAction::Stop(Termination::Completed),
                )
            } else {
                (RelayState::Listening, RelayAction::Receive)
            },
            _ => (self, self.spec_pending()),
        }
    }

    /// A relay that has not received anything yet.
    pub fn new() -> (r: Self)
        ensures
            r == RelayState::Listening,
    {
        RelayState::Listening
    }

    /// Whether the relay has stopped.
    pub fn is_terminated(&self) -> (r: bool)
        ensures
            r == self.spec_is_terminated(),
    {
        match self {
            RelayState::Terminated { .. } => true,
            _ => false,
        }
    }

    /// The action that this state waits on the outcome of; the first
    /// action of a new relay is to receive.
    pub fn pending(&self) -> (r: RelayAction)
        ensures
            r == self.spec_pending(),
    {
        match self {
            RelayState::Listening => RelayAction::Receive,
            RelayState::Updating { value, .. } => RelayAction::Store(*value),
            RelayState::Signalling { .. } => RelayAction::Signal,
            RelayState::Pausing { .. } => RelayAction::Pause,
            RelayState::Terminated { reason } => RelayAction::Stop(*reason),
        }
    }

    /// Moves the relay on by `event` and returns what to do next.
    pub fn step(&mut self, event: RelayEvent) -> (action: RelayAction)
        ensures
            (*final(self), action) == old(self).spec_step(event),
    {
        let (next, action) = match (*self, event) {
            (RelayState::Listening, RelayEvent::Received(n)) => {
                let terminal = n.is_terminal();
                let value = RemoteProgress::from(n);
                (RelayState::Updating { value, terminal }, RelayAction::Store(value))
            },
            (RelayState::Listening, RelayEvent::InboundClosed) => (
                RelayState::Terminated { reason: Termination::InboundClosed },
                RelayAction::Stop(Termination::InboundClosed),
            ),
            (RelayState::Updating { terminal, .. }, RelayEvent::Stored) => (
                RelayState::Signalling { terminal },
                RelayAction::Signal,
            ),
            (RelayState::Updating { .. }, RelayEvent::StoreFailed) => (
                RelayState::Terminated { reason: Termination::LockCorrupted },
                RelayAction::Stop(Termination::LockCorrupted),
            ),
            (RelayState::Signalling { terminal }, RelayEvent::Signalled) => (
                RelayState::Pausing { terminal },
                RelayAction::Pause,
            ),
            (RelayState::Signalling { .. }, RelayEvent::SignalFailed) => (
                RelayState::Terminated { reason: Termination::SignalSendFailure },
                RelayAction::Stop(Termination::SignalSendFailure),
            ),
            (RelayState::Pausing { terminal }, RelayEvent::Paused) => if terminal {
                (
                    RelayState::Terminated { reason: Termination::Completed },
                    RelayAction::Stop(Termination::Completed),
                )
            } else {
                (RelayState::Listening, RelayAction::Receive)
            },
            (state, _) => (state, state.pending()),
        };
        *self = next;
        action
    }
}

} // verus!

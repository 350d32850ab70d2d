//! Keeping the station associated: the order of the steps of the
//! connection task.
//!
//! The radio is outside this library. The driver asks the controller,
//! performs each step and reports how it went to [`connection_step`].

use vstd::prelude::*;

verus! {

/// The pause after a lost association and after a failed attempt to
/// connect, in milliseconds.
pub const RECONNECT_DELAY_MS: u64 = 5000;

/// What the connection task has just learnt.
#[derive(Clone, Copy, Debug, PartialEq, Eq, Structural)]
pub enum ConnectionEvent {
    /// A round starts; the station is associated, or it is not.
    RoundStarted { associated: bool },
    /// The association that the task waited on is lost.
    Disconnected,
    /// The controller was asked whether it is started; `started` is false
    /// if it is not, or if it could not tell.
    ControllerChecked { started: bool },
    /// The controller has been configured and started.
    ControllerStarted,
    /// The attempt to connect has ended, well or not.
    ConnectDone { ok: bool },
}

/// What the connection task has to do next.
#[derive(Clone, Copy, Debug, PartialEq, Eq, Structural)]
pub enum ConnectionAction {
    /// Wait until the association is lost.
    AwaitDisconnect,
    /// Pause that many milliseconds, then ask the controller whether it is
    /// started.
    PauseThenCheck { millis: u64 },
    /// Pause that many milliseconds, then start the next round.
    PauseThenNextRound { millis: u64 },
    /// Ask the controller whether it is started.
    CheckController,
    /// Configure the controller as a client of the network and start it.
    StartController,
    /// Connect to the network.
    Connect,
    /// Start the next round.
    NextRound,
}

/// The step that follows an event.
///
/// An associated station waits for the loss of its association and pauses.
/// Then, and at once if it was not associated, the controller is started
/// unless it is, and the station connects. A failed attempt to connect is
/// followed by a pause; then the next round starts. The task never stops.
pub open spec fn next_action(event: ConnectionEvent) -> ConnectionAction {
    match event {
        ConnectionEvent::RoundStarted { associated } => if associated {
            ConnectionAction::AwaitDisconnect
        } else {
            ConnectionAction::CheckController
        },
        ConnectionEvent::Disconnected => ConnectionAction::PauseThenCheck {
            millis: RECONNECT_DELAY_MS,
        },
        ConnectionEvent::ControllerChecked { started } => if started {
            ConnectionAction::Connect
        } else {
            ConnectionAction::StartController
        },
        ConnectionEvent::ControllerStarted => ConnectionAction::Connect,
        ConnectionEvent::ConnectDone { ok } => if ok {
            ConnectionAction::NextRound
        } else {
            ConnectionAction::PauseThenNextRound { millis: RECONNECT_DELAY_MS }
        },
    }
}

/// Tells the connection task what to do after `event`.
pub fn connection_step(event: ConnectionEvent) -> (action: ConnectionAction)
    ensures
        action == next_action(event),
{
    match event {
        ConnectionEvent::RoundStarted { associated: true } => ConnectionAction::AwaitDisconnect,
        ConnectionEvent::RoundStarted { associated: false } => ConnectionAction::CheckController,
        ConnectionEvent::Disconnected => ConnectionAction::PauseThenCheck {
            millis: RECONNECT_DELAY_MS,
        },
        ConnectionEvent::ControllerChecked { started: false } => ConnectionAction::StartController,
        ConnectionEvent::ControllerChecked { started: true }
        | ConnectionEvent::ControllerStarted => ConnectionAction::Connect,
        ConnectionEvent::ConnectDone { ok: true } => ConnectionAction::NextRound,
        ConnectionEvent::ConnectDone { ok: false } => ConnectionAction::PauseThenNextRound {
            millis: RECONNECT_DELAY_MS,
        },
    }
}

} // verus!

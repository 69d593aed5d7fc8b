//! The connection task of the WiFi examples: connect, stay until the link
//! drops, wait five seconds, and connect again.

use vstd::prelude::*;

verus! {

/// Delay before the next connection attempt, in milliseconds.
pub const RECONNECT_DELAY_MS: u64 = 5000;

/// Where the connection task is.
#[derive(Clone, Copy, Debug, PartialEq, Eq, Structural)]
pub enum LinkState {
    /// A connection attempt is under way.
    Connecting,
    /// Connected; waiting for the link to drop.
    Connected,
    /// Waiting before the next attempt.
    Waiting,
}

/// What the driver reported.
#[derive(Clone, Copy, Debug, PartialEq, Eq, Structural)]
pub enum LinkEvent {
    /// The connection attempt succeeded.
    Connected,
    /// The connection attempt failed.
    ConnectFailed,
    /// The link dropped.
    Disconnected,
    /// The wait before the next attempt is over.
    DelayElapsed,
}

/// What the task does next.
#[derive(Clone, Copy, Debug, PartialEq, Eq, Structural)]
pub enum LinkAction {
    /// Start a connection attempt.
    Connect,
    /// Wait for the link to drop.
    AwaitDisconnect,
    /// Sleep this many milliseconds.
    Sleep(u64),
}

/// The state and action after `event` in `state`; `None` for an event the
/// task cannot receive in that state.
pub open spec fn spec_link_step(state: LinkState, event: LinkEvent) -> Option<(LinkState, LinkAction)> {
    match (state, event) {
        (LinkState::Connecting, LinkEvent::Connected) => Some(
            (LinkState::Connected, LinkAction::AwaitDisconnect),
        ),
        (LinkState::Connecting, LinkEvent::ConnectFailed) => Some(
            (LinkState::Waiting, LinkAction::Sleep(RECONNECT_DELAY_MS)),
        ),
        (LinkState::Connected, LinkEvent::Disconnected) => Some(
            (LinkState::Waiting, LinkAction::Sleep(RECONNECT_DELAY_MS)),
        ),
        (LinkState::Waiting, LinkEvent::DelayElapsed) => Some(
            (LinkState::Connecting, LinkAction::Connect),
        ),
        _ => None,
    }
}

/// One decision of the connection task.
pub fn link_step(state: LinkState, event: LinkEvent) -> (r: Option<(LinkState, LinkAction)>)
    ensures
        r == spec_link_step(state, event),
{
    match (state, event) {
        (LinkState::Connecting, LinkEvent::Connected) => Some(
            (LinkState::Connected, LinkAction::AwaitDisconnect),
        ),
        (LinkState::Connecting, LinkEvent::ConnectFailed) => Some(
            (LinkState::Waiting, LinkAction::Sleep(RECONNECT_DELAY_MS)),
        ),
        (LinkState::Connected, LinkEvent::Disconnected) => Some(
            (LinkState::Waiting, LinkAction::Sleep(RECONNECT_DELAY_MS)),
        ),
        (LinkState::Waiting, LinkEvent::DelayElapsed) => Some((LinkState::Connecting, LinkAction::Connect)),
        _ => None,
    }
}

/// A new attempt is only ever started after the five-second wait, and
/// every failure or drop leads to that wait.
pub proof fn lemma_link_retries_after_delay(state: LinkState, event: LinkEvent)
    ensures
        spec_link_step(state, event) matches Some((_, a)) && a == LinkAction::Connect ==> state
            == LinkState::Waiting,
        event == LinkEvent::ConnectFailed || event == LinkEvent::Disconnected ==> (
        spec_link_step(state, event) is None || spec_link_step(state, event) == Some(
            (LinkState::Waiting, LinkAction::Sleep(RECONNECT_DELAY_MS)),
        )),
{
}

} // verus!

//! Connection supervisor: the state machine that keeps the wireless link
//! associated. The shell runs the loop — it starts the radio, attempts
//! association, watches for drops and sleeps — and feeds each outcome back
//! as an event; this module decides every transition.

use vstd::prelude::*;

verus! {

/// Milliseconds waited after a failed attempt or a drop before retrying.
pub const RETRY_DELAY_MS: u64 = 5000;

/// Association state of the wireless link.
#[derive(Clone, Copy, Debug, PartialEq, Eq, Structural)]
pub enum AssociationState {
    Disconnected,
    Connecting,
    Connected,
}

/// What the radio reported since the last step.
#[derive(Clone, Copy, Debug, PartialEq, Eq, Structural)]
pub enum LinkEvent {
    /// Nothing happened; the supervisor was polled.
    Poll,
    /// The pending association attempt succeeded.
    ConnectSucceeded,
    /// The pending association attempt failed.
    ConnectFailed,
    /// The established link dropped.
    LinkDropped,
}

/// What the shell must do next.
#[derive(Clone, Copy, Debug, PartialEq, Eq, Structural)]
pub enum LinkAction {
    /// Start the radio if it is not running, configure the fixed
    /// credentials, and begin an association attempt.
    StartAndConnect,
    /// Wait for the next link event.
    WatchLink,
    /// Sleep this many milliseconds, then step again.
    BackoffMs(u64),
}

/// The supervisor's transition table. Disconnected always re-attempts;
/// a failed attempt or a dropped link backs off `RETRY_DELAY_MS` before
/// the next attempt; a connected link is only watched.
pub open spec fn step_spec(st: AssociationState, ev: LinkEvent) -> (AssociationState, LinkAction) {
    match st {
        AssociationState::Disconnected => (
            AssociationState::Connecting,
            LinkAction::StartAndConnect,
        ),
        AssociationState::Connecting => match ev {
            LinkEvent::ConnectSucceeded => (AssociationState::Connected, LinkAction::WatchLink),
            LinkEvent::ConnectFailed => (
                AssociationState::Disconnected,
                LinkAction::BackoffMs(RETRY_DELAY_MS),
            ),
            _ => (AssociationState::Connecting, LinkAction::WatchLink),
        },
        AssociationState::Connected => match ev {
            LinkEvent::LinkDropped => (
                AssociationState::Disconnected,
                LinkAction::BackoffMs(RETRY_DELAY_MS),
            ),
            _ => (AssociationState::Connected, LinkAction::WatchLink),
        },
    }
}

/// One step of the supervisor loop.
pub fn connection_step(st: AssociationState, ev: LinkEvent) -> (r: (AssociationState, LinkAction))
    ensures
        r == step_spec(st, ev),
{
    match st {
        AssociationState::Disconnected => (
            AssociationState::Connecting,
            LinkAction::StartAndConnect,
        ),
        AssociationState::Connecting => match ev {
            LinkEvent::ConnectSucceeded => (AssociationState::Connected, LinkAction::WatchLink),
            LinkEvent::ConnectFailed => (
                AssociationState::Disconnected,
                LinkAction::BackoffMs(RETRY_DELAY_MS),
            ),
            _ => (AssociationState::Connecting, LinkAction::WatchLink),
        },
        AssociationState::Connected => match ev {
            LinkEvent::LinkDropped => (
                AssociationState::Disconnected,
                LinkAction::BackoffMs(RETRY_DELAY_MS),
            ),
            _ => (AssociationState::Connected, LinkAction::WatchLink),
        },
    }
}

/// An association failure or a drop is never retried immediately: the step
/// that leaves `Connected` or abandons an attempt always orders a backoff
/// of `RETRY_DELAY_MS` first.
pub proof fn lemma_backoff_before_retry(st: AssociationState, ev: LinkEvent)
    ensures
        step_spec(st, ev).0 == AssociationState::Disconnected ==> step_spec(st, ev).1
            == LinkAction::BackoffMs(RETRY_DELAY_MS),
{
}

} // verus!

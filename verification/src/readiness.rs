//! The wait for a usable network: first for the link, then for an IPv4
//! configuration.
//!
//! The network stack is outside this library. The driver looks at the
//! stack, reports what it saw, and sleeps when it is told to.

use vstd::prelude::*;

verus! {

/// The pause between two looks at the network stack, in milliseconds.
pub const POLL_INTERVAL_MS: u64 = 500;

/// How far the wait has come.
#[derive(Clone, Copy, Debug, PartialEq, Eq, Structural)]
pub enum GatePhase {
    /// The link has not been seen up yet.
    AwaitingLink,
    /// The link was up; no IPv4 configuration has been seen yet.
    AwaitingAddress,
    /// The network is usable.
    Ready,
}

/// What the driver of the wait has to do next.
#[derive(Clone, Copy, Debug, PartialEq, Eq, Structural)]
pub enum GateAction {
    /// Sleep that many milliseconds, then look again.
    Sleep { millis: u64 },
    /// Go on: the network is usable.
    Proceed,
}

/// The phase after one look at the network stack.
///
/// The link is consulted only until it has been seen up once; from then on
/// only the IPv4 configuration counts. There is no limit on the number of
/// looks.
pub open spec fn next_phase(phase: GatePhase, link_up: bool, has_ipv4: bool) -> GatePhase {
    match phase {
        GatePhase::AwaitingLink => if !link_up {
            GatePhase::AwaitingLink
        } else if has_ipv4 {
            GatePhase::Ready
        } else {
            GatePhase::AwaitingAddress
        },
        GatePhase::AwaitingAddress => if has_ipv4 {
            GatePhase::Ready
        } else {
            GatePhase::AwaitingAddress
        },
        GatePhase::Ready => GatePhase::Ready,
    }
}

/// Takes note of one look at the network stack: whether the link is up and
/// whether there is an IPv4 configuration. The driver sleeps and looks again
/// until the phase is `Ready`.
pub fn poll(phase: GatePhase, link_up: bool, has_ipv4: bool) -> (r: (GatePhase, GateAction))
    ensures
        r.0 == next_phase(phase, link_up, has_ipv4),
        r.1 == if r.0 == GatePhase::Ready {
            GateAction::Proceed
        } else {
            GateAction::Sleep { millis: POLL_INTERVAL_MS }
        },
{
    let next = match phase {
        GatePhase::AwaitingLink => if !link_up {
            GatePhase::AwaitingLink
        } else if has_ipv4 {
            GatePhase::Ready
        } else {
            GatePhase::AwaitingAddress
        },
        GatePhase::AwaitingAddress => if has_ipv4 {
            GatePhase::Ready
        } else {
            GatePhase::AwaitingAddress
        },
        GatePhase::Ready => GatePhase::Ready,
    };
    let action = match next {
        GatePhase::Ready => GateAction::Proceed,
        _ => GateAction::Sleep { millis: POLL_INTERVAL_MS },
    };
    (next, action)
}

} // verus!

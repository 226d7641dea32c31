//! Getting a connection to the shelf's database: what to wait for, for how
//! long, and what to tell the caller when it does not work out.
//!
//! The waiting itself is done by whoever drives these decisions. It asks
//! `begin` what to do first, does it, and tells `advance` how it went.

use vstd::prelude::*;
use crate::routes::Failure;
use crate::dtos::{internal_error_body, unavailable_body, DSErrorDto};
use crate::status::Status;

verus! {

/// How the pool of connections is laid out.
#[derive(Debug, Clone, Copy, PartialEq, Eq, Structural)]
pub struct PoolSettings {
    /// How many connections there are, and so how many requests may hold
    /// one at the same time.
    pub pool_size: u32,
    /// How long a request waits for one, in seconds.
    pub timeout: u8,
}

/// Where a request stands on its way to a connection.
#[derive(Debug, Clone, Copy, PartialEq, Eq, Structural)]
pub enum Attempt {
    /// It waits for one of the permits.
    WaitingForPermit,
    /// It holds a permit and waits for the connection.
    WaitingForConnection,
    /// It holds a permit and a connection.
    Connected,
    /// It was turned away and holds nothing.
    Refused,
}

/// What has happened since the last decision.
#[derive(Debug, Clone, Copy, PartialEq, Eq, Structural)]
pub enum PoolEvent {
    PermitGranted,
    PermitTimedOut,
    ConnectionReady,
    ConnectionFailed,
}

/// What is to be done next.
#[derive(Debug, Clone, Copy, PartialEq, Eq, Structural)]
pub enum PoolAction {
    /// Wait for a permit, no longer than this many seconds.
    AcquirePermit { seconds: u64 },
    /// Ask the pool for a connection, no longer than this many seconds.
    GetConnection { seconds: u64 },
    /// Hand the connection to the request.
    Serve,
    /// Give back whatever is held and turn the request away.
    Refuse(Status),
}

impl PoolSettings {
    /// The number of permits: one for each connection.
    pub open spec fn spec_permits(self) -> usize {
        self.pool_size as usize
    }

    /// The number of permits: one for each connection.
    #[verifier::when_used_as_spec(spec_permits)]
    pub fn permits(self) -> (n: usize)
        ensures
            n == self.spec_permits(),
    {
        self.pool_size as usize
    }

    /// How long to wait, in seconds.
    pub open spec fn spec_wait_seconds(self) -> u64 {
        self.timeout as u64
    }

    /// How long to wait, in seconds.
    #[verifier::when_used_as_spec(spec_wait_seconds)]
    pub fn wait_seconds(self) -> (s: u64)
        ensures
            s == self.spec_wait_seconds(),
    {
        self.timeout as u64
    }
}

impl Attempt {
    /// Whether the request holds a permit at this point.
    pub open spec fn holds_permit(self) -> bool {
        self == Attempt::WaitingForConnection || self == Attempt::Connected
    }
}

/// The first decision. Without a pool the request is turned away as a
/// failure of the service; with one it waits for a permit.
pub open spec fn first_step(pool: Option<PoolSettings>) -> (Attempt, PoolAction) {
    match pool {
        None => (Attempt::Refused, PoolAction::Refuse(Status::InternalServerError)),
        Some(settings) => (
            Attempt::WaitingForPermit,
            PoolAction::AcquirePermit { seconds: settings.wait_seconds() },
        ),
    }
}

/// The decision after `event`. A permit in time leads to asking for the
/// connection, a connection in time to serving; running out of time, or a
/// pool that fails, turns the request away as unavailable. An event that
/// does not belong to what was waited for is a failure of the service.
pub open spec fn next_step(attempt: Attempt, event: PoolEvent, settings: PoolSettings) -> (
    Attempt,
    PoolAction,
) {
    match (attempt, event) {
        (Attempt::WaitingForPermit, PoolEvent::PermitGranted) => (
            Attempt::WaitingForConnection,
            PoolAction::GetConnection { seconds: settings.wait_seconds() },
        ),
        (Attempt::WaitingForPermit, PoolEvent::PermitTimedOut) => (
            Attempt::Refused,
            PoolAction::Refuse(Status::ServiceUnavailable),
        ),
        (Attempt::WaitingForConnection, PoolEvent::ConnectionReady) => (
            Attempt::Connected,
            PoolAction::Serve,
        ),
        (Attempt::WaitingForConnection, PoolEvent::ConnectionFailed) => (
            Attempt::Refused,
            PoolAction::Refuse(Status::ServiceUnavailable),
        ),
        _ => (Attempt::Refused, PoolAction::Refuse(Status::InternalServerError)),
    }
}

/// Decides what a request that needs a connection does first.
pub fn begin(pool: Option<PoolSettings>) -> (step: (Attempt, PoolAction))
    ensures
        step == first_step(pool),
{
    match pool {
        None => (Attempt::Refused, PoolAction::Refuse(Status::InternalServerError)),
        Some(settings) => (
            Attempt::WaitingForPermit,
            PoolAction::AcquirePermit { seconds: settings.wait_seconds() },
        ),
    }
}

/// Decides what a request does after `event`.
pub fn advance(attempt: Attempt, event: PoolEvent, settings: PoolSettings) -> (step: (
    Attempt,
    PoolAction,
))
    ensures
        step == next_step(attempt, event, settings),
{
    match (attempt, event) {
        (Attempt::WaitingForPermit, PoolEvent::PermitGranted) => (
            Attempt::WaitingForConnection,
            PoolAction::GetConnection { seconds: settings.wait_seconds() },
        ),
        (Attempt::WaitingForPermit, PoolEvent::PermitTimedOut) => (
            Attempt::Refused,
            PoolAction::Refuse(Status::ServiceUnavailable),
        ),
        (Attempt::WaitingForConnection, PoolEvent::ConnectionReady) => (
            Attempt::Connected,
            PoolAction::Serve,
        ),
        (Attempt::WaitingForConnection, PoolEvent::ConnectionFailed) => (
            Attempt::Refused,
            PoolAction::Refuse(Status::ServiceUnavailable),
        ),
        _ => (Attempt::Refused, PoolAction::Refuse(Status::InternalServerError)),
    }
}

/// The answer for a request that was turned away on its way to a
/// connection.
pub fn refusal(status: Status) -> (f: Failure)
    ensures
        f.status == status,
        f.body@ == if status == Status::ServiceUnavailable {
            unavailable_body()
        } else {
            internal_error_body()
        },
{
    match status {
        Status::ServiceUnavailable => Failure { status, body: DSErrorDto::default_503() },
        _ => Failure { status, body: DSErrorDto::default_500() },
    }
}

/// The pool is never asked for a connection by a request that holds no
/// permit: the first thing a request does is wait for one, and only a
/// permit that came in time leads to asking for the connection. With one
/// permit for each connection, no more requests ask than there are
/// connections.
pub proof fn lemma_connection_only_with_permit(
    pool: Option<PoolSettings>,
    attempt: Attempt,
    event: PoolEvent,
    settings: PoolSettings,
)
    ensures
        !(first_step(pool).1 is GetConnection),
        !(first_step(pool).1 is Serve),
        !first_step(pool).0.holds_permit(),
        next_step(attempt, event, settings).1 is GetConnection ==> attempt
            == Attempt::WaitingForPermit && event == PoolEvent::PermitGranted,
        next_step(attempt, event, settings).1 is GetConnection ==> next_step(
            attempt,
            event,
            settings,
        ).0.holds_permit(),
        settings.permits() == settings.pool_size,
{
}

/// A request is served only with a permit in hand, and only after a
/// permit and then a connection came in time; it is never told to wait
/// longer than the configured time; and once it is turned away it holds
/// nothing.
pub proof fn lemma_served_only_with_permit(
    attempt: Attempt,
    event: PoolEvent,
    settings: PoolSettings,
)
    ensures
        next_step(attempt, event, settings).1 == PoolAction::Serve ==> attempt
            == Attempt::WaitingForConnection && event == PoolEvent::ConnectionReady && next_step(
            attempt,
            event,
            settings,
        ).0.holds_permit(),
        next_step(attempt, event, settings).1 is Refuse <==> next_step(attempt, event, settings).0
            == Attempt::Refused,
        next_step(attempt, event, settings).1 is Refuse ==> !next_step(
            attempt,
            event,
            settings,
        ).0.holds_permit(),
        next_step(attempt, event, settings).1 matches PoolAction::GetConnection { seconds }
            ==> seconds == settings.timeout,
        next_step(attempt, event, settings).1 matches PoolAction::AcquirePermit { seconds }
            ==> seconds == settings.timeout,
{
}

} // verus!

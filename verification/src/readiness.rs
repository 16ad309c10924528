//! Readiness probing: bounded polling of the engine's control endpoint.
//!
//! Each attempt waits one interval and then tries to connect. The first accepted
//! connection ends the probing; when the attempts are used up, the last failure is
//! reported.

use vstd::prelude::*;
use crate::endpoint::healthcheck_address;
use crate::endpoint::probe_address;
use crate::error::LifecycleError;
use crate::error::LifecycleErrorView;
use crate::reply::Reply;
use crate::reply::ReplyView;

verus! {

/// The number of attempts that a launch gives the engine.
pub const READY_ATTEMPTS: u32 = 10;

/// The time between two attempts of a launch, in milliseconds.
pub const READY_INTERVAL_MS: u64 = 500;

/// The progress of the probing. `remaining` counts the attempts that are left, the one under way included.
#[derive(Debug, PartialEq, Eq)]
pub enum Readiness {
    /// The interval before the next attempt is to be waited out.
    Sleeping { port: u16, remaining: u32, interval_ms: u64 },
    /// A connection is to be attempted.
    Connecting { port: u16, remaining: u32, interval_ms: u64 },
    /// The engine accepted a connection.
    Ready { port: u16 },
    /// The attempts are used up.
    Unready { port: u16, last_failure: String },
}

/// A `Readiness` with its texts as sequences of characters.
pub enum ReadinessView {
    Sleeping { port: u16, remaining: u32, interval_ms: u64 },
    Connecting { port: u16, remaining: u32, interval_ms: u64 },
    Ready { port: u16 },
    Unready { port: u16, last_failure: Seq<char> },
}

/// What the host is to do for the probing.
#[derive(Debug, PartialEq, Eq)]
pub enum ProbeAction {
    /// Wait for `millis` milliseconds.
    Sleep { millis: u64 },
    /// Try to connect to `address`, and drop the connection if it is accepted.
    Connect { address: String },
    /// The probing is over: the engine is up.
    Ready,
    /// The probing is over: the engine did not come up.
    GiveUp { error: LifecycleError },
}

/// A `ProbeAction` with its texts as sequences of characters.
pub enum ProbeActionView {
    Sleep { millis: u64 },
    Connect { address: Seq<char> },
    Ready,
    GiveUp { error: LifecycleErrorView },
}

impl View for Readiness {
    type V = ReadinessView;

    open spec fn view(&self) -> ReadinessView {
        match *self {
            Readiness::Sleeping { port, remaining, interval_ms } => ReadinessView::Sleeping {
                port,
                remaining,
                interval_ms,
            },
            Readiness::Connecting { port, remaining, interval_ms } => ReadinessView::Connecting {
                port,
                remaining,
                interval_ms,
            },
            Readiness::Ready { port } => ReadinessView::Ready { port },
            Readiness::Unready { port, last_failure } => ReadinessView::Unready {
                port,
                last_failure: last_failure@,
            },
        }
    }
}

impl View for ProbeAction {
    type V = ProbeActionView;

    open spec fn view(&self) -> ProbeActionView {
        match *self {
            ProbeAction::Sleep { millis } => ProbeActionView::Sleep { millis },
            ProbeAction::Connect { address } => ProbeActionView::Connect { address: address@ },
            ProbeAction::Ready => ProbeActionView::Ready,
            ProbeAction::GiveUp { error } => ProbeActionView::GiveUp { error: error@ },
        }
    }
}

impl ReadinessView {
    /// The probing of `port` before anything was done. With no attempt allowed it has failed already.
    pub open spec fn started(port: u16, max_attempts: u32, interval_ms: u64) -> ReadinessView {
        if max_attempts == 0 {
            ReadinessView::Unready { port, last_failure: Seq::empty() }
        } else {
            ReadinessView::Sleeping { port, remaining: max_attempts, interval_ms }
        }
    }

    /// What the probing asks of the host in this state.
    pub open spec fn pending(self) -> ProbeActionView {
        match self {
            ReadinessView::Sleeping { port, remaining, interval_ms } => ProbeActionView::Sleep {
                millis: interval_ms,
            },
            ReadinessView::Connecting { port, remaining, interval_ms } => ProbeActionView::Connect {
                address: probe_address("localhost"@, port),
            },
            ReadinessView::Ready { port } => ProbeActionView::Ready,
            ReadinessView::Unready { port, last_failure } => ProbeActionView::GiveUp {
                error: LifecycleErrorView::HealthCheck { port, last_failure },
            },
        }
    }

    /// The state after the host's reply to the pending action. A reply that the
    /// pending action cannot have changes nothing, and neither does any reply once
    /// the probing is over.
    pub open spec fn after(self, reply: ReplyView) -> ReadinessView {
        match self {
            ReadinessView::Sleeping { port, remaining, interval_ms } => match reply {
                ReplyView::Completed => ReadinessView::Connecting { port, remaining, interval_ms },
                _ => self,
            },
            ReadinessView::Connecting { port, remaining, interval_ms } => match reply {
                ReplyView::Completed => ReadinessView::Ready { port },
                ReplyView::Failed(cause) => if remaining > 1 {
                    ReadinessView::Sleeping {
                        port,
                        remaining: (remaining - 1) as u32,
                        interval_ms,
                    }
                } else {
                    ReadinessView::Unready { port, last_failure: cause }
                },
                ReplyView::Text(_) => self,
            },
            _ => self,
        }
    }

    /// The state after a series of replies, the first reply first.
    pub open spec fn after_all(self, replies: Seq<ReplyView>) -> ReadinessView
        decreases replies.len(),
    {
        if replies.len() == 0 {
            self
        } else {
            self.after(replies[0]).after_all(replies.drop_first())
        }
    }

    /// The number of connection attempts whose outcome the host reports in these
    /// replies: the replies that arrive while a connection is pending and that the
    /// probing takes.
    pub open spec fn attempts_made(self, replies: Seq<ReplyView>) -> nat
        decreases replies.len(),
    {
        if replies.len() == 0 {
            0
        } else {
            let moved = self.after(replies[0]);
            let counted: nat = if self is Connecting && moved != self {
                1
            } else {
                0
            };
            counted + moved.attempts_made(replies.drop_first())
        }
    }

    /// The attempts that the state still allows: none once the probing is over, and
    /// before that at least the one that is under way.
    pub open spec fn attempts_left(self) -> nat {
        match self {
            ReadinessView::Sleeping { port, remaining, interval_ms } => if remaining == 0 {
                1
            } else {
                remaining as nat
            },
            ReadinessView::Connecting { port, remaining, interval_ms } => if remaining == 0 {
                1
            } else {
                remaining as nat
            },
            _ => 0,
        }
    }

    /// Whether the probing is over.
    pub open spec fn finished(self) -> bool {
        self is Ready || self is Unready
    }
}

impl Readiness {
    /// Starts the probing of `port`: at most `max_attempts` attempts, `interval_ms`
    /// milliseconds before each. With `max_attempts == 0` the probing has failed at
    /// once and asks for no connection.
    pub fn new(port: u16, max_attempts: u32, interval_ms: u64) -> (probe: Readiness)
        ensures
            probe@ == ReadinessView::started(port, max_attempts, interval_ms),
    {
        if max_attempts == 0 {
            Readiness::Unready { port, last_failure: String::new() }
        } else {
            Readiness::Sleeping { port, remaining: max_attempts, interval_ms }
        }
    }

    /// The action that the host is to perform now.
    pub fn action(&self) -> (action: ProbeAction)
        ensures
            action@ == self@.pending(),
    {
        match self {
            Readiness::Sleeping { port: _, remaining: _, interval_ms } => ProbeAction::Sleep {
                millis: *interval_ms,
            },
            Readiness::Connecting { port, remaining: _, interval_ms: _ } => ProbeAction::Connect {
                address: healthcheck_address("localhost", *port),
            },
            Readiness::Ready { port: _ } => ProbeAction::Ready,
            Readiness::Unready { port, last_failure } => ProbeAction::GiveUp {
                error: LifecycleError::HealthCheck {
                    port: *port,
                    last_failure: last_failure.clone(),
                },
            },
        }
    }

    /// Takes the host's reply to the pending action.
    pub fn advance(self, reply: Reply) -> (probe: Readiness)
        ensures
            probe@ == self@.after(reply@),
    {
        match self {
            Readiness::Sleeping { port, remaining, interval_ms } => match reply {
                Reply::Completed => Readiness::Connecting { port, remaining, interval_ms },
                _ => Readiness::Sleeping { port, remaining, interval_ms },
            },
            Readiness::Connecting { port, remaining, interval_ms } => match reply {
                Reply::Completed => Readiness::Ready { port },
                Reply::Failed(cause) => if remaining > 1 {
                    Readiness::Sleeping { port, remaining: remaining - 1, interval_ms }
                } else {
                    Readiness::Unready { port, last_failure: cause }
                },
                Reply::Text(_) => Readiness::Connecting { port, remaining, interval_ms },
            },
            other => other,
        }
    }
}

/// Starts the probing that a launch performs: ten attempts, half a second before each.
pub fn wait_for_cef(port: u16) -> (probe: Readiness)
    ensures
        probe@ == ReadinessView::started(port, READY_ATTEMPTS, READY_INTERVAL_MS),
{
    Readiness::new(port, READY_ATTEMPTS, READY_INTERVAL_MS)
}

/// Once the probing is over, no reply changes its state or counts as an attempt.
pub proof fn finished_probing_stays(probe: ReadinessView, replies: Seq<ReplyView>)
    requires
        probe.finished(),
    ensures
        probe.after_all(replies) == probe,
        probe.attempts_made(replies) == 0,
    decreases replies.len(),
{
    if replies.len() > 0 {
        finished_probing_stays(probe, replies.drop_first());
    }
}

/// With no attempt allowed the probing fails at once with a health check error,
/// and whatever the host replies, it is never asked to connect.
pub proof fn no_attempts_fail_without_connecting(
    port: u16,
    interval_ms: u64,
    replies: Seq<ReplyView>,
)
    ensures
        ReadinessView::started(port, 0, interval_ms).pending() == (ProbeActionView::GiveUp {
            error: LifecycleErrorView::HealthCheck { port, last_failure: Seq::empty() },
        }),
        ReadinessView::started(port, 0, interval_ms).after_all(replies) == ReadinessView::started(
            port,
            0,
            interval_ms,
        ),
        ReadinessView::started(port, 0, interval_ms).attempts_made(replies) == 0,
{
    finished_probing_stays(ReadinessView::started(port, 0, interval_ms), replies);
}

/// The host is never asked for more connection attempts than the state allows.
pub proof fn attempts_stay_within_limit(probe: ReadinessView, replies: Seq<ReplyView>)
    ensures
        probe.attempts_made(replies) <= probe.attempts_left(),
    decreases replies.len(),
{
    if replies.len() > 0 {
        let moved = probe.after(replies[0]);
        attempts_stay_within_limit(moved, replies.drop_first());
        if probe is Connecting && moved != probe {
            if moved.finished() {
                finished_probing_stays(moved, replies.drop_first());
            }
        }
    }
}

/// A probing that was started with `max_attempts` asks for at most that many
/// connection attempts, whatever the host replies.
pub proof fn probing_is_bounded(
    port: u16,
    max_attempts: u32,
    interval_ms: u64,
    replies: Seq<ReplyView>,
)
    ensures
        ReadinessView::started(port, max_attempts, interval_ms).attempts_made(replies)
            <= max_attempts,
{
    attempts_stay_within_limit(ReadinessView::started(port, max_attempts, interval_ms), replies);
}

/// The first accepted connection ends the probing with success, and the failure of
/// the last attempt that was allowed ends it with that failure as the last one.
pub proof fn probing_ends_on_success_or_exhaustion(
    port: u16,
    remaining: u32,
    interval_ms: u64,
    cause: Seq<char>,
)
    ensures
        (ReadinessView::Connecting { port, remaining, interval_ms }).after(ReplyView::Completed)
            == (ReadinessView::Ready { port }),
        remaining <= 1 ==> (ReadinessView::Connecting { port, remaining, interval_ms }).after(
            ReplyView::Failed(cause),
        ) == (ReadinessView::Unready { port, last_failure: cause }),
        remaining > 1 ==> (ReadinessView::Connecting { port, remaining, interval_ms }).after(
            ReplyView::Failed(cause),
        ) == (ReadinessView::Sleeping { port, remaining: (remaining - 1) as u32, interval_ms }),
{
}

/// The replies of a host on which each attempt in turn is refused, with these causes: the
/// interval is waited out, then the connection fails.
pub open spec fn refusals(causes: Seq<Seq<char>>) -> Seq<ReplyView>
    decreases causes.len(),
{
    if causes.len() == 0 {
        Seq::empty()
    } else {
        seq![ReplyView::Completed, ReplyView::Failed(causes[0])] + refusals(causes.drop_first())
    }
}

/// A wait and the attempt that follows it take the probing from one attempt to the next.
pub proof fn attempt_is_taken(
    port: u16,
    remaining: u32,
    interval_ms: u64,
    outcome: ReplyView,
    more: Seq<ReplyView>,
)
    ensures
        (ReadinessView::Sleeping { port, remaining, interval_ms }).after_all(
            seq![ReplyView::Completed, outcome] + more,
        ) == (ReadinessView::Connecting { port, remaining, interval_ms }).after(outcome).after_all(
            more,
        ),
{
    let sleeping = ReadinessView::Sleeping { port, remaining, interval_ms };
    let replies = seq![ReplyView::Completed, outcome] + more;
    let rest = replies.drop_first();
    let connecting = ReadinessView::Connecting { port, remaining, interval_ms };
    assert(replies[0] == ReplyView::Completed);
    assert(rest[0] == outcome);
    assert(rest.drop_first() =~= more);
    assert(sleeping.after_all(replies) == sleeping.after(replies[0]).after_all(rest));
    assert(connecting.after_all(rest) == connecting.after(rest[0]).after_all(rest.drop_first()));
}

/// An engine that answers after some refused attempts, while attempts are left, is
/// found ready: the probing ends with success at the first accepted connection.
pub proof fn probing_succeeds_at_first_accepted_connection(
    port: u16,
    remaining: u32,
    interval_ms: u64,
    causes: Seq<Seq<char>>,
)
    requires
        causes.len() < remaining,
    ensures
        (ReadinessView::Sleeping { port, remaining, interval_ms }).after_all(
            refusals(causes) + seq![ReplyView::Completed, ReplyView::Completed],
        ) == (ReadinessView::Ready { port }),
    decreases causes.len(),
{
    let accepted = seq![ReplyView::Completed, ReplyView::Completed];
    if causes.len() == 0 {
        assert(refusals(causes) + accepted =~= accepted + Seq::<ReplyView>::empty());
        attempt_is_taken(port, remaining, interval_ms, ReplyView::Completed, Seq::empty());
    } else {
        let more = refusals(causes.drop_first()) + accepted;
        assert(refusals(causes) + accepted =~= seq![
            ReplyView::Completed,
            ReplyView::Failed(causes[0]),
        ] + more);
        attempt_is_taken(port, remaining, interval_ms, ReplyView::Failed(causes[0]), more);
        probing_succeeds_at_first_accepted_connection(
            port,
            (remaining - 1) as u32,
            interval_ms,
            causes.drop_first(),
        );
    }
}

/// An engine that refuses every attempt is given up after the last one, with the
/// cause of that last refusal as the last failure.
pub proof fn probing_gives_up_after_last_attempt(
    port: u16,
    remaining: u32,
    interval_ms: u64,
    causes: Seq<Seq<char>>,
)
    requires
        remaining >= 1,
        causes.len() == remaining,
    ensures
        (ReadinessView::Sleeping { port, remaining, interval_ms }).after_all(refusals(causes)) == (
        ReadinessView::Unready { port, last_failure: causes.last() }),
    decreases causes.len(),
{
    let more = refusals(causes.drop_first());
    attempt_is_taken(port, remaining, interval_ms, ReplyView::Failed(causes[0]), more);
    if remaining == 1 {
        assert(causes.last() == causes[0]);
        assert(more =~= Seq::<ReplyView>::empty());
    } else {
        assert(causes.drop_first().last() == causes.last());
        probing_gives_up_after_last_attempt(
            port,
            (remaining - 1) as u32,
            interval_ms,
            causes.drop_first(),
        );
    }
}

} // verus!

//! The per-connection session lifecycle. A session moves through
//! `Admitted -> Active -> Terminating -> Closed`. While active, three
//! concurrent operations race outside the library — the idle timer, the
//! inbound reader and the broadcast relay — and every decision they need
//! is made here: what an inbound frame does to the shared state, which
//! close reason a transport event carries, and what closing a session
//! releases.

use vstd::prelude::*;

use crate::color::{parse_color, spec_parse_color, Color};
use crate::config::MAX_BYTES;
use crate::hub::Subscriber;
use crate::messages::{
    initial_message,
    join_message,
    spec_initial_message,
    spec_join_message,
    spec_update_message,
    update_message,
};
use crate::state::AppState;
use crate::tally::spec_vote;
use vstd::string::StringExecFns;

verus! {

/// Why a session was closed. Every reason ends exactly one session and
/// never touches another session or the shared tally.
#[derive(Clone, Copy, PartialEq, Eq, Structural, Debug)]
pub enum CloseReason {
    WebSocketError,
    PayloadTooLarge,
    InvalidColor,
    WebSocketSendError,
    Timeout,
}

/// The close-frame text of a reason.
pub open spec fn spec_reason_text(r: CloseReason) -> Seq<char> {
    match r {
        CloseReason::WebSocketError => "Websocket Error"@,
        CloseReason::PayloadTooLarge => "Abnormal Payload"@,
        CloseReason::InvalidColor => "Invalid Color"@,
        CloseReason::WebSocketSendError => "Websocket Sending Error"@,
        CloseReason::Timeout => "Timeout"@,
    }
}

impl CloseReason {
    /// The human-readable close-frame text.
    pub fn text(&self) -> (s: String)
        ensures
            s@ == spec_reason_text(*self),
    {
        String::from_str(
            match self {
                CloseReason::WebSocketError => "Websocket Error",
                CloseReason::PayloadTooLarge => "Abnormal Payload",
                CloseReason::InvalidColor => "Invalid Color",
                CloseReason::WebSocketSendError => "Websocket Sending Error",
                CloseReason::Timeout => "Timeout",
            },
        )
    }
}

/// Where a session stands in its lifecycle.
#[derive(Clone, Copy, PartialEq, Eq, Structural, Debug)]
pub enum SessionPhase {
    Admitted,
    Active,
    Terminating(CloseReason),
    Closed,
}

/// The per-session inbound throttle: a pure minimum-interval filter with
/// no credit accumulation.
#[derive(Clone, Copy, PartialEq, Eq, Structural, Debug)]
pub struct RateLimiter {
    pub last_accepted_ms: u64,
}

/// Whether a message arriving at `now_ms` passes the throttle.
pub open spec fn spec_allowed(lim: RateLimiter, now_ms: u64, min_interval_ms: u64) -> bool {
    now_ms >= lim.last_accepted_ms + min_interval_ms
}

impl RateLimiter {
    /// A throttle whose clock starts at the session start time.
    pub fn new(start_ms: u64) -> (r: RateLimiter)
        ensures
            r.last_accepted_ms == start_ms,
    {
        RateLimiter { last_accepted_ms: start_ms }
    }

    /// Admit a message exactly when at least the minimum interval has
    /// passed since the last accepted one; a rejected message leaves the
    /// throttle unchanged.
    pub fn allow(&mut self, now_ms: u64, min_interval_ms: u64) -> (r: bool)
        ensures
            r == spec_allowed(*old(self), now_ms, min_interval_ms),
            r ==> final(self).last_accepted_ms == now_ms,
            !r ==> *final(self) == *old(self),
    {
        if now_ms >= self.last_accepted_ms && now_ms - self.last_accepted_ms >= min_interval_ms {
            self.last_accepted_ms = now_ms;
            true
        } else {
            false
        }
    }
}

/// One live connection's server-side state.
pub struct Session {
    pub identity: u64,
    pub limiter: RateLimiter,
    pub receiver: Subscriber,
    pub phase: SessionPhase,
}

/// What one inbound text frame led to: dropped by the throttle, counted
/// as a vote, or the end of this session.
#[derive(Clone, Copy, PartialEq, Eq, Structural, Debug)]
pub enum InboundOutcome {
    Dropped,
    Voted,
    Terminate(CloseReason),
}

/// A transport-level event observed by the connection's tasks.
#[derive(Clone, Copy, PartialEq, Eq, Structural, Debug)]
pub enum TransportEvent {
    ReadError,
    WriteError,
    TimerFired,
}

/// The close reason a transport event carries.
pub open spec fn spec_reason_for(ev: TransportEvent) -> CloseReason {
    match ev {
        TransportEvent::ReadError => CloseReason::WebSocketError,
        TransportEvent::WriteError => CloseReason::WebSocketSendError,
        TransportEvent::TimerFired => CloseReason::Timeout,
    }
}

/// Admit a new connection of `identity`: the decision and the counter
/// increment are one step against the admission map, and a rejected
/// connection allocates nothing and touches no shared state.
pub fn open_session(state: &mut AppState, identity: u64, now_ms: u64) -> (r: Option<Session>)
    requires
        old(state).wf(),
        old(state).concurrent_users < u64::MAX,
        old(state).total_users < u64::MAX,
    ensures
        final(state).wf(),
        final(state).config == old(state).config,
        final(state).counters == old(state).counters,
        final(state).hub == old(state).hub,
        r is Some <==> old(state).connection_map.count(identity) < old(
            state,
        ).config.max_connections_per_ip as nat,
        r is None ==> *final(state) == *old(state),
        r matches Some(sess) ==> final(state).connection_map.count(identity) == old(
            state,
        ).connection_map.count(identity) + 1 && final(state).connection_map.has_entry(identity)
            && (forall|id2: u64|
            id2 != identity ==> final(state).connection_map.count(id2) == old(
                state,
            ).connection_map.count(id2) && final(state).connection_map.has_entry(id2) == old(
                state,
            ).connection_map.has_entry(id2)) && final(state).concurrent_users == old(
            state,
        ).concurrent_users + 1 && final(state).total_users == old(state).total_users + 1
            && sess.identity == identity && sess.phase == SessionPhase::Admitted
            && sess.receiver.next == old(state).hub.published && sess.limiter.last_accepted_ms
            == now_ms,
{
    let limit = state.config.max_connections_per_ip;
    if state.connection_map.try_admit(identity, limit) {
        state.concurrent_users = state.concurrent_users + 1;
        state.total_users = state.total_users + 1;
        let receiver = state.hub.subscribe();
        Some(
            Session {
                identity,
                limiter: RateLimiter::new(now_ms),
                receiver,
                phase: SessionPhase::Admitted,
            },
        )
    } else {
        None
    }
}

/// Move an admitted session to active: broadcast the join notification to
/// every subscriber, and hand back the private initial snapshot for this
/// session alone — it is never published, so no other session can
/// observe it.
pub fn activate(session: &mut Session, state: &mut AppState) -> (direct: String)
    requires
        old(session).phase == SessionPhase::Admitted,
        old(state).wf(),
        old(state).hub.published < u64::MAX,
    ensures
        final(state).wf(),
        final(session).identity == old(session).identity,
        final(session).limiter == old(session).limiter,
        final(session).receiver == old(session).receiver,
        final(session).phase == SessionPhase::Active,
        final(state).counters == old(state).counters,
        final(state).concurrent_users == old(state).concurrent_users,
        final(state).total_users == old(state).total_users,
        final(state).connection_map == old(state).connection_map,
        final(state).config == old(state).config,
        final(state).hub.published == old(state).hub.published + 1,
        final(state).hub.capacity == old(state).hub.capacity,
        final(state).hub.history@ == old(state).hub.history@.push(
            spec_join_message(old(state).total_users as nat),
        ),
        direct@ == spec_initial_message(old(state).total_users as nat, old(state).counters),
{
    let join = join_message(state.total_users);
    state.hub.publish(join);
    let direct = initial_message(state.total_users, &state.counters);
    session.phase = SessionPhase::Active;
    direct
}

/// Apply one inbound text frame to the session and the shared state:
/// throttled frames are dropped silently; an oversized payload or an
/// unrecognized token ends this session, mutating nothing; a valid
/// category token counts one vote and broadcasts the update event.
pub fn handle_inbound(
    session: &mut Session,
    state: &mut AppState,
    payload: &str,
    now_ms: u64,
) -> (r: InboundOutcome)
    requires
        old(session).phase == SessionPhase::Active,
        old(state).wf(),
        old(state).has_headroom(),
    ensures
        final(state).wf(),
        final(state).config == old(state).config,
        final(state).connection_map == old(state).connection_map,
        final(state).concurrent_users == old(state).concurrent_users,
        final(state).total_users == old(state).total_users,
        final(session).identity == old(session).identity,
        final(session).receiver == old(session).receiver,
        !spec_allowed(old(session).limiter, now_ms, old(state).config.msg_delay_ms as u64) ==> r
            == InboundOutcome::Dropped && *final(session) == *old(session) && *final(state) == *old(
            state,
        ),
        spec_allowed(old(session).limiter, now_ms, old(state).config.msg_delay_ms as u64) ==> {
            &&& final(session).limiter.last_accepted_ms == now_ms
            &&& if payload.len() > MAX_BYTES as usize {
                &&& r == InboundOutcome::Terminate(CloseReason::PayloadTooLarge)
                &&& final(session).phase == SessionPhase::Terminating(CloseReason::PayloadTooLarge)
                &&& final(state).counters == old(state).counters
                &&& final(state).hub == old(state).hub
            } else {
                match spec_parse_color(payload@) {
                    None => {
                        &&& r == InboundOutcome::Terminate(CloseReason::InvalidColor)
                        &&& final(session).phase == SessionPhase::Terminating(
                            CloseReason::InvalidColor,
                        )
                        &&& final(state).counters == old(state).counters
                        &&& final(state).hub == old(state).hub
                    },
                    Some(c) => {
                        &&& r == InboundOutcome::Voted
                        &&& final(session).phase == SessionPhase::Active
                        &&& final(state).counters == spec_vote(old(state).counters, c)
                        &&& final(state).hub.published == old(state).hub.published + 1
                        &&& final(state).hub.capacity == old(state).hub.capacity
                        &&& final(state).hub.history@ == old(state).hub.history@.push(
                            spec_update_message(
                                c,
                                (old(state).counters.spec_count(c) + 1) as nat,
                                (old(state).counters.total + 1) as nat,
                            ),
                        )
                    },
                }
            }
        },
{
    if !session.limiter.allow(now_ms, state.config.msg_delay_ms as u64) {
        return InboundOutcome::Dropped;
    }
    if payload.len() > MAX_BYTES as usize {
        session.phase = SessionPhase::Terminating(CloseReason::PayloadTooLarge);
        return InboundOutcome::Terminate(CloseReason::PayloadTooLarge);
    }
    match parse_color(payload) {
        None => {
            session.phase = SessionPhase::Terminating(CloseReason::InvalidColor);
            InboundOutcome::Terminate(CloseReason::InvalidColor)
        },
        Some(c) => {
            let n = state.counters.increment(c);
            let t = state.counters.increment_total();
            let update = update_message(c, n, t);
            state.hub.publish(update);
            proof {
                let c0 = old(state).counters;
                assert(state.counters.spec_count(Color::Red) == (if c == Color::Red {
                    (c0.spec_count(Color::Red) + 1) as u64
                } else {
                    c0.spec_count(Color::Red)
                }));
                assert(state.counters.spec_count(Color::Green) == (if c == Color::Green {
                    (c0.spec_count(Color::Green) + 1) as u64
                } else {
                    c0.spec_count(Color::Green)
                }));
                assert(state.counters.spec_count(Color::Blue) == (if c == Color::Blue {
                    (c0.spec_count(Color::Blue) + 1) as u64
                } else {
                    c0.spec_count(Color::Blue)
                }));
                assert(state.counters.spec_count(Color::Purple) == (if c == Color::Purple {
                    (c0.spec_count(Color::Purple) + 1) as u64
                } else {
                    c0.spec_count(Color::Purple)
                }));
                assert(state.counters.total == c0.total + 1);
                assert(state.counters =~= spec_vote(c0, c));
            }
            InboundOutcome::Voted
        },
    }
}

/// Record a transport event — a read error, a write error or the idle
/// timer firing — as the end of this session, with its close reason.
pub fn handle_transport(session: &mut Session, ev: TransportEvent) -> (r: CloseReason)
    requires
        old(session).phase == SessionPhase::Active,
    ensures
        r == spec_reason_for(ev),
        final(session).phase == SessionPhase::Terminating(r),
        final(session).identity == old(session).identity,
        final(session).limiter == old(session).limiter,
        final(session).receiver == old(session).receiver,
{
    let reason = match ev {
        TransportEvent::ReadError => CloseReason::WebSocketError,
        TransportEvent::WriteError => CloseReason::WebSocketSendError,
        TransportEvent::TimerFired => CloseReason::Timeout,
    };
    session.phase = SessionPhase::Terminating(reason);
    reason
}

/// Close a session on every exit path: release its admission slot —
/// removing the identity's entry when this was its last session — and
/// drop the live-user gauge. When the session was terminating with a
/// reason, the close-frame text to send (best effort) is returned.
pub fn close_session(session: &mut Session, state: &mut AppState) -> (r: Option<String>)
    requires
        old(state).wf(),
        !(old(session).phase matches SessionPhase::Closed),
        old(state).connection_map.count(old(session).identity) > 0,
        old(state).concurrent_users > 0,
    ensures
        final(state).wf(),
        final(session).phase == SessionPhase::Closed,
        final(session).identity == old(session).identity,
        final(session).limiter == old(session).limiter,
        final(session).receiver == old(session).receiver,
        final(state).counters == old(state).counters,
        final(state).hub == old(state).hub,
        final(state).config == old(state).config,
        final(state).total_users == old(state).total_users,
        final(state).concurrent_users == old(state).concurrent_users - 1,
        final(state).connection_map.count(old(session).identity) == old(
            state,
        ).connection_map.count(old(session).identity) - 1,
        final(state).connection_map.has_entry(old(session).identity) == (old(
            state,
        ).connection_map.count(old(session).identity) > 1),
        forall|id2: u64|
            id2 != old(session).identity ==> final(state).connection_map.count(id2) == old(
                state,
            ).connection_map.count(id2) && final(state).connection_map.has_entry(id2) == old(
                state,
            ).connection_map.has_entry(id2),
        old(session).phase matches SessionPhase::Terminating(reason) ==> (r matches Some(t) && t@
            == spec_reason_text(reason)),
        !(old(session).phase matches SessionPhase::Terminating(_)) ==> r is None,
{
    let r = match session.phase {
        SessionPhase::Terminating(reason) => Some(reason.text()),
        _ => None,
    };
    state.connection_map.release(session.identity);
    state.concurrent_users = state.concurrent_users - 1;
    session.phase = SessionPhase::Closed;
    r
}

} // verus!

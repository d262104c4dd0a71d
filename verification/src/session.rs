//! The per-session liveness state machine.
//!
//! A session moves `Starting -> Active -> Terminated` and never back. While
//! `Active` it answers pings, echoes application frames, refreshes its
//! last-seen clock on liveness-bearing frames, and on every probe tick
//! either sends a probe or, when the peer has been silent for longer than
//! the timeout threshold, terminates. The transport performs the returned
//! [`Action`]s and feeds frames, errors and ticks back in; it never decides.

use vstd::prelude::*;
use crate::messages::{Action, Frame, SessionEvent, WebsocketMessage};

verus! {

/// How often the peer is probed, in milliseconds.
pub const HEARTBEAT_INTERVAL_MS: u64 = 5000;

/// How long the peer may stay silent before the session terminates, in
/// milliseconds.
pub const CLIENT_TIMEOUT_MS: u64 = 10000;

/// The recognized liveness options of one session.
#[derive(Clone, Copy, PartialEq, Eq, Structural, Debug)]
pub struct SessionConfig {
    /// Milliseconds between two probe ticks; informational to the state
    /// machine itself, which is driven by the caller's timer.
    pub probe_interval: u64,
    /// Silence longer than this many milliseconds terminates the session.
    pub timeout_threshold: u64,
    /// Permissive liveness policy: when set, any application frame (text or
    /// binary) refreshes the last-seen clock, not only probe traffic.
    pub refresh_on_any_frame: bool,
}

impl Default for SessionConfig {
    /// The reference configuration: probe every 5 time units, terminate
    /// after 10 units of silence, permissive liveness policy.
    fn default() -> (c: SessionConfig)
        ensures
            c.probe_interval == HEARTBEAT_INTERVAL_MS,
            c.timeout_threshold == CLIENT_TIMEOUT_MS,
            c.refresh_on_any_frame,
    {
        SessionConfig {
            probe_interval: HEARTBEAT_INTERVAL_MS,
            timeout_threshold: CLIENT_TIMEOUT_MS,
            refresh_on_any_frame: true,
        }
    }
}

/// The three lifecycle states of a session; `Terminated` is terminal.
#[derive(Clone, Copy, PartialEq, Eq, Structural, Debug)]
pub enum SessionState {
    Starting,
    Active,
    Terminated,
}

/// Whether `frame` refreshes the last-seen clock under `cfg`: probe traffic
/// always does, application frames only under the permissive policy.
pub open spec fn frame_refreshes(cfg: SessionConfig, frame: Frame) -> bool {
    match frame {
        Frame::Ping(_) => true,
        Frame::Pong(_) => true,
        Frame::Text(_) => cfg.refresh_on_any_frame,
        Frame::Binary(_) => cfg.refresh_on_any_frame,
        Frame::Close(_) => false,
        Frame::Continuation => false,
        Frame::Nop => false,
    }
}

/// Whether an inbound `frame` ends the session: an explicit close does, and
/// so does a continuation frame, which this hub does not accept.
pub open spec fn frame_terminates(frame: Frame) -> bool {
    match frame {
        Frame::Close(_) => true,
        Frame::Continuation => true,
        _ => false,
    }
}

/// The state after `event` hits a session in state `st` whose last-seen
/// clock reads `last_seen`, at clock reading `now`. This is the whole
/// lifecycle: `Terminated` absorbs everything, `Starting` waits to be
/// started, and `Active` ends on a terminal frame, a transport error, or a
/// probe tick that finds the peer silent beyond the timeout threshold.
pub open spec fn next_state(
    cfg: SessionConfig,
    st: SessionState,
    last_seen: u64,
    now: u64,
    event: SessionEvent,
) -> SessionState {
    match st {
        SessionState::Terminated => SessionState::Terminated,
        SessionState::Starting => match event {
            SessionEvent::Started => SessionState::Active,
            _ => SessionState::Starting,
        },
        SessionState::Active => match event {
            SessionEvent::Started => SessionState::Active,
            SessionEvent::ProbeTick => if now - last_seen > cfg.timeout_threshold {
                SessionState::Terminated
            } else {
                SessionState::Active
            },
            SessionEvent::Inbound(frame) => if frame_terminates(frame) {
                SessionState::Terminated
            } else {
                SessionState::Active
            },
            SessionEvent::TransportError => SessionState::Terminated,
        },
    }
}

/// The last-seen clock after `event`: it moves to `now` exactly when an
/// active session takes in a liveness-bearing frame, and stays put
/// otherwise.
pub open spec fn next_last_seen(
    cfg: SessionConfig,
    st: SessionState,
    last_seen: u64,
    now: u64,
    event: SessionEvent,
) -> u64 {
    if st == SessionState::Active && match event {
        SessionEvent::Inbound(frame) => frame_refreshes(cfg, frame),
        _ => false,
    } {
        now
    } else {
        last_seen
    }
}

/// The state and last-seen clock after a whole run of timed events.
pub open spec fn replay(
    cfg: SessionConfig,
    st: SessionState,
    last_seen: u64,
    events: Seq<(u64, SessionEvent)>,
) -> (SessionState, u64)
    decreases events.len(),
{
    if events.len() == 0 {
        (st, last_seen)
    } else {
        let st2 = next_state(cfg, st, last_seen, events[0].0, events[0].1);
        let l2 = next_last_seen(cfg, st, last_seen, events[0].0, events[0].1);
        replay(cfg, st2, l2, events.drop_first())
    }
}

/// Server-side state of one client connection: its identity, its liveness
/// clock and its lifecycle state. The transport owns the wire; this type
/// owns every decision about it.
pub struct WebsocketConnection {
    /// Unique session identifier.
    pub id: u128,
    /// Clock reading at the last liveness-bearing inbound signal.
    pub last_heartbeat: u64,
    /// Lifecycle state; never leaves `Terminated`.
    pub state: SessionState,
    /// The liveness options this session runs under.
    pub config: SessionConfig,
}

impl WebsocketConnection {
    /// A fresh session with a newly drawn random identifier, created at
    /// clock reading `now`. It starts in `Starting` and counts `now` as
    /// having heard from the peer.
    pub fn new(config: SessionConfig, now: u64) -> (s: WebsocketConnection)
        ensures
            s.state == SessionState::Starting,
            s.last_heartbeat == now,
            s.config == config,
    {
        WebsocketConnection { id: fresh_id(), last_heartbeat: now, state: SessionState::Starting, config }
    }

    /// The session is registered and its heartbeat timer is armed:
    /// `Starting` becomes `Active`.
    pub fn on_started(&mut self)
        ensures
            final(self).state == next_state(
                old(self).config,
                old(self).state,
                old(self).last_heartbeat,
                old(self).last_heartbeat,
                SessionEvent::Started,
            ),
            final(self).last_heartbeat == old(self).last_heartbeat,
            final(self).id == old(self).id,
            final(self).config == old(self).config,
    {
        if let SessionState::Starting = self.state {
            self.state = SessionState::Active;
        }
    }

    /// One probe tick at clock reading `now`: an active session that has
    /// heard nothing for longer than the timeout threshold terminates and
    /// sends nothing further; otherwise it probes the peer. Only an active
    /// session acts or sends.
    pub fn on_probe_tick(&mut self, now: u64) -> (actions: Vec<Action>)
        requires
            now >= old(self).last_heartbeat,
        ensures
            final(self).state == next_state(
                old(self).config,
                old(self).state,
                old(self).last_heartbeat,
                now,
                SessionEvent::ProbeTick,
            ),
            final(self).last_heartbeat == old(self).last_heartbeat,
            final(self).id == old(self).id,
            final(self).config == old(self).config,
            old(self).state == SessionState::Active
                && now - old(self).last_heartbeat > old(self).config.timeout_threshold
                ==> actions@.len() == 0,
            old(self).state == SessionState::Active
                && now - old(self).last_heartbeat <= old(self).config.timeout_threshold
                ==> actions@.len() == 1 && (actions@[0] matches Action::SendPing(p) && p@
                == probe_payload()),
            old(self).state != SessionState::Active ==> actions@.len() == 0,
    {
        let mut actions: Vec<Action> = Vec::new();
        if let SessionState::Active = self.state {
            if now - self.last_heartbeat > self.config.timeout_threshold {
                self.state = SessionState::Terminated;
            } else {
                let payload: Vec<u8> = vec![80u8, 73u8, 78u8, 71u8];
                assert(payload@ =~= probe_payload());
                actions.push(Action::SendPing(payload));
            }
        }
        actions
    }

    /// One inbound frame at clock reading `now`. An active session answers
    /// a ping with a pong, echoes text and binary frames back, refreshes
    /// its last-seen clock on liveness-bearing frames, acknowledges an
    /// explicit close and terminates on it, and terminates silently on a
    /// continuation frame. A session that is not active takes in nothing
    /// and sends nothing: frames cannot resurrect it.
    pub fn on_frame(&mut self, now: u64, frame: Frame) -> (actions: Vec<Action>)
        ensures
            final(self).state == next_state(
                old(self).config,
                old(self).state,
                old(self).last_heartbeat,
                now,
                SessionEvent::Inbound(frame),
            ),
            final(self).last_heartbeat == next_last_seen(
                old(self).config,
                old(self).state,
                old(self).last_heartbeat,
                now,
                SessionEvent::Inbound(frame),
            ),
            final(self).id == old(self).id,
            final(self).config == old(self).config,
            old(self).state == SessionState::Active ==> actions@ == frame_response(frame),
            old(self).state != SessionState::Active ==> actions@.len() == 0,
    {
        let mut actions: Vec<Action> = Vec::new();
        if let SessionState::Active = self.state {
            match frame {
                Frame::Ping(payload) => {
                    self.last_heartbeat = now;
                    actions.push(Action::SendPong(payload));
                },
                Frame::Pong(_) => {
                    self.last_heartbeat = now;
                },
                Frame::Text(text) => {
                    if self.config.refresh_on_any_frame {
                        self.last_heartbeat = now;
                    }
                    actions.push(Action::SendText(text));
                },
                Frame::Binary(bytes) => {
                    if self.config.refresh_on_any_frame {
                        self.last_heartbeat = now;
                    }
                    actions.push(Action::SendBinary(bytes));
                },
                Frame::Close(reason) => {
                    self.state = SessionState::Terminated;
                    actions.push(Action::SendClose(reason));
                },
                Frame::Continuation => {
                    self.state = SessionState::Terminated;
                },
                Frame::Nop => {},
            }
        }
        actions
    }

    /// The transport reported an error or end of stream: the session
    /// terminates at once and sends nothing further.
    pub fn on_transport_error(&mut self)
        ensures
            final(self).state == next_state(
                old(self).config,
                old(self).state,
                old(self).last_heartbeat,
                old(self).last_heartbeat,
                SessionEvent::TransportError,
            ),
            final(self).last_heartbeat == old(self).last_heartbeat,
            final(self).id == old(self).id,
            final(self).config == old(self).config,
    {
        if let SessionState::Active = self.state {
            self.state = SessionState::Terminated;
        }
    }

    /// The registry's fan-out reaches this session: an active session
    /// relays the payload to its peer as a text frame; a session in any
    /// other state drops it, a no-op rather than an error.
    pub fn deliver(&self, message: WebsocketMessage) -> (action: Option<Action>)
        ensures
            self.state == SessionState::Active ==> action == Some(
                Action::SendText(message.content),
            ),
            self.state != SessionState::Active ==> action is None,
    {
        if let SessionState::Active = self.state {
            Some(Action::SendText(message.content))
        } else {
            None
        }
    }
}

impl WebsocketConnection {
    /// Every exit path ends here: the session becomes `Terminated` and its
    /// id leaves the registry. Finding the id already gone is reported,
    /// not an error — a timeout may race an already-finished close.
    pub fn on_stopping(
        &mut self,
        registry: &mut crate::server::ImageServer,
    ) -> (r: Result<(), crate::messages::RegistryError>)
        requires
            old(registry).wf(),
        ensures
            final(self).state == SessionState::Terminated,
            final(self).id == old(self).id,
            final(self).last_heartbeat == old(self).last_heartbeat,
            final(self).config == old(self).config,
            final(registry).wf(),
            final(registry).ids() == old(registry).ids().remove(old(self).id),
            !final(registry).ids().contains(old(self).id),
            r == Ok::<(), crate::messages::RegistryError>(()) <==> old(registry).ids().contains(
                old(self).id,
            ),
            !old(registry).ids().contains(old(self).id) ==> r == Err::<
                (),
                crate::messages::RegistryError,
            >(crate::messages::RegistryError::NotFound),
    {
        self.state = SessionState::Terminated;
        let r = registry.deregister(self.id);
        proof {
            broadcast use vstd::set::group_set_axioms;

            if !old(registry).ids().contains(old(self).id) {
                assert(old(registry).ids().remove(old(self).id) =~= old(registry).ids());
            }
        }
        r
    }
}

/// Whether `event` ends an active session by itself: a transport error
/// does, and so does an inbound frame that terminates.
pub open spec fn event_terminates(event: SessionEvent) -> bool {
    match event {
        SessionEvent::TransportError => true,
        SessionEvent::Inbound(frame) => frame_terminates(frame),
        _ => false,
    }
}

/// No-resurrection law: a terminated session is terminal. Whatever run of
/// timed events follows — delivered frames, probe ticks, transport errors —
/// the session stays `Terminated` and its last-seen clock never moves; and
/// since only an active session sends, nothing is ever sent again.
pub proof fn lemma_no_resurrection(
    cfg: SessionConfig,
    last_seen: u64,
    events: Seq<(u64, SessionEvent)>,
)
    ensures
        replay(cfg, SessionState::Terminated, last_seen, events).0 == SessionState::Terminated,
        replay(cfg, SessionState::Terminated, last_seen, events).1 == last_seen,
    decreases events.len(),
{
    if events.len() > 0 {
        lemma_no_resurrection(cfg, last_seen, events.drop_first());
    }
}

/// Heartbeat timeout law, first half: a probe tick that finds the peer
/// silent for longer than the timeout threshold terminates the session.
pub proof fn lemma_timeout_terminates(cfg: SessionConfig, last_seen: u64, now: u64)
    requires
        now - last_seen > cfg.timeout_threshold,
    ensures
        next_state(cfg, SessionState::Active, last_seen, now, SessionEvent::ProbeTick)
            == SessionState::Terminated,
{
}

/// Heartbeat timeout law, second half: an active session whose peer never
/// goes quiet never times out. If no event of the run is itself terminal,
/// and every probe tick fires within the timeout threshold of the
/// session's last-seen clock at that moment, the session is still active
/// after the whole run, however long it is.
pub proof fn lemma_responsive_session_stays_active(
    cfg: SessionConfig,
    last_seen: u64,
    events: Seq<(u64, SessionEvent)>,
)
    requires
        forall|i: int|
            0 <= i < events.len() && (#[trigger] events[i]).1 == SessionEvent::ProbeTick
                ==> events[i].0 - replay(cfg, SessionState::Active, last_seen, events.take(i)).1
                <= cfg.timeout_threshold,
        forall|i: int| 0 <= i < events.len() ==> !event_terminates((#[trigger] events[i]).1),
    ensures
        replay(cfg, SessionState::Active, last_seen, events).0 == SessionState::Active,
    decreases events.len(),
{
    if events.len() > 0 {
        let e = events[0];
        assert(events.take(0) =~= Seq::<(u64, SessionEvent)>::empty());
        assert(!event_terminates(e.1));
        let st2 = next_state(cfg, SessionState::Active, last_seen, e.0, e.1);
        let l2 = next_last_seen(cfg, SessionState::Active, last_seen, e.0, e.1);
        assert(st2 == SessionState::Active);
        let tail = events.drop_first();
        assert forall|i: int|
            0 <= i < tail.len() && (#[trigger] tail[i]).1 == SessionEvent::ProbeTick
                implies tail[i].0 - replay(cfg, SessionState::Active, l2, tail.take(i)).1
                <= cfg.timeout_threshold by {
            assert(tail[i] == events[i + 1]);
            assert(events.take(i + 1).drop_first() =~= tail.take(i));
            assert(events.take(i + 1)[0] == e);
            assert(replay(cfg, SessionState::Active, last_seen, events.take(i + 1))
                == replay(cfg, SessionState::Active, l2, tail.take(i)));
        }
        assert forall|i: int| 0 <= i < tail.len() implies !event_terminates(
            (#[trigger] tail[i]).1,
        ) by {
            assert(tail[i] == events[i + 1]);
        }
        lemma_responsive_session_stays_active(cfg, l2, tail);
    }
}

/// Whether `event` refreshes an active session's last-seen clock under
/// `cfg`.
pub open spec fn event_refreshes(cfg: SessionConfig, event: SessionEvent) -> bool {
    match event {
        SessionEvent::Inbound(frame) => frame_refreshes(cfg, frame),
        _ => false,
    }
}

/// Heartbeat timeout law, stated over the peer's own traffic: in a run
/// with nondecreasing clock readings, none of which is itself terminal,
/// where every probe tick comes within the timeout threshold of the
/// session's creation or of some earlier liveness-bearing frame, the
/// session is still active after the whole run — a peer that answers every
/// probe promptly is never disconnected, however long the run.
pub proof fn lemma_prompt_peer_stays_active(
    cfg: SessionConfig,
    last_seen: u64,
    events: Seq<(u64, SessionEvent)>,
)
    requires
        forall|i: int, j: int|
            0 <= i <= j < events.len() ==> (#[trigger] events[i]).0 <= (#[trigger] events[j]).0,
        forall|i: int| 0 <= i < events.len() ==> (#[trigger] events[i]).0 >= last_seen,
        forall|i: int| 0 <= i < events.len() ==> !event_terminates((#[trigger] events[i]).1),
        forall|i: int|
            0 <= i < events.len() && (#[trigger] events[i]).1 == SessionEvent::ProbeTick
                ==> events[i].0 - last_seen <= cfg.timeout_threshold || exists|j: int|
                0 <= j < i && event_refreshes(cfg, (#[trigger] events[j]).1) && events[i].0
                    - events[j].0 <= cfg.timeout_threshold,
    ensures
        replay(cfg, SessionState::Active, last_seen, events).0 == SessionState::Active,
        replay(cfg, SessionState::Active, last_seen, events).1 >= last_seen,
    decreases events.len(),
{
    if events.len() > 0 {
        let e = events[0];
        assert(!event_terminates(e.1));
        if e.1 == SessionEvent::ProbeTick {
            assert(e.0 - last_seen <= cfg.timeout_threshold);
        }
        let st2 = next_state(cfg, SessionState::Active, last_seen, e.0, e.1);
        let l2 = next_last_seen(cfg, SessionState::Active, last_seen, e.0, e.1);
        assert(st2 == SessionState::Active);
        assert(l2 >= last_seen);
        let tail = events.drop_first();
        assert forall|i: int| 0 <= i < tail.len() implies (#[trigger] tail[i]).0 >= l2 by {
            assert(tail[i] == events[i + 1]);
        }
        assert forall|i: int, j: int| 0 <= i <= j < tail.len() implies (#[trigger] tail[i]).0
            <= (#[trigger] tail[j]).0 by {
            assert(tail[i] == events[i + 1]);
            assert(tail[j] == events[j + 1]);
        }
        assert forall|i: int| 0 <= i < tail.len() implies !event_terminates(
            (#[trigger] tail[i]).1,
        ) by {
            assert(tail[i] == events[i + 1]);
        }
        assert forall|i: int|
            0 <= i < tail.len() && (#[trigger] tail[i]).1 == SessionEvent::ProbeTick
                implies tail[i].0 - l2 <= cfg.timeout_threshold || exists|j: int|
                0 <= j < i && event_refreshes(cfg, (#[trigger] tail[j]).1) && tail[i].0
                    - tail[j].0 <= cfg.timeout_threshold by {
            assert(tail[i] == events[i + 1]);
            if events[i + 1].0 - last_seen <= cfg.timeout_threshold {
                assert(tail[i].0 - l2 <= cfg.timeout_threshold);
            } else {
                let j = choose|j: int|
                    0 <= j < i + 1 && event_refreshes(cfg, (#[trigger] events[j]).1) && events[i
                        + 1].0 - events[j].0 <= cfg.timeout_threshold;
                if j == 0 {
                    assert(l2 == e.0);
                    assert(tail[i].0 - l2 <= cfg.timeout_threshold);
                } else {
                    assert(tail[j - 1] == events[j]);
                    assert(event_refreshes(cfg, tail[j - 1].1) && tail[i].0 - tail[j - 1].0
                        <= cfg.timeout_threshold);
                }
            }
        }
        lemma_prompt_peer_stays_active(cfg, l2, tail);
    }
}

/// The bytes carried by every probe this hub sends.
pub open spec fn probe_payload() -> Seq<u8> {
    seq![80u8, 73u8, 78u8, 71u8]
}

/// The frames an active session sends back for one inbound frame: pong for
/// ping, echo for application frames, a close acknowledgment for a close,
/// nothing otherwise.
pub open spec fn frame_response(frame: Frame) -> Seq<Action> {
    match frame {
        Frame::Ping(payload) => seq![Action::SendPong(payload)],
        Frame::Pong(_) => seq![],
        Frame::Text(text) => seq![Action::SendText(text)],
        Frame::Binary(bytes) => seq![Action::SendBinary(bytes)],
        Frame::Close(reason) => seq![Action::SendClose(reason)],
        Frame::Continuation => seq![],
        Frame::Nop => seq![],
    }
}

/// Relies on uuid::Uuid::new_v4 (via Uuid::as_u128): a freshly drawn
/// random 128-bit identifier. Randomness promises no distinctness, so
/// nothing is stated of the result; the registry rejects a duplicate
/// explicitly instead.
#[verifier::external_body]
fn fresh_id() -> u128 {
    uuid::Uuid::new_v4().as_u128()
}

} // verus!

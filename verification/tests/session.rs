use broadcast_hub::handle::SendHandle;
use broadcast_hub::messages::{Action, CloseReason, Frame, RegistryError, WebsocketMessage};
use broadcast_hub::server::ImageServer;
use broadcast_hub::session::{
    SessionConfig, SessionState, WebsocketConnection, CLIENT_TIMEOUT_MS, HEARTBEAT_INTERVAL_MS,
};
use tokio::sync::mpsc::{channel, Receiver};

fn handle_pair() -> (SendHandle, Receiver<WebsocketMessage>) {
    let (tx, rx) = channel(8);
    (SendHandle::from_sender(tx), rx)
}

fn active_session(now: u64) -> WebsocketConnection {
    let mut conn = WebsocketConnection::new(SessionConfig::default(), now);
    conn.on_started();
    conn
}

#[test]
fn default_config_matches_reference_values() {
    let cfg = SessionConfig::default();
    assert_eq!(cfg.probe_interval, HEARTBEAT_INTERVAL_MS);
    assert_eq!(cfg.timeout_threshold, CLIENT_TIMEOUT_MS);
    assert_eq!(cfg.probe_interval, 5000);
    assert_eq!(cfg.timeout_threshold, 10000);
    assert!(cfg.refresh_on_any_frame);
}

#[test]
fn new_session_starts_in_starting() {
    let conn = WebsocketConnection::new(SessionConfig::default(), 123);
    assert_eq!(conn.state, SessionState::Starting);
    assert_eq!(conn.last_heartbeat, 123);
}

#[test]
fn started_session_becomes_active() {
    let conn = active_session(0);
    assert_eq!(conn.state, SessionState::Active);
}

#[test]
fn tick_sends_probe_while_peer_is_fresh() {
    let mut conn = active_session(0);
    let actions = conn.on_probe_tick(5000);
    assert_eq!(conn.state, SessionState::Active);
    assert_eq!(actions, vec![Action::SendPing(b"PING".to_vec())]);
}

#[test]
fn tick_at_exact_threshold_still_probes() {
    // silence of exactly the threshold is not "longer than" it
    let mut conn = active_session(0);
    let actions = conn.on_probe_tick(CLIENT_TIMEOUT_MS);
    assert_eq!(conn.state, SessionState::Active);
    assert_eq!(actions.len(), 1);
}

#[test]
fn silent_peer_times_out() {
    let mut conn = active_session(0);
    let actions = conn.on_probe_tick(CLIENT_TIMEOUT_MS + 1);
    assert_eq!(conn.state, SessionState::Terminated);
    assert!(actions.is_empty(), "no probe after the timeout decision");
}

#[test]
fn ping_is_answered_with_pong_and_refreshes() {
    let mut conn = active_session(0);
    let actions = conn.on_frame(3000, Frame::Ping(b"hey".to_vec()));
    assert_eq!(actions, vec![Action::SendPong(b"hey".to_vec())]);
    assert_eq!(conn.last_heartbeat, 3000);
    assert_eq!(conn.state, SessionState::Active);
}

#[test]
fn pong_refreshes_silently() {
    let mut conn = active_session(0);
    let actions = conn.on_frame(4000, Frame::Pong(Vec::new()));
    assert!(actions.is_empty());
    assert_eq!(conn.last_heartbeat, 4000);
}

#[test]
fn text_is_echoed() {
    let mut conn = active_session(0);
    let actions = conn.on_frame(1000, Frame::Text("hi there".to_string()));
    assert_eq!(actions, vec![Action::SendText("hi there".to_string())]);
    assert_eq!(conn.last_heartbeat, 1000, "permissive policy refreshes on text");
}

#[test]
fn binary_is_echoed() {
    let mut conn = active_session(0);
    let actions = conn.on_frame(1000, Frame::Binary(vec![1, 2, 3]));
    assert_eq!(actions, vec![Action::SendBinary(vec![1, 2, 3])]);
    assert_eq!(conn.last_heartbeat, 1000);
}

#[test]
fn strict_policy_ignores_application_frames_for_liveness() {
    let cfg = SessionConfig {
        refresh_on_any_frame: false,
        ..SessionConfig::default()
    };
    let mut conn = WebsocketConnection::new(cfg, 0);
    conn.on_started();
    conn.on_frame(1000, Frame::Text("chatter".to_string()));
    assert_eq!(conn.last_heartbeat, 0, "strict policy: text does not refresh");
    conn.on_frame(2000, Frame::Pong(Vec::new()));
    assert_eq!(conn.last_heartbeat, 2000, "strict policy: pong still refreshes");
}

#[test]
fn close_is_acknowledged_and_terminates() {
    let mut conn = active_session(0);
    let reason = Some(CloseReason {
        code: 1000,
        description: Some("bye".to_string()),
    });
    let actions = conn.on_frame(500, Frame::Close(reason.clone()));
    assert_eq!(actions, vec![Action::SendClose(reason)]);
    assert_eq!(conn.state, SessionState::Terminated);
}

#[test]
fn continuation_terminates_silently() {
    let mut conn = active_session(0);
    let actions = conn.on_frame(500, Frame::Continuation);
    assert!(actions.is_empty());
    assert_eq!(conn.state, SessionState::Terminated);
}

#[test]
fn nop_does_nothing() {
    let mut conn = active_session(0);
    let actions = conn.on_frame(500, Frame::Nop);
    assert!(actions.is_empty());
    assert_eq!(conn.state, SessionState::Active);
    assert_eq!(conn.last_heartbeat, 0);
}

#[test]
fn transport_error_terminates() {
    let mut conn = active_session(0);
    conn.on_transport_error();
    assert_eq!(conn.state, SessionState::Terminated);
}

#[test]
fn responsive_peer_never_times_out() {
    // the peer answers every probe well within the probe interval,
    // for a run far longer than the timeout threshold
    let mut conn = active_session(0);
    let mut now: u64 = 0;
    for _ in 0..200 {
        now += HEARTBEAT_INTERVAL_MS;
        let actions = conn.on_probe_tick(now);
        assert_eq!(actions.len(), 1, "every tick sends a probe");
        let answered = conn.on_frame(now + 1000, Frame::Pong(Vec::new()));
        assert!(answered.is_empty());
        now += 1000;
    }
    assert_eq!(conn.state, SessionState::Active);
}

#[test]
fn no_resurrection_after_termination() {
    let mut conn = active_session(0);
    conn.on_probe_tick(CLIENT_TIMEOUT_MS + 1);
    assert_eq!(conn.state, SessionState::Terminated);
    // a late probe response is discarded
    assert!(conn.on_frame(20000, Frame::Pong(Vec::new())).is_empty());
    assert_eq!(conn.state, SessionState::Terminated);
    assert_eq!(conn.last_heartbeat, 0, "a dead session's clock never moves");
    // inbound traffic of any kind neither acts nor revives
    assert!(conn.on_frame(21000, Frame::Text("knock".to_string())).is_empty());
    assert!(conn.on_probe_tick(22000).is_empty());
    assert_eq!(conn.state, SessionState::Terminated);
    // a delivery from the registry is a no-op, not an error
    let dropped = conn.deliver(WebsocketMessage {
        content: "late".to_string(),
    });
    assert!(dropped.is_none());
}

#[test]
fn deliver_relays_to_active_peer() {
    let conn = active_session(0);
    let action = conn.deliver(WebsocketMessage {
        content: "payload".to_string(),
    });
    assert_eq!(action, Some(Action::SendText("payload".to_string())));
}

#[test]
fn deliver_before_start_is_dropped() {
    let conn = WebsocketConnection::new(SessionConfig::default(), 0);
    let action = conn.deliver(WebsocketMessage {
        content: "early".to_string(),
    });
    assert!(action.is_none());
}

#[test]
fn timeout_disconnect_removes_session_from_registry() {
    // a client that never responds to probes is removed from the registry
    // within probe_interval + timeout_threshold of its last frame, and a
    // later broadcast does not attempt delivery to it
    let mut reg = ImageServer::new();
    let (h, mut rx) = handle_pair();
    let mut conn = active_session(0);
    assert!(reg.register(conn.id, h).is_ok());

    let mut now: u64 = 0;
    let mut removed_at: Option<u64> = None;
    while removed_at.is_none() {
        now += HEARTBEAT_INTERVAL_MS;
        conn.on_probe_tick(now);
        if conn.state == SessionState::Terminated {
            assert!(conn.on_stopping(&mut reg).is_ok());
            removed_at = Some(now);
        }
    }
    assert!(removed_at.unwrap() <= HEARTBEAT_INTERVAL_MS + CLIENT_TIMEOUT_MS);
    assert_eq!(reg.len(), 0);
    assert_eq!(
        reg.broadcast(&WebsocketMessage {
            content: "anyone?".to_string()
        }),
        0
    );
    assert!(rx.try_recv().is_err());
}

#[test]
fn broadcast_reaches_the_wire_as_one_text_frame() {
    // the whole fan-out path: broadcast enqueues on the session's handle,
    // the session drains its queue and relays exactly one text frame
    let mut reg = ImageServer::new();
    let (h, mut rx) = handle_pair();
    let conn = active_session(0);
    assert!(reg.register(conn.id, h).is_ok());
    assert_eq!(
        reg.broadcast(&WebsocketMessage {
            content: "hello".to_string()
        }),
        1
    );
    let queued = rx.try_recv().expect("one delivery queued");
    let action = conn.deliver(queued);
    assert_eq!(action, Some(Action::SendText("hello".to_string())));
    assert!(rx.try_recv().is_err(), "exactly one frame was queued");
}

#[test]
fn stopping_twice_is_harmless() {
    let mut reg = ImageServer::new();
    let (h, _rx) = handle_pair();
    let mut conn = active_session(0);
    assert!(reg.register(conn.id, h).is_ok());
    assert_eq!(conn.on_stopping(&mut reg), Ok(()));
    // the id is already gone; stopping again reports NotFound, nothing worse
    assert_eq!(conn.on_stopping(&mut reg), Err(RegistryError::NotFound));
    assert_eq!(conn.state, SessionState::Terminated);
}

#[test]
fn sessions_draw_distinct_random_ids() {
    let a = WebsocketConnection::new(SessionConfig::default(), 0);
    let b = WebsocketConnection::new(SessionConfig::default(), 0);
    assert_ne!(a.id, b.id);
}

use iroh_rpc::agent::{AgentReply, AgentRequest, AgentState};
use iroh_rpc::protocol::{AgentMessage, GetStatus, Notice, SendMsg, Subscribe};

fn msg(from: &str, content: &str) -> SendMsg {
    SendMsg {
        message: AgentMessage {
            from: from.to_string(),
            content: content.to_string(),
            timestamp: "2024-01-01T00:00:00+00:00".to_string(),
        },
    }
}

fn kinds(ns: &[Notice]) -> Vec<String> {
    ns.iter().map(|n| n.kind()).collect()
}

#[test]
fn first_message_announces_join_then_receipt() {
    let mut st = AgentState::new("me".to_string(), 0);
    let (ack, notices) = st.handle_send_msg(msg("A", "hi"));
    assert!(ack.ack);
    assert_eq!(ack.agent_id, "me");
    assert_eq!(kinds(&notices), vec!["peer_joined", "message_received"]);
    assert_eq!(st.peer_ids(), vec!["A".to_string()]);
}

#[test]
fn repeated_sender_joins_once() {
    let mut st = AgentState::new("me".to_string(), 0);
    let mut joined = 0;
    for from in ["A", "B", "A", "A", "B", "C"] {
        let (_, notices) = st.handle_send_msg(msg(from, "x"));
        let k = kinds(&notices);
        assert_eq!(k.last().unwrap(), "message_received");
        joined += k.iter().filter(|s| *s == "peer_joined").count();
    }
    assert_eq!(joined, 3);
    let mut ids = st.peer_ids();
    ids.sort();
    assert_eq!(ids, vec!["A".to_string(), "B".to_string(), "C".to_string()]);
}

#[test]
fn add_peer_is_idempotent() {
    let mut st = AgentState::new("me".to_string(), 0);
    assert!(st.add_peer("P").is_some());
    assert!(st.add_peer("P").is_none());
    assert!(st.contains_peer("P"));
    assert!(!st.contains_peer("Q"));
    assert_eq!(st.peer_ids().len(), 1);
}

#[test]
fn record_peer_keeps_first_time() {
    let mut st = AgentState::new("me".to_string(), 0);
    match st.record_peer("P", "t1".to_string()) {
        Some(Notice::PeerJoined { endpoint_id, connected_at }) => {
            assert_eq!(endpoint_id, "P");
            assert_eq!(connected_at, "t1");
        }
        _ => panic!("expected a join"),
    }
    assert!(st.record_peer("P", "t2".to_string()).is_none());
}

#[test]
fn status_reports_peers_and_uptime() {
    let mut st = AgentState::new("me".to_string(), 10);
    st.handle_send_msg(msg("A", "x"));
    let s = st.handle_get_status(GetStatus, 15);
    assert_eq!(s.agent_id, "me");
    assert_eq!(s.peers, vec!["A".to_string()]);
    assert_eq!(s.uptime_secs, 5);
    assert_eq!(st.handle_get_status(GetStatus, 3).uptime_secs, 0);
}

#[test]
fn uptime_never_decreases() {
    let st = AgentState::new("me".to_string(), 100);
    let mut last = 0;
    for now in [100u64, 101, 101, 250, 1000] {
        let u = st.handle_get_status(GetStatus, now).uptime_secs;
        assert!(u >= last);
        last = u;
    }
    assert_eq!(last, 900);
}

#[test]
fn subscribers_get_positions_in_order() {
    let mut st = AgentState::new("me".to_string(), 0);
    assert_eq!(st.subscriber_count(), 0);
    assert_eq!(st.handle_subscribe(Subscribe), 0);
    assert_eq!(st.handle_subscribe(Subscribe), 1);
    assert_eq!(st.subscriber_count(), 2);
}

#[test]
fn late_subscriber_gets_only_later_notices() {
    // Each notice goes to the subscribers present when it is emitted.
    let mut st = AgentState::new("me".to_string(), 0);
    let mut delivered = vec![0usize; 2];
    let (_, ns) = st.handle_send_msg(msg("A", "1"));
    assert_eq!(ns.len(), 2);
    for _ in &ns {
        for d in delivered.iter_mut().take(st.subscriber_count()) {
            *d += 1;
        }
    }
    st.handle_subscribe(Subscribe);
    for m in ["2", "3", "4"] {
        let (_, ns) = st.handle_send_msg(msg("A", m));
        for _ in &ns {
            for d in delivered.iter_mut().take(st.subscriber_count()) {
                *d += 1;
            }
        }
    }
    assert_eq!(delivered, vec![3, 0]);
}

#[test]
fn handle_request_dispatches_each_kind() {
    let mut st = AgentState::new("me".to_string(), 0);
    match st.handle_request(AgentRequest::SendMsg(msg("A", "x")), 0) {
        (AgentReply::Ack(a), ns) => {
            assert!(a.ack);
            assert_eq!(ns.len(), 2);
        }
        _ => panic!("expected an ack"),
    }
    match st.handle_request(AgentRequest::Subscribe(Subscribe), 0) {
        (AgentReply::Subscribed(i), ns) => {
            assert_eq!(i, 0);
            assert!(ns.is_empty());
        }
        _ => panic!("expected a subscription"),
    }
    match st.handle_request(AgentRequest::GetStatus(GetStatus), 9) {
        (AgentReply::Status(s), ns) => {
            assert_eq!(s.peers, vec!["A".to_string()]);
            assert_eq!(s.uptime_secs, 9);
            assert!(ns.is_empty());
        }
        _ => panic!("expected a status"),
    }
}

#[test]
fn notice_data_and_event_line() {
    let n = Notice::PeerJoined { endpoint_id: "a\"b".to_string(), connected_at: "t".to_string() };
    assert_eq!(n.kind(), "peer_joined");
    assert_eq!(n.data(), r#"{"endpoint_id":"a\"b","timestamp":"t"}"#);
    let e = n.to_event("ts".to_string());
    assert_eq!(
        e.line(),
        r#"{"data":{"endpoint_id":"a\"b","timestamp":"t"},"event":"peer_joined","timestamp":"ts","type":"event"}"#
    );
    let m = Notice::MessageReceived {
        message: AgentMessage { from: "F".to_string(), content: "c".to_string(), timestamp: "t".to_string() },
    };
    assert_eq!(m.kind(), "message_received");
    assert_eq!(m.data(), r#"{"content":"c","from":"F","timestamp":"t"}"#);
    let e = m.emit_event();
    assert!(!e.timestamp.is_empty());
    assert_eq!(e.kind, "message_received");
}

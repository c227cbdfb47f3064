use iroh_rpc::identity::secret_key_from_file;
use iroh_rpc::cache::{Lookup, PeerCache};
use iroh_rpc::command::{
    broadcast_data, connect_data, greeting, outgoing, peers_data, plan_command, send_data,
    shutdown_data, status_data, BroadcastRun, Command, Flow, PeerOutcome, Response, Step,
};
use iroh_rpc::transfer::{decode_share_bytes, fetch_data, share_data, share_files_data, ShareOutcome, SharedFile};

const BASEPOINT: &str = "5866666666666666666666666666666666666666666666666666666666666666";

#[test]
fn shutdown_answers_and_stops() {
    let (step, flow) = plan_command(Command::Shutdown { id: "x".to_string() });
    assert!(matches!(flow, Flow::Stop));
    match step {
        Step::Reply { response } => {
            assert_eq!(response.line(), r#"{"id":"x","type":"response","success":true,"data":{"shutdown":true}}"#);
        }
        _ => panic!("expected a reply"),
    }
}

#[test]
fn other_commands_continue() {
    let (step, flow) = plan_command(Command::Status { id: "1".to_string() });
    assert!(matches!(flow, Flow::Continue));
    assert!(matches!(step, Step::Status));
    let (step, _) = plan_command(Command::Send {
        id: "2".to_string(),
        endpoint_id: "E".to_string(),
        message: "m".to_string(),
    });
    match step {
        Step::Send { endpoint_id, message } => {
            assert_eq!(endpoint_id, "E");
            assert_eq!(message, "m");
        }
        _ => panic!("expected a send"),
    }
    let (step, flow) = plan_command(Command::Fetch { id: "3".to_string(), ticket: "t".to_string() });
    assert!(matches!(flow, Flow::Continue));
    assert!(matches!(step, Step::Fetch { ticket } if ticket == "t"));
}

#[test]
fn malformed_line_answers_unknown() {
    let r = Response::unknown("expected value at line 1 column 1".to_string());
    assert_eq!(r.id, "unknown");
    assert!(!r.success);
    assert_eq!(
        r.line(),
        r#"{"id":"unknown","type":"response","success":false,"error":"expected value at line 1 column 1"}"#
    );
}

#[test]
fn outcome_becomes_envelope() {
    let ok = Response::from_outcome("a".to_string(), Ok(shutdown_data()));
    assert!(ok.success);
    assert_eq!(ok.line(), r#"{"id":"a","type":"response","success":true,"data":{"shutdown":true}}"#);
    let err = Response::from_outcome("b".to_string(), Err("boom".to_string()));
    assert_eq!(err.line(), r#"{"id":"b","type":"response","success":false,"error":"boom"}"#);
}

#[test]
fn broadcast_reports_each_peer() {
    let mut run = BroadcastRun::new(vec!["A".to_string(), "B".to_string()]);
    assert_eq!(run.next_peer().as_deref(), Some("A"));
    run.record(None);
    assert_eq!(run.next_peer().as_deref(), Some("B"));
    run.record(Some("unreachable".to_string()));
    assert_eq!(run.next_peer(), None);
    let data = run.finish();
    assert_eq!(
        data,
        r#"{"broadcast":true,"results":[{"endpoint_id":"A","success":true},{"endpoint_id":"B","error":"unreachable","success":false}]}"#
    );
    let r = Response::from_outcome("b".to_string(), Ok(data));
    assert!(r.success);
}

#[test]
fn broadcast_to_nobody() {
    assert_eq!(broadcast_data(&vec![]), r#"{"broadcast":true,"results":[]}"#);
    let one = vec![PeerOutcome { endpoint_id: "P".to_string(), error: None }];
    assert_eq!(broadcast_data(&one), r#"{"broadcast":true,"results":[{"endpoint_id":"P","success":true}]}"#);
}

#[test]
fn status_data_text() {
    assert_eq!(
        status_data("me", None, 2, 7),
        r#"{"endpoint_id":"me","peers":2,"relay_url":"none","uptime_secs":7}"#
    );
    assert_eq!(
        status_data("me", Some("https://relay.example/".to_string()), 0, 1234567890123),
        r#"{"endpoint_id":"me","peers":0,"relay_url":"https://relay.example/","uptime_secs":1234567890123}"#
    );
}

#[test]
fn connect_and_send_data_text() {
    assert_eq!(connect_data("E", true), r#"{"ack":true,"connected":true,"endpoint_id":"E"}"#);
    assert_eq!(send_data("E", false), r#"{"ack":false,"endpoint_id":"E","sent":true}"#);
}

#[test]
fn outgoing_messages() {
    let g = greeting("me".to_string());
    assert_eq!(g.from, "me");
    assert_eq!(g.content, "hello");
    assert!(!g.timestamp.is_empty());
    let m = outgoing("me".to_string(), "hi".to_string());
    assert_eq!(m.content, "hi");
}

#[test]
fn peers_data_text() {
    assert_eq!(peers_data(&vec![]), r#"{"count":0,"peers":[]}"#);
    assert_eq!(
        peers_data(&vec!["A".to_string(), "B".to_string()]),
        r#"{"count":2,"peers":["A","B"]}"#
    );
}

#[test]
fn share_bytes_round_trip_data() {
    let bytes = decode_share_bytes("aGVsbG8=").unwrap();
    assert_eq!(bytes, b"hello".to_vec());
    assert_eq!(
        fetch_data("h", bytes),
        r#"{"data_b64":"aGVsbG8=","hash":"h","size":5,"text":"hello"}"#
    );
}

#[test]
fn share_bytes_plan_decodes() {
    let (step, _) = plan_command(Command::ShareBytes { id: "s".to_string(), data: "aGk=".to_string() });
    assert!(matches!(step, Step::ShareBytes { bytes } if bytes == b"hi".to_vec()));
}

#[test]
fn invalid_base64_is_rejected() {
    assert_eq!(decode_share_bytes("not base64!"), Err("invalid base64".to_string()));
    let (step, flow) = plan_command(Command::ShareBytes { id: "s".to_string(), data: "%%%".to_string() });
    assert!(matches!(flow, Flow::Continue));
    match step {
        Step::Reply { response } => {
            assert_eq!(response.line(), r#"{"id":"s","type":"response","success":false,"error":"invalid base64"}"#);
        }
        _ => panic!("expected a reply"),
    }
}

#[test]
fn fetch_data_of_binary_has_null_text() {
    assert_eq!(
        fetch_data("h", vec![0xff, 0xfe]),
        r#"{"data_b64":"//4=","hash":"h","size":2,"text":null}"#
    );
    assert_eq!(fetch_data("h", vec![]), r#"{"data_b64":"","hash":"h","size":0,"text":""}"#);
}

#[test]
fn share_data_text() {
    assert_eq!(share_data("T", "H", "Raw"), r#"{"format":"Raw","hash":"H","ticket":"T"}"#);
}

#[test]
fn share_files_reports_each_path() {
    let items = vec![
        SharedFile {
            path: "/a".to_string(),
            outcome: ShareOutcome::Shared { ticket: "T".to_string(), hash: "H".to_string() },
        },
        SharedFile::missing("/b".to_string()),
    ];
    assert_eq!(
        share_files_data(&items),
        r#"{"shared":[{"hash":"H","path":"/a","ticket":"T"},{"error":"file not found","path":"/b"}]}"#
    );
}

#[test]
fn cache_rejects_malformed_identity() {
    let cache: PeerCache<u32> = PeerCache::new();
    match cache.lookup("not-a-key") {
        Lookup::Invalid(e) => assert_eq!(e, "Invalid endpoint_id"),
        _ => panic!("expected a validation error"),
    }
    assert!(matches!(cache.lookup(""), Lookup::Invalid(_)));
    assert_eq!(cache.len(), 0);
}

#[test]
fn cache_keeps_one_client_per_identity() {
    let mut cache: PeerCache<u32> = PeerCache::new();
    assert!(matches!(cache.lookup(BASEPOINT), Lookup::Create(_)));
    let i = cache.insert_if_absent(BASEPOINT, 1);
    let j = cache.insert_if_absent(BASEPOINT, 2);
    assert_eq!(i, j);
    assert_eq!(*cache.get(i), 1);
    assert_eq!(cache.len(), 1);
    assert!(matches!(cache.lookup(BASEPOINT), Lookup::Cached(k) if k == i));
    let k = cache.insert_if_absent("other", 3);
    assert_eq!(k, 1);
    assert_eq!(cache.position("other"), Some(1));
    assert_eq!(cache.position("missing"), None);
}

#[test]
fn undecodable_line_is_answered_and_loop_continues() {
    let (step, flow) = iroh_rpc::command::plan_line(Err("missing field `id`".to_string()));
    assert!(matches!(flow, Flow::Continue));
    match step {
        Step::Reply { response } => {
            assert_eq!(
                response.line(),
                r#"{"id":"unknown","type":"response","success":false,"error":"Invalid command: missing field `id`"}"#
            );
        }
        _ => panic!("expected a reply"),
    }
    let (_, flow) = iroh_rpc::command::plan_line(Ok(Command::Shutdown { id: "x".to_string() }));
    assert!(matches!(flow, Flow::Stop));
}

#[test]
fn key_file_must_hold_32_bytes() {
    assert_eq!(secret_key_from_file(&vec![7u8; 31]).err(), Some("Invalid key file length".to_string()));
    assert!(secret_key_from_file(&vec![]).is_err());
    let key = secret_key_from_file(&vec![7u8; 32]).unwrap();
    assert_eq!(key.to_bytes(), [7u8; 32]);
}

use connie::handshake::{
    client_start, client_step, server_step, ClientAction, ClientHandshake, ServerEvent,
    ServerHandshake, Wire,
};
use connie::host::HostRecord;
use connie::text::text_bytes;

fn host(name: &str, cpid: &str, host: &str, pub_ip: &str) -> HostRecord {
    HostRecord {
        name: name.to_string(),
        cpid: cpid.to_string(),
        host: host.to_string(),
        port: 4443,
        pub_ip: pub_ip.to_string(),
        pri_ip: "192.168.1.5".to_string(),
    }
}

fn frame(w: &Wire) -> Vec<u8> {
    match w {
        Wire::Frame(v) => v.clone(),
        Wire::Byte(b) => panic!("expected a frame, got byte {b}"),
    }
}

fn byte(w: &Wire) -> u8 {
    match w {
        Wire::Byte(b) => *b,
        Wire::Frame(_) => panic!("expected a byte"),
    }
}

/// Runs both sides against each other; returns (server result, client result, client actions).
fn run(rec: &HostRecord, id: &HostRecord, lookup: Option<String>) -> (ServerHandshake, u8, Vec<ClientAction>) {
    let (mut c, first) = client_start(rec);
    let (s, out) = server_step(id, ServerHandshake::AwaitName, ServerEvent::Frame(frame(&first)));
    let mut acts = vec![];
    if let ServerHandshake::Done(_) = s {
        let (c1, a) = client_step(rec, c, Wire::Byte(byte(&out[0])));
        acts.extend(a);
        let r = match c1 { ClientHandshake::Done(r) => r, _ => panic!("client not done") };
        return (s, r, acts);
    }
    let (c1, _) = client_step(rec, c, Wire::Byte(byte(&out[0])));
    let (c2, a2) = client_step(rec, c1, Wire::Frame(frame(&out[1])));
    let ack = match &a2[0] { ClientAction::Send(w) => byte(w), _ => panic!() };
    acts.extend(a2);
    let (s2, out2) = server_step(id, s, ServerEvent::Byte(ack));
    let (c3, a3) = client_step(rec, c2, Wire::Frame(frame(&out2[0])));
    let verdict = match &a3[0] { ClientAction::Send(w) => byte(w), _ => panic!() };
    acts.extend(a3);
    let (s3, _) = server_step(id, s2, ServerEvent::Byte(verdict));
    let (s4, out4) = server_step(id, s3, ServerEvent::PublicIp(lookup));
    c = c3;
    if !out4.is_empty() {
        let (c4, a4) = client_step(rec, c, Wire::Frame(frame(&out4[0])));
        acts.extend(a4);
        c = c4;
    }
    let r = match c { ClientHandshake::Done(r) => r, other => panic!("client not done: {other:?}") };
    (s4, r, acts)
}

#[test]
fn handshake_agrees_with_the_right_server() {
    let id = host("alpha", "cp-1", "box", "1.2.3.4");
    let (s, c, acts) = run(&id.clone(), &id, None);
    assert_eq!(s, ServerHandshake::Done(0));
    assert_eq!(c, 0);
    assert!(!acts.iter().any(|a| matches!(a, ClientAction::UpdatePubIp(_))));
}

#[test]
fn handshake_stores_a_new_public_address() {
    let id = host("alpha", "cp-1", "box", "1.2.3.4");
    let (s, c, acts) = run(&id.clone(), &id, Some("5.6.7.8".to_string()));
    assert_eq!(s, ServerHandshake::Done(0));
    assert_eq!(c, 0);
    match acts.last() {
        Some(ClientAction::UpdatePubIp(ip)) => assert_eq!(ip, "5.6.7.8"),
        other => panic!("expected an update, got {other:?}"),
    }
}

#[test]
fn handshake_refuses_a_wrong_name() {
    let id = host("alpha", "cp-1", "box", "1.2.3.4");
    let rec = host("beta", "cp-1", "box", "1.2.3.4");
    let (s, c, _) = run(&rec, &id, None);
    assert_eq!(s, ServerHandshake::Done(1));
    assert_eq!(c, 1);
}

#[test]
fn handshake_refuses_a_wrong_id_and_says_same_machine() {
    let id = host("alpha", "cp-1", "box", "1.2.3.4");
    let rec = host("alpha", "cp-9", "box", "1.2.3.4");
    let (s, c, acts) = run(&rec, &id, None);
    assert_eq!(s, ServerHandshake::Done(1));
    assert_eq!(c, 1);
    assert!(acts.iter().any(|a| matches!(a, ClientAction::WrongServer(true))));
}

#[test]
fn handshake_sign_up_marker() {
    let id = host("alpha", "cp-1", "box", "1.2.3.4");
    let (s, out) = server_step(&id, ServerHandshake::AwaitName, ServerEvent::Frame(vec![2]));
    assert_eq!(s, ServerHandshake::Done(2));
    assert!(out.is_empty());
}

#[test]
fn unexpected_events_change_nothing() {
    let id = host("alpha", "cp-1", "box", "1.2.3.4");
    let (s, out) = server_step(&id, ServerHandshake::AwaitName, ServerEvent::Byte(0));
    assert_eq!(s, ServerHandshake::AwaitName);
    assert!(out.is_empty());
}

#[test]
fn lossy_text_replaces_invalid_bytes() {
    // the client reads the server's id as text, replacing invalid bytes
    let id = host("alpha", "cp-1", "box", "1.2.3.4");
    let (s, _) = client_step(&id, ClientHandshake::AwaitCpid, Wire::Frame(b"ab".to_vec()));
    assert!(matches!(&s, ClientHandshake::AwaitHost(c) if c == "ab"));
    let (s, _) = client_step(&id, ClientHandshake::AwaitCpid, Wire::Frame(vec![b'a', 0xff, b'b']));
    assert!(matches!(&s, ClientHandshake::AwaitHost(c) if c == "a\u{FFFD}b"));
    // the server compares the lossy text of the name it receives
    let (s, _) = server_step(&id, ServerHandshake::AwaitName, ServerEvent::Frame(vec![b'a', 0xff]));
    assert_eq!(s, ServerHandshake::Done(1));
    assert_eq!(text_bytes(&"héllo".to_string()), "héllo".as_bytes().to_vec());
}

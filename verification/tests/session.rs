use connie::connector::{connect_step, ConnectAction, ConnectEvent, ConnectState};
use connie::server_session::{
    session_start, session_step, LogWho, SessionAction, SessionEvent, SessionState, LOG_FETCH,
    LOG_LOGIN, LOG_SIGNUP,
};
use connie::session::Dialect;
use connie::protocol::{UNAUTHORIZED, UNMATCHED_CPID};

fn s(x: &str) -> String {
    x.to_string()
}

fn checked(is_valid: bool, token: &str, request: &str) -> SessionEvent {
    SessionEvent::Checked { is_valid, token_cpid: s(token), request_cpid: s(request) }
}

#[test]
fn session_starts() {
    assert!(matches!(session_start(Dialect::Direct), SessionState::AwaitAuthKind));
    assert!(matches!(session_start(Dialect::Tls), SessionState::AwaitHandshake));
    assert!(matches!(session_start(Dialect::Plain), SessionState::AwaitHandshake));
}

#[test]
fn lost_client_ends_with_one() {
    let (st, acts) =
        session_step(Dialect::Tls, &s("h"), true, SessionState::AwaitHandshake, SessionEvent::Handshake(1));
    assert!(matches!(st, SessionState::Done(1)));
    assert!(acts.is_empty());
    let (st, acts) =
        session_step(Dialect::Tls, &s("h"), true, SessionState::AwaitHandshake, SessionEvent::Handshake(0));
    assert!(matches!(st, SessionState::AwaitAuthKind));
    assert!(acts.is_empty());
}

#[test]
fn signup_allowed_then_confirmed() {
    let (st, acts) =
        session_step(Dialect::Tls, &s("h"), true, SessionState::AwaitHandshake, SessionEvent::Handshake(2));
    assert!(matches!(st, SessionState::AwaitSignupConfirm));
    assert_eq!(acts.len(), 2);
    assert!(matches!(acts[0], SessionAction::WriteByte(0)));
    assert!(matches!(acts[1], SessionAction::SendHostRecord));
    let (st, acts) = session_step(Dialect::Tls, &s("h"), true, st, SessionEvent::ClientByte(0));
    assert!(matches!(st, SessionState::Done(0)));
    assert_eq!(acts.len(), 3);
    assert!(matches!(acts[0], SessionAction::RegisterUser));
    assert!(matches!(acts[1], SessionAction::WriteByte(0)));
    assert!(matches!(acts[2], SessionAction::Shutdown));
}

#[test]
fn signup_refused_is_logged_and_closed() {
    let (st, acts) =
        session_step(Dialect::Tls, &s("h"), false, SessionState::AwaitHandshake, SessionEvent::Handshake(2));
    assert!(matches!(st, SessionState::Done(0)));
    assert_eq!(acts.len(), 3);
    assert!(matches!(acts[0], SessionAction::Log(LogWho::Nobody, k, c) if k == LOG_SIGNUP && c == UNAUTHORIZED));
    assert!(matches!(acts[1], SessionAction::WriteByte(b) if b == UNAUTHORIZED));
    assert!(matches!(acts[2], SessionAction::Shutdown));
    let (_, acts) =
        session_step(Dialect::Direct, &s("h"), false, SessionState::AwaitAuthKind, SessionEvent::ClientByte(2));
    assert_eq!(acts.len(), 1);
    assert!(matches!(acts[0], SessionAction::WriteByte(b) if b == UNAUTHORIZED));
}

#[test]
fn token_request_served_then_status() {
    let (st, acts) =
        session_step(Dialect::Tls, &s("h"), true, SessionState::AwaitAuthKind, SessionEvent::ClientByte(0));
    assert!(matches!(st, SessionState::AwaitJwtCheck));
    assert!(matches!(acts[0], SessionAction::ReadJwtRequest));
    let (st, acts) = session_step(Dialect::Tls, &s("h"), true, st, checked(true, "a", "a"));
    assert!(matches!(st, SessionState::AwaitServed));
    assert!(matches!(acts[0], SessionAction::WriteByte(0)));
    assert!(matches!(acts[1], SessionAction::ServeRequest));
    let (st, acts) = session_step(Dialect::Tls, &s("h"), true, st, SessionEvent::Served(62));
    assert!(matches!(st, SessionState::Done(0)));
    assert_eq!(acts.len(), 2);
    assert!(matches!(acts[0], SessionAction::WriteByte(62)));
    assert!(matches!(acts[1], SessionAction::KeepAdminCopy));
}

#[test]
fn token_request_refused_or_reported() {
    let (st, acts) =
        session_step(Dialect::Plain, &s("h"), true, SessionState::AwaitJwtCheck, checked(false, "a", "a"));
    assert!(matches!(st, SessionState::Done(0)));
    assert_eq!(acts.len(), 2);
    assert!(matches!(acts[0], SessionAction::Pause));
    assert!(matches!(acts[1], SessionAction::WriteByte(b) if b == UNAUTHORIZED));
    let (st, acts) =
        session_step(Dialect::Plain, &s("h"), true, SessionState::AwaitJwtCheck, checked(true, "a", "b"));
    assert!(matches!(st, SessionState::Done(c) if c == UNMATCHED_CPID));
    assert_eq!(acts.len(), 1);
    assert!(matches!(&acts[0], SessionAction::ReportSuspicious(t, r) if t == "a" && r == "b"));
}

#[test]
fn login_granted_and_confirmed() {
    let (st, acts) = session_step(
        Dialect::Tls,
        &s("h"),
        true,
        SessionState::AwaitLoginCheck,
        SessionEvent::LoginChecked { granted: true, cpid: s("u") },
    );
    assert!(matches!(&st, SessionState::AwaitLoginConfirm(c) if c == "u"));
    assert!(matches!(acts[0], SessionAction::WriteByte(0)));
    assert!(matches!(acts[1], SessionAction::SendToken));
    let (st, acts) = session_step(Dialect::Tls, &s("h"), true, st, SessionEvent::ClientByte(0));
    assert!(matches!(st, SessionState::Done(0)));
    assert!(matches!(&acts[0], SessionAction::Log(LogWho::Id(c), k, 0) if c == "u" && *k == LOG_LOGIN));
}

#[test]
fn login_refused_is_logged() {
    let (_, acts) = session_step(
        Dialect::Plain,
        &s("h"),
        true,
        SessionState::AwaitLoginCheck,
        SessionEvent::LoginChecked { granted: false, cpid: s("u") },
    );
    assert_eq!(acts.len(), 2);
    assert!(matches!(acts[0], SessionAction::WriteByte(b) if b == UNAUTHORIZED));
    assert!(matches!(&acts[1], SessionAction::Log(LogWho::Id(c), k, b) if c == "u" && *k == LOG_LOGIN && *b == UNAUTHORIZED));
}

#[test]
fn listing_then_public_listing() {
    let (st, acts) =
        session_step(Dialect::Tls, &s("h"), true, SessionState::AwaitFetchCheck, checked(true, "a", "a"));
    assert!(matches!(&st, SessionState::AwaitPublicWanted(c) if c == "a"));
    assert!(matches!(acts[0], SessionAction::SendOwnListing));
    let (st, acts) = session_step(Dialect::Tls, &s("h"), true, st, SessionEvent::ClientByte(1));
    assert!(matches!(st, SessionState::Done(0)));
    assert_eq!(acts.len(), 2);
    assert!(matches!(acts[0], SessionAction::SendPublicListing));
    assert!(matches!(&acts[1], SessionAction::Log(LogWho::Id(c), k, 0) if c == "a" && *k == LOG_FETCH));
    let (_, acts) = session_step(
        Dialect::Tls,
        &s("h"),
        true,
        SessionState::AwaitPublicWanted(s("a")),
        SessionEvent::ClientByte(0),
    );
    assert!(acts.is_empty());
}

#[test]
fn suspicious_listing_is_reported() {
    // over TLS a mismatched listing request is ignored
    let (st, acts) =
        session_step(Dialect::Tls, &s("h"), true, SessionState::AwaitFetchCheck, checked(true, "a", "b"));
    assert!(matches!(st, SessionState::Done(0)));
    assert!(acts.is_empty());
    let (st, acts) =
        session_step(Dialect::Plain, &s("h"), true, SessionState::AwaitFetchCheck, checked(true, "a", "b"));
    assert!(matches!(st, SessionState::Done(c) if c == UNMATCHED_CPID));
    assert_eq!(acts.len(), 2);
    assert!(matches!(&acts[0], SessionAction::ReportSuspicious(t, r) if t == "a" && r == "b"));
    assert!(matches!(acts[1], SessionAction::Log(LogWho::Nobody, k, c) if k == LOG_FETCH && c == UNMATCHED_CPID));
}

#[test]
fn unexpected_event_changes_nothing() {
    let (st, acts) =
        session_step(Dialect::Tls, &s("h"), true, SessionState::AwaitServed, SessionEvent::ClientByte(3));
    assert!(matches!(st, SessionState::AwaitServed));
    assert!(acts.is_empty());
}

fn first_written(acts: &[SessionAction]) -> Option<u8> {
    acts.iter().find_map(|a| match a {
        SessionAction::WriteByte(b) => Some(*b),
        _ => None,
    })
}

fn client_user() -> connie::host::UserRecord {
    connie::host::UserRecord {
        cpid: s("u"),
        name: s("Ann"),
        host: s("h"),
        email: s("a@x"),
        usrname: s("ann"),
        paswd: s("pw"),
    }
}

fn client_request() -> connie::request::RQM {
    connie::request::RQM {
        size: 5,
        cpid: s("u"),
        name: s("f"),
        type_: s("txt"),
        header: connie::protocol::GET.to_string(),
        chcksum: connie::protocol::NO_VAL.to_string(),
        path: None,
    }
}

#[test]
fn login_agreement_on_concrete_values() {
    for granted in [true, false] {
        let (_, sacts) = session_step(
            Dialect::Tls,
            &s("h"),
            true,
            SessionState::AwaitLoginCheck,
            SessionEvent::LoginChecked { granted, cpid: s("u") },
        );
        let answer = first_written(&sacts).unwrap();
        let (c1, a1) = connect_step(&None, &client_user(), &client_request(), ConnectState::AwaitLoginAnswer, ConnectEvent::Byte(answer));
        if granted {
            let (c2, a2) = connect_step(&None, &client_user(), &client_request(), c1, ConnectEvent::Token(s("tok")));
            assert!(matches!(c2, ConnectState::Done(8)));
            assert!(matches!(&a2[..], [ConnectAction::StoreToken(t), ConnectAction::WriteByte(0)] if t == "tok"));
        } else {
            assert!(matches!(c1, ConnectState::Exited(1)));
            assert!(matches!(a1[..], [ConnectAction::Exit(1)]));
        }
    }
}

#[test]
fn token_agreement_on_concrete_values() {
    let jwt = Some(s("tok"));
    // served: the client runs the request and reports its status
    let (_, sacts) = session_step(Dialect::Plain, &s("h"), true, SessionState::AwaitJwtCheck, checked(true, "u", "u"));
    let answer = first_written(&sacts).unwrap();
    assert_eq!(answer, 0);
    let (c1, a1) = connect_step(&jwt, &client_user(), &client_request(), ConnectState::AwaitAuthAnswer, ConnectEvent::Byte(answer));
    assert!(matches!(a1[..], [ConnectAction::RunRequest]));
    let (c2, _) = connect_step(&jwt, &client_user(), &client_request(), c1, ConnectEvent::RequestStatus(0));
    assert!(matches!(c2, ConnectState::Done(0)));
    // refused: the client drops the token and stops
    let (_, sacts) = session_step(Dialect::Plain, &s("h"), true, SessionState::AwaitJwtCheck, checked(false, "u", "u"));
    let answer = first_written(&sacts).unwrap();
    assert_eq!(answer, UNAUTHORIZED);
    let (c1, a1) = connect_step(&jwt, &client_user(), &client_request(), ConnectState::AwaitAuthAnswer, ConnectEvent::Byte(answer));
    assert!(matches!(c1, ConnectState::Exited(41)));
    assert!(matches!(a1[..], [ConnectAction::DropToken, ConnectAction::Exit(41)]));
    // reported: nothing is written
    let (_, sacts) = session_step(Dialect::Plain, &s("h"), true, SessionState::AwaitJwtCheck, checked(true, "u", "v"));
    assert_eq!(first_written(&sacts), None);
}

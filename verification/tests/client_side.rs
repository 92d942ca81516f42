use connie::connector::{
    connect_step, fetch_target, stream_target, AddressChoice, ConnectAction, ConnectEvent,
    ConnectState,
};
use connie::host::UserRecord;
use connie::protocol::{JWT_AUTH, LOGIN_CRED, UNAUTHORIZED, GET, NO_VAL};
use connie::request::RQM;
use connie::gauge::{create_title_with_filename, gauge_accent, gauge_visible, contains_text, GaugeAccent, DOWNLOAD_STR, UPLOAD_STR};
use connie::db::{DBC, DbTarget, h_path};

fn user() -> UserRecord {
    UserRecord {
        cpid: "cp-1".to_string(),
        name: "Ann".to_string(),
        host: "srv".to_string(),
        email: "a@x".to_string(),
        usrname: "ann".to_string(),
        paswd: "secret".to_string(),
    }
}

fn req() -> RQM {
    RQM {
        size: 5,
        cpid: "cp-1".to_string(),
        name: "f".to_string(),
        type_: "txt".to_string(),
        header: GET.to_string(),
        chcksum: NO_VAL.to_string(),
        path: Some("/tmp/f.txt".to_string()),
    }
}

#[test]
fn login_path_stores_the_token() {
    let (st, a) = connect_step(&None, &user(), &req(), ConnectState::Start, ConnectEvent::Begin);
    assert!(matches!(st, ConnectState::AwaitHandshake(true)));
    assert!(matches!(a[..], [ConnectAction::Connect]));
    let (st, a) = connect_step(&None, &user(), &req(), st, ConnectEvent::Handshake(0));
    assert!(matches!(st, ConnectState::AwaitLoginAnswer));
    match &a[..] {
        [ConnectAction::WriteByte(b), ConnectAction::SendLogin(l)] => {
            assert_eq!(*b, LOGIN_CRED);
            assert_eq!(l.cpid, "cp-1");
            assert_eq!(l.name, "ann");
            assert_eq!(l.paswd, "secret");
        }
        other => panic!("{other:?}"),
    }
    let (st, _) = connect_step(&None, &user(), &req(), st, ConnectEvent::Byte(0));
    let (st, a) = connect_step(&None, &user(), &req(), st, ConnectEvent::Token("tok".to_string()));
    assert!(matches!(st, ConnectState::Done(8)));
    assert!(matches!(&a[..], [ConnectAction::StoreToken(t), ConnectAction::WriteByte(0)] if t == "tok"));
}

#[test]
fn login_refusals() {
    let (st, a) = connect_step(&None, &user(), &req(), ConnectState::AwaitLoginAnswer, ConnectEvent::Byte(UNAUTHORIZED));
    assert!(matches!(st, ConnectState::Exited(1)));
    assert!(matches!(a[..], [ConnectAction::Exit(1)]));
    let (st, _) = connect_step(&None, &user(), &req(), ConnectState::AwaitLoginAnswer, ConnectEvent::Byte(3));
    assert!(matches!(st, ConnectState::Done(44)));
    let (st, _) = connect_step(&None, &user(), &req(), ConnectState::AwaitHandshake(true), ConnectEvent::Handshake(1));
    assert!(matches!(st, ConnectState::Exited(1)));
}

#[test]
fn token_path_runs_the_request() {
    let jwt = Some("tok".to_string());
    let (st, a) = connect_step(&jwt, &user(), &req(), ConnectState::AwaitHandshake(false), ConnectEvent::Handshake(0));
    assert!(matches!(st, ConnectState::AwaitAuthAnswer));
    match &a[..] {
        [ConnectAction::WriteByte(b), ConnectAction::SendJwt(j)] => {
            assert_eq!(*b, JWT_AUTH);
            assert_eq!(j.jwt, "tok");
            assert_eq!(j.request.name, "f");
        }
        other => panic!("{other:?}"),
    }
    let (st, a) = connect_step(&jwt, &user(), &req(), st, ConnectEvent::Byte(0));
    assert!(matches!(a[..], [ConnectAction::RunRequest]));
    let (st, _) = connect_step(&jwt, &user(), &req(), st, ConnectEvent::RequestStatus(66));
    assert!(matches!(st, ConnectState::Done(1)));
    let (st, a) = connect_step(&jwt, &user(), &req(), ConnectState::AwaitAuthAnswer, ConnectEvent::Byte(41));
    assert!(matches!(st, ConnectState::Exited(41)));
    assert!(matches!(a[..], [ConnectAction::DropToken, ConnectAction::Exit(41)]));
}

#[test]
fn addresses() {
    assert_eq!(fetch_target(Some(9), 4443, false, true), (9, AddressChoice::Private));
    assert_eq!(fetch_target(None, 4443, false, false), (4443, AddressChoice::Public));
    assert_eq!(fetch_target(None, 4443, true, false), (4443, AddressChoice::Custom));
    assert_eq!(stream_target(true), AddressChoice::Private);
    assert_eq!(stream_target(false), AddressChoice::Public);
}

#[test]
fn loading_gauge_title() {
    let title = create_title_with_filename(&"file.txt".to_string(), &DOWNLOAD_STR.to_string());
    assert_eq!(title, " Downloading: file.txt ... ");
    assert_eq!(gauge_accent(&title), GaugeAccent::Download);
    let up = create_title_with_filename(&"a".to_string(), &UPLOAD_STR.to_string());
    assert_eq!(gauge_accent(&up), GaugeAccent::Upload);
    assert!(contains_text("abcabd", "abd"));
    assert!(!contains_text("ab", "abc"));
    assert!(contains_text("x", ""));
    assert!(gauge_visible(99));
    assert!(!gauge_visible(100));
}

#[test]
fn database_targets() {
    assert_eq!(h_path("/home/ann"), "/home/ann/Connie/surreal/Connie.db");
    let local = DBC { addr: None, remote: false, lm: true };
    assert!(matches!(local.connection_target("/h"), DbTarget::Local(u) if u == "rocksdb:///h/Connie/surreal/Connie.db"));
    let ws = DBC { addr: Some("10.0.0.2".to_string()), remote: false, lm: false };
    assert!(matches!(ws.connection_target("/h"), DbTarget::Ws(u) if u == "10.0.0.2:8060"));
    let wss = DBC { addr: Some("db.example".to_string()), remote: true, lm: false };
    assert!(matches!(wss.connection_target("/h"), DbTarget::Wss(u) if u == "db.example:8060"));
    let none = DBC { addr: None, remote: true, lm: false };
    assert!(matches!(none.connection_target("/h"), DbTarget::Exit(8000)));
}

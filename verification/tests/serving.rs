use connie::client_request::{
    client_request_step, local_record, ClientRequestAction, ClientRequestEvent, ClientRequestState,
};
use connie::protocol::{
    DATA_NOT_MATCH, DELETE, GET, MEDIA_ALREADY_EXISTS, NOT_FOUND, NO_VAL, POST, READY_STATUS,
    SERVER_SIDE_ERR, SUCCESFUL, CLIENT_SIDE_ERR,
};
use connie::request::RQM;
use connie::serving::{delete_record, serve_step, ServeAction, ServeEvent, ServeState};

fn rq(header: &str, sum: &str, size: i64) -> RQM {
    RQM {
        size,
        cpid: "owner".to_string(),
        name: "movie".to_string(),
        type_: "mp4".to_string(),
        header: header.to_string(),
        chcksum: sum.to_string(),
        path: Some("/tmp/movie.mp4".to_string()),
    }
}

fn host() -> String {
    "host-1".to_string()
}

#[test]
fn post_of_existing_media_is_refused() {
    let r = rq(POST, "abc", 10);
    let (s, a) = serve_step(&r, &host(), ServeState::Start, ServeEvent::Begin);
    assert_eq!(s, ServeState::PostAwaitExists);
    assert!(matches!(a[..], [ServeAction::CheckMedia]));
    let (s, a) = serve_step(&r, &host(), s, ServeEvent::Exists(true));
    assert_eq!(s, ServeState::Done(0));
    assert!(matches!(a[..], [ServeAction::WriteByte(MEDIA_ALREADY_EXISTS)]));
}

#[test]
fn post_upload_checks_checksum_and_size() {
    let r = rq(POST, "abc", 10);
    let (s, a) = serve_step(&r, &host(), ServeState::PostAwaitExists, ServeEvent::Exists(false));
    assert_eq!(s, ServeState::PostAwaitUpload);
    assert!(matches!(a[..], [ServeAction::CreateUploadFile, ServeAction::WriteByte(READY_STATUS), ServeAction::ReceiveFile]));
    let ev = ServeEvent::Uploaded { checksum: "zzz".to_string(), size: 9, path: "/data/x".to_string() };
    let (s, a) = serve_step(&r, &host(), s, ev);
    assert_eq!(s, ServeState::Done(0));
    assert_eq!(a.len(), 3);
    assert!(matches!(a[0], ServeAction::WriteByte(DATA_NOT_MATCH)));
    assert!(matches!(a[1], ServeAction::WriteByte(DATA_NOT_MATCH)));
    match &a[2] {
        ServeAction::StoreMedia(m) => {
            assert_eq!(m.checksum, "zzz");
            assert_eq!(m.size, 9);
            assert_eq!(m.in_host, "host-1");
            assert_eq!(m.path, "/data/x");
        }
        other => panic!("{other:?}"),
    }
}

#[test]
fn post_without_checksum_sends_it_back() {
    let r = rq(POST, NO_VAL, 10);
    let ev = ServeEvent::Uploaded { checksum: "fff".to_string(), size: 10, path: "/data/y".to_string() };
    let (_, a) = serve_step(&r, &host(), ServeState::PostAwaitUpload, ev);
    assert_eq!(a.len(), 2);
    match &a[0] {
        ServeAction::SendChecksum(c) => assert_eq!(c, "fff"),
        other => panic!("{other:?}"),
    }
}

#[test]
fn get_flow_and_failures() {
    let r = rq(GET, "abc", 10);
    let (s, _) = serve_step(&r, &host(), ServeState::GetAwaitExists, ServeEvent::Exists(false));
    assert_eq!(s, ServeState::Done(NOT_FOUND));
    let (s, a) = serve_step(&r, &host(), ServeState::GetAwaitFileSize, ServeEvent::FileSize(None));
    assert_eq!(s, ServeState::Done(0));
    assert!(matches!(a[..], [ServeAction::WriteByte(SERVER_SIDE_ERR)]));
    let (s, _) = serve_step(&r, &host(), ServeState::GetAwaitFileSize, ServeEvent::FileSize(Some(10)));
    assert_eq!(s, ServeState::GetAwaitReady(10));
    let (s, a) = serve_step(&r, &host(), s, ServeEvent::ClientByte(READY_STATUS));
    assert!(matches!(a[..], [ServeAction::SendFile(10)]));
    let (s2, _) = serve_step(&r, &host(), s, ServeEvent::ClientByte(DATA_NOT_MATCH));
    assert_eq!(s2, ServeState::Done(1));
    let (s3, _) = serve_step(&r, &host(), ServeState::GetAwaitConfirm, ServeEvent::ClientByte(SUCCESFUL));
    assert_eq!(s3, ServeState::Done(0));
}

#[test]
fn delete_flow() {
    let r = rq(DELETE, "abc", 10);
    let (s, a) = serve_step(&r, &host(), ServeState::Start, ServeEvent::Begin);
    assert_eq!(s, ServeState::DeleteAwaitExists);
    assert!(matches!(a[..], [ServeAction::CheckMediaWithChecksum]));
    let (s, a) = serve_step(&r, &host(), s, ServeEvent::Exists(true));
    assert_eq!(s, ServeState::Done(0));
    assert!(matches!(a[..], [ServeAction::DeleteMedia]));
    let m = delete_record(&r, &host());
    assert_eq!(m.path, "");
    assert_eq!(m.checksum, "abc");
    assert_eq!(m.in_host, "host-1");
}

#[test]
fn client_upload_records_with_server_checksum() {
    let r = rq(POST, NO_VAL, 10);
    let (c, a) = client_request_step(&r, None, ClientRequestState::Start, ClientRequestEvent::Begin);
    assert!(matches!(a[..], [ClientRequestAction::OpenUploadFile]));
    let (c, a) = client_request_step(&r, None, c, ClientRequestEvent::ServerByte(READY_STATUS));
    assert!(matches!(a[..], [ClientRequestAction::SendFile(10)]));
    let (c, _) = client_request_step(&r, None, c, ClientRequestEvent::ChecksumText("fff".to_string()));
    let (c, a) = client_request_step(&r, None, c, ClientRequestEvent::ServerByte(0));
    assert!(matches!(c, ClientRequestState::Done(0)));
    match &a[..] {
        [ClientRequestAction::RecordUpload(sum)] => {
            let rec = local_record(&r, &"host-1".to_string(), sum.clone(), 77);
            assert_eq!(rec.checksum, "fff");
            assert_eq!(rec.date, 77);
            assert_eq!(rec.path, "/tmp/movie.mp4");
        }
        other => panic!("{other:?}"),
    }
}

#[test]
fn client_upload_mismatch_is_not_recorded() {
    let r = rq(POST, "abc", 10);
    let (c, _) = client_request_step(&r, None, ClientRequestState::PostAwaitReady, ClientRequestEvent::ServerByte(READY_STATUS));
    let (c, a) = client_request_step(&r, None, c, ClientRequestEvent::ServerByte(DATA_NOT_MATCH));
    assert!(matches!(c, ClientRequestState::Done(DATA_NOT_MATCH)));
    assert!(a.is_empty());
}

#[test]
fn client_download_verdicts() {
    let r = rq(GET, "abc", 10);
    let (c, a) = client_request_step(&r, Some(true), ClientRequestState::GetAwaitServerStatus, ClientRequestEvent::ServerByte(READY_STATUS));
    assert!(matches!(a[..], [ClientRequestAction::CreateDownloadFile]));
    let (c, a) = client_request_step(&r, Some(true), c, ClientRequestEvent::FileCreated(true));
    assert!(matches!(a[..], [ClientRequestAction::WriteByte(READY_STATUS), ClientRequestAction::ReceiveFile]));
    let (c, a) = client_request_step(&r, Some(true), c, ClientRequestEvent::LocalSize(10));
    assert!(matches!(a[..], [ClientRequestAction::ComputeChecksum]));
    let (c, a) = client_request_step(&r, Some(true), c, ClientRequestEvent::LocalSum("abd".to_string()));
    assert!(matches!(c, ClientRequestState::Done(0)));
    assert!(matches!(a[..], [ClientRequestAction::WriteByte(DATA_NOT_MATCH)]));
    let (_, a) = client_request_step(&r, Some(false), ClientRequestState::GetAwaitLocalSize, ClientRequestEvent::LocalSize(10));
    assert!(matches!(a[..], [ClientRequestAction::WriteByte(SUCCESFUL)]));
    let (_, a) = client_request_step(&r, None, ClientRequestState::GetAwaitLocalSize, ClientRequestEvent::LocalSize(3));
    assert!(matches!(a[..], [ClientRequestAction::WriteByte(DATA_NOT_MATCH)]));
}

#[test]
fn client_download_file_error_exits() {
    let r = rq(GET, "abc", 10);
    let (c, a) = client_request_step(&r, None, ClientRequestState::GetAwaitFileCreated(READY_STATUS), ClientRequestEvent::FileCreated(false));
    assert!(matches!(a[..], [ClientRequestAction::WriteByte(CLIENT_SIDE_ERR)]));
    let (c, a) = client_request_step(&r, None, c, ClientRequestEvent::ServerByte(1));
    assert!(matches!(c, ClientRequestState::Done(1)));
    assert!(matches!(a[..], [ClientRequestAction::Exit(CLIENT_SIDE_ERR)]));
}

#[test]
fn client_delete_follows_server_status() {
    let r = rq(DELETE, "abc", 10);
    let (c, _) = client_request_step(&r, None, ClientRequestState::Start, ClientRequestEvent::Begin);
    let (c, a) = client_request_step(&r, None, c, ClientRequestEvent::ServerByte(0));
    assert!(matches!(c, ClientRequestState::Done(0)));
    assert!(matches!(a[..], [ClientRequestAction::DeleteLocal]));
    let (c, a) = client_request_step(&r, None, ClientRequestState::DeleteAwaitStatus, ClientRequestEvent::ServerByte(NOT_FOUND));
    assert!(matches!(c, ClientRequestState::Done(NOT_FOUND)));
    assert!(a.is_empty());
}

/// The server's messages to the client for a set of actions, then the final status.
fn replies(actions: &[ServeAction], status: u8) -> Vec<Result<u8, String>> {
    let mut out = vec![];
    for a in actions {
        match a {
            ServeAction::WriteByte(b) => out.push(Ok(*b)),
            ServeAction::SendChecksum(s) => out.push(Err(s.clone())),
            _ => {}
        }
    }
    out.push(Ok(status));
    out
}

fn upload(req_sum: &str, req_size: i64, got_sum: &str, got_size: i64) -> (ClientRequestState, Vec<ClientRequestAction>) {
    let r = rq(POST, req_sum, req_size);
    let ev = ServeEvent::Uploaded { checksum: got_sum.to_string(), size: got_size, path: "/d/u".to_string() };
    let (s, acts) = serve_step(&r, &host(), ServeState::PostAwaitUpload, ev);
    let code = match s { ServeState::Done(c) => c, _ => panic!() };
    let msgs = replies(&acts, code);
    let (mut c, _) = client_request_step(&r, None, ClientRequestState::PostAwaitReady, ClientRequestEvent::ServerByte(READY_STATUS));
    let mut i = 0;
    if matches!(c, ClientRequestState::PostAwaitChecksum) {
        let text = msgs[0].clone().unwrap_err();
        c = client_request_step(&r, None, c, ClientRequestEvent::ChecksumText(text)).0;
        i = 1;
    }
    client_request_step(&r, None, c, ClientRequestEvent::ServerByte(msgs[i].clone().unwrap()))
}

#[test]
fn upload_agreement_scenarios() {
    let (c, a) = upload("abc", 10, "abc", 10);
    assert!(matches!(c, ClientRequestState::Done(0)));
    assert!(matches!(&a[..], [ClientRequestAction::RecordUpload(s)] if s == "abc"));
    let (c, a) = upload(NO_VAL, 10, "fff", 10);
    assert!(matches!(c, ClientRequestState::Done(0)));
    assert!(matches!(&a[..], [ClientRequestAction::RecordUpload(s)] if s == "fff"));
    let (c, a) = upload(NO_VAL, 10, "fff", 9);
    assert!(matches!(c, ClientRequestState::Done(DATA_NOT_MATCH)));
    assert!(a.is_empty());
    let (c, _) = upload("abc", 10, "abd", 10);
    assert!(matches!(c, ClientRequestState::Done(DATA_NOT_MATCH)));
}

#[test]
fn delete_agreement_scenarios() {
    let r = rq(DELETE, "abc", 10);
    for exists in [true, false] {
        let (s, acts) = serve_step(&r, &host(), ServeState::DeleteAwaitExists, ServeEvent::Exists(exists));
        let code = match s { ServeState::Done(c) => c, _ => panic!() };
        let msgs = replies(&acts, code);
        let (c, a) = client_request_step(&r, None, ClientRequestState::DeleteAwaitStatus, ClientRequestEvent::ServerByte(msgs[0].clone().unwrap()));
        assert!(matches!(c, ClientRequestState::Done(x) if x == code));
        assert_eq!(!a.is_empty(), exists);
        assert_eq!(matches!(acts[..], [ServeAction::DeleteMedia]), exists);
    }
}

use vstd::prelude::*;
use crate::protocol::{
    DATA_NOT_MATCH, NOT_FOUND, READY_STATUS, SUCCESFUL, RequestKind, spec_request_kind,
    no_val_text, get_header, post_header, delete_header,
};
use crate::request::RQM;
use crate::serving::{ServeAction, ServeEvent, ServeState, spec_serve_step, spec_upload_actions};
use crate::connector::{ConnectAction, ConnectEvent, ConnectState, spec_connect_step};
use crate::host::UserRecord;
use crate::session::{JwtVerdict, Dialect, spec_jwt_verdict};
use crate::server_session::{
    SessionAction, SessionEvent, SessionState, first_byte_written, spec_session_step,
};
use crate::protocol::{RECONNECT_STATUS, UNAUTHORIZED};
use crate::client_request::{
    ClientRequestAction, ClientRequestEvent, ClientRequestState, spec_client_request_step,
};

verus! {

/// A message the server writes to the client while serving a request: a
/// status byte, or a framed text.
pub enum Reply {
    Byte(u8),
    Text(Seq<char>),
}

/// The messages the server's actions write, in order.
pub open spec fn serve_replies(acts: Seq<ServeAction>) -> Seq<Reply>
    decreases acts.len(),
{
    if acts.len() == 0 {
        Seq::empty()
    } else {
        let rest = serve_replies(acts.drop_last());
        match acts.last() {
            ServeAction::WriteByte(b) => rest.push(Reply::Byte(b)),
            ServeAction::SendChecksum(s) => rest.push(Reply::Text(s@)),
            _ => rest,
        }
    }
}

/// The status byte a reader takes from a message (a text's first byte is
/// not a status; it reads as 255 here, and never arises below).
pub open spec fn reply_byte(r: Reply) -> u8 {
    match r {
        Reply::Byte(b) => b,
        Reply::Text(_) => 255,
    }
}

proof fn lemma_serve_replies_push(s: Seq<ServeAction>, a: ServeAction)
    ensures
        serve_replies(s.push(a)) == match a {
            ServeAction::WriteByte(b) => serve_replies(s).push(Reply::Byte(b)),
            ServeAction::SendChecksum(t) => serve_replies(s).push(Reply::Text(t@)),
            _ => serve_replies(s),
        },
{
    assert(s.push(a).drop_last() =~= s);
}

proof fn lemma_serve_replies_empty()
    ensures
        serve_replies(Seq::<ServeAction>::empty()) == Seq::<Reply>::empty(),
{
}

/// The client's side of an upload after the server said it is ready:
/// it reads the server's replies (`t` being the text it decodes from a
/// framed checksum), and ends with a state and its actions.
pub open spec fn client_upload_after_ready(request: RQM, replies: Seq<Reply>, t: String) -> (
    ClientRequestState,
    Seq<ClientRequestAction>,
) {
    let (c1, a1) = spec_client_request_step(
        request,
        None,
        ClientRequestState::PostAwaitReady,
        ClientRequestEvent::ServerByte(READY_STATUS),
    );
    if c1 is PostAwaitChecksum {
        let (c2, a2) = spec_client_request_step(
            request,
            None,
            c1,
            ClientRequestEvent::ChecksumText(t),
        );
        let (c3, a3) = spec_client_request_step(
            request,
            None,
            c2,
            ClientRequestEvent::ServerByte(reply_byte(replies[1])),
        );
        (c3, a1 + a2 + a3)
    } else {
        let (c2, a2) = spec_client_request_step(
            request,
            None,
            c1,
            ClientRequestEvent::ServerByte(reply_byte(replies[0])),
        );
        (c2, a1 + a2)
    }
}

/// Upload law: when an upload of `request` arrives at the server with
/// checksum `sum` and size `size`, the server records exactly that
/// checksum and size; its replies, followed by the session's final status
/// 0, lead the client to record the upload exactly when the size is the
/// announced one and the client sent no checksum or the same one; and the
/// checksum the client then records is the server's (`t` is the text the
/// client decodes from the server's frame).
pub proof fn law_upload_agreement(
    request: RQM,
    host_cpid: String,
    sum: String,
    size: i64,
    path: String,
    t: String,
)
    requires
        t@ == sum@,
    ensures
        ({
            let acts = spec_upload_actions(request, host_cpid, sum, size, path);
            let replies = serve_replies(acts) + seq![Reply::Byte(0)];
            let (c, ca) = client_upload_after_ready(request, replies, t);
            &&& acts.last() matches ServeAction::StoreMedia(m)
            &&& m.checksum == sum
            &&& m.size == size
            &&& m.cpid == request.cpid
            &&& c is Done
            &&& ((c == ClientRequestState::Done(0) && ca.last() is RecordUpload) <==> (size
                == request.size && (request.chcksum@ == no_val_text() || request.chcksum@
                == sum@)))
            &&& (ca.last() matches ClientRequestAction::RecordUpload(x) ==> x@ == sum@)
        }),
{
    let acts = spec_upload_actions(request, host_cpid, sum, size, path);
    let check = if request.chcksum@ == no_val_text() {
        seq![ServeAction::SendChecksum(sum)]
    } else if request.chcksum@ != sum@ {
        seq![ServeAction::WriteByte(DATA_NOT_MATCH)]
    } else {
        Seq::empty()
    };
    let size_check = if request.size != size {
        seq![ServeAction::WriteByte(DATA_NOT_MATCH)]
    } else {
        Seq::empty()
    };
    let store = ServeAction::StoreMedia(
        crate::media::MediaRecord {
            name: request.name,
            cpid: request.cpid,
            path: path,
            checksum: sum,
            in_host: host_cpid,
            type_: request.type_,
            size: size,
        },
    );
    assert(acts == check + size_check + seq![store]);
    let with_checks = check + size_check;
    assert(acts =~= with_checks.push(store));
    lemma_serve_replies_push(with_checks, store);
    lemma_serve_replies_empty();
    if check.len() == 1 {
        assert(check =~= Seq::<ServeAction>::empty().push(check[0]));
        lemma_serve_replies_push(Seq::<ServeAction>::empty(), check[0]);
    } else {
        assert(check =~= Seq::<ServeAction>::empty());
    }
    if size_check.len() == 1 {
        assert(with_checks =~= check.push(ServeAction::WriteByte(DATA_NOT_MATCH)));
        lemma_serve_replies_push(check, ServeAction::WriteByte(DATA_NOT_MATCH));
    } else {
        assert(with_checks =~= check);
    }
    let replies = serve_replies(acts) + seq![Reply::Byte(0)];
    if request.chcksum@ == no_val_text() {
        assert(replies[0] == Reply::Text(sum@));
        if request.size != size {
            assert(replies[1] == Reply::Byte(DATA_NOT_MATCH));
        } else {
            assert(replies[1] == Reply::Byte(0));
        }
    } else if request.chcksum@ != sum@ {
        assert(replies[0] == Reply::Byte(DATA_NOT_MATCH));
    } else if request.size != size {
        assert(replies[0] == Reply::Byte(DATA_NOT_MATCH));
    } else {
        assert(replies[0] == Reply::Byte(0));
    }
}

/// The server's side of a download of existing media whose stored file
/// has the announced, nonzero size: it says it is ready, sends the file
/// when the client answers `READY_STATUS`, and ends with the client's
/// verdict `v`.
pub open spec fn server_download(request: RQM, host_cpid: String, v: u8) -> ServeState {
    let (s1, _) = spec_serve_step(
        request,
        host_cpid,
        ServeState::GetAwaitFileSize,
        ServeEvent::FileSize(Some(request.size as u64)),
    );
    let (s2, _) = spec_serve_step(request, host_cpid, s1, ServeEvent::ClientByte(READY_STATUS));
    let (s3, _) = spec_serve_step(request, host_cpid, s2, ServeEvent::ClientByte(v));
    s3
}

/// The client's side of a download after the server said it is ready: it
/// creates the file, answers `READY_STATUS`, receives, finds `local_size`
/// bytes and (when it checks sums) the checksum `local_sum`, and ends with
/// its state and the verdict byte it wrote last.
pub open spec fn client_download(
    request: RQM,
    check_for_sum: bool,
    local_size: i64,
    local_sum: String,
) -> (ClientRequestState, Seq<ClientRequestAction>) {
    let cs = Some(check_for_sum);
    let (c1, _) = spec_client_request_step(
        request,
        cs,
        ClientRequestState::GetAwaitServerStatus,
        ClientRequestEvent::ServerByte(READY_STATUS),
    );
    let (c2, _) = spec_client_request_step(request, cs, c1, ClientRequestEvent::FileCreated(true));
    let (c3, a3) = spec_client_request_step(
        request,
        cs,
        c2,
        ClientRequestEvent::LocalSize(local_size),
    );
    if c3 is GetAwaitLocalSum {
        spec_client_request_step(request, cs, c3, ClientRequestEvent::LocalSum(local_sum))
    } else {
        (c3, a3)
    }
}

/// Download law: when existing media is downloaded and the stored file
/// has the announced, nonzero size, the client ends with 0 after writing
/// one verdict, and the server, reading that verdict, ends with 0 exactly
/// when the client received the announced size and, if it checks sums,
/// a file with the announced checksum; otherwise with 1.
pub proof fn law_download_agreement(
    request: RQM,
    host_cpid: String,
    check_for_sum: bool,
    local_size: i64,
    local_sum: String,
)
    requires
        request.size > 0,
    ensures
        ({
            let (c, ca) = client_download(request, check_for_sum, local_size, local_sum);
            &&& c == ClientRequestState::Done(0)
            &&& ca.len() == 1
            &&& ca[0] matches ClientRequestAction::WriteByte(v)
            &&& server_download(request, host_cpid, v) == ServeState::Done(
                if local_size == request.size && (check_for_sum ==> local_sum@ == request.chcksum@) {
                    0u8
                } else {
                    1u8
                },
            )
        }),
{
    assert(request.size as u64 == request.size);
}

/// Deletion law: when the server is asked to delete media, the client
/// removes its local record exactly when the server removes the media,
/// and both report the same result (0, or `NOT_FOUND`). The client reads
/// the server's replies followed by the session's final status.
pub proof fn law_delete_agreement(request: RQM, host_cpid: String, exists: bool)
    ensures
        ({
            let (s, sa) = spec_serve_step(
                request,
                host_cpid,
                ServeState::DeleteAwaitExists,
                ServeEvent::Exists(exists),
            );
            let code = match s {
                ServeState::Done(r) => r,
                _ => 255u8,
            };
            let replies = serve_replies(sa) + seq![Reply::Byte(code)];
            let (c, ca) = spec_client_request_step(
                request,
                None,
                ClientRequestState::DeleteAwaitStatus,
                ClientRequestEvent::ServerByte(reply_byte(replies[0])),
            );
            &&& s is Done
            &&& c == ClientRequestState::Done(code)
            &&& (ca == seq![ClientRequestAction::DeleteLocal]) == exists
            &&& (sa == seq![ServeAction::DeleteMedia]) == exists
            &&& code == if exists {
                0u8
            } else {
                NOT_FOUND
            }
        }),
{
    let (s, sa) = spec_serve_step(
        request,
        host_cpid,
        ServeState::DeleteAwaitExists,
        ServeEvent::Exists(exists),
    );
    lemma_serve_replies_empty();
    if exists {
        assert(sa =~= Seq::<ServeAction>::empty().push(ServeAction::DeleteMedia));
        lemma_serve_replies_push(Seq::<ServeAction>::empty(), ServeAction::DeleteMedia);
        let replies = serve_replies(sa) + seq![Reply::Byte(0)];
        assert(replies[0] == Reply::Byte(0));
    } else {
        assert(sa =~= Seq::<ServeAction>::empty().push(ServeAction::WriteByte(NOT_FOUND)));
        lemma_serve_replies_push(Seq::<ServeAction>::empty(), ServeAction::WriteByte(NOT_FOUND));
        assert(sa[0] != ServeAction::DeleteMedia);
        let replies = serve_replies(sa) + seq![Reply::Byte(NOT_FOUND)];
        assert(replies[0] == Reply::Byte(NOT_FOUND));
        assert(Seq::<ClientRequestAction>::empty() != seq![ClientRequestAction::DeleteLocal]) by {
            assert(seq![ClientRequestAction::DeleteLocal].len() == 1);
        }
    }
}

/// Login law: the first byte the server's session writes after checking
/// a login is 0 when it grants a token and `UNAUTHORIZED` otherwise; a
/// client reading it stores the token that follows and reports
/// `RECONNECT_STATUS` when granted, and stops with 1 storing nothing when
/// refused.
pub proof fn law_login_agreement(
    dialect: Dialect,
    host_cpid: String,
    allow_new_users: bool,
    granted: bool,
    cpid: String,
    user: UserRecord,
    request: RQM,
    token: String,
)
    ensures
        ({
            let (_, sacts) = spec_session_step(
                dialect,
                host_cpid,
                allow_new_users,
                SessionState::AwaitLoginCheck,
                SessionEvent::LoginChecked { granted, cpid },
            );
            let answer = first_byte_written(sacts);
            &&& answer == Some(if granted { 0u8 } else { UNAUTHORIZED })
            &&& (granted ==> sacts.contains(SessionAction::SendToken))
            &&& ({
                let (c1, a1) = spec_connect_step(
                    None,
                    user,
                    request,
                    ConnectState::AwaitLoginAnswer,
                    ConnectEvent::Byte(answer.unwrap()),
                );
                if granted {
                    let (c2, a2) = spec_connect_step(
                        None,
                        user,
                        request,
                        c1,
                        ConnectEvent::Token(token),
                    );
                    &&& c2 == ConnectState::Done(RECONNECT_STATUS)
                    &&& a2 == seq![ConnectAction::StoreToken(token), ConnectAction::WriteByte(0)]
                } else {
                    &&& c1 == ConnectState::Exited(1)
                    &&& a1 == seq![ConnectAction::Exit(1)]
                }
            })
        }),
{
    let (_, sacts) = spec_session_step(
        dialect,
        host_cpid,
        allow_new_users,
        SessionState::AwaitLoginCheck,
        SessionEvent::LoginChecked { granted, cpid },
    );
    assert(sacts[0] == SessionAction::WriteByte(if granted { 0u8 } else { UNAUTHORIZED }));
    if granted {
        assert(sacts[1] == SessionAction::SendToken);
    }
}

/// Token law: the first byte the server's session writes after checking a
/// token is 0 when it serves the request and `UNAUTHORIZED` when it
/// refuses it (it writes none when it reports the client); a client
/// reading 0 runs the request and reports 0 exactly when the request's
/// status is 0, and a client reading `UNAUTHORIZED` drops the token and
/// stops with `UNAUTHORIZED`.
pub proof fn law_token_agreement(
    dialect: Dialect,
    host_cpid: String,
    allow_new_users: bool,
    is_valid: bool,
    token_cpid: String,
    user: UserRecord,
    request: RQM,
    jwt: String,
    status: u8,
)
    ensures
        ({
            let verdict = spec_jwt_verdict(
                dialect,
                is_valid,
                token_cpid@,
                request.cpid@,
                host_cpid@,
            );
            let (_, sacts) = spec_session_step(
                dialect,
                host_cpid,
                allow_new_users,
                SessionState::AwaitJwtCheck,
                SessionEvent::Checked { is_valid, token_cpid, request_cpid: request.cpid },
            );
            let answer = first_byte_written(sacts);
            match verdict {
                JwtVerdict::Suspicious => answer is None,
                JwtVerdict::Serve => {
                    let (c1, a1) = spec_connect_step(
                        Some(jwt),
                        user,
                        request,
                        ConnectState::AwaitAuthAnswer,
                        ConnectEvent::Byte(0),
                    );
                    let (c2, _) = spec_connect_step(
                        Some(jwt),
                        user,
                        request,
                        c1,
                        ConnectEvent::RequestStatus(status),
                    );
                    &&& answer == Some(0u8)
                    &&& a1 == seq![ConnectAction::RunRequest]
                    &&& (c2 == ConnectState::Done(0) <==> status == 0)
                },
                JwtVerdict::Refuse => {
                    let (c1, a1) = spec_connect_step(
                        Some(jwt),
                        user,
                        request,
                        ConnectState::AwaitAuthAnswer,
                        ConnectEvent::Byte(UNAUTHORIZED),
                    );
                    &&& answer == Some(UNAUTHORIZED)
                    &&& c1 == ConnectState::Exited(UNAUTHORIZED as i32)
                    &&& a1 == seq![
                        ConnectAction::DropToken,
                        ConnectAction::Exit(UNAUTHORIZED as i32),
                    ]
                },
            }
        }),
{
    let verdict = spec_jwt_verdict(dialect, is_valid, token_cpid@, request.cpid@, host_cpid@);
    let (_, sacts) = spec_session_step(
        dialect,
        host_cpid,
        allow_new_users,
        SessionState::AwaitJwtCheck,
        SessionEvent::Checked { is_valid, token_cpid, request_cpid: request.cpid },
    );
    match verdict {
        JwtVerdict::Suspicious => {
            assert(sacts[0] is ReportSuspicious);
            assert(sacts.drop_first().len() == 0);
            assert(first_byte_written(sacts.drop_first()) is None);
        },
        JwtVerdict::Serve => {
            assert(sacts[0] == SessionAction::WriteByte(0));
        },
        JwtVerdict::Refuse => {
            let keep = if dialect == Dialect::Tls {
                seq![SessionAction::KeepAdminCopy]
            } else {
                Seq::<SessionAction>::empty()
            };
            if dialect == Dialect::Direct {
                assert(sacts[0] == SessionAction::WriteByte(UNAUTHORIZED));
            } else {
                assert(sacts[0] == SessionAction::Pause);
                assert(sacts.drop_first() =~= seq![SessionAction::WriteByte(UNAUTHORIZED)] + keep);
                assert(sacts.drop_first()[0] == SessionAction::WriteByte(UNAUTHORIZED));
            }
        },
    }
}

} // verus!

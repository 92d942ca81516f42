use vstd::prelude::*;
use crate::protocol::{UNAUTHORIZED, UNMATCHED_CPID};
use crate::session::{
    AuthKind, Dialect, FetchVerdict, JwtVerdict, SessionRoute, auth_kind, fetch_verdict,
    jwt_verdict, spec_auth_kind, spec_fetch_verdict, spec_jwt_verdict, route_after_handshake,
};

verus! {

/// Where the server stands in one client connection.
#[derive(Debug)]
pub enum SessionState {
    /// Waits for the handshake's result.
    AwaitHandshake,
    /// Sent its record to a client that signs up; waits for its confirmation.
    AwaitSignupConfirm,
    /// Waits for the client's authentication kind.
    AwaitAuthKind,
    /// Read a token request; waits for the token's validation.
    AwaitJwtCheck,
    /// Serves the request; waits for its status.
    AwaitServed,
    /// Read a login; waits for its validation.
    AwaitLoginCheck,
    /// Sent the token; waits for the client's acknowledgement.
    AwaitLoginConfirm(String),
    /// Read a listing request; waits for the token's validation.
    AwaitFetchCheck,
    /// Sent the owner's listing; waits for whether the public one is wanted
    /// (the token's id is kept).
    AwaitPublicWanted(String),
    /// Finished with this result.
    Done(u8),
}

/// What the server learns next.
#[derive(Debug)]
pub enum SessionEvent {
    /// The handshake's result.
    Handshake(u8),
    /// A byte from the client.
    ClientByte(u8),
    /// A token's validation: whether it is valid, the id it carries, and
    /// the id the request names.
    Checked { is_valid: bool, token_cpid: String, request_cpid: String },
    /// A login's validation, with the login's id.
    LoginChecked { granted: bool, cpid: String },
    /// The status of the served request.
    Served(u8),
}

/// Whose id a client-log entry names.
#[derive(Debug)]
pub enum LogWho {
    /// This id.
    Id(String),
    /// No id (`NULL`).
    Nobody,
}

/// What the server does.
#[derive(Debug)]
pub enum SessionAction {
    /// Write a byte.
    WriteByte(u8),
    /// Send the server's own record to a client that signs up.
    SendHostRecord,
    /// Read the new user, create it in the database and send it back.
    RegisterUser,
    /// Close the connection.
    Shutdown,
    /// Read a token request and validate its token.
    ReadJwtRequest,
    /// Serve the request that came with the token.
    ServeRequest,
    /// Keep a copy of the request for the administrator.
    KeepAdminCopy,
    /// Pause before refusing.
    Pause,
    /// Read a login and validate it.
    ReadLogin,
    /// Send the token granted to the login.
    SendToken,
    /// Read a listing request and validate its token.
    ReadFetchHeader,
    /// Send the owner's listing.
    SendOwnListing,
    /// Send the host's public listing.
    SendPublicListing,
    /// Write a client-log entry: who, which request (`SIGNUP`, `LOGIN`,
    /// `FETCH`) and the status.
    Log(LogWho, u8, u8),
    /// Write the report of a client whose ids disagree (token's, request's).
    ReportSuspicious(String, String),
}

/// The first byte that a run of actions writes to the client, if any.
pub open spec fn first_byte_written(acts: Seq<SessionAction>) -> Option<u8>
    decreases acts.len(),
{
    if acts.len() == 0 {
        None
    } else {
        match acts[0] {
            SessionAction::WriteByte(b) => Some(b),
            _ => first_byte_written(acts.drop_first()),
        }
    }
}

/// The request kinds a log entry names.
pub const LOG_SIGNUP: u8 = 0;
pub const LOG_LOGIN: u8 = 1;
pub const LOG_FETCH: u8 = 2;

/// The first state of a session: the direct handler reads the
/// authentication kind at once, the others run a handshake first.
pub open spec fn spec_session_start(dialect: Dialect) -> SessionState {
    if dialect == Dialect::Direct {
        SessionState::AwaitAuthKind
    } else {
        SessionState::AwaitHandshake
    }
}

/// The first state of a session.
pub fn session_start(dialect: Dialect) -> (st: SessionState)
    ensures
        st == spec_session_start(dialect),
{
    if dialect == Dialect::Direct {
        SessionState::AwaitAuthKind
    } else {
        SessionState::AwaitHandshake
    }
}

/// The answer to a sign-up: when new users are allowed, 0 and the host's
/// record (then the confirmation is awaited); otherwise `UNAUTHORIZED`,
/// logged (the TLS handler logs first) and the connection closed (the
/// direct handler neither logs nor closes).
pub open spec fn spec_signup(dialect: Dialect, allow_new_users: bool) -> (SessionState, Seq<
    SessionAction,
>) {
    if allow_new_users {
        (
            SessionState::AwaitSignupConfirm,
            seq![SessionAction::WriteByte(0), SessionAction::SendHostRecord],
        )
    } else {
        let log = SessionAction::Log(LogWho::Nobody, LOG_SIGNUP, UNAUTHORIZED);
        match dialect {
            Dialect::Tls => (
                SessionState::Done(0),
                seq![log, SessionAction::WriteByte(UNAUTHORIZED), SessionAction::Shutdown],
            ),
            Dialect::Plain => (
                SessionState::Done(0),
                seq![SessionAction::WriteByte(UNAUTHORIZED), log, SessionAction::Shutdown],
            ),
            Dialect::Direct => (SessionState::Done(0), seq![SessionAction::WriteByte(UNAUTHORIZED)]),
        }
    }
}

/// The server's session rule for one connection, with its own id
/// `host_cpid`. After the handshake a lost client ends the session with 1
/// and a sign-up is answered as [`spec_signup`] says; a confirmed sign-up
/// registers the user, answers 0 and closes. A token request is served
/// (answer 0, the request, then its status) when the verdict serves it,
/// reported with `UNMATCHED_CPID` when suspicious, and refused (pause,
/// `UNAUTHORIZED`) otherwise; the TLS handler keeps a copy for the
/// administrator unless the client was suspicious. A granted login is
/// answered 0 and the token; a refused one `UNAUTHORIZED`; both are
/// logged by the handlers with a handshake. A served listing request gets
/// the owner's listing, then (but for the direct handler) the public one
/// when the client asks with 1, logged as the handler says; a suspicious
/// one is reported. An event the state does not wait for changes nothing.
pub open spec fn spec_session_step(
    dialect: Dialect,
    host_cpid: String,
    allow_new_users: bool,
    st: SessionState,
    ev: SessionEvent,
) -> (SessionState, Seq<SessionAction>) {
    match (st, ev) {
        (SessionState::AwaitHandshake, SessionEvent::Handshake(r)) => {
            if r == 1 {
                (SessionState::Done(1), Seq::empty())
            } else if r == crate::protocol::SIGNIN_CRED {
                spec_signup(dialect, allow_new_users)
            } else {
                (SessionState::AwaitAuthKind, Seq::empty())
            }
        },
        (SessionState::AwaitSignupConfirm, SessionEvent::ClientByte(c)) => {
            let close = if dialect == Dialect::Direct {
                Seq::empty()
            } else {
                seq![SessionAction::Shutdown]
            };
            if c == 0 {
                (
                    SessionState::Done(0),
                    seq![SessionAction::RegisterUser, SessionAction::WriteByte(0)] + close,
                )
            } else {
                (SessionState::Done(0), close)
            }
        },
        (SessionState::AwaitAuthKind, SessionEvent::ClientByte(b)) => match spec_auth_kind(
            dialect,
            b,
        ) {
            AuthKind::Jwt => (SessionState::AwaitJwtCheck, seq![SessionAction::ReadJwtRequest]),
            AuthKind::Login => (SessionState::AwaitLoginCheck, seq![SessionAction::ReadLogin]),
            AuthKind::Fetch => (SessionState::AwaitFetchCheck, seq![SessionAction::ReadFetchHeader]),
            AuthKind::SignUp => spec_signup(dialect, allow_new_users),
            AuthKind::Invalid => (SessionState::Done(0), Seq::empty()),
        },
        (
            SessionState::AwaitJwtCheck,
            SessionEvent::Checked { is_valid, token_cpid, request_cpid },
        ) => {
            let keep = if dialect == Dialect::Tls {
                seq![SessionAction::KeepAdminCopy]
            } else {
                Seq::empty()
            };
            match spec_jwt_verdict(dialect, is_valid, token_cpid@, request_cpid@, host_cpid@) {
                JwtVerdict::Serve => (
                    SessionState::AwaitServed,
                    seq![SessionAction::WriteByte(0), SessionAction::ServeRequest],
                ),
                JwtVerdict::Suspicious => (
                    SessionState::Done(UNMATCHED_CPID),
                    seq![SessionAction::ReportSuspicious(token_cpid, request_cpid)],
                ),
                JwtVerdict::Refuse => {
                    let pause = if dialect == Dialect::Direct {
                        Seq::empty()
                    } else {
                        seq![SessionAction::Pause]
                    };
                    (
                        SessionState::Done(0),
                        pause + seq![SessionAction::WriteByte(UNAUTHORIZED)] + keep,
                    )
                },
            }
        },
        (SessionState::AwaitServed, SessionEvent::Served(status)) => {
            let keep = if dialect == Dialect::Tls {
                seq![SessionAction::KeepAdminCopy]
            } else {
                Seq::empty()
            };
            (SessionState::Done(0), seq![SessionAction::WriteByte(status)] + keep)
        },
        (SessionState::AwaitLoginCheck, SessionEvent::LoginChecked { granted, cpid }) => {
            if granted {
                (
                    SessionState::AwaitLoginConfirm(cpid),
                    seq![SessionAction::WriteByte(0), SessionAction::SendToken],
                )
            } else if dialect == Dialect::Direct {
                (SessionState::Done(0), seq![SessionAction::WriteByte(UNAUTHORIZED)])
            } else {
                (
                    SessionState::Done(0),
                    seq![
                        SessionAction::WriteByte(UNAUTHORIZED),
                        SessionAction::Log(LogWho::Id(cpid), LOG_LOGIN, UNAUTHORIZED),
                    ],
                )
            }
        },
        (SessionState::AwaitLoginConfirm(cpid), SessionEvent::ClientByte(_)) => {
            if dialect == Dialect::Direct {
                (SessionState::Done(0), Seq::empty())
            } else {
                (SessionState::Done(0), seq![SessionAction::Log(LogWho::Id(cpid), LOG_LOGIN, 0)])
            }
        },
        (
            SessionState::AwaitFetchCheck,
            SessionEvent::Checked { is_valid, token_cpid, request_cpid },
        ) => match spec_fetch_verdict(dialect, is_valid, token_cpid@, request_cpid@) {
            FetchVerdict::Serve => if dialect == Dialect::Direct {
                (SessionState::Done(0), seq![SessionAction::SendOwnListing])
            } else {
                (SessionState::AwaitPublicWanted(token_cpid), seq![SessionAction::SendOwnListing])
            },
            FetchVerdict::Suspicious => (
                SessionState::Done(UNMATCHED_CPID),
                seq![
                    SessionAction::ReportSuspicious(token_cpid, request_cpid),
                    SessionAction::Log(LogWho::Nobody, LOG_FETCH, UNMATCHED_CPID),
                ],
            ),
            FetchVerdict::Ignore => (SessionState::Done(0), Seq::empty()),
        },
        (SessionState::AwaitPublicWanted(token_cpid), SessionEvent::ClientByte(p)) => {
            let public = if p == 1 {
                seq![SessionAction::SendPublicListing]
            } else {
                Seq::empty()
            };
            let logged = if dialect == Dialect::Plain || (dialect == Dialect::Tls && p == 1) {
                seq![SessionAction::Log(LogWho::Id(token_cpid), LOG_FETCH, 0)]
            } else {
                Seq::empty()
            };
            (SessionState::Done(0), public + logged)
        },
        _ => (st, Seq::empty()),
    }
}

/// The answer to a sign-up.
fn signup(dialect: Dialect, allow_new_users: bool) -> (res: (SessionState, Vec<SessionAction>))
    ensures
        res.0 == spec_signup(dialect, allow_new_users).0,
        res.1@ == spec_signup(dialect, allow_new_users).1,
{
    let mut out: Vec<SessionAction> = Vec::new();
    if allow_new_users {
        out.push(SessionAction::WriteByte(0));
        out.push(SessionAction::SendHostRecord);
        assert(out@ =~= seq![SessionAction::WriteByte(0), SessionAction::SendHostRecord]);
        (SessionState::AwaitSignupConfirm, out)
    } else {
        match dialect {
            Dialect::Tls => {
                out.push(SessionAction::Log(LogWho::Nobody, LOG_SIGNUP, UNAUTHORIZED));
                out.push(SessionAction::WriteByte(UNAUTHORIZED));
                out.push(SessionAction::Shutdown);
                assert(out@ =~= seq![
                    SessionAction::Log(LogWho::Nobody, LOG_SIGNUP, UNAUTHORIZED),
                    SessionAction::WriteByte(UNAUTHORIZED),
                    SessionAction::Shutdown,
                ]);
            },
            Dialect::Plain => {
                out.push(SessionAction::WriteByte(UNAUTHORIZED));
                out.push(SessionAction::Log(LogWho::Nobody, LOG_SIGNUP, UNAUTHORIZED));
                out.push(SessionAction::Shutdown);
                assert(out@ =~= seq![
                    SessionAction::WriteByte(UNAUTHORIZED),
                    SessionAction::Log(LogWho::Nobody, LOG_SIGNUP, UNAUTHORIZED),
                    SessionAction::Shutdown,
                ]);
            },
            Dialect::Direct => {
                out.push(SessionAction::WriteByte(UNAUTHORIZED));
                assert(out@ =~= seq![SessionAction::WriteByte(UNAUTHORIZED)]);
            },
        }
        (SessionState::Done(0), out)
    }
}

/// One step of the server's session.
pub fn session_step(
    dialect: Dialect,
    host_cpid: &String,
    allow_new_users: bool,
    st: SessionState,
    ev: SessionEvent,
) -> (res: (SessionState, Vec<SessionAction>))
    ensures
        res.0 == spec_session_step(dialect, *host_cpid, allow_new_users, st, ev).0,
        res.1@ == spec_session_step(dialect, *host_cpid, allow_new_users, st, ev).1,
{
    let mut out: Vec<SessionAction> = Vec::new();
    match (st, ev) {
        (SessionState::AwaitHandshake, SessionEvent::Handshake(r)) => match route_after_handshake(
            r,
        ) {
            SessionRoute::ClientLost => {
                assert(out@ =~= Seq::<SessionAction>::empty());
                (SessionState::Done(1), out)
            },
            SessionRoute::SignUp => signup(dialect, allow_new_users),
            SessionRoute::Authenticate => {
                assert(out@ =~= Seq::<SessionAction>::empty());
                (SessionState::AwaitAuthKind, out)
            },
        },
        (SessionState::AwaitSignupConfirm, SessionEvent::ClientByte(c)) => {
            if c == 0 {
                out.push(SessionAction::RegisterUser);
                out.push(SessionAction::WriteByte(0));
            }
            if dialect != Dialect::Direct {
                out.push(SessionAction::Shutdown);
            }
            proof {
                let close = if dialect == Dialect::Direct {
                    Seq::<SessionAction>::empty()
                } else {
                    seq![SessionAction::Shutdown]
                };
                if c == 0 {
                    assert(out@ =~= seq![SessionAction::RegisterUser, SessionAction::WriteByte(0)]
                        + close);
                } else {
                    assert(out@ =~= close);
                }
            }
            (SessionState::Done(0), out)
        },
        (SessionState::AwaitAuthKind, SessionEvent::ClientByte(b)) => match auth_kind(dialect, b) {
            AuthKind::Jwt => {
                out.push(SessionAction::ReadJwtRequest);
                assert(out@ =~= seq![SessionAction::ReadJwtRequest]);
                (SessionState::AwaitJwtCheck, out)
            },
            AuthKind::Login => {
                out.push(SessionAction::ReadLogin);
                assert(out@ =~= seq![SessionAction::ReadLogin]);
                (SessionState::AwaitLoginCheck, out)
            },
            AuthKind::Fetch => {
                out.push(SessionAction::ReadFetchHeader);
                assert(out@ =~= seq![SessionAction::ReadFetchHeader]);
                (SessionState::AwaitFetchCheck, out)
            },
            AuthKind::SignUp => signup(dialect, allow_new_users),
            AuthKind::Invalid => {
                assert(out@ =~= Seq::<SessionAction>::empty());
                (SessionState::Done(0), out)
            },
        },
        (
            SessionState::AwaitJwtCheck,
            SessionEvent::Checked { is_valid, token_cpid, request_cpid },
        ) => {
            let ghost tc = token_cpid;
            let ghost rc = request_cpid;
            match jwt_verdict(dialect, is_valid, &token_cpid, &request_cpid, host_cpid) {
                JwtVerdict::Serve => {
                    out.push(SessionAction::WriteByte(0));
                    out.push(SessionAction::ServeRequest);
                    assert(out@ =~= seq![SessionAction::WriteByte(0), SessionAction::ServeRequest]);
                    (SessionState::AwaitServed, out)
                },
                JwtVerdict::Suspicious => {
                    out.push(SessionAction::ReportSuspicious(token_cpid, request_cpid));
                    assert(out@ =~= seq![SessionAction::ReportSuspicious(tc, rc)]);
                    (SessionState::Done(UNMATCHED_CPID), out)
                },
                JwtVerdict::Refuse => {
                    if dialect != Dialect::Direct {
                        out.push(SessionAction::Pause);
                    }
                    out.push(SessionAction::WriteByte(UNAUTHORIZED));
                    if dialect == Dialect::Tls {
                        out.push(SessionAction::KeepAdminCopy);
                    }
                    proof {
                        let pause = if dialect == Dialect::Direct {
                            Seq::<SessionAction>::empty()
                        } else {
                            seq![SessionAction::Pause]
                        };
                        let keep = if dialect == Dialect::Tls {
                            seq![SessionAction::KeepAdminCopy]
                        } else {
                            Seq::<SessionAction>::empty()
                        };
                        assert(out@ =~= pause + seq![SessionAction::WriteByte(UNAUTHORIZED)] + keep);
                    }
                    (SessionState::Done(0), out)
                },
            }
        },
        (SessionState::AwaitServed, SessionEvent::Served(status)) => {
            out.push(SessionAction::WriteByte(status));
            if dialect == Dialect::Tls {
                out.push(SessionAction::KeepAdminCopy);
            }
            proof {
                let keep = if dialect == Dialect::Tls {
                    seq![SessionAction::KeepAdminCopy]
                } else {
                    Seq::<SessionAction>::empty()
                };
                assert(out@ =~= seq![SessionAction::WriteByte(status)] + keep);
            }
            (SessionState::Done(0), out)
        },
        (SessionState::AwaitLoginCheck, SessionEvent::LoginChecked { granted, cpid }) => {
            let ghost c = cpid;
            if granted {
                out.push(SessionAction::WriteByte(0));
                out.push(SessionAction::SendToken);
                assert(out@ =~= seq![SessionAction::WriteByte(0), SessionAction::SendToken]);
                (SessionState::AwaitLoginConfirm(cpid), out)
            } else if dialect == Dialect::Direct {
                out.push(SessionAction::WriteByte(UNAUTHORIZED));
                assert(out@ =~= seq![SessionAction::WriteByte(UNAUTHORIZED)]);
                (SessionState::Done(0), out)
            } else {
                out.push(SessionAction::WriteByte(UNAUTHORIZED));
                out.push(SessionAction::Log(LogWho::Id(cpid), LOG_LOGIN, UNAUTHORIZED));
                assert(out@ =~= seq![
                    SessionAction::WriteByte(UNAUTHORIZED),
                    SessionAction::Log(LogWho::Id(c), LOG_LOGIN, UNAUTHORIZED),
                ]);
                (SessionState::Done(0), out)
            }
        },
        (SessionState::AwaitLoginConfirm(cpid), SessionEvent::ClientByte(_)) => {
            let ghost c = cpid;
            if dialect == Dialect::Direct {
                assert(out@ =~= Seq::<SessionAction>::empty());
            } else {
                out.push(SessionAction::Log(LogWho::Id(cpid), LOG_LOGIN, 0));
                assert(out@ =~= seq![SessionAction::Log(LogWho::Id(c), LOG_LOGIN, 0)]);
            }
            (SessionState::Done(0), out)
        },
        (
            SessionState::AwaitFetchCheck,
            SessionEvent::Checked { is_valid, token_cpid, request_cpid },
        ) => {
            let ghost tc = token_cpid;
            let ghost rc = request_cpid;
            match fetch_verdict(dialect, is_valid, &token_cpid, &request_cpid) {
                FetchVerdict::Serve => {
                    out.push(SessionAction::SendOwnListing);
                    assert(out@ =~= seq![SessionAction::SendOwnListing]);
                    if dialect == Dialect::Direct {
                        (SessionState::Done(0), out)
                    } else {
                        (SessionState::AwaitPublicWanted(token_cpid), out)
                    }
                },
                FetchVerdict::Suspicious => {
                    out.push(SessionAction::ReportSuspicious(token_cpid, request_cpid));
                    out.push(SessionAction::Log(LogWho::Nobody, LOG_FETCH, UNMATCHED_CPID));
                    assert(out@ =~= seq![
                        SessionAction::ReportSuspicious(tc, rc),
                        SessionAction::Log(LogWho::Nobody, LOG_FETCH, UNMATCHED_CPID),
                    ]);
                    (SessionState::Done(UNMATCHED_CPID), out)
                },
                FetchVerdict::Ignore => {
                    assert(out@ =~= Seq::<SessionAction>::empty());
                    (SessionState::Done(0), out)
                },
            }
        },
        (SessionState::AwaitPublicWanted(token_cpid), SessionEvent::ClientByte(p)) => {
            let ghost tc = token_cpid;
            if p == 1 {
                out.push(SessionAction::SendPublicListing);
            }
            let ghost public = out@;
            if dialect == Dialect::Plain || (dialect == Dialect::Tls && p == 1) {
                out.push(SessionAction::Log(LogWho::Id(token_cpid), LOG_FETCH, 0));
            }
            proof {
                let pub_s = if p == 1 {
                    seq![SessionAction::SendPublicListing]
                } else {
                    Seq::<SessionAction>::empty()
                };
                let logged = if dialect == Dialect::Plain || (dialect == Dialect::Tls && p == 1) {
                    seq![SessionAction::Log(LogWho::Id(tc), LOG_FETCH, 0)]
                } else {
                    Seq::<SessionAction>::empty()
                };
                assert(public =~= pub_s);
                assert(out@ =~= pub_s + logged);
            }
            (SessionState::Done(0), out)
        },
        (s, _) => {
            assert(out@ =~= Seq::<SessionAction>::empty());
            (s, out)
        },
    }
}

/// Authorisation law: a token request is served only when its token is
/// valid, except that the TLS handler serves any request in the host's
/// own id; and the plain handler serves a valid token only for its own id
/// or the host's. A listing is sent only for a valid token, and (but in
/// the direct handler) only for the token's own id.
pub proof fn law_session_authorisation(
    dialect: Dialect,
    host_cpid: String,
    allow_new_users: bool,
    is_valid: bool,
    token_cpid: String,
    request_cpid: String,
)
    ensures
        ({
            let (_, acts) = spec_session_step(
                dialect,
                host_cpid,
                allow_new_users,
                SessionState::AwaitJwtCheck,
                SessionEvent::Checked { is_valid, token_cpid, request_cpid },
            );
            acts.contains(SessionAction::ServeRequest) ==> match dialect {
                Dialect::Tls => is_valid || request_cpid@ == host_cpid@,
                Dialect::Plain => is_valid && (token_cpid@ == request_cpid@ || host_cpid@
                    == request_cpid@),
                Dialect::Direct => is_valid,
            }
        }),
        ({
            let (_, acts) = spec_session_step(
                dialect,
                host_cpid,
                allow_new_users,
                SessionState::AwaitFetchCheck,
                SessionEvent::Checked { is_valid, token_cpid, request_cpid },
            );
            acts.contains(SessionAction::SendOwnListing) ==> is_valid && (dialect
                != Dialect::Direct ==> token_cpid@ == request_cpid@)
        }),
{
    let v = spec_jwt_verdict(dialect, is_valid, token_cpid@, request_cpid@, host_cpid@);
    let (_, acts) = spec_session_step(
        dialect,
        host_cpid,
        allow_new_users,
        SessionState::AwaitJwtCheck,
        SessionEvent::Checked { is_valid, token_cpid, request_cpid },
    );
    if v != JwtVerdict::Serve {
        if acts.contains(SessionAction::ServeRequest) {
            let i = choose|i: int| 0 <= i < acts.len() && acts[i] == SessionAction::ServeRequest;
            assert(acts[i] == SessionAction::ServeRequest);
        }
    }
    let f = spec_fetch_verdict(dialect, is_valid, token_cpid@, request_cpid@);
    let (_, facts) = spec_session_step(
        dialect,
        host_cpid,
        allow_new_users,
        SessionState::AwaitFetchCheck,
        SessionEvent::Checked { is_valid, token_cpid, request_cpid },
    );
    if f != FetchVerdict::Serve {
        if facts.contains(SessionAction::SendOwnListing) {
            let i = choose|i: int| 0 <= i < facts.len() && facts[i] == SessionAction::SendOwnListing;
            assert(facts[i] == SessionAction::SendOwnListing);
        }
    }
}

/// Session law: a served request is answered 0 before it is served, and
/// the served request's status is the next byte the server writes.
pub proof fn law_session_brackets_serving(
    dialect: Dialect,
    host_cpid: String,
    allow_new_users: bool,
    is_valid: bool,
    token_cpid: String,
    request_cpid: String,
    status: u8,
)
    requires
        spec_jwt_verdict(dialect, is_valid, token_cpid@, request_cpid@, host_cpid@)
            == JwtVerdict::Serve,
    ensures
        ({
            let (s1, a1) = spec_session_step(
                dialect,
                host_cpid,
                allow_new_users,
                SessionState::AwaitJwtCheck,
                SessionEvent::Checked { is_valid, token_cpid, request_cpid },
            );
            let (s2, a2) = spec_session_step(
                dialect,
                host_cpid,
                allow_new_users,
                s1,
                SessionEvent::Served(status),
            );
            &&& a1 == seq![SessionAction::WriteByte(0), SessionAction::ServeRequest]
            &&& a2[0] == SessionAction::WriteByte(status)
            &&& s2 == SessionState::Done(0)
        }),
{
}

/// Announcement law: whatever the handler, a client that announces a
/// token request, a login or a listing request gets it read: the session
/// reads the token request, the login or the listing header next.
pub proof fn law_session_reads_announced_request(
    dialect: Dialect,
    host_cpid: String,
    allow_new_users: bool,
)
    ensures
        spec_session_step(
            dialect,
            host_cpid,
            allow_new_users,
            SessionState::AwaitAuthKind,
            SessionEvent::ClientByte(crate::protocol::JWT_AUTH),
        ) == (SessionState::AwaitJwtCheck, seq![SessionAction::ReadJwtRequest]),
        spec_session_step(
            dialect,
            host_cpid,
            allow_new_users,
            SessionState::AwaitAuthKind,
            SessionEvent::ClientByte(crate::protocol::LOGIN_CRED),
        ) == (SessionState::AwaitLoginCheck, seq![SessionAction::ReadLogin]),
        spec_session_step(
            dialect,
            host_cpid,
            allow_new_users,
            SessionState::AwaitAuthKind,
            SessionEvent::ClientByte(crate::protocol::FETCH),
        ) == (SessionState::AwaitFetchCheck, seq![SessionAction::ReadFetchHeader]),
{
}

/// Sign-up and login law: the server sends its record to a client that
/// signs up only when new users are allowed, registers a user only when
/// that client has just confirmed with 0, sends a token only for a login
/// just granted, and otherwise answers a sign-up with `UNAUTHORIZED`.
pub proof fn law_session_grants_only_when_due(
    dialect: Dialect,
    host_cpid: String,
    allow_new_users: bool,
    st: SessionState,
    ev: SessionEvent,
)
    ensures
        ({
            let (_, acts) = spec_session_step(dialect, host_cpid, allow_new_users, st, ev);
            &&& forall|i: int|
                0 <= i < acts.len() && (#[trigger] acts[i]) is SendHostRecord ==> allow_new_users
            &&& forall|i: int|
                0 <= i < acts.len() && (#[trigger] acts[i]) is RegisterUser ==> st
                    == SessionState::AwaitSignupConfirm && ev == SessionEvent::ClientByte(0)
            &&& forall|i: int|
                0 <= i < acts.len() && (#[trigger] acts[i]) is SendToken ==> st
                    == SessionState::AwaitLoginCheck && ev matches SessionEvent::LoginChecked {
                    granted: true,
                    ..
                }
        }),
        !allow_new_users && st == SessionState::AwaitHandshake && ev == SessionEvent::Handshake(
            crate::protocol::SIGNIN_CRED,
        ) ==> first_byte_written(
            spec_session_step(dialect, host_cpid, allow_new_users, st, ev).1,
        ) == Some(UNAUTHORIZED),
{
    let acts = spec_session_step(dialect, host_cpid, allow_new_users, st, ev).1;
    if !allow_new_users && st == SessionState::AwaitHandshake && ev == SessionEvent::Handshake(
        crate::protocol::SIGNIN_CRED,
    ) {
        if dialect == Dialect::Tls {
            assert(acts[0] is Log);
            assert(acts.drop_first()[0] == SessionAction::WriteByte(UNAUTHORIZED));
            assert(first_byte_written(acts.drop_first()) == Some(UNAUTHORIZED));
        } else {
            assert(acts[0] == SessionAction::WriteByte(UNAUTHORIZED));
        }
    }
}

} // verus!

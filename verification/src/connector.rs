use vstd::prelude::*;
use crate::host::UserRecord;
use crate::protocol::{JWT_AUTH, LOGIN_CRED, RECONNECT_STATUS, UNAUTHORIZED};
use crate::req_format::{JwtReq, LoginReq};
use crate::request::RQM;

verus! {

/// Where a client connection to its server stands.
#[derive(Debug)]
pub enum ConnectState {
    /// Nothing done yet.
    Start,
    /// Connected; waits for the handshake's result (logging in when the flag is set).
    AwaitHandshake(bool),
    /// Sent the login; waits for the server's answer byte.
    AwaitLoginAnswer,
    /// The login was granted; waits for the token text.
    AwaitToken,
    /// Sent the token and request; waits for the server's verdict byte.
    AwaitAuthAnswer,
    /// Runs the request; waits for its status.
    AwaitRequest,
    /// Finished with this status.
    Done(u8),
    /// The process stops with this code.
    Exited(i32),
}

/// What the client learns next.
#[derive(Debug)]
pub enum ConnectEvent {
    Begin,
    /// The handshake's result (0: the right server).
    Handshake(u8),
    /// A byte from the server.
    Byte(u8),
    /// The token the server granted (read as UTF-8 text).
    Token(String),
    /// The status of the request the client ran.
    RequestStatus(u8),
}

/// What the client does.
#[derive(Debug)]
pub enum ConnectAction {
    /// Connect to the server (private address first) and run the handshake.
    Connect,
    /// Write a byte.
    WriteByte(u8),
    /// Write this serialised login.
    SendLogin(LoginReq),
    /// Write this serialised token request.
    SendJwt(JwtReq),
    /// Store the granted token for this server and user.
    StoreToken(String),
    /// Delete the stored token, which the server refused.
    DropToken,
    /// Run the request over the connection.
    RunRequest,
    /// Stop the process with this code.
    Exit(i32),
}

/// The client's connection rule. Without a stored token it logs in: the
/// login carries the user's id, user name and password; a granted login
/// (answer 0) yields a token that is stored, acknowledged with 0 and
/// reported as `RECONNECT_STATUS`; an `UNAUTHORIZED` answer stops the
/// process with 1; any other answer gives 44. With a token it sends the
/// token and the request; a nonzero verdict drops the token and stops the
/// process with `UNAUTHORIZED`; otherwise it runs the request and reports
/// 0 when that succeeds and 1 otherwise. A failed handshake stops the
/// process with 1. An event the state does not wait for changes nothing.
pub open spec fn spec_connect_step(
    jwt: Option<String>,
    user: UserRecord,
    request: RQM,
    st: ConnectState,
    ev: ConnectEvent,
) -> (ConnectState, Seq<ConnectAction>) {
    match (st, ev) {
        (ConnectState::Start, ConnectEvent::Begin) => (
            ConnectState::AwaitHandshake(jwt is None),
            seq![ConnectAction::Connect],
        ),
        (ConnectState::AwaitHandshake(login), ConnectEvent::Handshake(r)) => {
            if r != 0 {
                (ConnectState::Exited(1), seq![ConnectAction::Exit(1)])
            } else if login {
                (
                    ConnectState::AwaitLoginAnswer,
                    seq![
                        ConnectAction::WriteByte(LOGIN_CRED),
                        ConnectAction::SendLogin(
                            LoginReq { cpid: user.cpid, name: user.usrname, paswd: user.paswd },
                        ),
                    ],
                )
            } else {
                match jwt {
                    Some(t) => (
                        ConnectState::AwaitAuthAnswer,
                        seq![
                            ConnectAction::WriteByte(JWT_AUTH),
                            ConnectAction::SendJwt(JwtReq { jwt: t, request: request }),
                        ],
                    ),
                    None => (ConnectState::AwaitHandshake(login), Seq::empty()),
                }
            }
        },
        (ConnectState::AwaitLoginAnswer, ConnectEvent::Byte(b)) => {
            if b == 0 {
                (ConnectState::AwaitToken, Seq::empty())
            } else if b == UNAUTHORIZED {
                (ConnectState::Exited(1), seq![ConnectAction::Exit(1)])
            } else {
                (ConnectState::Done(44), Seq::empty())
            }
        },
        (ConnectState::AwaitToken, ConnectEvent::Token(t)) => (
            ConnectState::Done(RECONNECT_STATUS),
            seq![ConnectAction::StoreToken(t), ConnectAction::WriteByte(0)],
        ),
        (ConnectState::AwaitAuthAnswer, ConnectEvent::Byte(b)) => {
            if b != 0 {
                (
                    ConnectState::Exited(UNAUTHORIZED as i32),
                    seq![ConnectAction::DropToken, ConnectAction::Exit(UNAUTHORIZED as i32)],
                )
            } else {
                (ConnectState::AwaitRequest, seq![ConnectAction::RunRequest])
            }
        },
        (ConnectState::AwaitRequest, ConnectEvent::RequestStatus(s)) => (
            ConnectState::Done(
                if s == 0 {
                    0u8
                } else {
                    1u8
                },
            ),
            Seq::empty(),
        ),
        _ => (st, Seq::empty()),
    }
}

/// One step of the client's connection.
pub fn connect_step(
    jwt: &Option<String>,
    user: &UserRecord,
    request: &RQM,
    st: ConnectState,
    ev: ConnectEvent,
) -> (res: (ConnectState, Vec<ConnectAction>))
    ensures
        res.0 == spec_connect_step(*jwt, *user, *request, st, ev).0,
        res.1@ == spec_connect_step(*jwt, *user, *request, st, ev).1,
{
    let mut out: Vec<ConnectAction> = Vec::new();
    match (st, ev) {
        (ConnectState::Start, ConnectEvent::Begin) => {
            out.push(ConnectAction::Connect);
            assert(out@ =~= seq![ConnectAction::Connect]);
            (ConnectState::AwaitHandshake(jwt.is_none()), out)
        },
        (ConnectState::AwaitHandshake(login), ConnectEvent::Handshake(r)) => {
            if r != 0 {
                out.push(ConnectAction::Exit(1));
                assert(out@ =~= seq![ConnectAction::Exit(1)]);
                (ConnectState::Exited(1), out)
            } else if login {
                let req = LoginReq {
                    cpid: user.cpid.clone(),
                    name: user.usrname.clone(),
                    paswd: user.paswd.clone(),
                };
                out.push(ConnectAction::WriteByte(LOGIN_CRED));
                out.push(ConnectAction::SendLogin(req));
                assert(out@ =~= seq![
                    ConnectAction::WriteByte(LOGIN_CRED),
                    ConnectAction::SendLogin(
                        LoginReq { cpid: user.cpid, name: user.usrname, paswd: user.paswd },
                    ),
                ]);
                (ConnectState::AwaitLoginAnswer, out)
            } else {
                match jwt {
                    Some(t) => {
                        let req = JwtReq { jwt: t.clone(), request: request.duplicate() };
                        out.push(ConnectAction::WriteByte(JWT_AUTH));
                        out.push(ConnectAction::SendJwt(req));
                        assert(out@ =~= seq![
                            ConnectAction::WriteByte(JWT_AUTH),
                            ConnectAction::SendJwt(JwtReq { jwt: *t, request: *request }),
                        ]);
                        (ConnectState::AwaitAuthAnswer, out)
                    },
                    None => {
                        assert(out@ =~= Seq::<ConnectAction>::empty());
                        (ConnectState::AwaitHandshake(login), out)
                    },
                }
            }
        },
        (ConnectState::AwaitLoginAnswer, ConnectEvent::Byte(b)) => {
            if b == 0 {
                assert(out@ =~= Seq::<ConnectAction>::empty());
                (ConnectState::AwaitToken, out)
            } else if b == UNAUTHORIZED {
                out.push(ConnectAction::Exit(1));
                assert(out@ =~= seq![ConnectAction::Exit(1)]);
                (ConnectState::Exited(1), out)
            } else {
                assert(out@ =~= Seq::<ConnectAction>::empty());
                (ConnectState::Done(44), out)
            }
        },
        (ConnectState::AwaitToken, ConnectEvent::Token(t)) => {
            let ghost g = t;
            out.push(ConnectAction::StoreToken(t));
            out.push(ConnectAction::WriteByte(0));
            assert(out@ =~= seq![ConnectAction::StoreToken(g), ConnectAction::WriteByte(0)]);
            (ConnectState::Done(RECONNECT_STATUS), out)
        },
        (ConnectState::AwaitAuthAnswer, ConnectEvent::Byte(b)) => {
            if b != 0 {
                out.push(ConnectAction::DropToken);
                out.push(ConnectAction::Exit(UNAUTHORIZED as i32));
                assert(out@ =~= seq![
                    ConnectAction::DropToken,
                    ConnectAction::Exit(UNAUTHORIZED as i32),
                ]);
                (ConnectState::Exited(UNAUTHORIZED as i32), out)
            } else {
                out.push(ConnectAction::RunRequest);
                assert(out@ =~= seq![ConnectAction::RunRequest]);
                (ConnectState::AwaitRequest, out)
            }
        },
        (ConnectState::AwaitRequest, ConnectEvent::RequestStatus(s)) => {
            assert(out@ =~= Seq::<ConnectAction>::empty());
            if s == 0 {
                (ConnectState::Done(0), out)
            } else {
                (ConnectState::Done(1), out)
            }
        },
        (s, _) => {
            assert(out@ =~= Seq::<ConnectAction>::empty());
            (s, out)
        },
    }
}

/// Which address a connection uses.
#[derive(Clone, Copy, Debug, PartialEq, Eq, Structural)]
pub enum AddressChoice {
    /// The address the user gave.
    Custom,
    /// The server's public address.
    Public,
    /// The server's private address.
    Private,
}

/// The port and address of a listing request: the user's port, or the
/// server's; the user's address, else the server's public address when
/// the client's own public address differs from it, else the private one.
pub fn fetch_target(
    custom_port: Option<u16>,
    server_port: u16,
    has_custom_ip: bool,
    same_public_ip: bool,
) -> (res: (u16, AddressChoice))
    ensures
        res.0 == match custom_port {
            Some(p) => p,
            None => server_port,
        },
        res.1 == if has_custom_ip {
            AddressChoice::Custom
        } else if !same_public_ip {
            AddressChoice::Public
        } else {
            AddressChoice::Private
        },
{
    let port = match custom_port {
        Some(p) => p,
        None => server_port,
    };
    let choice = if has_custom_ip {
        AddressChoice::Custom
    } else if !same_public_ip {
        AddressChoice::Public
    } else {
        AddressChoice::Private
    };
    (port, choice)
}

/// The address a request connection uses: the private address when the
/// attempt to reach it (within the time limit) connected, the public one
/// otherwise.
pub fn stream_target(private_connected: bool) -> (c: AddressChoice)
    ensures
        c == if private_connected {
            AddressChoice::Private
        } else {
            AddressChoice::Public
        },
{
    if private_connected {
        AddressChoice::Private
    } else {
        AddressChoice::Public
    }
}

/// Opening law: a client logs in exactly when it has no stored token.
/// After connecting and a successful handshake, a client with token `t`
/// announces `JWT_AUTH` and sends `t` with its request, and a client
/// without one announces `LOGIN_CRED` and sends its user's id, user name
/// and password; a failed handshake stops the process with 1 either way.
pub proof fn law_login_exactly_without_token(
    jwt: Option<String>,
    user: UserRecord,
    request: RQM,
    r: u8,
)
    ensures
        ({
            let (s1, a1) = spec_connect_step(jwt, user, request, ConnectState::Start, ConnectEvent::Begin);
            let (s2, a2) = spec_connect_step(jwt, user, request, s1, ConnectEvent::Handshake(0));
            let (s3, a3) = spec_connect_step(jwt, user, request, s1, ConnectEvent::Handshake(r));
            &&& a1 == seq![ConnectAction::Connect]
            &&& match jwt {
                Some(t) => {
                    &&& s2 == ConnectState::AwaitAuthAnswer
                    &&& a2 == seq![
                        ConnectAction::WriteByte(JWT_AUTH),
                        ConnectAction::SendJwt(JwtReq { jwt: t, request: request }),
                    ]
                },
                None => {
                    &&& s2 == ConnectState::AwaitLoginAnswer
                    &&& a2 == seq![
                        ConnectAction::WriteByte(LOGIN_CRED),
                        ConnectAction::SendLogin(
                            LoginReq { cpid: user.cpid, name: user.usrname, paswd: user.paswd },
                        ),
                    ]
                },
            }
            &&& (r != 0 ==> s3 == ConnectState::Exited(1) && a3 == seq![ConnectAction::Exit(1)])
        }),
{
}

/// Token-handling law: the client stores a token only when it has just
/// read the token a granted login yields, and stores exactly that token;
/// it drops its token only when the server has just refused it, and runs
/// its request only when the server has just accepted the token.
pub proof fn law_token_handled_only_when_due(
    jwt: Option<String>,
    user: UserRecord,
    request: RQM,
    st: ConnectState,
    ev: ConnectEvent,
)
    ensures
        ({
            let acts = spec_connect_step(jwt, user, request, st, ev).1;
            &&& forall|i: int|
                0 <= i < acts.len() && (#[trigger] acts[i]) is StoreToken ==> st
                    == ConnectState::AwaitToken && ev == ConnectEvent::Token(acts[i]->StoreToken_0)
            &&& forall|i: int|
                0 <= i < acts.len() && (#[trigger] acts[i]) is DropToken ==> st
                    == ConnectState::AwaitAuthAnswer && (ev matches ConnectEvent::Byte(b) && b != 0)
            &&& forall|i: int|
                0 <= i < acts.len() && (#[trigger] acts[i]) is RunRequest ==> st
                    == ConnectState::AwaitAuthAnswer && ev == ConnectEvent::Byte(0)
        }),
{
}

} // verus!

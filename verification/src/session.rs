use vstd::prelude::*;
use crate::protocol::{FETCH, JWT_AUTH, LOGIN_CRED, SIGNIN_CRED};

verus! {

/// Which of the server's connection handlers takes the decision: the
/// direct handler without a handshake, the one for plain connections and
/// the one for TLS connections. They differ in a few rules.
#[derive(Clone, Copy, Debug, PartialEq, Eq, Structural)]
pub enum Dialect {
    Direct,
    Plain,
    Tls,
}

/// What a connection turns into after the handshake.
#[derive(Clone, Copy, Debug, PartialEq, Eq, Structural)]
pub enum SessionRoute {
    /// The client was at the wrong address; the session ends with 1.
    ClientLost,
    /// The client asks to sign up.
    SignUp,
    /// The client authenticates; its authentication byte comes next.
    Authenticate,
}

/// The route for a handshake result: 1 loses the client, `SIGNIN_CRED`
/// is a sign-up, anything else goes on to authentication.
pub fn route_after_handshake(result: u8) -> (route: SessionRoute)
    ensures
        route == (if result == 1 {
            SessionRoute::ClientLost
        } else if result == SIGNIN_CRED {
            SessionRoute::SignUp
        } else {
            SessionRoute::Authenticate
        }),
{
    if result == 1 {
        SessionRoute::ClientLost
    } else if result == SIGNIN_CRED {
        SessionRoute::SignUp
    } else {
        SessionRoute::Authenticate
    }
}

/// The kinds of authentication a client can announce.
#[derive(Clone, Copy, Debug, PartialEq, Eq, Structural)]
pub enum AuthKind {
    /// A token and a request follow.
    Jwt,
    /// Login credentials follow.
    Login,
    /// A token header for a file listing follows.
    Fetch,
    /// A sign-up (only the handler without a handshake reads it here).
    SignUp,
    /// Anything else: the handler logs it and ends.
    Invalid,
}

/// The kind an authentication byte names for a handler.
pub open spec fn spec_auth_kind(dialect: Dialect, b: u8) -> AuthKind {
    if b == JWT_AUTH {
        AuthKind::Jwt
    } else if b == LOGIN_CRED {
        AuthKind::Login
    } else if b == FETCH {
        AuthKind::Fetch
    } else if b == SIGNIN_CRED && dialect == Dialect::Direct {
        AuthKind::SignUp
    } else {
        AuthKind::Invalid
    }
}

/// Classifies an authentication byte.
pub fn auth_kind(dialect: Dialect, b: u8) -> (kind: AuthKind)
    ensures
        kind == spec_auth_kind(dialect, b),
        b == JWT_AUTH ==> kind == AuthKind::Jwt,
        b == LOGIN_CRED ==> kind == AuthKind::Login,
        b == FETCH ==> kind == AuthKind::Fetch,
{
    if b == JWT_AUTH {
        AuthKind::Jwt
    } else if b == LOGIN_CRED {
        AuthKind::Login
    } else if b == FETCH {
        AuthKind::Fetch
    } else if b == SIGNIN_CRED && dialect == Dialect::Direct {
        AuthKind::SignUp
    } else {
        AuthKind::Invalid
    }
}

/// What the server does with a token-authenticated request.
#[derive(Clone, Copy, Debug, PartialEq, Eq, Structural)]
pub enum JwtVerdict {
    /// Answer 0 and serve the request.
    Serve,
    /// The token's id and the request's id differ: report the client.
    Suspicious,
    /// Answer `UNAUTHORIZED` (after a pause).
    Refuse,
}

/// The verdict on a token-authenticated request, given whether the token
/// is valid, the id the token carries, the id in the request and the
/// host's own id. The TLS handler serves a valid token for the same id,
/// and any request in the host's own id; the plain handler serves only a
/// valid token, for the same id or the host's; the direct handler serves
/// any valid token. A request it does not serve whose id differs from the
/// token's is suspicious (not in the direct handler).
pub open spec fn spec_jwt_verdict(
    dialect: Dialect,
    is_valid: bool,
    token_cpid: Seq<char>,
    request_cpid: Seq<char>,
    host_cpid: Seq<char>,
) -> JwtVerdict {
    let serve = match dialect {
        Dialect::Tls => (is_valid && token_cpid == request_cpid) || host_cpid == request_cpid,
        Dialect::Plain => is_valid && (token_cpid == request_cpid || host_cpid == request_cpid),
        Dialect::Direct => is_valid,
    };
    if serve {
        JwtVerdict::Serve
    } else if dialect != Dialect::Direct && token_cpid != request_cpid {
        JwtVerdict::Suspicious
    } else {
        JwtVerdict::Refuse
    }
}

/// Decides a token-authenticated request.
pub fn jwt_verdict(
    dialect: Dialect,
    is_valid: bool,
    token_cpid: &String,
    request_cpid: &String,
    host_cpid: &String,
) -> (v: JwtVerdict)
    ensures
        v == spec_jwt_verdict(dialect, is_valid, token_cpid@, request_cpid@, host_cpid@),
{
    let same = *token_cpid == *request_cpid;
    let host = *host_cpid == *request_cpid;
    let serve = match dialect {
        Dialect::Tls => (is_valid && same) || host,
        Dialect::Plain => is_valid && (same || host),
        Dialect::Direct => is_valid,
    };
    if serve {
        JwtVerdict::Serve
    } else if dialect != Dialect::Direct && !same {
        JwtVerdict::Suspicious
    } else {
        JwtVerdict::Refuse
    }
}

/// What the server does with a listing request.
#[derive(Clone, Copy, Debug, PartialEq, Eq, Structural)]
pub enum FetchVerdict {
    /// Send the owner's listing (and the public one when asked).
    Serve,
    /// The ids differ: report the client.
    Suspicious,
    /// Do nothing.
    Ignore,
}

/// The verdict on a listing request: served for a valid token whose id is
/// the request's (any valid token in the direct handler); the plain
/// handler reports a request whose id differs from the token's; otherwise
/// nothing happens.
pub open spec fn spec_fetch_verdict(
    dialect: Dialect,
    is_valid: bool,
    token_cpid: Seq<char>,
    request_cpid: Seq<char>,
) -> FetchVerdict {
    let serve = if dialect == Dialect::Direct {
        is_valid
    } else {
        is_valid && request_cpid == token_cpid
    };
    if serve {
        FetchVerdict::Serve
    } else if dialect == Dialect::Plain && request_cpid != token_cpid {
        FetchVerdict::Suspicious
    } else {
        FetchVerdict::Ignore
    }
}

/// Decides a listing request.
pub fn fetch_verdict(
    dialect: Dialect,
    is_valid: bool,
    token_cpid: &String,
    request_cpid: &String,
) -> (v: FetchVerdict)
    ensures
        v == spec_fetch_verdict(dialect, is_valid, token_cpid@, request_cpid@),
{
    let same = *request_cpid == *token_cpid;
    let serve = if dialect == Dialect::Direct {
        is_valid
    } else {
        is_valid && same
    };
    if serve {
        FetchVerdict::Serve
    } else if dialect == Dialect::Plain && !same {
        FetchVerdict::Suspicious
    } else {
        FetchVerdict::Ignore
    }
}

/// The count announced before a listing: the number of entries as a
/// `u16` (its low 16 bits).
pub fn listing_count(n: usize) -> (c: u16)
    ensures
        c == n as u16,
{
    n as u16
}

/// Whether a login validation grants a token: the check succeeded and
/// found the credentials valid.
pub fn login_granted(validation: Option<bool>) -> (granted: bool)
    ensures
        granted == (validation == Some(true)),
{
    match validation {
        Some(v) => v,
        None => false,
    }
}

/// Whether a sign-up goes on after a byte from the other side: the
/// server's permission (client side) and the client's confirmation
/// (server side) are both 0.
pub fn signup_accepted(b: u8) -> (go_on: bool)
    ensures
        go_on == (b == 0),
{
    b == 0
}

/// The user a client stores after signing up with the server whose id is
/// `server_cpid`: the server's reply, with its host set to that id.
pub fn adopt_server(user: crate::host::CreatedUser, server_cpid: String) -> (u:
    crate::host::CreatedUser)
    ensures
        u.cpid == user.cpid,
        u.name == user.name,
        u.email == user.email,
        u.usrname == user.usrname,
        u.host == server_cpid,
{
    let mut u = user;
    u.host = server_cpid;
    u
}

/// Authentication-kind law: every handler reads `JWT_AUTH` as a token
/// request, `LOGIN_CRED` as a login and `FETCH` as a listing request; the
/// kind a byte names depends on the handler only for the sign-up byte.
pub proof fn law_auth_kind_same_for_all_handlers(d1: Dialect, d2: Dialect, b: u8)
    ensures
        spec_auth_kind(d1, JWT_AUTH) == AuthKind::Jwt,
        spec_auth_kind(d1, LOGIN_CRED) == AuthKind::Login,
        spec_auth_kind(d1, FETCH) == AuthKind::Fetch,
        b != SIGNIN_CRED ==> spec_auth_kind(d1, b) == spec_auth_kind(d2, b),
{
}

} // verus!

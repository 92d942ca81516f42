use vstd::prelude::*;

verus! {

/// Status sent by the side that is ready to stream a file.
pub const READY_STATUS: u8 = 1;

/// The request was refused for lack of valid credentials.
pub const UNAUTHORIZED: u8 = 41;

/// What arrived does not match what the request announced.
pub const DATA_NOT_MATCH: u8 = 66;

/// The request completed.
pub const SUCCESFUL: u8 = 0;

/// The client should reconnect (a fresh token was stored).
pub const RECONNECT_STATUS: u8 = 8;

/// Authentication kind: the request carries a token.
pub const JWT_AUTH: u8 = 0;

/// The media named by the request does not exist.
pub const NOT_FOUND: u8 = 22;

/// The client could not complete its side of a transfer.
pub const CLIENT_SIDE_ERR: u8 = 68;

/// The server could not complete its side of a transfer.
pub const SERVER_SIDE_ERR: u8 = 69;

/// The server already stores the media the client wants to post.
pub const MEDIA_ALREADY_EXISTS: u8 = 62;

/// Authentication kind: the request carries login credentials.
pub const LOGIN_CRED: u8 = 1;

/// Authentication kind / handshake marker: the client asks to sign up.
pub const SIGNIN_CRED: u8 = 2;

/// Authentication kind: the client asks for its file listing.
pub const FETCH: u8 = 14;

/// The request id in the token and the one in the request differ.
pub const UNMATCHED_CPID: u8 = 44;

/// Reply to a client that asks for a plain connection that the server does not allow.
pub const SERVER_WILL_NOT_ALLOW_NOTLS: u8 = 43;

/// Size of one full packet of a file transfer.
pub const PACKET_SIZE: usize = 65533;

/// Listening mode: listen on every interface.
pub const NET_STATUS: u8 = 1;

/// Listening mode: listen on the private address only.
pub const PRIVATE_STATUS: u8 = 0;

/// Request header of a download.
pub const GET: &'static str = "!G";

/// Request header of an upload.
pub const POST: &'static str = "!P";

/// Request header of a deletion.
pub const DELETE: &'static str = "!D";

/// Checksum placeholder of a request that carries none.
pub const NO_VAL: &'static str = "N//A";

/// The header text of a download, as a sequence of characters.
pub open spec fn get_header() -> Seq<char> {
    seq!['!', 'G']
}

/// The header text of an upload.
pub open spec fn post_header() -> Seq<char> {
    seq!['!', 'P']
}

/// The header text of a deletion.
pub open spec fn delete_header() -> Seq<char> {
    seq!['!', 'D']
}

/// The checksum placeholder text.
pub open spec fn no_val_text() -> Seq<char> {
    seq!['N', '/', '/', 'A']
}

/// The kinds of request that a header names.
#[derive(Clone, Copy, Debug, PartialEq, Eq, Structural)]
pub enum RequestKind {
    Get,
    Post,
    Delete,
    Unknown,
}

/// The kind that a header text names.
pub open spec fn spec_request_kind(header: Seq<char>) -> RequestKind {
    if header == get_header() {
        RequestKind::Get
    } else if header == post_header() {
        RequestKind::Post
    } else if header == delete_header() {
        RequestKind::Delete
    } else {
        RequestKind::Unknown
    }
}

/// Classifies a request header (`"!G"`, `"!P"`, `"!D"` or anything else).
pub fn request_kind(header: &str) -> (kind: RequestKind)
    ensures
        kind == spec_request_kind(header@),
{
    let n = header.unicode_len();
    if n != 2 || header.get_char(0) != '!' {
        proof {
            if n == 2 {
                assert(header@[0] != '!');
            }
            assert(header@ != get_header());
            assert(header@ != post_header());
            assert(header@ != delete_header());
        }
        return RequestKind::Unknown;
    }
    let c = header.get_char(1);
    if c == 'G' {
        assert(header@ =~= get_header());
        RequestKind::Get
    } else if c == 'P' {
        assert(header@ =~= post_header());
        RequestKind::Post
    } else if c == 'D' {
        assert(header@ =~= delete_header());
        RequestKind::Delete
    } else {
        assert(header@[1] != get_header()[1]);
        assert(header@[1] != post_header()[1]);
        assert(header@[1] != delete_header()[1]);
        RequestKind::Unknown
    }
}

/// Whether a checksum text is the placeholder of a request that carries none.
pub fn is_no_val(checksum: &str) -> (b: bool)
    ensures
        b == (checksum@ == no_val_text()),
{
    let n = checksum.unicode_len();
    if n != 4 {
        return false;
    }
    let a = checksum.get_char(0);
    let b = checksum.get_char(1);
    let c = checksum.get_char(2);
    let d = checksum.get_char(3);
    if a == 'N' && b == '/' && c == '/' && d == 'A' {
        assert(checksum@ =~= no_val_text());
        true
    } else {
        proof {
            if checksum@ == no_val_text() {
                assert(checksum@[0] == 'N' && checksum@[1] == '/' && checksum@[2] == '/'
                    && checksum@[3] == 'A');
            }
        }
        false
    }
}

} // verus!

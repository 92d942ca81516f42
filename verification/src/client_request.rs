use vstd::prelude::*;
use crate::protocol::{
    CLIENT_SIDE_ERR, DATA_NOT_MATCH, READY_STATUS, SUCCESFUL, RequestKind, spec_request_kind,
    request_kind, no_val_text, is_no_val,
};
use crate::request::RQM;
use crate::media::LocalMediaRecord;

verus! {

/// Where the client stands in one request after it was authenticated.
#[derive(Debug)]
pub enum ClientRequestState {
    /// Nothing done yet.
    Start,
    /// Upload: opened the file; waits for the server's readiness byte.
    PostAwaitReady,
    /// Upload: sent the file; waits for the checksum the server computed.
    PostAwaitChecksum,
    /// Upload: knows the checksum to record; waits for the server's status.
    PostAwaitStatus(String),
    /// Download: waits for the server's status byte.
    GetAwaitServerStatus,
    /// Download: has the server's status; waits to learn whether the local file was created.
    GetAwaitFileCreated(u8),
    /// Download: could not create the file; waits for the server's answer before exiting.
    GetAwaitErrorStatus,
    /// Download: received the file; waits for its local size.
    GetAwaitLocalSize,
    /// Download: waits for the checksum of the local file.
    GetAwaitLocalSum,
    /// Deletion: waits for the server's status.
    DeleteAwaitStatus,
    /// Finished with this status.
    Done(u8),
}

/// What the client learns next.
#[derive(Debug)]
pub enum ClientRequestEvent {
    /// Start the request.
    Begin,
    /// A byte from the server.
    ServerByte(u8),
    /// The checksum the server sent (as a framed vector of UTF-8).
    ChecksumText(String),
    /// Whether the local file of a download could be created.
    FileCreated(bool),
    /// The size of the downloaded local file.
    LocalSize(i64),
    /// The checksum of the downloaded local file.
    LocalSum(String),
}

/// What the client does.
#[derive(Debug)]
pub enum ClientRequestAction {
    /// Open the file at the request's path for upload.
    OpenUploadFile,
    /// Send the file, announcing this size.
    SendFile(u64),
    /// Record the uploaded media locally with this checksum (see [`local_record`]).
    RecordUpload(String),
    /// Create the file at the request's path for the download.
    CreateDownloadFile,
    /// Write a byte to the server.
    WriteByte(u8),
    /// Receive the file into the created file.
    ReceiveFile,
    /// Compute the checksum of the local file.
    ComputeChecksum,
    /// Stop the process with this code.
    Exit(u8),
    /// Remove the local record of the deleted media.
    DeleteLocal,
}

/// The client's rule for a request. An upload sends the file when the
/// server is ready, learns the checksum from the server when the request
/// carries none, and records the upload when the server's status is 0;
/// the result is that status (0 when the server was not ready). A
/// download creates the local file; if that fails it reports
/// `CLIENT_SIDE_ERR`, reads the server's answer and exits; when the server
/// is ready it receives the file and answers `DATA_NOT_MATCH` for a wrong
/// size, or (when asked) a wrong checksum, and `SUCCESFUL` otherwise; the
/// result is 0. A deletion removes the local record when the server's
/// status is 0; the result is that status. Any other header does nothing.
/// An event the state does not wait for changes nothing.
pub open spec fn spec_client_request_step(
    request: RQM,
    check_for_sum: Option<bool>,
    st: ClientRequestState,
    ev: ClientRequestEvent,
) -> (ClientRequestState, Seq<ClientRequestAction>) {
    match (st, ev) {
        (ClientRequestState::Start, ClientRequestEvent::Begin) => match spec_request_kind(
            request.header@,
        ) {
            RequestKind::Post => (
                ClientRequestState::PostAwaitReady,
                seq![ClientRequestAction::OpenUploadFile],
            ),
            RequestKind::Get => (ClientRequestState::GetAwaitServerStatus, Seq::empty()),
            RequestKind::Delete => (ClientRequestState::DeleteAwaitStatus, Seq::empty()),
            RequestKind::Unknown => (ClientRequestState::Done(0), Seq::empty()),
        },
        (ClientRequestState::PostAwaitReady, ClientRequestEvent::ServerByte(b)) => {
            if b == READY_STATUS {
                if request.chcksum@ == no_val_text() {
                    (
                        ClientRequestState::PostAwaitChecksum,
                        seq![ClientRequestAction::SendFile(request.size as u64)],
                    )
                } else {
                    (
                        ClientRequestState::PostAwaitStatus(request.chcksum),
                        seq![ClientRequestAction::SendFile(request.size as u64)],
                    )
                }
            } else {
                (ClientRequestState::Done(0), Seq::empty())
            }
        },
        (ClientRequestState::PostAwaitChecksum, ClientRequestEvent::ChecksumText(t)) => (
            ClientRequestState::PostAwaitStatus(t),
            Seq::empty(),
        ),
        (ClientRequestState::PostAwaitStatus(sum), ClientRequestEvent::ServerByte(b)) => {
            if b == 0 {
                (ClientRequestState::Done(0), seq![ClientRequestAction::RecordUpload(sum)])
            } else {
                (ClientRequestState::Done(b), Seq::empty())
            }
        },
        (ClientRequestState::GetAwaitServerStatus, ClientRequestEvent::ServerByte(b)) => (
            ClientRequestState::GetAwaitFileCreated(b),
            seq![ClientRequestAction::CreateDownloadFile],
        ),
        (ClientRequestState::GetAwaitFileCreated(b), ClientRequestEvent::FileCreated(ok)) => {
            if !ok {
                (
                    ClientRequestState::GetAwaitErrorStatus,
                    seq![ClientRequestAction::WriteByte(CLIENT_SIDE_ERR)],
                )
            } else if b == READY_STATUS {
                (
                    ClientRequestState::GetAwaitLocalSize,
                    seq![
                        ClientRequestAction::WriteByte(READY_STATUS),
                        ClientRequestAction::ReceiveFile,
                    ],
                )
            } else {
                (ClientRequestState::Done(0), Seq::empty())
            }
        },
        (ClientRequestState::GetAwaitErrorStatus, ClientRequestEvent::ServerByte(b)) => (
            ClientRequestState::Done(b),
            seq![ClientRequestAction::Exit(CLIENT_SIDE_ERR)],
        ),
        (ClientRequestState::GetAwaitLocalSize, ClientRequestEvent::LocalSize(n)) => {
            if n != request.size {
                (
                    ClientRequestState::Done(0),
                    seq![ClientRequestAction::WriteByte(DATA_NOT_MATCH)],
                )
            } else if check_for_sum == Some(true) {
                (ClientRequestState::GetAwaitLocalSum, seq![ClientRequestAction::ComputeChecksum])
            } else {
                (ClientRequestState::Done(0), seq![ClientRequestAction::WriteByte(SUCCESFUL)])
            }
        },
        (ClientRequestState::GetAwaitLocalSum, ClientRequestEvent::LocalSum(s)) => {
            if s@ != request.chcksum@ {
                (
                    ClientRequestState::Done(0),
                    seq![ClientRequestAction::WriteByte(DATA_NOT_MATCH)],
                )
            } else {
                (ClientRequestState::Done(0), seq![ClientRequestAction::WriteByte(SUCCESFUL)])
            }
        },
        (ClientRequestState::DeleteAwaitStatus, ClientRequestEvent::ServerByte(b)) => {
            if b == 0 {
                (ClientRequestState::Done(0), seq![ClientRequestAction::DeleteLocal])
            } else {
                (ClientRequestState::Done(b), Seq::empty())
            }
        },
        _ => (st, Seq::empty()),
    }
}

/// The inputs on which the client would stop with a panic: an upload or
/// download without a local path, a size check without a choice about
/// checksums, and a server that answers 0 to a failed file creation.
pub open spec fn client_request_event_ok(
    request: RQM,
    check_for_sum: Option<bool>,
    st: ClientRequestState,
    ev: ClientRequestEvent,
) -> bool {
    &&& (st is Start && ev is Begin && (spec_request_kind(request.header@) == RequestKind::Post
        || spec_request_kind(request.header@) == RequestKind::Get)) ==> request.path is Some
    &&& match ev {
        ClientRequestEvent::LocalSize(n) => (st is GetAwaitLocalSize && n == request.size)
            ==> check_for_sum is Some,
        ClientRequestEvent::ServerByte(b) => st is GetAwaitErrorStatus ==> b != 0,
        _ => true,
    }
}

/// One step of the client's side of a request.
pub fn client_request_step(
    request: &RQM,
    check_for_sum: Option<bool>,
    st: ClientRequestState,
    ev: ClientRequestEvent,
) -> (res: (ClientRequestState, Vec<ClientRequestAction>))
    requires
        client_request_event_ok(*request, check_for_sum, st, ev),
    ensures
        res.0 == spec_client_request_step(*request, check_for_sum, st, ev).0,
        res.1@ == spec_client_request_step(*request, check_for_sum, st, ev).1,
{
    let mut out: Vec<ClientRequestAction> = Vec::new();
    match (st, ev) {
        (ClientRequestState::Start, ClientRequestEvent::Begin) => match request_kind(
            request.header.as_str(),
        ) {
            RequestKind::Post => {
                out.push(ClientRequestAction::OpenUploadFile);
                assert(out@ =~= seq![ClientRequestAction::OpenUploadFile]);
                (ClientRequestState::PostAwaitReady, out)
            },
            RequestKind::Get => {
                assert(out@ =~= Seq::<ClientRequestAction>::empty());
                (ClientRequestState::GetAwaitServerStatus, out)
            },
            RequestKind::Delete => {
                assert(out@ =~= Seq::<ClientRequestAction>::empty());
                (ClientRequestState::DeleteAwaitStatus, out)
            },
            RequestKind::Unknown => {
                assert(out@ =~= Seq::<ClientRequestAction>::empty());
                (ClientRequestState::Done(0), out)
            },
        },
        (ClientRequestState::PostAwaitReady, ClientRequestEvent::ServerByte(b)) => {
            if b == READY_STATUS {
                out.push(ClientRequestAction::SendFile(request.size as u64));
                assert(out@ =~= seq![ClientRequestAction::SendFile(request.size as u64)]);
                if is_no_val(request.chcksum.as_str()) {
                    (ClientRequestState::PostAwaitChecksum, out)
                } else {
                    (ClientRequestState::PostAwaitStatus(request.chcksum.clone()), out)
                }
            } else {
                assert(out@ =~= Seq::<ClientRequestAction>::empty());
                (ClientRequestState::Done(0), out)
            }
        },
        (ClientRequestState::PostAwaitChecksum, ClientRequestEvent::ChecksumText(t)) => {
            assert(out@ =~= Seq::<ClientRequestAction>::empty());
            (ClientRequestState::PostAwaitStatus(t), out)
        },
        (ClientRequestState::PostAwaitStatus(sum), ClientRequestEvent::ServerByte(b)) => {
            if b == 0 {
                let ghost g = sum;
                out.push(ClientRequestAction::RecordUpload(sum));
                assert(out@ =~= seq![ClientRequestAction::RecordUpload(g)]);
                (ClientRequestState::Done(0), out)
            } else {
                assert(out@ =~= Seq::<ClientRequestAction>::empty());
                (ClientRequestState::Done(b), out)
            }
        },
        (ClientRequestState::GetAwaitServerStatus, ClientRequestEvent::ServerByte(b)) => {
            out.push(ClientRequestAction::CreateDownloadFile);
            assert(out@ =~= seq![ClientRequestAction::CreateDownloadFile]);
            (ClientRequestState::GetAwaitFileCreated(b), out)
        },
        (ClientRequestState::GetAwaitFileCreated(b), ClientRequestEvent::FileCreated(ok)) => {
            if !ok {
                out.push(ClientRequestAction::WriteByte(CLIENT_SIDE_ERR));
                assert(out@ =~= seq![ClientRequestAction::WriteByte(CLIENT_SIDE_ERR)]);
                (ClientRequestState::GetAwaitErrorStatus, out)
            } else if b == READY_STATUS {
                out.push(ClientRequestAction::WriteByte(READY_STATUS));
                out.push(ClientRequestAction::ReceiveFile);
                assert(out@ =~= seq![
                    ClientRequestAction::WriteByte(READY_STATUS),
                    ClientRequestAction::ReceiveFile,
                ]);
                (ClientRequestState::GetAwaitLocalSize, out)
            } else {
                assert(out@ =~= Seq::<ClientRequestAction>::empty());
                (ClientRequestState::Done(0), out)
            }
        },
        (ClientRequestState::GetAwaitErrorStatus, ClientRequestEvent::ServerByte(b)) => {
            out.push(ClientRequestAction::Exit(CLIENT_SIDE_ERR));
            assert(out@ =~= seq![ClientRequestAction::Exit(CLIENT_SIDE_ERR)]);
            (ClientRequestState::Done(b), out)
        },
        (ClientRequestState::GetAwaitLocalSize, ClientRequestEvent::LocalSize(n)) => {
            if n != request.size {
                out.push(ClientRequestAction::WriteByte(DATA_NOT_MATCH));
                assert(out@ =~= seq![ClientRequestAction::WriteByte(DATA_NOT_MATCH)]);
                (ClientRequestState::Done(0), out)
            } else {
                let wants_sum = match check_for_sum {
                    Some(b) => b,
                    None => false,
                };
                if wants_sum {
                    out.push(ClientRequestAction::ComputeChecksum);
                    assert(out@ =~= seq![ClientRequestAction::ComputeChecksum]);
                    (ClientRequestState::GetAwaitLocalSum, out)
                } else {
                    out.push(ClientRequestAction::WriteByte(SUCCESFUL));
                    assert(out@ =~= seq![ClientRequestAction::WriteByte(SUCCESFUL)]);
                    (ClientRequestState::Done(0), out)
                }
            }
        },
        (ClientRequestState::GetAwaitLocalSum, ClientRequestEvent::LocalSum(s)) => {
            if s != request.chcksum {
                out.push(ClientRequestAction::WriteByte(DATA_NOT_MATCH));
                assert(out@ =~= seq![ClientRequestAction::WriteByte(DATA_NOT_MATCH)]);
                (ClientRequestState::Done(0), out)
            } else {
                out.push(ClientRequestAction::WriteByte(SUCCESFUL));
                assert(out@ =~= seq![ClientRequestAction::WriteByte(SUCCESFUL)]);
                (ClientRequestState::Done(0), out)
            }
        },
        (ClientRequestState::DeleteAwaitStatus, ClientRequestEvent::ServerByte(b)) => {
            if b == 0 {
                out.push(ClientRequestAction::DeleteLocal);
                assert(out@ =~= seq![ClientRequestAction::DeleteLocal]);
                (ClientRequestState::Done(0), out)
            } else {
                assert(out@ =~= Seq::<ClientRequestAction>::empty());
                (ClientRequestState::Done(b), out)
            }
        },
        (s, _) => {
            assert(out@ =~= Seq::<ClientRequestAction>::empty());
            (s, out)
        },
    }
}

/// The local record of a completed upload: the request's name, owner,
/// type, size and path (empty when it has none), the checksum learned, the
/// host it went to and the time.
pub fn local_record(request: &RQM, host_cpid: &String, checksum: String, date: i64) -> (m:
    LocalMediaRecord)
    ensures
        m.name == request.name,
        m.cpid == request.cpid,
        m.type_ == request.type_,
        m.size == request.size,
        m.checksum == checksum,
        m.host == *host_cpid,
        m.date == date,
        match request.path {
            Some(p) => m.path == p,
            None => m.path@ == Seq::<char>::empty(),
        },
{
    let path = match &request.path {
        Some(p) => p.clone(),
        None => String::new(),
    };
    LocalMediaRecord {
        name: request.name.clone(),
        cpid: request.cpid.clone(),
        type_: request.type_.clone(),
        size: request.size,
        checksum: checksum,
        host: host_cpid.clone(),
        date: date,
        path: path,
    }
}

/// Waiting law: the client never finishes an upload, download or deletion
/// in its first step: whatever the request, it is done at once only when
/// its header names none of them.
pub proof fn law_client_waits_for_server(request: RQM, check_for_sum: Option<bool>)
    ensures
        spec_client_request_step(
            request,
            check_for_sum,
            ClientRequestState::Start,
            ClientRequestEvent::Begin,
        ).0 is Done <==> spec_request_kind(request.header@) == RequestKind::Unknown,
{
}

/// Client download law: a download first reads the server's status; when
/// the server is ready it creates the local file, answers `READY_STATUS`
/// and receives the file, whatever the choice about checksums.
pub proof fn law_client_download_from_start(request: RQM, check_for_sum: Option<bool>)
    requires
        request.header@ == crate::protocol::get_header(),
    ensures
        ({
            let (c1, a1) = spec_client_request_step(
                request,
                check_for_sum,
                ClientRequestState::Start,
                ClientRequestEvent::Begin,
            );
            let (c2, a2) = spec_client_request_step(
                request,
                check_for_sum,
                c1,
                ClientRequestEvent::ServerByte(READY_STATUS),
            );
            let (c3, a3) = spec_client_request_step(
                request,
                check_for_sum,
                c2,
                ClientRequestEvent::FileCreated(true),
            );
            &&& c1 is GetAwaitServerStatus
            &&& a1.len() == 0
            &&& a2 == seq![ClientRequestAction::CreateDownloadFile]
            &&& a3 == seq![
                ClientRequestAction::WriteByte(READY_STATUS),
                ClientRequestAction::ReceiveFile,
            ]
            &&& c3 is GetAwaitLocalSize
        }),
{
}

/// Client effects law: the client records an upload locally only when the
/// server's status for it is 0, removes a local record only when the
/// server's status for the deletion is 0, and receives a download only
/// when the server said it was ready and the local file was created.
pub proof fn law_client_effects_only_when_due(
    request: RQM,
    check_for_sum: Option<bool>,
    st: ClientRequestState,
    ev: ClientRequestEvent,
)
    ensures
        ({
            let acts = spec_client_request_step(request, check_for_sum, st, ev).1;
            &&& forall|i: int|
                0 <= i < acts.len() && (#[trigger] acts[i]) is RecordUpload ==> st is PostAwaitStatus
                    && ev == ClientRequestEvent::ServerByte(0)
            &&& forall|i: int|
                0 <= i < acts.len() && (#[trigger] acts[i]) is DeleteLocal ==> st
                    == ClientRequestState::DeleteAwaitStatus && ev
                    == ClientRequestEvent::ServerByte(0)
            &&& forall|i: int|
                0 <= i < acts.len() && (#[trigger] acts[i]) is ReceiveFile ==> st
                    == ClientRequestState::GetAwaitFileCreated(READY_STATUS) && ev
                    == ClientRequestEvent::FileCreated(true)
        }),
{
}

} // verus!

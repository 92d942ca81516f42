use vstd::prelude::*;
use crate::protocol::{
    DATA_NOT_MATCH, MEDIA_ALREADY_EXISTS, NOT_FOUND, READY_STATUS, SERVER_SIDE_ERR, SUCCESFUL,
    RequestKind, spec_request_kind, request_kind, no_val_text, is_no_val,
};
use crate::request::RQM;
use crate::media::MediaRecord;

verus! {

/// Where the server stands in serving one authenticated request.
#[derive(Clone, Copy, Debug, PartialEq, Eq, Structural)]
pub enum ServeState {
    /// Nothing done yet.
    Start,
    /// Upload: waits to learn whether the owner already has this media.
    PostAwaitExists,
    /// Upload: receiving; waits for the checksum and size of what arrived.
    PostAwaitUpload,
    /// Download: waits to learn whether the media exists.
    GetAwaitExists,
    /// Download: waits for the size of the stored file (none if unreadable).
    GetAwaitFileSize,
    /// Download: told the client it is ready; waits for the client's byte.
    GetAwaitReady(u64),
    /// Download: sent the file; waits for the client's verdict.
    GetAwaitConfirm,
    /// Deletion: waits to learn whether the media, checksum included, exists.
    DeleteAwaitExists,
    /// Finished, with the result the session reports to the client.
    Done(u8),
}

/// What the server learns next.
#[derive(Debug)]
pub enum ServeEvent {
    /// Start serving the request.
    Begin,
    /// The answer of the database lookup.
    Exists(bool),
    /// An upload arrived: the checksum and size of the stored bytes, and
    /// the path they were stored at.
    Uploaded { checksum: String, size: i64, path: String },
    /// The size of the stored file of a download, when it could be read.
    FileSize(Option<u64>),
    /// A byte from the client.
    ClientByte(u8),
}

/// What the server does.
#[derive(Clone, Debug)]
pub enum ServeAction {
    /// Ask the database whether the owner has media with this name, type and size.
    CheckMedia,
    /// Ask the database whether the media with this checksum exists.
    CheckMediaWithChecksum,
    /// Write a status byte to the client.
    WriteByte(u8),
    /// Create a fresh file in the data directory for the upload.
    CreateUploadFile,
    /// Receive the upload into that file.
    ReceiveFile,
    /// Send the computed checksum to the client as a framed vector.
    SendChecksum(String),
    /// Record the uploaded media in the database.
    StoreMedia(MediaRecord),
    /// Find the stored media and the size of its file.
    FindMedia,
    /// Send the stored file of this size.
    SendFile(u64),
    /// Delete the media (as [`delete_record`] builds it) from the database.
    DeleteMedia,
}

/// The actions after an upload arrived with checksum `sum` and size
/// `size` at `path`: the computed checksum goes back when the client sent
/// none, a mismatch is reported for a different checksum and again for a
/// different size, and the media is recorded with what was computed.
pub open spec fn spec_upload_actions(
    request: RQM,
    host_cpid: String,
    sum: String,
    size: i64,
    path: String,
) -> Seq<ServeAction> {
    let check = if request.chcksum@ == no_val_text() {
        seq![ServeAction::SendChecksum(sum)]
    } else if request.chcksum@ != sum@ {
        seq![ServeAction::WriteByte(DATA_NOT_MATCH)]
    } else {
        Seq::empty()
    };
    let size_check = if request.size != size {
        seq![ServeAction::WriteByte(DATA_NOT_MATCH)]
    } else {
        Seq::empty()
    };
    check + size_check + seq![
        ServeAction::StoreMedia(
            MediaRecord {
                name: request.name,
                cpid: request.cpid,
                path: path,
                checksum: sum,
                in_host: host_cpid,
                type_: request.type_,
                size: size,
            },
        ),
    ]
}

/// The server's rule for serving `request` as host `host_cpid`.
/// An upload of media the owner already has is answered
/// `MEDIA_ALREADY_EXISTS`; otherwise the server creates a file, answers
/// `READY_STATUS` and receives. A download of missing media is answered
/// `NOT_FOUND` (the result too); an unreadable or empty stored file is
/// answered `SERVER_SIDE_ERR`; otherwise `READY_STATUS`, and the file is
/// sent when the client answers `READY_STATUS`; the result is 1 when the
/// client then does not confirm. A deletion of missing media is answered
/// `NOT_FOUND` (the result too). Any other header does nothing. An event
/// the state does not wait for changes nothing.
pub open spec fn spec_serve_step(
    request: RQM,
    host_cpid: String,
    st: ServeState,
    ev: ServeEvent,
) -> (ServeState, Seq<ServeAction>) {
    match (st, ev) {
        (ServeState::Start, ServeEvent::Begin) => match spec_request_kind(request.header@) {
            RequestKind::Post => (ServeState::PostAwaitExists, seq![ServeAction::CheckMedia]),
            RequestKind::Get => (ServeState::GetAwaitExists, seq![ServeAction::CheckMedia]),
            RequestKind::Delete => (
                ServeState::DeleteAwaitExists,
                seq![ServeAction::CheckMediaWithChecksum],
            ),
            RequestKind::Unknown => (ServeState::Done(0), Seq::empty()),
        },
        (ServeState::PostAwaitExists, ServeEvent::Exists(true)) => (
            ServeState::Done(0),
            seq![ServeAction::WriteByte(MEDIA_ALREADY_EXISTS)],
        ),
        (ServeState::PostAwaitExists, ServeEvent::Exists(false)) => (
            ServeState::PostAwaitUpload,
            seq![
                ServeAction::CreateUploadFile,
                ServeAction::WriteByte(READY_STATUS),
                ServeAction::ReceiveFile,
            ],
        ),
        (ServeState::PostAwaitUpload, ServeEvent::Uploaded { checksum, size, path }) => (
            ServeState::Done(0),
            spec_upload_actions(request, host_cpid, checksum, size, path),
        ),
        (ServeState::GetAwaitExists, ServeEvent::Exists(true)) => (
            ServeState::GetAwaitFileSize,
            seq![ServeAction::FindMedia],
        ),
        (ServeState::GetAwaitExists, ServeEvent::Exists(false)) => (
            ServeState::Done(NOT_FOUND),
            seq![ServeAction::WriteByte(NOT_FOUND)],
        ),
        (ServeState::GetAwaitFileSize, ServeEvent::FileSize(size)) => {
            let n: u64 = match size {
                Some(n) => n,
                None => 0,
            };
            if n == 0 {
                (ServeState::Done(0), seq![ServeAction::WriteByte(SERVER_SIDE_ERR)])
            } else {
                (ServeState::GetAwaitReady(n), seq![ServeAction::WriteByte(READY_STATUS)])
            }
        },
        (ServeState::GetAwaitReady(n), ServeEvent::ClientByte(b)) => {
            if b == READY_STATUS {
                (ServeState::GetAwaitConfirm, seq![ServeAction::SendFile(n)])
            } else {
                (ServeState::Done(0), Seq::empty())
            }
        },
        (ServeState::GetAwaitConfirm, ServeEvent::ClientByte(b)) => {
            if b == SUCCESFUL {
                (ServeState::Done(0), Seq::empty())
            } else {
                (ServeState::Done(1), Seq::empty())
            }
        },
        (ServeState::DeleteAwaitExists, ServeEvent::Exists(true)) => (
            ServeState::Done(0),
            seq![ServeAction::DeleteMedia],
        ),
        (ServeState::DeleteAwaitExists, ServeEvent::Exists(false)) => (
            ServeState::Done(NOT_FOUND),
            seq![ServeAction::WriteByte(NOT_FOUND)],
        ),
        _ => (st, Seq::empty()),
    }
}

/// Whether an event is one the server accepts: the stored file of a
/// download must have the size the request announced.
pub open spec fn serve_event_ok(request: RQM, st: ServeState, ev: ServeEvent) -> bool {
    match ev {
        ServeEvent::FileSize(Some(n)) => st == ServeState::GetAwaitFileSize ==> n as i64
            == request.size,
        _ => true,
    }
}

/// One step of serving a request.
pub fn serve_step(request: &RQM, host_cpid: &String, st: ServeState, ev: ServeEvent) -> (res: (
    ServeState,
    Vec<ServeAction>,
))
    requires
        serve_event_ok(*request, st, ev),
    ensures
        res.0 == spec_serve_step(*request, *host_cpid, st, ev).0,
        res.1@ == spec_serve_step(*request, *host_cpid, st, ev).1,
{
    let ghost ev0 = ev;
    let mut out: Vec<ServeAction> = Vec::new();
    match (st, ev) {
        (ServeState::Start, ServeEvent::Begin) => match request_kind(request.header.as_str()) {
            RequestKind::Post => {
                out.push(ServeAction::CheckMedia);
                assert(out@ =~= seq![ServeAction::CheckMedia]);
                (ServeState::PostAwaitExists, out)
            },
            RequestKind::Get => {
                out.push(ServeAction::CheckMedia);
                assert(out@ =~= seq![ServeAction::CheckMedia]);
                (ServeState::GetAwaitExists, out)
            },
            RequestKind::Delete => {
                out.push(ServeAction::CheckMediaWithChecksum);
                assert(out@ =~= seq![ServeAction::CheckMediaWithChecksum]);
                (ServeState::DeleteAwaitExists, out)
            },
            RequestKind::Unknown => {
                assert(out@ =~= Seq::<ServeAction>::empty());
                (ServeState::Done(0), out)
            },
        },
        (ServeState::PostAwaitExists, ServeEvent::Exists(exists)) => {
            if exists {
                out.push(ServeAction::WriteByte(MEDIA_ALREADY_EXISTS));
                assert(out@ =~= seq![ServeAction::WriteByte(MEDIA_ALREADY_EXISTS)]);
                (ServeState::Done(0), out)
            } else {
                out.push(ServeAction::CreateUploadFile);
                out.push(ServeAction::WriteByte(READY_STATUS));
                out.push(ServeAction::ReceiveFile);
                assert(out@ =~= seq![
                    ServeAction::CreateUploadFile,
                    ServeAction::WriteByte(READY_STATUS),
                    ServeAction::ReceiveFile,
                ]);
                (ServeState::PostAwaitUpload, out)
            }
        },
        (ServeState::PostAwaitUpload, ServeEvent::Uploaded { checksum, size, path }) => {
            let ghost s0 = out@;
            if is_no_val(request.chcksum.as_str()) {
                out.push(ServeAction::SendChecksum(checksum.clone()));
            } else if request.chcksum != checksum {
                out.push(ServeAction::WriteByte(DATA_NOT_MATCH));
            }
            let ghost s1 = out@;
            if request.size != size {
                out.push(ServeAction::WriteByte(DATA_NOT_MATCH));
            }
            let ghost s2 = out@;
            let media = MediaRecord {
                name: request.name.clone(),
                cpid: request.cpid.clone(),
                path: path,
                checksum: checksum,
                in_host: host_cpid.clone(),
                type_: request.type_.clone(),
                size: size,
            };
            out.push(ServeAction::StoreMedia(media));
            assert(out@ =~= spec_upload_actions(
                *request,
                *host_cpid,
                ev0->checksum,
                size,
                ev0->path,
            ));
            (ServeState::Done(0), out)
        },
        (ServeState::GetAwaitExists, ServeEvent::Exists(exists)) => {
            if exists {
                out.push(ServeAction::FindMedia);
                assert(out@ =~= seq![ServeAction::FindMedia]);
                (ServeState::GetAwaitFileSize, out)
            } else {
                out.push(ServeAction::WriteByte(NOT_FOUND));
                assert(out@ =~= seq![ServeAction::WriteByte(NOT_FOUND)]);
                (ServeState::Done(NOT_FOUND), out)
            }
        },
        (ServeState::GetAwaitFileSize, ServeEvent::FileSize(size)) => {
            let n: u64 = match size {
                Some(n) => n,
                None => 0,
            };
            if n == 0 {
                out.push(ServeAction::WriteByte(SERVER_SIDE_ERR));
                assert(out@ =~= seq![ServeAction::WriteByte(SERVER_SIDE_ERR)]);
                (ServeState::Done(0), out)
            } else {
                out.push(ServeAction::WriteByte(READY_STATUS));
                assert(out@ =~= seq![ServeAction::WriteByte(READY_STATUS)]);
                (ServeState::GetAwaitReady(n), out)
            }
        },
        (ServeState::GetAwaitReady(n), ServeEvent::ClientByte(b)) => {
            if b == READY_STATUS {
                out.push(ServeAction::SendFile(n));
                assert(out@ =~= seq![ServeAction::SendFile(n)]);
                (ServeState::GetAwaitConfirm, out)
            } else {
                assert(out@ =~= Seq::<ServeAction>::empty());
                (ServeState::Done(0), out)
            }
        },
        (ServeState::GetAwaitConfirm, ServeEvent::ClientByte(b)) => {
            assert(out@ =~= Seq::<ServeAction>::empty());
            if b == SUCCESFUL {
                (ServeState::Done(0), out)
            } else {
                (ServeState::Done(1), out)
            }
        },
        (ServeState::DeleteAwaitExists, ServeEvent::Exists(exists)) => {
            if exists {
                out.push(ServeAction::DeleteMedia);
                assert(out@ =~= seq![ServeAction::DeleteMedia]);
                (ServeState::Done(0), out)
            } else {
                out.push(ServeAction::WriteByte(NOT_FOUND));
                assert(out@ =~= seq![ServeAction::WriteByte(NOT_FOUND)]);
                (ServeState::Done(NOT_FOUND), out)
            }
        },
        (s, _) => {
            assert(out@ =~= Seq::<ServeAction>::empty());
            (s, out)
        },
    }
}

/// The media record a deletion looks for and removes: the request's name,
/// size, owner, type and checksum, on this host, with no path.
pub fn delete_record(request: &RQM, host_cpid: &String) -> (m: MediaRecord)
    ensures
        m.name == request.name,
        m.size == request.size,
        m.cpid == request.cpid,
        m.type_ == request.type_,
        m.checksum == request.chcksum,
        m.path@ == Seq::<char>::empty(),
        m.in_host == *host_cpid,
{
    MediaRecord {
        name: request.name.clone(),
        size: request.size,
        cpid: request.cpid.clone(),
        type_: request.type_.clone(),
        checksum: request.chcksum.clone(),
        path: String::new(),
        in_host: host_cpid.clone(),
    }
}

/// Not-found law: the server answers `NOT_FOUND` only in the step where
/// the database has just said that the media is missing; in particular
/// media that exists is never reported as not found.
pub proof fn law_not_found_only_when_missing(
    request: RQM,
    host_cpid: String,
    st: ServeState,
    ev: ServeEvent,
)
    ensures
        spec_serve_step(request, host_cpid, st, ev).1.contains(ServeAction::WriteByte(NOT_FOUND))
            ==> ev == ServeEvent::Exists(false),
        spec_serve_step(request, host_cpid, st, ev).0 == ServeState::Done(NOT_FOUND) ==> (ev
            == ServeEvent::Exists(false) || st == ServeState::Done(NOT_FOUND)),
{
    let acts = spec_serve_step(request, host_cpid, st, ev).1;
    if acts.contains(ServeAction::WriteByte(NOT_FOUND)) && ev != ServeEvent::Exists(false) {
        let i = choose|i: int| 0 <= i < acts.len() && acts[i] == ServeAction::WriteByte(NOT_FOUND);
        assert(acts[i] == ServeAction::WriteByte(NOT_FOUND));
        match (st, ev) {
            (ServeState::PostAwaitUpload, ServeEvent::Uploaded { checksum, size, path }) => {
                let check = if request.chcksum@ == no_val_text() {
                    seq![ServeAction::SendChecksum(checksum)]
                } else if request.chcksum@ != checksum@ {
                    seq![ServeAction::WriteByte(DATA_NOT_MATCH)]
                } else {
                    Seq::empty()
                };
                let size_check = if request.size != size {
                    seq![ServeAction::WriteByte(DATA_NOT_MATCH)]
                } else {
                    Seq::empty()
                };
                assert(acts == check + size_check + seq![
                    ServeAction::StoreMedia(
                        MediaRecord {
                            name: request.name,
                            cpid: request.cpid,
                            path: path,
                            checksum: checksum,
                            in_host: host_cpid,
                            type_: request.type_,
                            size: size,
                        },
                    ),
                ]);
                if i < check.len() {
                    assert(acts[i] == check[i]);
                } else if i < check.len() + size_check.len() {
                    assert(acts[i] == size_check[i - check.len()]);
                } else {
                    assert(acts[i] is StoreMedia);
                }
            },
            _ => {},
        }
    }
}

/// Download law: a download of media that the database says exists, whose
/// stored file has the announced nonzero size, runs from the start to
/// sending the file: the server looks the media up, then finds it (never
/// answering `NOT_FOUND`), says it is ready and, when the client answers
/// `READY_STATUS`, sends the file of the announced size.
pub proof fn law_download_of_existing_media(request: RQM, host_cpid: String)
    requires
        request.header@ == crate::protocol::get_header(),
        request.size > 0,
    ensures
        ({
            let (s1, a1) = spec_serve_step(request, host_cpid, ServeState::Start, ServeEvent::Begin);
            let (s2, a2) = spec_serve_step(request, host_cpid, s1, ServeEvent::Exists(true));
            let (s3, a3) = spec_serve_step(
                request,
                host_cpid,
                s2,
                ServeEvent::FileSize(Some(request.size as u64)),
            );
            let (s4, a4) = spec_serve_step(
                request,
                host_cpid,
                s3,
                ServeEvent::ClientByte(READY_STATUS),
            );
            &&& a1 == seq![ServeAction::CheckMedia]
            &&& s2 == ServeState::GetAwaitFileSize
            &&& a2 == seq![ServeAction::FindMedia]
            &&& a3 == seq![ServeAction::WriteByte(READY_STATUS)]
            &&& a4 == seq![ServeAction::SendFile(request.size as u64)]
            &&& s4 == ServeState::GetAwaitConfirm
        }),
{
    assert(request.size as u64 == request.size);
}

/// Effects law: the server records media only when an upload has just
/// arrived, deletes media only when the database has just found it for a
/// deletion, and sends a file only when the client of a download has just
/// answered `READY_STATUS` (the file of the size it announced as ready).
pub proof fn law_serve_effects_only_when_due(
    request: RQM,
    host_cpid: String,
    st: ServeState,
    ev: ServeEvent,
)
    ensures
        ({
            let acts = spec_serve_step(request, host_cpid, st, ev).1;
            &&& forall|i: int|
                0 <= i < acts.len() && (#[trigger] acts[i]) is StoreMedia ==> st
                    == ServeState::PostAwaitUpload && ev is Uploaded
            &&& forall|i: int|
                0 <= i < acts.len() && (#[trigger] acts[i]) is DeleteMedia ==> st
                    == ServeState::DeleteAwaitExists && ev == ServeEvent::Exists(true)
            &&& forall|i: int|
                0 <= i < acts.len() && (#[trigger] acts[i]) is SendFile ==> st
                    == ServeState::GetAwaitReady(acts[i]->SendFile_0) && ev
                    == ServeEvent::ClientByte(READY_STATUS)
        }),
{
}

/// Upload and deletion law: from the start, an upload of media the owner
/// does not have yet creates a file, says it is ready and receives, and an
/// upload of media it has is answered `MEDIA_ALREADY_EXISTS`; a deletion
/// of media that exists deletes it and one of missing media is answered
/// `NOT_FOUND`.
pub proof fn law_upload_and_delete_from_start(request: RQM, host_cpid: String, exists: bool)
    ensures
        request.header@ == crate::protocol::post_header() ==> ({
            let (s1, a1) = spec_serve_step(request, host_cpid, ServeState::Start, ServeEvent::Begin);
            let (s2, a2) = spec_serve_step(request, host_cpid, s1, ServeEvent::Exists(exists));
            &&& a1 == seq![ServeAction::CheckMedia]
            &&& if exists {
                a2 == seq![ServeAction::WriteByte(MEDIA_ALREADY_EXISTS)] && s2 == ServeState::Done(0)
            } else {
                &&& a2 == seq![
                    ServeAction::CreateUploadFile,
                    ServeAction::WriteByte(READY_STATUS),
                    ServeAction::ReceiveFile,
                ]
                &&& s2 == ServeState::PostAwaitUpload
            }
        }),
        request.header@ == crate::protocol::delete_header() ==> ({
            let (s1, a1) = spec_serve_step(request, host_cpid, ServeState::Start, ServeEvent::Begin);
            let (s2, a2) = spec_serve_step(request, host_cpid, s1, ServeEvent::Exists(exists));
            &&& a1 == seq![ServeAction::CheckMediaWithChecksum]
            &&& if exists {
                a2 == seq![ServeAction::DeleteMedia] && s2 == ServeState::Done(0)
            } else {
                a2 == seq![ServeAction::WriteByte(NOT_FOUND)] && s2 == ServeState::Done(NOT_FOUND)
            }
        }),
{
}

} // verus!

use vstd::prelude::*;

verus! {

/// A stored media file as the server's database keeps it: its name, size,
/// the host that stores it, its owner, its path on disk, its checksum and
/// its extension.
#[derive(Clone, Debug)]
pub struct MediaRecord {
    pub name: String,
    pub size: i64,
    pub in_host: String,
    pub cpid: String,
    pub path: String,
    pub checksum: String,
    pub type_: String,
}

/// A media file as a client keeps it locally: as the server's record, with
/// the host it was sent to and the time it was recorded.
#[derive(Clone, Debug)]
pub struct LocalMediaRecord {
    pub name: String,
    pub cpid: String,
    pub type_: String,
    pub size: i64,
    pub checksum: String,
    pub host: String,
    pub date: i64,
    pub path: String,
}

/// A request as the media exchange serialises it: the request header, the
/// size, the file's name and extension, its checksum and the host that
/// holds it.
#[derive(Clone, Debug)]
pub struct RQM {
    pub request: String,
    pub size: i64,
    pub name: String,
    pub type_: String,
    pub chcksum: String,
    pub in_host: String,
}

} // verus!

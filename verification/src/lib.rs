//! Verified core of the Connie file server and client: the wire
//! constants, the request records, and the decisions that the network
//! loops take, each stated as a contract over plain values.

pub mod protocol;
pub mod request;
pub mod sort_requests;
pub mod transfer;
pub mod text;
pub mod host;
pub mod handshake;
pub mod framing;
pub mod media;
pub mod serving;
pub mod client_request;
pub mod session;
pub mod server_session;
pub mod exchange;
pub mod req_format;
pub mod connector;
pub mod listener;
pub mod paths;
pub mod public_files;
pub mod logs;
pub mod db;
pub mod gauge;
pub mod admin;
pub mod types;

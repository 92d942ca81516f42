//! The request type and the header and authentication constants, as
//! clients of the library name them.

pub use crate::request::RQM;
pub use crate::protocol::{GET, POST, DELETE, JWT_AUTH, LOGIN_CRED};

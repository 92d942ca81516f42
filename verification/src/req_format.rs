use vstd::prelude::*;
use crate::request::RQM;

verus! {

/// The header of a listing request: the client's token and its id.
#[derive(Clone, Debug)]
pub struct Chead {
    pub jwt: String,
    pub cpid: String,
}

/// A token-authenticated request: the token and the request it carries.
#[derive(Clone, Debug)]
pub struct JwtReq {
    pub jwt: String,
    pub request: RQM,
}

/// A login: the client's id, its user name and its password.
#[derive(Clone, Debug)]
pub struct LoginReq {
    pub cpid: String,
    pub name: String,
    pub paswd: String,
}

impl LoginReq {
    /// Releases the login (its password included).
    pub fn drop(self) {
    }
}

impl JwtReq {
    /// Releases the request.
    pub fn drop(self) {
    }
}

impl Chead {
    /// Releases the header.
    pub fn drop(self) {
    }
}

} // verus!

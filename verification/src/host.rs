use vstd::prelude::*;

verus! {

/// What a client stores about a server, and what a server knows about
/// itself: its name, its id, the machine's host name, its port and its
/// public and private addresses (as text).
#[derive(Clone, Debug)]
pub struct HostRecord {
    pub name: String,
    pub cpid: String,
    pub host: String,
    pub port: u16,
    pub pub_ip: String,
    pub pri_ip: String,
}

impl HostRecord {
    /// A field-by-field copy, equal to the one copied.
    pub fn duplicate(&self) -> (r: HostRecord)
        ensures
            r == *self,
    {
        HostRecord {
            name: self.name.clone(),
            cpid: self.cpid.clone(),
            host: self.host.clone(),
            port: self.port,
            pub_ip: self.pub_ip.clone(),
            pri_ip: self.pri_ip.clone(),
        }
    }
}

/// A user as a client stores it: id, name, the id of its server, e-mail,
/// user name and password.
#[derive(Clone, Debug)]
pub struct UserRecord {
    pub cpid: String,
    pub name: String,
    pub host: String,
    pub email: String,
    pub usrname: String,
    pub paswd: String,
}

/// What a client sends to sign up: name, user name, password, e-mail.
#[derive(Clone, Debug)]
pub struct ShortUser {
    pub name: String,
    pub username: String,
    pub password: String,
    pub email: String,
}

/// A user as the server creates it: id (assigned by the database when
/// empty), name, user name, password, e-mail and the id of its host.
#[derive(Clone, Debug)]
pub struct NewUser {
    pub cpid: String,
    pub name: String,
    pub username: String,
    pub password: String,
    pub email: String,
    pub host: String,
}

/// The user the server creates for a sign-up on host `host_cpid`: the
/// client's details, an empty id (the database assigns one) and the host.
pub fn new_user(short: ShortUser, host_cpid: String) -> (u: NewUser)
    ensures
        u.cpid@ == Seq::<char>::empty(),
        u.name == short.name,
        u.username == short.username,
        u.password == short.password,
        u.email == short.email,
        u.host == host_cpid,
{
    NewUser {
        cpid: String::new(),
        name: short.name,
        username: short.username,
        password: short.password,
        email: short.email,
        host: host_cpid,
    }
}

/// What the server sends back about a created user (everything but the
/// password, which the client keeps from its own sign-up).
#[derive(Clone, Debug)]
pub struct CreatedUser {
    pub cpid: String,
    pub name: String,
    pub host: String,
    pub email: String,
    pub usrname: String,
}

/// The reply about a created user: its id, name, host, e-mail and user name.
pub fn created_user(u: NewUser) -> (c: CreatedUser)
    ensures
        c.cpid == u.cpid,
        c.name == u.name,
        c.host == u.host,
        c.email == u.email,
        c.usrname == u.username,
{
    CreatedUser { cpid: u.cpid, name: u.name, host: u.host, email: u.email, usrname: u.username }
}

} // verus!

use vstd::prelude::*;

verus! {

/// How to reach the database: its address, whether it is remote (secure
/// websocket), and whether to use the local embedded store instead.
pub struct DBC {
    pub addr: Option<String>,
    pub remote: bool,
    pub lm: bool,
}

/// The hardware a machine reports: core count, swap and memory.
#[derive(Clone, Copy, Debug)]
pub struct Hardware {
    pub cpu_core_count: usize,
    pub swap: u64,
    pub memory: u64,
}

/// Where the database connection goes.
#[derive(Debug)]
pub enum DbTarget {
    /// The local embedded store at this URL.
    Local(String),
    /// A websocket connection to this address.
    Ws(String),
    /// A secure websocket connection to this address.
    Wss(String),
    /// No address: the process stops with this code.
    Exit(i32),
}

/// The path of the local database under the home directory `home`.
pub open spec fn spec_db_path(home: Seq<char>) -> Seq<char> {
    home + "/Connie/surreal/Connie.db"@
}

/// The path of the local database under the home directory (empty when
/// there is none).
pub fn h_path(home: &str) -> (path: String)
    ensures
        path@ == spec_db_path(home@),
{
    let mut p = String::from_str(home);
    p.append("/Connie/surreal/Connie.db");
    p
}

impl DBC {
    /// Where to connect: the local store (`rocksdb://` and the database
    /// path under `home`) when asked; otherwise the address with port
    /// 8060, over a secure websocket when remote; without an address the
    /// process stops with 8000.
    pub fn connection_target(&self, home: &str) -> (t: DbTarget)
        ensures
            self.lm ==> (t matches DbTarget::Local(u) && u@ == "rocksdb://"@ + spec_db_path(home@)),
            !self.lm ==> match self.addr {
                Some(a) => {
                    let ip = a@ + ":8060"@;
                    if self.remote {
                        (t matches DbTarget::Wss(w) && w@ == ip)
                    } else {
                        (t matches DbTarget::Ws(w) && w@ == ip)
                    }
                },
                None => (t matches DbTarget::Exit(c) && c == 8000),
            },
    {
        if self.lm {
            let path = h_path(home);
            let mut url = String::from_str("rocksdb://");
            url.append(path.as_str());
            DbTarget::Local(url)
        } else {
            match &self.addr {
                Some(a) => {
                    let mut ip = a.clone();
                    ip.append(":8060");
                    if self.remote {
                        DbTarget::Wss(ip)
                    } else {
                        DbTarget::Ws(ip)
                    }
                },
                None => DbTarget::Exit(8000),
            }
        }
    }
}

} // verus!

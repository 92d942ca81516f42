use vstd::prelude::*;

verus! {

/// A request from the server's administrator: which statistics to report,
/// or how to steer the server; each field set to `Some(true)` asks for it.
#[derive(Clone, Debug)]
pub enum ADMINREQS {
    STATS {
        all: Option<bool>,
        pid: Option<bool>,
        uptime: Option<bool>,
        no_tls_status: Option<bool>,
        storage_usage: Option<bool>,
        network_usage: Option<bool>,
        n_get_requests: Option<bool>,
        list_all_files: Option<bool>,
        n_post_requests: Option<bool>,
        failed_requests: Option<bool>,
        allow_new_users: Option<bool>,
        list_current_users: Option<bool>,
        n_current_requests: Option<bool>,
        invalid_tls_reqests: Option<bool>,
        successful_requests: Option<bool>,
    },
    SERVER {
        no_tls: Option<bool>,
        unpause: Option<bool>,
        restart: Option<bool>,
        new_users: Option<bool>,
        soft_pause: Option<bool>,
        hard_pause: Option<bool>,
        refresh_pub_files: Option<bool>,
    },
}

} // verus!

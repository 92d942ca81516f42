use vstd::prelude::*;
use crate::protocol::{NET_STATUS, UNMATCHED_CPID};

verus! {

/// Which address the server listens on.
#[derive(Clone, Copy, Debug, PartialEq, Eq, Structural)]
pub enum ListenAddress {
    /// Every interface (`0.0.0.0`).
    AllInterfaces,
    /// The machine's private address.
    Private,
}

/// The listening address for a listening mode: every interface for
/// `NET_STATUS`, the private address otherwise.
pub fn listen_address(use_ip: u8) -> (a: ListenAddress)
    ensures
        a == if use_ip == NET_STATUS {
            ListenAddress::AllInterfaces
        } else {
            ListenAddress::Private
        },
{
    if use_ip == NET_STATUS {
        ListenAddress::AllInterfaces
    } else {
        ListenAddress::Private
    }
}

/// The listening port: the given one, or the default when it is 0.
pub fn listen_port(port: u16, default_port: u16) -> (p: u16)
    ensures
        p == if port == 0 {
            default_port
        } else {
            port
        },
{
    if port == 0 {
        default_port
    } else {
        port
    }
}

/// Whether new users may sign up: the setting is 1.
pub fn new_users_allowed(setting: u8) -> (allowed: bool)
    ensures
        allowed == (setting == 1),
{
    setting == 1
}

/// How the server treats a new connection.
#[derive(Clone, Copy, Debug, PartialEq, Eq, Structural)]
pub enum ConnectionRoute {
    /// Acknowledge with 0 and serve it without TLS.
    Plain,
    /// Tell the client that plain connections are not allowed.
    RefusePlain,
    /// Run the TLS handshake and serve it.
    Tls,
}

/// The route of a connection whose first byte is `first` (none when it
/// could not be read, which counts as 0): byte 1 asks for a plain
/// connection, which is served when allowed and refused otherwise; any
/// other byte goes to TLS.
pub fn route_connection(first: Option<u8>, allow_plain: bool) -> (r: ConnectionRoute)
    ensures
        r == ({
            let b = match first {
                Some(b) => b,
                None => 0u8,
            };
            if b == 1 && allow_plain {
                ConnectionRoute::Plain
            } else if !allow_plain && b == 1 {
                ConnectionRoute::RefusePlain
            } else {
                ConnectionRoute::Tls
            }
        }),
{
    let b = match first {
        Some(b) => b,
        None => 0u8,
    };
    if b == 1 && allow_plain {
        ConnectionRoute::Plain
    } else if !allow_plain && b == 1 {
        ConnectionRoute::RefusePlain
    } else {
        ConnectionRoute::Tls
    }
}

/// Whether the task cleaner runs: the cleaning period passed and tasks are
/// pending, or at least five tasks are pending.
pub fn cleaner_due(period_passed: bool, pending: usize) -> (due: bool)
    ensures
        due == ((period_passed && pending != 0) || pending >= 5),
{
    (period_passed && pending != 0) || pending >= 5
}

/// Whether unfinished uploads are cleaned after a cleaner run: no task is
/// pending any more and some task failed.
pub fn cleanup_due(pending: usize, failed: u64) -> (due: bool)
    ensures
        due == (pending == 0 && failed > 0),
{
    pending == 0 && failed > 0
}

/// The count of clients with improper TLS after a cleaner run: reset to 0
/// once a day has passed since the server started, kept otherwise.
pub fn improper_tls_after_clean(count: u32, day_passed: bool) -> (c: u32)
    ensures
        c == if day_passed {
            0u32
        } else {
            count
        },
{
    if day_passed {
        0
    } else {
        count
    }
}

/// The number of improper TLS clients at which the server pauses.
pub const IMPROPER_TLS_LIMIT: u32 = 100000;

/// Whether the server pauses: the improper TLS count reached the limit.
pub fn under_attack(count: u32) -> (b: bool)
    ensures
        b == (count == IMPROPER_TLS_LIMIT),
{
    count == IMPROPER_TLS_LIMIT
}

/// How a finished client task is reported.
#[derive(Clone, Copy, Debug, PartialEq, Eq, Structural)]
pub enum TaskReport {
    /// Result 0: the client was handled.
    Handled,
    /// Result 1: the client was lost.
    Lost,
    /// `UNMATCHED_CPID`: write the detailed report of the suspicious client.
    Suspicious,
    /// Any other result: nothing is reported.
    Quiet,
}

/// The report for a session result.
pub fn task_report(result: u8) -> (r: TaskReport)
    ensures
        r == if result == 0 {
            TaskReport::Handled
        } else if result == 1 {
            TaskReport::Lost
        } else if result == UNMATCHED_CPID {
            TaskReport::Suspicious
        } else {
            TaskReport::Quiet
        },
{
    if result == 0 {
        TaskReport::Handled
    } else if result == 1 {
        TaskReport::Lost
    } else if result == UNMATCHED_CPID {
        TaskReport::Suspicious
    } else {
        TaskReport::Quiet
    }
}

/// The tasks that are not finished, in their order.
pub open spec fn unfinished<T>(hs: Seq<T>, fin: Seq<bool>) -> Seq<T>
    decreases hs.len(),
{
    if hs.len() == 0 {
        Seq::empty()
    } else {
        let rest = unfinished(hs.skip(1), fin.skip(1));
        if fin[0] {
            rest
        } else {
            seq![hs[0]] + rest
        }
    }
}

/// The finished tasks, the last one first.
pub open spec fn finished_last_first<T>(hs: Seq<T>, fin: Seq<bool>) -> Seq<T>
    decreases hs.len(),
{
    if hs.len() == 0 {
        Seq::empty()
    } else {
        let rest = finished_last_first(hs.skip(1), fin.skip(1));
        if fin[0] {
            rest.push(hs[0])
        } else {
            rest
        }
    }
}

/// Removes the finished tasks (flagged in `finished`, one flag per task)
/// from `handles`, from the last index to the first so that no index
/// shifts before it is used; returns them in that order. The unfinished
/// tasks stay, in their order.
pub fn reap_finished<T>(handles: &mut Vec<T>, finished: &Vec<bool>) -> (reaped: Vec<T>)
    requires
        old(handles)@.len() == finished@.len(),
    ensures
        final(handles)@ == unfinished(old(handles)@, finished@),
        reaped@ == finished_last_first(old(handles)@, finished@),
        final(handles)@.len() + reaped@.len() == old(handles)@.len(),
{
    let ghost hs = handles@;
    let ghost fin = finished@;
    let n = handles.len();
    let mut reaped: Vec<T> = Vec::new();
    let mut i = n;
    assert(hs.take(n as int) =~= hs);
    assert(hs.skip(n as int) =~= Seq::<T>::empty());
    while i > 0
        invariant
            n == hs.len(),
            fin == finished@,
            fin.len() == n,
            0 <= i <= n,
            handles@ == hs.take(i as int) + unfinished(hs.skip(i as int), fin.skip(i as int)),
            reaped@ == finished_last_first(hs.skip(i as int), fin.skip(i as int)),
        decreases i,
    {
        let j = i - 1;
        proof {
            let s = hs.skip(j as int);
            let f = fin.skip(j as int);
            assert(s.skip(1) =~= hs.skip(i as int));
            assert(f.skip(1) =~= fin.skip(i as int));
            assert(s[0] == hs[j as int]);
            assert(f[0] == fin[j as int]);
            assert(s.len() > 0);
        }
        if finished[j] {
            let ghost before = handles@;
            let h = handles.remove(j);
            assert(hs.take(i as int)[j as int] == hs[j as int]);
            assert(h == hs[j as int]);
            assert(handles@ =~= hs.take(j as int) + unfinished(hs.skip(j as int), fin.skip(j as int)));
            reaped.push(h);
        } else {
            assert(hs.take(i as int) =~= hs.take(j as int).push(hs[j as int]));
            assert(handles@ =~= hs.take(j as int) + unfinished(hs.skip(j as int), fin.skip(j as int)));
        }
        i = j;
    }
    assert(hs.take(0) =~= Seq::<T>::empty());
    assert(hs.skip(0) =~= hs);
    assert(fin.skip(0) =~= fin);
    assert(handles@ =~= unfinished(hs, fin));
    proof {
        lemma_reap_lengths(hs, fin);
    }
    reaped
}

proof fn lemma_reap_lengths<T>(hs: Seq<T>, fin: Seq<bool>)
    ensures
        unfinished(hs, fin).len() + finished_last_first(hs, fin).len() == hs.len(),
    decreases hs.len(),
{
    if hs.len() > 0 {
        lemma_reap_lengths(hs.skip(1), fin.skip(1));
    }
}

} // verus!

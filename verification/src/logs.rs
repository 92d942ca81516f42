use vstd::prelude::*;
use std::time::SystemTime;

verus! {

#[verifier::external_type_specification]
#[verifier::external_body]
pub struct ExSystemTime(SystemTime);

/// The report about a client whose token and request name different ids:
/// both ids, the client's address, when it happened and a severity.
pub struct ClientErrorMsgLog {
    pub client_jwt_cpid: String,
    pub client_request_cpid: String,
    pub client_ip: String,
    pub timestamp: SystemTime,
    pub sev: u8,
}

/// The report of a suspicious client at `timestamp`, with severity 1.
pub fn unmatched_cpid_report(
    token_cpid: String,
    request_cpid: String,
    client_ip: String,
    timestamp: SystemTime,
) -> (r: ClientErrorMsgLog)
    ensures
        r.client_jwt_cpid == token_cpid,
        r.client_request_cpid == request_cpid,
        r.client_ip == client_ip,
        r.timestamp == timestamp,
        r.sev == 1,
{
    ClientErrorMsgLog {
        client_jwt_cpid: token_cpid,
        client_request_cpid: request_cpid,
        client_ip,
        timestamp,
        sev: 1,
    }
}

/// The opening of the suspicious-client report, up to the token's id.
pub const REPORT_HEAD: &'static str = "\n    a client sent a bad request that had 2 different IDs \n    in the request and the JWT token \n    this activity is suspicious \n    all request for the next 3 hours from this client will be denyed \n    JWT CPID: ";

/// The text between the token's id and the request's id.
pub const REPORT_REQUEST: &'static str = "\n    request CPID: ";

/// The text between the request's id and the client's address.
pub const REPORT_IP: &'static str = "\n    Ip of said request: ";

/// The text between the client's address and the time.
pub const REPORT_TIME: &'static str = "\n    system_time: ";

/// The end of the report.
pub const REPORT_END: &'static str = " ";

/// The report text for `s`, with `time_text` as the time.
pub open spec fn spec_report_text(s: ClientErrorMsgLog, time_text: Seq<char>) -> Seq<char> {
    REPORT_HEAD@ + s.client_jwt_cpid@ + REPORT_REQUEST@ + s.client_request_cpid@ + REPORT_IP@
        + s.client_ip@ + REPORT_TIME@ + time_text + REPORT_END@
}

/// The report text for `s`, with `time_text` standing for its time.
pub fn report_text(s: &ClientErrorMsgLog, time_text: &str) -> (text: String)
    ensures
        text@ == spec_report_text(*s, time_text@),
{
    let mut t = String::from_str(REPORT_HEAD);
    t.append(s.client_jwt_cpid.as_str());
    t.append(REPORT_REQUEST);
    t.append(s.client_request_cpid.as_str());
    t.append(REPORT_IP);
    t.append(s.client_ip.as_str());
    t.append(REPORT_TIME);
    t.append(time_text);
    t.append(REPORT_END);
    t
}

/// The debug text of a time, through `{:?}`; its text depends on the
/// platform's representation and is left unsaid.
#[verifier::external_body]
fn time_debug_text(t: &SystemTime) -> String {
    format!("{:?}", t)
}

/// The report text of a suspicious client, its time written as `{:?}`
/// writes it.
pub fn cpid_mismatch_text(s: &ClientErrorMsgLog) -> (text: String)
    ensures
        exists|t: Seq<char>| text@ == spec_report_text(*s, t),
{
    let time_text = time_debug_text(&s.timestamp);
    report_text(s, time_text.as_str())
}

/// The path of a report file: the logs directory, `/`, the file's name
/// and `.log`.
pub fn log_file_path(logs_dir: &str, file_name: &str) -> (path: String)
    ensures
        path@ == logs_dir@ + seq!['/'] + file_name@ + seq!['.', 'l', 'o', 'g'],
{
    let mut p = String::from_str(logs_dir);
    let sep = "/";
    let ext = ".log";
    proof {
        reveal_strlit("/");
        reveal_strlit(".log");
    }
    p.append(sep);
    p.append(file_name);
    p.append(ext);
    p
}

/// The decimal digit `d` as a character.
pub open spec fn digit_char(d: int) -> char {
    (48 + d) as char
}

/// The decimal text of a byte, without leading zeros.
pub open spec fn spec_u8_text(n: u8) -> Seq<char> {
    if n >= 100 {
        seq![
            digit_char(n as int / 100),
            digit_char((n as int / 10) % 10),
            digit_char(n as int % 10),
        ]
    } else if n >= 10 {
        seq![digit_char(n as int / 10), digit_char(n as int % 10)]
    } else {
        seq![digit_char(n as int)]
    }
}

/// The digits, in order.
pub const DIGITS: &'static str = "0123456789";

fn push_digit(s: &mut String, d: u8)
    requires
        d < 10,
    ensures
        final(s)@ == old(s)@.push(digit_char(d as int)),
{
    proof {
        reveal_strlit("0123456789");
    }
    let i = d as usize;
    let ch = DIGITS.substring_char(i, i + 1);
    assert(ch@ =~= seq![digit_char(d as int)]);
    s.append(ch);
}

/// The decimal text of a byte.
pub fn u8_text(n: u8) -> (t: String)
    ensures
        t@ == spec_u8_text(n),
{
    let mut t = String::new();
    if n >= 100 {
        push_digit(&mut t, n / 100);
        push_digit(&mut t, (n / 10) % 10);
        push_digit(&mut t, n % 10);
    } else if n >= 10 {
        push_digit(&mut t, n / 10);
        push_digit(&mut t, n % 10);
    } else {
        push_digit(&mut t, n);
    }
    assert(t@ =~= spec_u8_text(n));
    t
}

/// The text of a client log entry at `time_text`: who (`uuid`), from
/// where, which request and its status; it starts with a line break when
/// the log file is not empty.
pub open spec fn spec_client_log_entry(
    time_text: Seq<char>,
    uuid: Seq<char>,
    ip_text: Seq<char>,
    request_type: Seq<char>,
    status: u8,
    file_len: u64,
) -> Seq<char> {
    let entry = time_text + ":( uuid: "@ + uuid + " from: "@ + ip_text + " request: "@
        + request_type + " status: "@ + spec_u8_text(status) + " )"@;
    if file_len == 0 {
        entry
    } else {
        seq!['\n'] + entry
    }
}

/// A client log entry.
pub fn client_log_entry(
    time_text: &str,
    uuid: &str,
    ip_text: &str,
    request_type: &str,
    status: u8,
    file_len: u64,
) -> (entry: String)
    ensures
        entry@ == spec_client_log_entry(time_text@, uuid@, ip_text@, request_type@, status, file_len),
{
    let mut e = if file_len == 0 {
        String::new()
    } else {
        let nl = "\n";
        proof {
            reveal_strlit("\n");
        }
        String::from_str(nl)
    };
    let ghost start = e@;
    e.append(time_text);
    e.append(":( uuid: ");
    e.append(uuid);
    e.append(" from: ");
    e.append(ip_text);
    e.append(" request: ");
    e.append(request_type);
    e.append(" status: ");
    let st = u8_text(status);
    e.append(st.as_str());
    e.append(" )");
    assert(e@ =~= start + (time_text@ + ":( uuid: "@ + uuid@ + " from: "@ + ip_text@
        + " request: "@ + request_type@ + " status: "@ + spec_u8_text(status) + " )"@));
    e
}

/// The text of an entry about an unauthorised client at `time_text`.
pub fn unauthorized_entry(time_text: &str, ip_text: &str) -> (entry: String)
    ensures
        entry@ == time_text@ + ":( ip: "@ + ip_text@ + ")"@,
{
    let mut e = String::from_str(time_text);
    e.append(":( ip: ");
    e.append(ip_text);
    e.append(")");
    e
}

} // verus!

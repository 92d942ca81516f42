use connie::session::{
    auth_kind, fetch_verdict, jwt_verdict, listing_count, login_granted, route_after_handshake,
    signup_accepted, adopt_server, AuthKind, Dialect, FetchVerdict, JwtVerdict, SessionRoute,
};
use connie::listener::{
    cleaner_due, cleanup_due, improper_tls_after_clean, listen_address, listen_port,
    new_users_allowed, reap_finished, route_connection, task_report, under_attack,
    ConnectionRoute, ListenAddress, TaskReport,
};
use connie::host::{new_user, created_user, ShortUser, CreatedUser};

fn s(x: &str) -> String {
    x.to_string()
}

#[test]
fn routes_after_handshake() {
    assert_eq!(route_after_handshake(1), SessionRoute::ClientLost);
    assert_eq!(route_after_handshake(2), SessionRoute::SignUp);
    assert_eq!(route_after_handshake(0), SessionRoute::Authenticate);
}

#[test]
fn auth_kinds() {
    assert_eq!(auth_kind(Dialect::Tls, 0), AuthKind::Jwt);
    assert_eq!(auth_kind(Dialect::Tls, 1), AuthKind::Login);
    assert_eq!(auth_kind(Dialect::Plain, 14), AuthKind::Fetch);
    assert_eq!(auth_kind(Dialect::Tls, 2), AuthKind::Invalid);
    assert_eq!(auth_kind(Dialect::Direct, 2), AuthKind::SignUp);
    assert_eq!(auth_kind(Dialect::Direct, 99), AuthKind::Invalid);
}

#[test]
fn jwt_verdicts_differ_by_handler() {
    // the host's own id is served over TLS even with an invalid token
    assert_eq!(jwt_verdict(Dialect::Tls, false, &s("a"), &s("h"), &s("h")), JwtVerdict::Serve);
    assert_eq!(jwt_verdict(Dialect::Plain, false, &s("a"), &s("h"), &s("h")), JwtVerdict::Suspicious);
    assert_eq!(jwt_verdict(Dialect::Plain, true, &s("a"), &s("h"), &s("h")), JwtVerdict::Serve);
    assert_eq!(jwt_verdict(Dialect::Tls, true, &s("a"), &s("a"), &s("h")), JwtVerdict::Serve);
    assert_eq!(jwt_verdict(Dialect::Tls, true, &s("a"), &s("b"), &s("h")), JwtVerdict::Suspicious);
    assert_eq!(jwt_verdict(Dialect::Tls, false, &s("a"), &s("a"), &s("h")), JwtVerdict::Refuse);
    assert_eq!(jwt_verdict(Dialect::Direct, false, &s("a"), &s("b"), &s("h")), JwtVerdict::Refuse);
    assert_eq!(jwt_verdict(Dialect::Direct, true, &s("a"), &s("b"), &s("h")), JwtVerdict::Serve);
}

#[test]
fn fetch_verdicts() {
    assert_eq!(fetch_verdict(Dialect::Tls, true, &s("a"), &s("a")), FetchVerdict::Serve);
    assert_eq!(fetch_verdict(Dialect::Tls, true, &s("a"), &s("b")), FetchVerdict::Ignore);
    assert_eq!(fetch_verdict(Dialect::Plain, true, &s("a"), &s("b")), FetchVerdict::Suspicious);
    assert_eq!(fetch_verdict(Dialect::Plain, false, &s("a"), &s("a")), FetchVerdict::Ignore);
    assert_eq!(listing_count(70000), 4464);
}

#[test]
fn login_and_signup_answers() {
    assert!(login_granted(Some(true)));
    assert!(!login_granted(Some(false)));
    assert!(!login_granted(None));
    assert!(signup_accepted(0));
    assert!(!signup_accepted(41));
}

#[test]
fn sign_up_records() {
    let short = ShortUser { name: s("Ann"), username: s("ann"), password: s("pw"), email: s("a@x") };
    let u = new_user(short, s("host-7"));
    assert_eq!(u.cpid, "");
    assert_eq!(u.host, "host-7");
    let mut u2 = u.clone();
    u2.cpid = s("cp-9");
    let c: CreatedUser = created_user(u2);
    assert_eq!(c.usrname, "ann");
    assert_eq!(c.cpid, "cp-9");
    let adopted = adopt_server(c, s("srv-1"));
    assert_eq!(adopted.host, "srv-1");
    assert_eq!(adopted.email, "a@x");
}

#[test]
fn listener_settings() {
    assert_eq!(listen_address(1), ListenAddress::AllInterfaces);
    assert_eq!(listen_address(0), ListenAddress::Private);
    assert_eq!(listen_port(0, 4443), 4443);
    assert_eq!(listen_port(9000, 4443), 9000);
    assert!(new_users_allowed(1));
    assert!(!new_users_allowed(2));
}

#[test]
fn connection_routes() {
    assert_eq!(route_connection(Some(1), true), ConnectionRoute::Plain);
    assert_eq!(route_connection(Some(1), false), ConnectionRoute::RefusePlain);
    assert_eq!(route_connection(Some(0), true), ConnectionRoute::Tls);
    assert_eq!(route_connection(None, false), ConnectionRoute::Tls);
}

#[test]
fn cleaner_rules() {
    assert!(cleaner_due(true, 1));
    assert!(!cleaner_due(true, 0));
    assert!(cleaner_due(false, 5));
    assert!(!cleaner_due(false, 4));
    assert!(cleanup_due(0, 2));
    assert!(!cleanup_due(1, 2));
    assert!(!cleanup_due(0, 0));
    assert_eq!(improper_tls_after_clean(17, true), 0);
    assert_eq!(improper_tls_after_clean(17, false), 17);
    assert!(under_attack(100000));
    assert!(!under_attack(99999));
    assert_eq!(task_report(0), TaskReport::Handled);
    assert_eq!(task_report(1), TaskReport::Lost);
    assert_eq!(task_report(44), TaskReport::Suspicious);
    assert_eq!(task_report(9), TaskReport::Quiet);
}

#[test]
fn reaping_keeps_unfinished_in_order() {
    let mut handles = vec!["a", "b", "c", "d", "e"];
    let finished = vec![true, false, true, false, true];
    let reaped = reap_finished(&mut handles, &finished);
    assert_eq!(handles, vec!["b", "d"]);
    assert_eq!(reaped, vec!["e", "c", "a"]);
    let mut none: Vec<u8> = vec![];
    assert!(reap_finished(&mut none, &vec![]).is_empty());
}

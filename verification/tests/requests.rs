use connie::protocol::{request_kind, is_no_val, RequestKind, GET, POST, DELETE, NO_VAL};
use connie::request::RQM;
use connie::sort_requests::{sort_requests, sort_requests_with_header, sort_and_size_requests_with_header};

fn rq(header: &str, name: &str, size: i64) -> RQM {
    RQM {
        size,
        cpid: "owner-1".to_string(),
        name: name.to_string(),
        type_: "txt".to_string(),
        header: header.to_string(),
        chcksum: NO_VAL.to_string(),
        path: None,
    }
}

#[test]
fn request_kind_classifies_headers() {
    assert_eq!(request_kind(GET), RequestKind::Get);
    assert_eq!(request_kind(POST), RequestKind::Post);
    assert_eq!(request_kind(DELETE), RequestKind::Delete);
    assert_eq!(request_kind("!X"), RequestKind::Unknown);
    assert_eq!(request_kind("!G "), RequestKind::Unknown);
    assert_eq!(request_kind(""), RequestKind::Unknown);
}

#[test]
fn no_val_is_recognised() {
    assert!(is_no_val("N//A"));
    assert!(!is_no_val("N//B"));
    assert!(!is_no_val("abc"));
}

#[test]
fn sort_requests_with_header_keeps_order() {
    let reqs = vec![rq(GET, "a", 1), rq(POST, "b", 2), rq(GET, "c", 3), rq("??", "d", 4)];
    let gets = sort_requests_with_header(&reqs, &GET.to_string());
    let names: Vec<&str> = gets.iter().map(|r| r.name.as_str()).collect();
    assert_eq!(names, vec!["a", "c"]);
    let none = sort_requests_with_header(&reqs, &DELETE.to_string());
    assert!(none.is_empty());
}

#[test]
fn sort_and_size_sums_matching_sizes() {
    let reqs = vec![rq(POST, "a", 10), rq(GET, "b", 7), rq(POST, "c", 32)];
    let (size, posts) = sort_and_size_requests_with_header(&reqs, &POST.to_string());
    assert_eq!(size, 42);
    assert_eq!(posts.len(), 2);
    assert_eq!(posts[1].name, "c");
    let (zero, empty) = sort_and_size_requests_with_header(&reqs, &DELETE.to_string());
    assert_eq!(zero, 0);
    assert!(empty.is_empty());
}

#[test]
fn sort_and_size_negative_total_wraps() {
    let reqs = vec![rq(GET, "a", -1)];
    let (size, _) = sort_and_size_requests_with_header(&reqs, &GET.to_string());
    assert_eq!(size, u64::MAX);
}

#[test]
fn sort_requests_partitions_by_header() {
    let reqs = vec![
        rq(DELETE, "d1", 1),
        rq(GET, "g1", 1),
        rq("nope", "x", 1),
        rq(POST, "p1", 1),
        rq(GET, "g2", 1),
    ];
    let (g, p, d) = sort_requests(&reqs);
    assert_eq!(g.iter().map(|r| r.name.clone()).collect::<Vec<_>>(), vec!["g1", "g2"]);
    assert_eq!(p.iter().map(|r| r.name.clone()).collect::<Vec<_>>(), vec!["p1"]);
    assert_eq!(d.iter().map(|r| r.name.clone()).collect::<Vec<_>>(), vec!["d1"]);
    // the split agrees with sorting by one header
    assert_eq!(g.len(), sort_requests_with_header(&reqs, &GET.to_string()).len());
}

#[test]
fn create_request_from_parts() {
    let r = RQM::create_from_parts(
        12,
        &"/home/u/docs/report.pdf".to_string(),
        POST.to_string(),
        "owner".to_string(),
        None,
    )
    .unwrap();
    assert_eq!(r.name, "report.pdf");
    assert_eq!(r.type_, "pdf");
    assert_eq!(r.size, 12);
    assert_eq!(r.chcksum, "N//A");
    assert_eq!(r.path.as_deref(), Some("/home/u/docs/report.pdf"));
    let plain = RQM::create_from_parts(1, &"notes".to_string(), GET.to_string(), "o".to_string(), Some("abc".to_string())).unwrap();
    assert_eq!(plain.type_, "");
    assert_eq!(plain.chcksum, "abc");
    assert!(RQM::create_from_parts(1, &"/".to_string(), GET.to_string(), "o".to_string(), None).is_none());
}

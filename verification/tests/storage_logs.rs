use connie::logs::{
    cpid_mismatch_text, client_log_entry, log_file_path, report_text, u8_text,
    unauthorized_entry, unmatched_cpid_report, REPORT_HEAD,
};
use connie::media::MediaRecord;
use connie::public_files::{
    get_files_in_storage, get_new_files, get_path, pub_file_record, remove_deleted_file_records,
    contains_path,
};
use std::time::SystemTime;

fn media(path: &str) -> MediaRecord {
    MediaRecord {
        name: "n".to_string(),
        size: 1,
        in_host: "h".to_string(),
        cpid: "h".to_string(),
        path: path.to_string(),
        checksum: "c".to_string(),
        type_: "t".to_string(),
    }
}

#[test]
fn storage_listing_and_size() {
    let entries = vec![("/d/a".to_string(), 10u64), ("/d/b".to_string(), 32u64)];
    let (paths, size) = get_files_in_storage(&entries);
    assert_eq!(paths, vec!["/d/a", "/d/b"]);
    assert_eq!(size, 42);
    let (none, zero) = get_files_in_storage(&vec![]);
    assert!(none.is_empty());
    assert_eq!(zero, 0);
}

#[test]
fn records_of_missing_files_are_removed() {
    let recs = vec![media("/d/a"), media("/d/b"), media("/d/c")];
    assert_eq!(get_path(&recs), vec!["/d/a", "/d/b", "/d/c"]);
    let (kept, removed) = remove_deleted_file_records(recs, &vec![true, false, true]);
    assert_eq!(kept.iter().map(|m| m.path.clone()).collect::<Vec<_>>(), vec!["/d/a", "/d/c"]);
    assert_eq!(removed.len(), 1);
    assert_eq!(removed[0].path, "/d/b");
}

#[test]
fn new_files_compare_as_paths() {
    let recs = vec![media("/d//a")];
    let files = vec!["/d/a".to_string(), "/d/b".to_string()];
    let (new_files, n) = get_new_files(&recs, &files);
    assert_eq!(new_files, vec!["/d/b"]);
    assert_eq!(n, 1);
    let (all, m) = get_new_files(&vec![], &files);
    assert_eq!(all.len(), 2);
    assert_eq!(m, 2);
    assert!(contains_path(&vec!["/x/./y".to_string()], &"/x/y".to_string()));
    assert!(!contains_path(&vec!["/x/z".to_string()], &"/x/y".to_string()));
}

#[test]
fn public_file_records() {
    let m = pub_file_record(&"/pub/song.mp3".to_string(), 99, "sum".to_string(), &"host-1".to_string()).unwrap();
    assert_eq!(m.name, "song.mp3");
    assert_eq!(m.type_, "mp3");
    assert_eq!(m.size, 99);
    assert_eq!(m.cpid, "host-1");
    assert!(pub_file_record(&"/pub/README".to_string(), 1, "s".to_string(), &"h".to_string()).is_none());
}

#[test]
fn log_texts() {
    assert_eq!(u8_text(0), "0");
    assert_eq!(u8_text(41), "41");
    assert_eq!(u8_text(255), "255");
    assert_eq!(
        client_log_entry("T", "u-1", "1.2.3.4", "LOGIN", 41, 0),
        "T:( uuid: u-1 from: 1.2.3.4 request: LOGIN status: 41 )"
    );
    assert_eq!(
        client_log_entry("T", "u-1", "1.2.3.4", "FETCH", 0, 10),
        "\nT:( uuid: u-1 from: 1.2.3.4 request: FETCH status: 0 )"
    );
    assert_eq!(unauthorized_entry("T", "9.9.9.9"), "T:( ip: 9.9.9.9)");
    assert_eq!(log_file_path("/var/logs", "abc"), "/var/logs/abc.log");
}

#[test]
fn suspicious_client_report() {
    let r = unmatched_cpid_report("jwt-id".to_string(), "req-id".to_string(), "5.5.5.5".to_string(), SystemTime::UNIX_EPOCH);
    assert_eq!(r.sev, 1);
    let text = report_text(&r, "NOW");
    assert!(text.starts_with(REPORT_HEAD));
    assert!(text.ends_with("\n    system_time: NOW "));
    assert!(text.contains("JWT CPID: jwt-id\n    request CPID: req-id\n    Ip of said request: 5.5.5.5"));
    let full = cpid_mismatch_text(&r);
    assert!(full.contains("system_time: SystemTime"));
}

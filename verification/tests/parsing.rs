use gitguard::logparse::{parse_log, parse_log_line};

#[test]
fn well_formed_line_yields_a_record() {
    let r = parse_log_line("deadbeef|bob@evil.com|bob|fix things").unwrap();
    assert_eq!(r.commit_id, "deadbeef");
    assert_eq!(r.author_email, "bob@evil.com");
    assert_eq!(r.author_name, "bob");
    assert_eq!(r.subject, "fix things");
}

#[test]
fn three_fields_yield_nothing() {
    assert!(parse_log_line("deadbeef|bob@evil.com|bob").is_none());
}

#[test]
fn five_fields_yield_nothing() {
    assert!(parse_log_line("deadbeef|bob@evil.com|bob|uses|pipes").is_none());
}

#[test]
fn empty_line_yields_nothing() {
    assert!(parse_log_line("").is_none());
}

#[test]
fn empty_fields_are_still_four_fields() {
    let r = parse_log_line("|||").unwrap();
    assert_eq!(r.commit_id, "");
    assert_eq!(r.author_email, "");
    assert_eq!(r.author_name, "");
    assert_eq!(r.subject, "");
}

#[test]
fn malformed_lines_are_dropped_from_a_log() {
    let log = "c1|a@b|alice|first\nnot a log line\nc2|b@c|bob|second\n";
    let records = parse_log(log);
    assert_eq!(records.len(), 2);
    assert_eq!(records[0].commit_id, "c1");
    assert_eq!(records[1].commit_id, "c2");
}

#[test]
fn empty_log_yields_no_records() {
    assert!(parse_log("").is_empty());
}

use gitguard::identity::ExpectedIdentity;
use gitguard::scan::{scan_observations, scan_repository_log, RepoObservation};

fn expected() -> ExpectedIdentity {
    ExpectedIdentity {
        display_name: "alice".to_string(),
        commit_email: "alice@example.com".to_string(),
    }
}

#[test]
fn one_leaking_commit_of_two_is_flagged() {
    let log = "c1|alice@example.com|alice|good work\nc2|bob@evil.com|bob|oops";
    let leaks = scan_repository_log(log, &expected(), "project");
    assert_eq!(leaks.len(), 1);
    assert_eq!(leaks[0].commit_id, "c2");
    assert_eq!(leaks[0].leaked_email, "bob@evil.com");
    assert_eq!(leaks[0].leaked_name, "bob");
    assert_eq!(leaks[0].repository_name, "project");
}

#[test]
fn directory_without_marker_contributes_nothing() {
    let observations = vec![RepoObservation {
        name: "not-a-repo".to_string(),
        is_repository: false,
        log_ok: true,
        log_output: "c9|bob@evil.com|bob|hidden".to_string(),
    }];
    let leaks = scan_observations(&observations, &expected());
    assert!(leaks.is_empty());
}

#[test]
fn failed_log_query_contributes_nothing() {
    let observations = vec![RepoObservation {
        name: "broken".to_string(),
        is_repository: true,
        log_ok: false,
        log_output: "c9|bob@evil.com|bob|hidden".to_string(),
    }];
    let leaks = scan_observations(&observations, &expected());
    assert!(leaks.is_empty());
}

#[test]
fn leaks_aggregate_across_repositories_in_order() {
    let observations = vec![
        RepoObservation {
            name: "first".to_string(),
            is_repository: true,
            log_ok: true,
            log_output: "c1|bob@evil.com|bob|one".to_string(),
        },
        RepoObservation {
            name: "skipped".to_string(),
            is_repository: false,
            log_ok: false,
            log_output: String::new(),
        },
        RepoObservation {
            name: "second".to_string(),
            is_repository: true,
            log_ok: true,
            log_output: "c2|alice@example.com|alice|fine\nc3|eve@evil.com|eve|two".to_string(),
        },
    ];
    let leaks = scan_observations(&observations, &expected());
    assert_eq!(leaks.len(), 2);
    assert_eq!(leaks[0].commit_id, "c1");
    assert_eq!(leaks[0].repository_name, "first");
    assert_eq!(leaks[1].commit_id, "c3");
    assert_eq!(leaks[1].repository_name, "second");
}

#[test]
fn rescan_of_remediated_repository_is_clean() {
    let before = "c1|bob@evil.com|bob|oops\nc2|alice@example.com|alice|fine";
    assert_eq!(scan_repository_log(before, &expected(), "project").len(), 1);
    let after = "c1|alice@example.com|alice|oops\nc2|alice@example.com|alice|fine";
    assert!(scan_repository_log(after, &expected(), "project").is_empty());
}

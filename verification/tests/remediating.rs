use gitguard::remediation::{
    remediation_step, remote_url, resolve_branch, RemediationAction, RemediationEvent,
    RemediationState, RepoOutcome,
};

#[test]
fn remote_url_follows_the_fixed_convention() {
    assert_eq!(remote_url("alice", "project"), "git@github.com:alice/project.git");
}

#[test]
fn successful_branch_query_is_trimmed() {
    assert_eq!(resolve_branch(true, "  develop\n"), "develop");
}

#[test]
fn failed_branch_query_falls_back() {
    assert_eq!(resolve_branch(false, "whatever the query printed"), "main");
}

#[test]
fn rewrite_failure_is_terminal_and_reported() {
    let (state, action) = remediation_step(
        &RemediationState::ProgramBuilt,
        &RemediationEvent::RewriteExited { success: false },
        "alice",
        "project",
    );
    assert!(matches!(state, RemediationState::Done { outcome: RepoOutcome::RewriteFailed }));
    assert!(matches!(action, RemediationAction::Stop { outcome: RepoOutcome::RewriteFailed }));
    let (state, action) = remediation_step(
        &state,
        &RemediationEvent::BranchQueried { success: true, output: "main".to_string() },
        "alice",
        "project",
    );
    assert!(matches!(state, RemediationState::Done { outcome: RepoOutcome::RewriteFailed }));
    assert!(matches!(action, RemediationAction::Stop { outcome: RepoOutcome::RewriteFailed }));
}

#[test]
fn remediation_happy_path_reaches_pushed() {
    let (state, action) = remediation_step(
        &RemediationState::ProgramBuilt,
        &RemediationEvent::RewriteExited { success: true },
        "alice",
        "project",
    );
    assert!(matches!(state, RemediationState::Rewritten));
    assert!(matches!(action, RemediationAction::QueryBranch));

    let (state, action) = remediation_step(
        &state,
        &RemediationEvent::BranchQueried { success: true, output: "develop\n".to_string() },
        "alice",
        "project",
    );
    assert!(matches!(state, RemediationState::BranchKnown { ref branch } if branch == "develop"));
    assert!(matches!(
        action,
        RemediationAction::ConfigureRemote { ref url } if url == "git@github.com:alice/project.git"
    ));

    let (state, action) = remediation_step(
        &state,
        &RemediationEvent::RemoteConfigured,
        "alice",
        "project",
    );
    assert!(
        matches!(state, RemediationState::RemoteReconfigured { ref branch } if branch == "develop")
    );
    assert!(matches!(action, RemediationAction::PushBranch { ref branch } if branch == "develop"));

    let (state, action) = remediation_step(
        &state,
        &RemediationEvent::PushExited { success: true },
        "alice",
        "project",
    );
    assert!(matches!(state, RemediationState::Done { outcome: RepoOutcome::Pushed }));
    assert!(matches!(action, RemediationAction::Stop { outcome: RepoOutcome::Pushed }));
}

#[test]
fn failed_branch_query_still_pushes_to_fallback() {
    let (state, action) = remediation_step(
        &RemediationState::Rewritten,
        &RemediationEvent::BranchQueried { success: false, output: String::new() },
        "alice",
        "project",
    );
    assert!(matches!(state, RemediationState::BranchKnown { ref branch } if branch == "main"));
    assert!(matches!(action, RemediationAction::ConfigureRemote { .. }));
}

#[test]
fn empty_branch_name_ends_the_repository() {
    let (state, action) = remediation_step(
        &RemediationState::Rewritten,
        &RemediationEvent::BranchQueried { success: true, output: "  \n".to_string() },
        "alice",
        "project",
    );
    assert!(matches!(state, RemediationState::Done { outcome: RepoOutcome::BranchUnknown }));
    assert!(matches!(action, RemediationAction::Stop { outcome: RepoOutcome::BranchUnknown }));
}

#[test]
fn push_failure_is_reported() {
    let (state, action) = remediation_step(
        &RemediationState::RemoteReconfigured { branch: "main".to_string() },
        &RemediationEvent::PushExited { success: false },
        "alice",
        "project",
    );
    assert!(matches!(state, RemediationState::Done { outcome: RepoOutcome::PushFailed }));
    assert!(matches!(action, RemediationAction::Stop { outcome: RepoOutcome::PushFailed }));
}

#[test]
fn mismatched_event_changes_nothing() {
    let (state, action) = remediation_step(
        &RemediationState::ProgramBuilt,
        &RemediationEvent::PushExited { success: true },
        "alice",
        "project",
    );
    assert!(matches!(state, RemediationState::ProgramBuilt));
    assert!(matches!(action, RemediationAction::NoAction));
}

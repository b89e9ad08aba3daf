use vstd::prelude::*;
use vstd::string::*;

use crate::text::{trim_str, trimmed_of};

verus! {

/// How remediation of one repository ended. Each repository is
/// independent: a failed one never stops the remediation of the next.
#[derive(Clone, Copy, PartialEq, Eq, Structural, Debug)]
pub enum RepoOutcome {
    Pushed,
    RewriteFailed,
    BranchUnknown,
    PushFailed,
}

/// Where remediation of one repository stands.
pub enum RemediationState {
    ProgramBuilt,
    Rewritten,
    BranchKnown { branch: String },
    RemoteReconfigured { branch: String },
    Done { outcome: RepoOutcome },
}

/// Mathematical view of a remediation state.
pub enum RemediationStateView {
    ProgramBuilt,
    Rewritten,
    BranchKnown { branch: Seq<char> },
    RemoteReconfigured { branch: Seq<char> },
    Done { outcome: RepoOutcome },
}

impl View for RemediationState {
    type V = RemediationStateView;

    open spec fn view(&self) -> RemediationStateView {
        match self {
            RemediationState::ProgramBuilt => RemediationStateView::ProgramBuilt,
            RemediationState::Rewritten => RemediationStateView::Rewritten,
            RemediationState::BranchKnown { branch } => RemediationStateView::BranchKnown {
                branch: branch@,
            },
            RemediationState::RemoteReconfigured { branch } => {
                RemediationStateView::RemoteReconfigured { branch: branch@ }
            },
            RemediationState::Done { outcome } => RemediationStateView::Done { outcome: *outcome },
        }
    }
}

/// What the driver observed after performing the last requested action.
pub enum RemediationEvent {
    RewriteExited { success: bool },
    BranchQueried { success: bool, output: String },
    RemoteConfigured,
    PushExited { success: bool },
}

/// Mathematical view of a remediation event.
pub enum RemediationEventView {
    RewriteExited { success: bool },
    BranchQueried { success: bool, output: Seq<char> },
    RemoteConfigured,
    PushExited { success: bool },
}

impl View for RemediationEvent {
    type V = RemediationEventView;

    open spec fn view(&self) -> RemediationEventView {
        match self {
            RemediationEvent::RewriteExited { success } => RemediationEventView::RewriteExited {
                success: *success,
            },
            RemediationEvent::BranchQueried { success, output } => {
                RemediationEventView::BranchQueried { success: *success, output: output@ }
            },
            RemediationEvent::RemoteConfigured => RemediationEventView::RemoteConfigured,
            RemediationEvent::PushExited { success } => RemediationEventView::PushExited {
                success: *success,
            },
        }
    }
}

/// What the driver must do next for this repository.
pub enum RemediationAction {
    QueryBranch,
    ConfigureRemote { url: String },
    PushBranch { branch: String },
    Stop { outcome: RepoOutcome },
    NoAction,
}

/// Mathematical view of a remediation action.
pub enum RemediationActionView {
    QueryBranch,
    ConfigureRemote { url: Seq<char> },
    PushBranch { branch: Seq<char> },
    Stop { outcome: RepoOutcome },
    NoAction,
}

impl View for RemediationAction {
    type V = RemediationActionView;

    open spec fn view(&self) -> RemediationActionView {
        match self {
            RemediationAction::QueryBranch => RemediationActionView::QueryBranch,
            RemediationAction::ConfigureRemote { url } => {
                RemediationActionView::ConfigureRemote { url: url@ }
            },
            RemediationAction::PushBranch { branch } => RemediationActionView::PushBranch {
                branch: branch@,
            },
            RemediationAction::Stop { outcome } => RemediationActionView::Stop {
                outcome: *outcome,
            },
            RemediationAction::NoAction => RemediationActionView::NoAction,
        }
    }
}

/// The branch the push targets: the trimmed output of a successful
/// symbolic-reference query, or the literal fallback when the query
/// failed. Only an empty resolved name is a failure of its own.
pub open spec fn resolved_branch_text(query_success: bool, raw: Seq<char>) -> Seq<char> {
    if query_success {
        trimmed_of(raw)
    } else {
        ("main")@
    }
}

/// The fixed remote convention: the expected owner and the repository's
/// directory name.
pub open spec fn remote_url_text(user: Seq<char>, folder: Seq<char>) -> Seq<char> {
    ("git@github.com:")@ + user + ("/")@ + folder + (".git")@
}

/// Resolves the branch to push: the trimmed query output on success, the
/// literal fallback on failure.
pub fn resolve_branch(query_success: bool, raw: &str) -> (r: String)
    ensures
        r@ == resolved_branch_text(query_success, raw@),
{
    if query_success {
        trim_str(raw)
    } else {
        String::from_str("main")
    }
}

/// Builds the remote address the corrected history is pushed to.
pub fn remote_url(username: &str, folder_name: &str) -> (r: String)
    ensures
        r@ == remote_url_text(username@, folder_name@),
{
    let mut url = String::from_str("git@github.com:");
    url.append(username);
    url.append("/");
    url.append(folder_name);
    url.append(".git");
    proof {
        assert(url@ =~= remote_url_text(username@, folder_name@));
    }
    url
}

/// The remediation state machine for one repository. A failed rewrite, an
/// empty resolved branch name and a failed push each end the repository
/// with its own outcome; a mismatched event changes nothing.
pub open spec fn step_spec(
    s: RemediationStateView,
    e: RemediationEventView,
    user: Seq<char>,
    folder: Seq<char>,
) -> (RemediationStateView, RemediationActionView) {
    match (s, e) {
        (
            RemediationStateView::ProgramBuilt,
            RemediationEventView::RewriteExited { success },
        ) => if success {
            (RemediationStateView::Rewritten, RemediationActionView::QueryBranch)
        } else {
            (
                RemediationStateView::Done { outcome: RepoOutcome::RewriteFailed },
                RemediationActionView::Stop { outcome: RepoOutcome::RewriteFailed },
            )
        },
        (
            RemediationStateView::Rewritten,
            RemediationEventView::BranchQueried { success, output },
        ) => {
            let branch = resolved_branch_text(success, output);
            if branch.len() == 0 {
                (
                    RemediationStateView::Done { outcome: RepoOutcome::BranchUnknown },
                    RemediationActionView::Stop { outcome: RepoOutcome::BranchUnknown },
                )
            } else {
                (
                    RemediationStateView::BranchKnown { branch },
                    RemediationActionView::ConfigureRemote { url: remote_url_text(user, folder) },
                )
            }
        },
        (
            RemediationStateView::BranchKnown { branch },
            RemediationEventView::RemoteConfigured,
        ) => (
            RemediationStateView::RemoteReconfigured { branch },
            RemediationActionView::PushBranch { branch },
        ),
        (
            RemediationStateView::RemoteReconfigured { branch },
            RemediationEventView::PushExited { success },
        ) => if success {
            (
                RemediationStateView::Done { outcome: RepoOutcome::Pushed },
                RemediationActionView::Stop { outcome: RepoOutcome::Pushed },
            )
        } else {
            (
                RemediationStateView::Done { outcome: RepoOutcome::PushFailed },
                RemediationActionView::Stop { outcome: RepoOutcome::PushFailed },
            )
        },
        (RemediationStateView::Done { outcome }, _) => (
            RemediationStateView::Done { outcome },
            RemediationActionView::Stop { outcome },
        ),
        _ => (s, RemediationActionView::NoAction),
    }
}

/// Advances remediation of one repository by one observed event and says
/// what the driver must do next.
pub fn remediation_step(
    state: &RemediationState,
    event: &RemediationEvent,
    username: &str,
    folder_name: &str,
) -> (r: (RemediationState, RemediationAction))
    ensures
        r.0@ == step_spec(state@, event@, username@, folder_name@).0,
        r.1@ == step_spec(state@, event@, username@, folder_name@).1,
{
    match (state, event) {
        (RemediationState::ProgramBuilt, RemediationEvent::RewriteExited { success }) => {
            if *success {
                (RemediationState::Rewritten, RemediationAction::QueryBranch)
            } else {
                (
                    RemediationState::Done { outcome: RepoOutcome::RewriteFailed },
                    RemediationAction::Stop { outcome: RepoOutcome::RewriteFailed },
                )
            }
        },
        (RemediationState::Rewritten, RemediationEvent::BranchQueried { success, output }) => {
            let branch = resolve_branch(*success, output.as_str());
            if branch.as_str().unicode_len() == 0 {
                (
                    RemediationState::Done { outcome: RepoOutcome::BranchUnknown },
                    RemediationAction::Stop { outcome: RepoOutcome::BranchUnknown },
                )
            } else {
                (
                    RemediationState::BranchKnown { branch: branch.clone() },
                    RemediationAction::ConfigureRemote {
                        url: remote_url(username, folder_name),
                    },
                )
            }
        },
        (RemediationState::BranchKnown { branch }, RemediationEvent::RemoteConfigured) => {
            (
                RemediationState::RemoteReconfigured { branch: branch.clone() },
                RemediationAction::PushBranch { branch: branch.clone() },
            )
        },
        (
            RemediationState::RemoteReconfigured { branch },
            RemediationEvent::PushExited { success },
        ) => {
            if *success {
                (
                    RemediationState::Done { outcome: RepoOutcome::Pushed },
                    RemediationAction::Stop { outcome: RepoOutcome::Pushed },
                )
            } else {
                (
                    RemediationState::Done { outcome: RepoOutcome::PushFailed },
                    RemediationAction::Stop { outcome: RepoOutcome::PushFailed },
                )
            }
        },
        (RemediationState::Done { outcome }, _) => {
            (
                RemediationState::Done { outcome: *outcome },
                RemediationAction::Stop { outcome: *outcome },
            )
        },
        (RemediationState::ProgramBuilt, _) => {
            (RemediationState::ProgramBuilt, RemediationAction::NoAction)
        },
        (RemediationState::Rewritten, _) => {
            (RemediationState::Rewritten, RemediationAction::NoAction)
        },
        (RemediationState::BranchKnown { branch }, _) => {
            (
                RemediationState::BranchKnown { branch: branch.clone() },
                RemediationAction::NoAction,
            )
        },
        (RemediationState::RemoteReconfigured { branch }, _) => {
            (
                RemediationState::RemoteReconfigured { branch: branch.clone() },
                RemediationAction::NoAction,
            )
        },
    }
}

/// A finished repository never acts again: from a terminal state every
/// event leaves the state as it is and only restates the outcome. In
/// particular, after a failed rewrite neither the branch query nor the
/// remote reconfiguration nor the push is ever requested for that
/// repository.
pub proof fn lemma_done_is_terminal(
    outcome: RepoOutcome,
    e: RemediationEventView,
    user: Seq<char>,
    folder: Seq<char>,
)
    ensures
        step_spec(RemediationStateView::Done { outcome }, e, user, folder).0 == (
        RemediationStateView::Done { outcome }),
        step_spec(RemediationStateView::Done { outcome }, e, user, folder).1 == (
        RemediationActionView::Stop { outcome }),
{
}

/// A failed rewrite ends the repository at once: the very transition that
/// reports the failure is into the terminal state.
pub proof fn lemma_rewrite_failure_halts(user: Seq<char>, folder: Seq<char>)
    ensures
        step_spec(
            RemediationStateView::ProgramBuilt,
            RemediationEventView::RewriteExited { success: false },
            user,
            folder,
        ).0 == (RemediationStateView::Done { outcome: RepoOutcome::RewriteFailed }),
        step_spec(
            RemediationStateView::ProgramBuilt,
            RemediationEventView::RewriteExited { success: false },
            user,
            folder,
        ).1 == (RemediationActionView::Stop { outcome: RepoOutcome::RewriteFailed }),
{
}

} // verus!

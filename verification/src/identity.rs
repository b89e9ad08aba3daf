use vstd::prelude::*;
use vstd::string::*;

use crate::text::{lower_of, lower_str, trim_str, trimmed_of};

verus! {

/// The identity the operator declares as the one every commit should carry.
pub struct ExpectedIdentity {
    pub display_name: String,
    pub commit_email: String,
}

/// Mathematical view of an expected identity.
pub struct IdentityView {
    pub display_name: Seq<char>,
    pub commit_email: Seq<char>,
}

impl View for ExpectedIdentity {
    type V = IdentityView;

    open spec fn view(&self) -> IdentityView {
        IdentityView { display_name: self.display_name@, commit_email: self.commit_email@ }
    }
}

/// One commit's provenance, as read from a single log line.
pub struct CommitRecord {
    pub commit_id: String,
    pub author_email: String,
    pub author_name: String,
    pub subject: String,
}

/// Mathematical view of a commit record.
pub struct CommitRecordView {
    pub commit_id: Seq<char>,
    pub author_email: Seq<char>,
    pub author_name: Seq<char>,
    pub subject: Seq<char>,
}

impl View for CommitRecord {
    type V = CommitRecordView;

    open spec fn view(&self) -> CommitRecordView {
        CommitRecordView {
            commit_id: self.commit_id@,
            author_email: self.author_email@,
            author_name: self.author_name@,
            subject: self.subject@,
        }
    }
}

/// A commit whose author identity deviates from the expected one.
pub struct LeakRecord {
    pub commit_id: String,
    pub leaked_email: String,
    pub leaked_name: String,
    pub repository_name: String,
}

/// Mathematical view of a leak record.
pub struct LeakRecordView {
    pub commit_id: Seq<char>,
    pub leaked_email: Seq<char>,
    pub leaked_name: Seq<char>,
    pub repository_name: Seq<char>,
}

impl View for LeakRecord {
    type V = LeakRecordView;

    open spec fn view(&self) -> LeakRecordView {
        LeakRecordView {
            commit_id: self.commit_id@,
            leaked_email: self.leaked_email@,
            leaked_name: self.leaked_name@,
            repository_name: self.repository_name@,
        }
    }
}

pub open spec fn records_view(v: Seq<CommitRecord>) -> Seq<CommitRecordView> {
    v.map_values(|r: CommitRecord| r@)
}

pub open spec fn leaks_view(v: Seq<LeakRecord>) -> Seq<LeakRecordView> {
    v.map_values(|l: LeakRecord| l@)
}

/// Normalization applied to both sides before comparing identities:
/// trim surrounding whitespace, then lowercase.
pub open spec fn normalized(s: Seq<char>) -> Seq<char> {
    lower_of(trimmed_of(s))
}

/// A commit matches the expected identity when both its author email and
/// its author name equal the expected ones after normalization.
pub open spec fn commit_matches(c: CommitRecordView, e: IdentityView) -> bool {
    normalized(c.author_email) == normalized(e.commit_email)
        && normalized(c.author_name) == normalized(e.display_name)
}

/// The Identity Matcher: total, deterministic classification of one commit
/// against the expected identity.
pub fn identity_matches(record: &CommitRecord, expected: &ExpectedIdentity) -> (r: bool)
    ensures
        r == commit_matches(record@, expected@),
{
    let commit_email = lower_str(trim_str(record.author_email.as_str()).as_str());
    let expected_email = lower_str(trim_str(expected.commit_email.as_str()).as_str());
    let commit_name = lower_str(trim_str(record.author_name.as_str()).as_str());
    let expected_name = lower_str(trim_str(expected.display_name.as_str()).as_str());
    commit_email == expected_email && commit_name == expected_name
}

/// The leak record that flags one mismatching commit: it carries the
/// leaked identity exactly as logged, not normalized.
pub open spec fn leak_of(c: CommitRecordView, repo: Seq<char>) -> LeakRecordView {
    LeakRecordView {
        commit_id: c.commit_id,
        leaked_email: c.author_email,
        leaked_name: c.author_name,
        repository_name: repo,
    }
}

/// The leak records for a sequence of commits: one per mismatching commit,
/// in commit order; matching commits contribute nothing.
pub open spec fn leaks_of(records: Seq<CommitRecordView>, e: IdentityView, repo: Seq<char>) -> Seq<
    LeakRecordView,
>
    decreases records.len(),
{
    if records.len() == 0 {
        Seq::<LeakRecordView>::empty()
    } else {
        let head = if commit_matches(records[0], e) {
            Seq::<LeakRecordView>::empty()
        } else {
            seq![leak_of(records[0], repo)]
        };
        head + leaks_of(records.drop_first(), e, repo)
    }
}

/// Classifies every commit record and keeps a leak record for each
/// mismatch, preserving commit order.
pub fn classify_commits(records: &Vec<CommitRecord>, expected: &ExpectedIdentity, repo_name: &str) -> (r:
    Vec<LeakRecord>)
    ensures
        leaks_view(r@) == leaks_of(records_view(records@), expected@, repo_name@),
{
    let ghost all = records_view(records@);
    let mut out: Vec<LeakRecord> = Vec::new();
    let mut i: usize = 0;
    proof {
        assert(leaks_view(out@) =~~= Seq::<LeakRecordView>::empty());
        assert(all.skip(0) =~= all);
        assert(leaks_of(all, expected@, repo_name@) =~~= leaks_view(out@) + leaks_of(
            all.skip(0),
            expected@,
            repo_name@,
        ));
    }
    while i < records.len()
        invariant
            0 <= i <= records.len(),
            all == records_view(records@),
            leaks_of(all, expected@, repo_name@) == leaks_view(out@) + leaks_of(
                all.skip(i as int),
                expected@,
                repo_name@,
            ),
        decreases records.len() - i,
    {
        let record = &records[i];
        proof {
            assert(all.skip(i as int)[0] == record@);
            assert(all.skip(i as int).drop_first() =~= all.skip(i + 1));
        }
        if !identity_matches(record, expected) {
            let leak = LeakRecord {
                commit_id: record.commit_id.clone(),
                leaked_email: record.author_email.clone(),
                leaked_name: record.author_name.clone(),
                repository_name: String::from_str(repo_name),
            };
            proof {
                assert(leak@ == leak_of(all.skip(i as int)[0], repo_name@));
                assert(leaks_view(out@.push(leak)) =~~= leaks_view(out@) + seq![leak@]);
                assert(leaks_view(out@) + (seq![leak@] + leaks_of(
                    all.skip(i + 1),
                    expected@,
                    repo_name@,
                )) =~~= (leaks_view(out@) + seq![leak@]) + leaks_of(
                    all.skip(i + 1),
                    expected@,
                    repo_name@,
                ));
            }
            out.push(leak);
        }
        i += 1;
    }
    proof {
        assert(all.skip(records@.len() as int) =~= Seq::<CommitRecordView>::empty());
        assert(leaks_view(out@) + Seq::<LeakRecordView>::empty() =~~= leaks_view(out@));
    }
    out
}

/// Commits that match the expected identity never produce a leak record:
/// classifying any sequence of matching commits yields nothing.
pub proof fn lemma_matching_commits_yield_no_leaks(
    records: Seq<CommitRecordView>,
    e: IdentityView,
    repo: Seq<char>,
)
    requires
        forall|k: int| 0 <= k < records.len() ==> commit_matches(#[trigger] records[k], e),
    ensures
        leaks_of(records, e, repo) == Seq::<LeakRecordView>::empty(),
    decreases records.len(),
{
    if records.len() == 0 {
    } else {
        lemma_matching_commits_yield_no_leaks(records.drop_first(), e, repo);
        assert(leaks_of(records, e, repo) =~~= Seq::<LeakRecordView>::empty());
    }
}

/// Re-scanning after a complete rewrite finds nothing: once every commit
/// carries exactly the expected name and email, classification yields no
/// leak record for the repository.
pub proof fn lemma_rescan_after_rewrite_is_clean(
    records: Seq<CommitRecordView>,
    e: IdentityView,
    repo: Seq<char>,
)
    requires
        forall|k: int| 0 <= k < records.len() ==> (#[trigger] records[k]).author_email
            == e.commit_email && records[k].author_name == e.display_name,
    ensures
        leaks_of(records, e, repo) == Seq::<LeakRecordView>::empty(),
{
    assert forall|k: int| 0 <= k < records.len() implies commit_matches(
        #[trigger] records[k],
        e,
    ) by {
    }
    lemma_matching_commits_yield_no_leaks(records, e, repo);
}

} // verus!

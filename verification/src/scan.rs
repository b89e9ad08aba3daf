use vstd::prelude::*;

use crate::identity::{
    classify_commits, leaks_of, leaks_view, ExpectedIdentity, IdentityView, LeakRecord,
    LeakRecordView,
};
use crate::logparse::{parse_log, records_of_log};

verus! {

/// What the scan driver observed about one immediate subdirectory of the
/// scan root: its name, whether it carries a repository marker, whether
/// the history query succeeded, and the query's raw output.
pub struct RepoObservation {
    pub name: String,
    pub is_repository: bool,
    pub log_ok: bool,
    pub log_output: String,
}

/// Mathematical view of one observation.
pub struct ObservationView {
    pub name: Seq<char>,
    pub is_repository: bool,
    pub log_ok: bool,
    pub log_output: Seq<char>,
}

impl View for RepoObservation {
    type V = ObservationView;

    open spec fn view(&self) -> ObservationView {
        ObservationView {
            name: self.name@,
            is_repository: self.is_repository,
            log_ok: self.log_ok,
            log_output: self.log_output@,
        }
    }
}

pub open spec fn observations_view(v: Seq<RepoObservation>) -> Seq<ObservationView> {
    v.map_values(|o: RepoObservation| o@)
}

/// The leak records one repository's log output denotes.
pub open spec fn repo_leaks_of(log: Seq<char>, e: IdentityView, repo: Seq<char>) -> Seq<
    LeakRecordView,
> {
    leaks_of(records_of_log(log), e, repo)
}

/// What one observed subdirectory contributes to the scan: a directory
/// without a repository marker, or whose history query failed, contributes
/// nothing; a readable repository contributes the leaks of its log.
pub open spec fn observation_leaks(o: ObservationView, e: IdentityView) -> Seq<LeakRecordView> {
    if o.is_repository && o.log_ok {
        repo_leaks_of(o.log_output, e, o.name)
    } else {
        Seq::<LeakRecordView>::empty()
    }
}

/// The aggregated leak records of a whole scan, in observation order.
pub open spec fn scan_leaks(obs: Seq<ObservationView>, e: IdentityView) -> Seq<LeakRecordView>
    decreases obs.len(),
{
    if obs.len() == 0 {
        Seq::<LeakRecordView>::empty()
    } else {
        observation_leaks(obs[0], e) + scan_leaks(obs.drop_first(), e)
    }
}

/// Scans one repository's log output: parses its lines and classifies
/// every commit record against the expected identity.
pub fn scan_repository_log(output: &str, expected: &ExpectedIdentity, repo_name: &str) -> (r: Vec<
    LeakRecord,
>)
    ensures
        leaks_view(r@) == repo_leaks_of(output@, expected@, repo_name@),
{
    let records = parse_log(output);
    classify_commits(&records, expected, repo_name)
}

/// The Leak Scanner: aggregates, over every observed subdirectory of the
/// scan root, the leak records of each readable repository, in
/// enumeration order.
pub fn scan_observations(observations: &Vec<RepoObservation>, expected: &ExpectedIdentity) -> (r:
    Vec<LeakRecord>)
    ensures
        leaks_view(r@) == scan_leaks(observations_view(observations@), expected@),
{
    let ghost all = observations_view(observations@);
    let mut out: Vec<LeakRecord> = Vec::new();
    let mut i: usize = 0;
    proof {
        assert(leaks_view(out@) =~~= Seq::<LeakRecordView>::empty());
        assert(all.skip(0) =~= all);
        assert(scan_leaks(all, expected@) =~~= leaks_view(out@) + scan_leaks(
            all.skip(0),
            expected@,
        ));
    }
    while i < observations.len()
        invariant
            0 <= i <= observations.len(),
            all == observations_view(observations@),
            scan_leaks(all, expected@) == leaks_view(out@) + scan_leaks(
                all.skip(i as int),
                expected@,
            ),
        decreases observations.len() - i,
    {
        let observation = &observations[i];
        proof {
            assert(all.skip(i as int)[0] == observation@);
            assert(all.skip(i as int).drop_first() =~= all.skip(i + 1));
        }
        if observation.is_repository && observation.log_ok {
            let mut found = scan_repository_log(
                observation.log_output.as_str(),
                expected,
                observation.name.as_str(),
            );
            proof {
                assert(leaks_view(out@ + found@) =~~= leaks_view(out@) + leaks_view(found@));
                assert(leaks_view(out@) + (observation_leaks(observation@, expected@) + scan_leaks(
                    all.skip(i + 1),
                    expected@,
                )) =~~= (leaks_view(out@) + observation_leaks(observation@, expected@))
                    + scan_leaks(all.skip(i + 1), expected@));
            }
            out.append(&mut found);
        } else {
            proof {
                assert(observation_leaks(observation@, expected@)
                    =~~= Seq::<LeakRecordView>::empty());
                assert(leaks_view(out@) + (Seq::<LeakRecordView>::empty() + scan_leaks(
                    all.skip(i + 1),
                    expected@,
                )) =~~= leaks_view(out@) + scan_leaks(all.skip(i + 1), expected@));
            }
        }
        i += 1;
    }
    proof {
        assert(all.skip(observations@.len() as int) =~= Seq::<ObservationView>::empty());
        assert(leaks_view(out@) + Seq::<LeakRecordView>::empty() =~~= leaks_view(out@));
    }
    out
}

/// A subdirectory without a repository marker contributes no leak record
/// to the scan, whatever its name or its log output hold.
pub proof fn lemma_non_repository_contributes_nothing(o: ObservationView, e: IdentityView)
    requires
        !o.is_repository,
    ensures
        observation_leaks(o, e) == Seq::<LeakRecordView>::empty(),
{
}

} // verus!

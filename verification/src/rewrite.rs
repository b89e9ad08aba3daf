use vstd::prelude::*;
use vstd::string::*;

use crate::identity::{leaks_view, ExpectedIdentity, IdentityView, LeakRecord, LeakRecordView};

verus! {

/// One identity-replacement rule of a rewrite program: for the commit with
/// this id, set both author and committer to the replacement identity.
pub struct RewriteRule {
    pub commit_id: String,
    pub replacement_name: String,
    pub replacement_email: String,
}

/// Mathematical view of a rewrite rule.
pub struct RewriteRuleView {
    pub commit_id: Seq<char>,
    pub replacement_name: Seq<char>,
    pub replacement_email: Seq<char>,
}

impl View for RewriteRule {
    type V = RewriteRuleView;

    open spec fn view(&self) -> RewriteRuleView {
        RewriteRuleView {
            commit_id: self.commit_id@,
            replacement_name: self.replacement_name@,
            replacement_email: self.replacement_email@,
        }
    }
}

pub open spec fn rules_view(v: Seq<RewriteRule>) -> Seq<RewriteRuleView> {
    v.map_values(|r: RewriteRule| r@)
}

/// The rule a leaked commit id is mapped to: replace both author and
/// committer identity with the expected one.
pub open spec fn rule_for(id: Seq<char>, e: IdentityView) -> RewriteRuleView {
    RewriteRuleView {
        commit_id: id,
        replacement_name: e.display_name,
        replacement_email: e.commit_email,
    }
}

/// Some leak record of this repository names this commit id.
pub open spec fn leak_set_has(leaks: Seq<LeakRecordView>, repo: Seq<char>, id: Seq<char>) -> bool {
    exists|k: int| 0 <= k < leaks.len() && (#[trigger] leaks[k]).repository_name == repo
        && leaks[k].commit_id == id
}

/// Some rule of the program names this commit id.
pub open spec fn rules_have_id(rules: Seq<RewriteRuleView>, id: Seq<char>) -> bool {
    exists|k: int| 0 <= k < rules.len() && (#[trigger] rules[k]).commit_id == id
}

/// The rewrite program for one repository: the repository's leaks in
/// order, each mapped to its rule, with a duplicated commit id kept only
/// at its last occurrence (the last duplicate wins).
pub open spec fn build_spec(leaks: Seq<LeakRecordView>, repo: Seq<char>, e: IdentityView) -> Seq<
    RewriteRuleView,
>
    decreases leaks.len(),
{
    if leaks.len() == 0 {
        Seq::<RewriteRuleView>::empty()
    } else {
        let rest = build_spec(leaks.drop_first(), repo, e);
        if leaks[0].repository_name == repo && !leak_set_has(
            leaks.drop_first(),
            repo,
            leaks[0].commit_id,
        ) {
            seq![rule_for(leaks[0].commit_id, e)] + rest
        } else {
            rest
        }
    }
}

/// Whether a later leak record (from `from` on) of this repository names
/// the same commit id.
fn repeats_later(leaks: &Vec<LeakRecord>, from: usize, repo_name: &str, id: &String) -> (r: bool)
    requires
        from <= leaks@.len(),
    ensures
        r == leak_set_has(leaks_view(leaks@).skip(from as int), repo_name@, id@),
{
    let ghost tail = leaks_view(leaks@).skip(from as int);
    let repo_owned = String::from_str(repo_name);
    let mut j: usize = from;
    while j < leaks.len()
        invariant
            from <= j <= leaks@.len(),
            repo_owned@ == repo_name@,
            tail == leaks_view(leaks@).skip(from as int),
            forall|k: int| 0 <= k < j - from ==> !((#[trigger] tail[k]).repository_name == repo_name@
                && tail[k].commit_id == id@),
        decreases leaks@.len() - j,
    {
        let candidate = &leaks[j];
        proof {
            assert(tail[j - from] == candidate@);
        }
        let same_repo = candidate.repository_name.eq(&repo_owned);
        let same_id = candidate.commit_id.eq(id);
        if same_repo && same_id {
            proof {
                assert(0 <= j - from < tail.len() && tail[j - from].repository_name == repo_name@
                    && tail[j - from].commit_id == id@);
            }
            return true;
        }
        proof {
            assert(!(tail[j - from].repository_name == repo_name@ && tail[j - from].commit_id
                == id@));
        }
        j += 1;
    }
    false
}

/// The Rewrite Program Builder: keeps this repository's leaks, maps each
/// to a rule that installs the expected identity, and emits one rule per
/// distinct leaked commit id (the last duplicate wins). Building never
/// fails; no leaks for the repository yield an empty program, which the
/// caller treats as nothing to rewrite.
pub fn build_rewrite_program(
    leaks: &Vec<LeakRecord>,
    repo_name: &str,
    expected: &ExpectedIdentity,
) -> (r: Vec<RewriteRule>)
    ensures
        rules_view(r@) == build_spec(
            leaks_view(leaks@),
            repo_name@,
            expected@,
        ),
{
    let ghost all = leaks_view(leaks@);
    let repo_owned = String::from_str(repo_name);
    let mut out: Vec<RewriteRule> = Vec::new();
    let mut i: usize = 0;
    proof {
        assert(rules_view(out@) =~~= Seq::<RewriteRuleView>::empty());
        assert(all.skip(0) =~= all);
        assert(build_spec(all, repo_name@, expected@) =~~= rules_view(out@) + build_spec(
            all.skip(0),
            repo_name@,
            expected@,
        ));
    }
    while i < leaks.len()
        invariant
            0 <= i <= leaks@.len(),
            repo_owned@ == repo_name@,
            all == leaks_view(leaks@),
            build_spec(all, repo_name@, expected@) == rules_view(out@) + build_spec(
                all.skip(i as int),
                repo_name@,
                expected@,
            ),
        decreases leaks@.len() - i,
    {
        let leak = &leaks[i];
        proof {
            assert(all.skip(i as int)[0] == leak@);
            assert(all.skip(i as int).drop_first() =~= all.skip(i + 1));
        }
        if leak.repository_name.eq(&repo_owned) && !repeats_later(
            leaks,
            i + 1,
            repo_name,
            &leak.commit_id,
        ) {
            let rule = RewriteRule {
                commit_id: leak.commit_id.clone(),
                replacement_name: expected.display_name.clone(),
                replacement_email: expected.commit_email.clone(),
            };
            proof {
                assert(rule@ == rule_for(all.skip(i as int)[0].commit_id, expected@));
                assert(rules_view(out@.push(rule)) =~~= rules_view(out@) + seq![rule@]);
                assert(rules_view(out@) + (seq![rule@] + build_spec(
                    all.skip(i + 1),
                    repo_name@,
                    expected@,
                )) =~~= (rules_view(out@) + seq![rule@]) + build_spec(
                    all.skip(i + 1),
                    repo_name@,
                    expected@,
                ));
            }
            out.push(rule);
        }
        i += 1;
    }
    proof {
        assert(all.skip(leaks@.len() as int) =~= Seq::<LeakRecordView>::empty());
        assert(rules_view(out@) + Seq::<RewriteRuleView>::empty() =~~= rules_view(out@));
    }
    out
}

/// The law of the Rewrite Program Builder: every rule names a commit id
/// leaked in this repository; no two rules name the same commit id; every
/// commit id leaked in this repository gets a rule; and every rule
/// installs exactly the expected identity.
pub proof fn lemma_build_program_sound_and_complete(
    leaks: Seq<LeakRecordView>,
    repo: Seq<char>,
    e: IdentityView,
)
    ensures
        forall|k: int| 0 <= k < build_spec(leaks, repo, e).len() ==> leak_set_has(
            leaks,
            repo,
            (#[trigger] build_spec(leaks, repo, e)[k]).commit_id,
        ),
        forall|j: int, k: int|
            0 <= j < k < build_spec(leaks, repo, e).len() ==> (#[trigger] build_spec(
                leaks,
                repo,
                e,
            )[j]).commit_id != (#[trigger] build_spec(leaks, repo, e)[k]).commit_id,
        forall|id: Seq<char>| leak_set_has(leaks, repo, id) ==> #[trigger] rules_have_id(
            build_spec(leaks, repo, e),
            id,
        ),
        forall|k: int| 0 <= k < build_spec(leaks, repo, e).len() ==> (#[trigger] build_spec(
            leaks,
            repo,
            e,
        )[k]).replacement_name == e.display_name && build_spec(leaks, repo, e)[k].replacement_email
            == e.commit_email,
    decreases leaks.len(),
{
    if leaks.len() == 0 {
    } else {
        let tail = leaks.drop_first();
        let rest = build_spec(tail, repo, e);
        let prog = build_spec(leaks, repo, e);
        lemma_build_program_sound_and_complete(tail, repo, e);
        assert forall|id: Seq<char>| leak_set_has(tail, repo, id) implies leak_set_has(
            leaks,
            repo,
            id,
        ) by {
            let k = choose|k: int| 0 <= k < tail.len() && (#[trigger] tail[k]).repository_name
                == repo && tail[k].commit_id == id;
            assert(leaks[k + 1].repository_name == repo && leaks[k + 1].commit_id == id);
        }
        if leaks[0].repository_name == repo && !leak_set_has(tail, repo, leaks[0].commit_id) {
            assert(prog == seq![rule_for(leaks[0].commit_id, e)] + rest);
            assert(leaks[0].repository_name == repo && leaks[0].commit_id == leaks[0].commit_id);
            assert(leak_set_has(leaks, repo, leaks[0].commit_id));
            assert forall|j: int, k: int| 0 <= j < k < prog.len() implies (
            #[trigger] prog[j]).commit_id != (#[trigger] prog[k]).commit_id by {
                if j == 0 {
                    assert(prog[k] == rest[k - 1]);
                    assert(leak_set_has(tail, repo, rest[k - 1].commit_id));
                } else {
                    assert(prog[j] == rest[j - 1] && prog[k] == rest[k - 1]);
                }
            }
            assert forall|id: Seq<char>| leak_set_has(leaks, repo, id) implies
                #[trigger] rules_have_id(prog, id) by {
                let k = choose|k: int| 0 <= k < leaks.len() && (
                #[trigger] leaks[k]).repository_name == repo && leaks[k].commit_id == id;
                if k == 0 {
                    assert(prog[0].commit_id == id);
                } else {
                    assert(tail[k - 1].repository_name == repo && tail[k - 1].commit_id == id);
                    assert(leak_set_has(tail, repo, id));
                    assert(rules_have_id(rest, id));
                    let m = choose|m: int| 0 <= m < rest.len() && (#[trigger] rest[m]).commit_id
                        == id;
                    assert(prog[m + 1].commit_id == id);
                }
            }
        } else {
            assert(prog == rest);
            assert forall|id: Seq<char>| leak_set_has(leaks, repo, id) implies
                #[trigger] rules_have_id(prog, id) by {
                let k = choose|k: int| 0 <= k < leaks.len() && (
                #[trigger] leaks[k]).repository_name == repo && leaks[k].commit_id == id;
                if k == 0 {
                    assert(leak_set_has(tail, repo, leaks[0].commit_id));
                    assert(rules_have_id(rest, id));
                } else {
                    assert(tail[k - 1].repository_name == repo && tail[k - 1].commit_id == id);
                    assert(leak_set_has(tail, repo, id));
                }
            }
        }
    }
}

} // verus!

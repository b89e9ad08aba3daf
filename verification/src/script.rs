use vstd::prelude::*;
use vstd::string::*;

use crate::rewrite::{rules_view, RewriteRule, RewriteRuleView};

verus! {

/// A field may be spliced into the rewrite script only if it cannot break
/// out of the byte-string literal that will hold it: no quote, no
/// backslash, no line break.
pub open spec fn text_is_script_safe(s: Seq<char>) -> bool {
    forall|k: int| 0 <= k < s.len() ==> #[trigger] s[k] != '"' && s[k] != '\\' && s[k] != '\n'
        && s[k] != '\r'
}

/// A rule is rendered only when all three of its fields are safe.
pub open spec fn rule_is_script_safe(r: RewriteRuleView) -> bool {
    text_is_script_safe(r.commit_id) && text_is_script_safe(r.replacement_name)
        && text_is_script_safe(r.replacement_email)
}

/// The script text of one rule: a guarded block that rewrites both the
/// author and the committer identity of the commit it names.
pub open spec fn rule_text(r: RewriteRuleView) -> Seq<char> {
    ("if commit.original_id == b\"")@ + r.commit_id + ("\":\n    commit.author_name = b\"")@
        + r.replacement_name + ("\"\n    commit.author_email = b\"")@ + r.replacement_email + (
    "\"\n    commit.committer_name = b\"")@ + r.replacement_name + (
    "\"\n    commit.committer_email = b\"")@ + r.replacement_email + ("\"\n")@
}

/// The script text of a whole program: its rules' texts in order.
pub open spec fn program_text(rules: Seq<RewriteRuleView>) -> Seq<char>
    decreases rules.len(),
{
    if rules.len() == 0 {
        Seq::<char>::empty()
    } else {
        rule_text(rules[0]) + program_text(rules.drop_first())
    }
}

/// Whether every character of a string is safe to splice into the script.
fn str_is_script_safe(s: &str) -> (r: bool)
    ensures
        r == text_is_script_safe(s@),
{
    let n: usize = s.unicode_len();
    let mut i: usize = 0;
    while i < n
        invariant
            0 <= i <= n,
            n == s@.len(),
            forall|k: int| 0 <= k < i ==> #[trigger] s@[k] != '"' && s@[k] != '\\' && s@[k] != '\n'
                && s@[k] != '\r',
        decreases n - i,
    {
        let c = s.get_char(i);
        if c == '"' || c == '\\' || c == '\n' || c == '\r' {
            return false;
        }
        i += 1;
    }
    true
}

/// Appends one rule's script text.
fn render_rule_into(out: &mut String, rule: &RewriteRule)
    ensures
        final(out)@ == old(out)@ + rule_text(rule@),
{
    let ghost initial = out@;
    out.append("if commit.original_id == b\"");
    out.append(rule.commit_id.as_str());
    out.append("\":\n    commit.author_name = b\"");
    out.append(rule.replacement_name.as_str());
    out.append("\"\n    commit.author_email = b\"");
    out.append(rule.replacement_email.as_str());
    out.append("\"\n    commit.committer_name = b\"");
    out.append(rule.replacement_name.as_str());
    out.append("\"\n    commit.committer_email = b\"");
    out.append(rule.replacement_email.as_str());
    out.append("\"\n");
    proof {
        assert(out@ =~= initial + rule_text(rule@));
    }
}

/// Serializes a rewrite program to the script the external history-rewrite
/// tool executes. Rejects, rather than escapes, any program with a field
/// that could break the script's syntax: such a program yields nothing.
pub fn render_rewrite_program(rules: &Vec<RewriteRule>) -> (r: Option<String>)
    ensures
        r is Some <==> (forall|k: int| 0 <= k < rules@.len() ==> rule_is_script_safe(
            #[trigger] rules@[k]@,
        )),
        r is Some ==> r->Some_0@ == program_text(rules_view(rules@)),
{
    let mut i: usize = 0;
    while i < rules.len()
        invariant
            0 <= i <= rules@.len(),
            forall|k: int| 0 <= k < i ==> rule_is_script_safe(#[trigger] rules@[k]@),
        decreases rules@.len() - i,
    {
        let rule = &rules[i];
        let safe = str_is_script_safe(rule.commit_id.as_str()) && str_is_script_safe(
            rule.replacement_name.as_str(),
        ) && str_is_script_safe(rule.replacement_email.as_str());
        if !safe {
            proof {
                assert(!rule_is_script_safe(rules@[i as int]@));
            }
            return None;
        }
        i += 1;
    }
    let ghost all = rules_view(rules@);
    let mut out = String::new();
    let mut j: usize = 0;
    proof {
        assert(all.skip(0) =~= all);
        assert(out@ + program_text(all.skip(0)) =~= program_text(all));
    }
    while j < rules.len()
        invariant
            0 <= j <= rules@.len(),
            all == rules_view(rules@),
            out@ + program_text(all.skip(j as int)) == program_text(all),
        decreases rules@.len() - j,
    {
        proof {
            assert(all.skip(j as int)[0] == rules@[j as int]@);
            assert(all.skip(j as int).drop_first() =~= all.skip(j + 1));
        }
        render_rule_into(&mut out, &rules[j]);
        proof {
            assert(out@ + program_text(all.skip(j + 1)) =~= program_text(all));
        }
        j += 1;
    }
    proof {
        assert(all.skip(rules@.len() as int) =~= Seq::<RewriteRuleView>::empty());
        assert(out@ =~= program_text(all));
    }
    Some(out)
}

} // verus!

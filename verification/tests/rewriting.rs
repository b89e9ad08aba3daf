use gitguard::identity::{ExpectedIdentity, LeakRecord};
use gitguard::rewrite::{build_rewrite_program, RewriteRule};
use gitguard::script::render_rewrite_program;

fn expected() -> ExpectedIdentity {
    ExpectedIdentity {
        display_name: "alice".to_string(),
        commit_email: "alice@example.com".to_string(),
    }
}

fn leak(id: &str, repo: &str) -> LeakRecord {
    LeakRecord {
        commit_id: id.to_string(),
        leaked_email: "bob@evil.com".to_string(),
        leaked_name: "bob".to_string(),
        repository_name: repo.to_string(),
    }
}

#[test]
fn builder_keeps_only_this_repository() {
    let leaks = vec![leak("c1", "project"), leak("c2", "other")];
    let program = build_rewrite_program(&leaks, "project", &expected());
    assert_eq!(program.len(), 1);
    assert_eq!(program[0].commit_id, "c1");
}

#[test]
fn builder_emits_one_rule_per_distinct_commit() {
    let leaks = vec![leak("c1", "project"), leak("c1", "project"), leak("c2", "project")];
    let program = build_rewrite_program(&leaks, "project", &expected());
    assert_eq!(program.len(), 2);
    assert_eq!(program[0].commit_id, "c1");
    assert_eq!(program[1].commit_id, "c2");
}

#[test]
fn builder_installs_the_expected_identity() {
    let leaks = vec![leak("c1", "project")];
    let program = build_rewrite_program(&leaks, "project", &expected());
    assert_eq!(program[0].replacement_name, "alice");
    assert_eq!(program[0].replacement_email, "alice@example.com");
}

#[test]
fn empty_leak_set_builds_empty_program() {
    let leaks: Vec<LeakRecord> = Vec::new();
    let program = build_rewrite_program(&leaks, "project", &expected());
    assert!(program.is_empty());
}

#[test]
fn renderer_writes_one_block_per_rule() {
    let program = vec![RewriteRule {
        commit_id: "abc123".to_string(),
        replacement_name: "alice".to_string(),
        replacement_email: "alice@example.com".to_string(),
    }];
    let script = render_rewrite_program(&program).unwrap();
    let wanted = "if commit.original_id == b\"abc123\":\n    commit.author_name = b\"alice\"\n    commit.author_email = b\"alice@example.com\"\n    commit.committer_name = b\"alice\"\n    commit.committer_email = b\"alice@example.com\"\n";
    assert_eq!(script, wanted);
}

#[test]
fn renderer_rejects_a_quote_in_a_field() {
    let program = vec![RewriteRule {
        commit_id: "abc\"123".to_string(),
        replacement_name: "alice".to_string(),
        replacement_email: "alice@example.com".to_string(),
    }];
    assert!(render_rewrite_program(&program).is_none());
}

#[test]
fn renderer_rejects_a_line_break_in_a_field() {
    let program = vec![RewriteRule {
        commit_id: "abc123".to_string(),
        replacement_name: "al\nice".to_string(),
        replacement_email: "alice@example.com".to_string(),
    }];
    assert!(render_rewrite_program(&program).is_none());
}

#[test]
fn renderer_rejects_a_backslash_in_a_field() {
    let program = vec![RewriteRule {
        commit_id: "abc123".to_string(),
        replacement_name: "alice".to_string(),
        replacement_email: "alice\\@example.com".to_string(),
    }];
    assert!(render_rewrite_program(&program).is_none());
}

#[test]
fn empty_program_renders_to_empty_script() {
    let program: Vec<RewriteRule> = Vec::new();
    assert_eq!(render_rewrite_program(&program).unwrap(), "");
}

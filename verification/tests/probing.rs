use gitguard::probe::ssh_probe_ok;

#[test]
fn successful_exit_is_enough() {
    assert!(ssh_probe_ok(true, ""));
}

#[test]
fn greeting_on_failing_exit_still_counts() {
    let stdout_text = "Hi alice! You've successfully authenticated, but this service \
                       does not provide shell access.";
    assert!(ssh_probe_ok(false, stdout_text));
}

#[test]
fn failing_exit_without_greeting_fails() {
    assert!(!ssh_probe_ok(false, "Permission denied (publickey)."));
}

#[test]
fn greeting_token_needs_its_trailing_space() {
    assert!(!ssh_probe_ok(false, "Hithere, stranger"));
}

#[test]
fn empty_output_on_failing_exit_fails() {
    assert!(!ssh_probe_ok(false, ""));
}

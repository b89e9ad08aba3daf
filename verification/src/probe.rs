use vstd::prelude::*;

use crate::text::{str_contains_text, text_contains};

verus! {

/// The greeting token the SSH endpoint prints on an authenticated probe
/// even when it refuses an interactive shell.
pub open spec fn greeting_text() -> Seq<char> {
    ("Hi ")@
}

/// The SSH reachability gate: the probe counts as successful when the
/// probe process exited successfully, or when its standard output carries
/// the greeting token despite a failing exit code.
pub fn ssh_probe_ok(exit_success: bool, stdout_text: &str) -> (r: bool)
    ensures
        r == (exit_success || text_contains(stdout_text@, greeting_text())),
{
    if exit_success {
        true
    } else {
        str_contains_text(stdout_text, "Hi ")
    }
}

} // verus!

use bee_agent::shell::{shell_invocation, Platform, ShellOutcome};

fn exited(success: bool, stdout: &[u8], stderr: &[u8]) -> ShellOutcome {
    ShellOutcome::Exited { success, stdout: stdout.to_vec(), stderr: stderr.to_vec() }
}

#[test]
fn shell_invocation_uses_sh_outside_windows() {
    let invocation = shell_invocation(Platform::Other, "ls -l | wc");
    assert_eq!(invocation.program, "sh");
    assert_eq!(invocation.arguments, vec!["-c", "ls -l | wc"]);
}

#[test]
fn shell_invocation_uses_cmd_on_windows() {
    let invocation = shell_invocation(Platform::Windows, "dir /b");
    assert_eq!(invocation.program, "cmd");
    assert_eq!(invocation.arguments, vec!["/c", "dir /b"]);
}

#[test]
fn shell_invocation_passes_an_empty_command_line_on() {
    let invocation = shell_invocation(Platform::Other, "");
    assert_eq!(invocation.arguments, vec!["-c", ""]);
}

#[test]
fn output_of_a_success_is_standard_output() {
    assert_eq!(exited(true, b"out\n", b"err\n").output(), Ok("out\n".to_string()));
}

#[test]
fn output_of_a_failure_is_standard_error() {
    assert_eq!(exited(false, b"out\n", b"err\n").output(), Err("err\n".to_string()));
}

#[test]
fn output_of_a_shell_that_never_started_is_the_reason() {
    let outcome = ShellOutcome::NotStarted { reason: "No such file or directory".to_string() };
    assert_eq!(outcome.output(), Err("No such file or directory".to_string()));
}

#[test]
fn output_replaces_bytes_that_are_not_utf8() {
    assert_eq!(exited(true, b"a\xffb", b"").output(), Ok("a\u{fffd}b".to_string()));
    assert_eq!(exited(false, b"", b"\xfe").output(), Err("\u{fffd}".to_string()));
}

#[test]
fn lines_of_a_success_are_the_lines_of_standard_output() {
    assert_eq!(exited(true, b"one\ntwo\n", b"ignored").lines(), vec!["one", "two", ""]);
}

#[test]
fn lines_of_a_failure_are_the_lines_of_standard_error() {
    assert_eq!(
        exited(false, b"ignored", b"sh: 1: nope: not found\n").lines(),
        vec!["sh: 1: nope: not found", ""]
    );
}

#[test]
fn lines_of_a_silent_command_are_one_empty_line() {
    assert_eq!(exited(true, b"", b"").lines(), vec![""]);
    assert_eq!(exited(false, b"", b"").lines(), vec![""]);
}

#[test]
fn lines_of_a_shell_that_never_started_are_the_lines_of_the_reason() {
    let outcome = ShellOutcome::NotStarted { reason: "cannot\nstart".to_string() };
    assert_eq!(outcome.lines(), vec!["cannot", "start"]);
}

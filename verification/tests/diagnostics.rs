use std::collections::HashMap;

use helm_wrapper_rs::blocking::DefaultHelmExecutor;
use helm_wrapper_rs::outcome::ProcessOutput;
use non_blank_string_rs::NonBlankString;

fn nb(text: &str) -> NonBlankString {
    text.parse().unwrap()
}

fn executor(unsafe_mode: bool) -> DefaultHelmExecutor {
    DefaultHelmExecutor::new_with_opts(&nb("helm"), None, 15, false, unsafe_mode)
}

fn secrets() -> HashMap<NonBlankString, String> {
    let mut overrides = HashMap::new();
    overrides.insert(nb("db.password"), "hunter2".to_string());
    overrides.insert(nb("api.token"), "s3cr3t".to_string());
    overrides
}

fn output(success: bool, stdout: &[u8]) -> ProcessOutput {
    ProcessOutput { success, stdout: stdout.to_vec(), stderr: b"oops".to_vec() }
}

#[test]
fn safe_mode_logs_a_notice_in_place_of_the_overrides() {
    let lines = executor(false).override_log_lines(Some(&secrets()));
    assert_eq!(lines, ["overriden chart values won't be mentioned in log because of safe mode"]);
}

#[test]
fn unsafe_mode_logs_each_override() {
    let mut lines = executor(true).override_log_lines(Some(&secrets()));
    lines.sort();
    assert_eq!(lines, ["- value override 'api.token': 's3cr3t'", "- value override 'db.password': 'hunter2'"]);
}

#[test]
fn no_overrides_no_lines() {
    assert!(executor(false).override_log_lines(None).is_empty());
    assert!(executor(true).override_log_lines(None).is_empty());
    assert!(executor(true).override_log_lines(Some(&HashMap::new())).is_empty());
}

#[test]
fn arguments_are_logged_in_unsafe_mode_only() {
    let args = vec!["ls".to_string(), "-n".to_string(), "whoami".to_string()];
    assert!(executor(false).argument_log_lines(&args).is_empty());
    assert_eq!(executor(true).argument_log_lines(&args), ["command args: 'ls -n whoami'"]);
    assert!(executor(true).argument_log_lines(&Vec::new()).is_empty());
}

#[test]
fn output_is_logged_in_unsafe_mode_only() {
    assert!(executor(false).output_log_lines(&output(true, b"[]")).is_empty());
    assert_eq!(executor(true).output_log_lines(&output(true, b"[]")), ["<stdout>", "[]", "</stdout>"]);
    assert_eq!(executor(true).output_log_lines(&output(true, b"")), ["<stdout>", "", "</stdout>"]);
}

#[test]
fn output_of_a_failed_run_or_not_utf8_is_not_logged() {
    assert!(executor(true).output_log_lines(&output(false, b"[]")).is_empty());
    assert!(executor(true).output_log_lines(&output(true, &[0xff])).is_empty());
}

#[test]
fn overrides_are_logged_in_the_order_given() {
    let pairs = vec![("b".to_string(), "2".to_string()), ("a".to_string(), "1".to_string())];
    assert_eq!(
        executor(true).override_log_lines_from_pairs(Some(&pairs)),
        ["- value override 'b': '2'", "- value override 'a': '1'"]
    );
    assert_eq!(
        executor(false).override_log_lines_from_pairs(Some(&pairs)),
        ["overriden chart values won't be mentioned in log because of safe mode"]
    );
    assert!(executor(true).override_log_lines_from_pairs(None).is_empty());
}

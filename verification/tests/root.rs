use std::collections::HashMap;
use std::path::Path;

use helm_wrapper_rs::error::HelmWrapperError;
use helm_wrapper_rs::outcome::{install_or_upgrade_result, list_result, uninstall_result, ProcessOutput};
use helm_wrapper_rs::{DefaultHelmExecutor, HelmUpgradeStatus};
use non_blank_string_rs::NonBlankString;

fn get_test_namespace() -> NonBlankString {
    "whoami".parse().unwrap()
}

fn get_test_release_name() -> NonBlankString {
    "whoami".parse().unwrap()
}

fn get_test_chart_name() -> NonBlankString {
    "cowboysysop/whoami".parse().unwrap()
}

fn get_test_helm_options() -> Vec<NonBlankString> {
    vec!["--create-namespace".parse().unwrap()]
}

fn ran(success: bool, stdout: &str, stderr: &str) -> Result<ProcessOutput, std::io::Error> {
    Ok(ProcessOutput { success, stdout: stdout.as_bytes().to_vec(), stderr: stderr.as_bytes().to_vec() })
}

fn holds(args: &[String], flag: &str, value: &str) -> bool {
    args.windows(2).any(|pair| pair[0] == flag && pair[1] == value)
}

const REFUSED: &str = "Error: failed to parse test-data/whoami-invalid-syntax.yml: error converting YAML to JSON: yaml: line 2: mapping values are not allowed in this context\n";

const INSTALLED: &str = r#"{"name":"whoami","info":{"first_deployed":"2024-05-01T10:11:12Z","last_deployed":"2024-05-01T10:11:12Z","deleted":"","description":"Install complete","status":"deployed"},"version":1,"namespace":"whoami"}"#;

const LISTED: &str = r#"[{"name":"whoami","namespace":"whoami","revision":"1","updated":"2024-05-01 10:11:12.1 +0000 UTC","status":"deployed","chart":"whoami-5.2.0","app_version":"1.10.3"}]"#;

#[test]
fn lib_install_or_upgrade_helm_chart_with_invalid_syntax_values() {
    let executor = DefaultHelmExecutor::new_with_opts(&"helm".parse().unwrap(), None, 15, true, true);

    let helm_options: Vec<NonBlankString> = get_test_helm_options();

    let namespace: NonBlankString = get_test_namespace();
    let release_name: NonBlankString = get_test_release_name();
    let chart_name: NonBlankString = get_test_chart_name();

    let values_file = Path::new("test-data").join("whoami-invalid-syntax.yml");

    let args = executor.install_or_upgrade_args(
        &namespace,
        &release_name,
        &chart_name,
        None,
        None,
        Some(&values_file),
        Some(&helm_options),
    );
    assert!(holds(&args, "-f", "test-data/whoami-invalid-syntax.yml"));

    assert!(matches!(
        install_or_upgrade_result(ran(false, INSTALLED, REFUSED)),
        Err(HelmWrapperError::Error)
    ));
}

#[test]
fn lib_install_or_upgrade_helm_chart() {
    let executor = DefaultHelmExecutor::new_with_opts(&"helm".parse().unwrap(), None, 15, true, true);

    let helm_options: Vec<NonBlankString> = get_test_helm_options();

    let namespace: NonBlankString = get_test_namespace();
    let release_name: NonBlankString = get_test_release_name();
    let chart_name: NonBlankString = get_test_chart_name();

    let mut values_overrides: HashMap<NonBlankString, String> = HashMap::new();

    values_overrides.insert("startupProbe.enabled".parse().unwrap(), "false".parse().unwrap());
    values_overrides.insert("replicaCount".parse().unwrap(), "2".parse().unwrap());

    let values_file = Path::new("test-data").join("whoami-values.yml");

    let args = executor.install_or_upgrade_args(
        &namespace,
        &release_name,
        &chart_name,
        Some(&"5.2.0".parse().unwrap()),
        Some(&values_overrides),
        Some(&values_file),
        Some(&helm_options),
    );
    assert!(holds(&args, "--version", "5.2.0"));
    assert_eq!(args.iter().filter(|a| *a == "--set").count(), 2);

    let result = install_or_upgrade_result(ran(true, INSTALLED, "")).unwrap();

    assert_eq!(HelmUpgradeStatus::Deployed, result);

    let releases = list_result(ran(true, LISTED, "")).unwrap();

    assert!(!releases.is_empty());

    assert!(uninstall_result(ran(true, "", "")).is_ok());

    let releases = list_result(ran(true, "[]", "")).unwrap();

    assert!(releases.is_empty());
}

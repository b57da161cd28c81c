use std::collections::HashMap;
use std::path::{Path, PathBuf};

use helm_wrapper_rs::blocking::DefaultHelmExecutor;
use non_blank_string_rs::NonBlankString;

fn nb(text: &str) -> NonBlankString {
    text.parse().unwrap()
}

fn words(list: &[&str]) -> Vec<String> {
    list.iter().map(|w| w.to_string()).collect()
}

fn position(args: &[String], word: &str) -> Option<usize> {
    args.iter().position(|a| a == word)
}

#[test]
fn new_has_documented_defaults() {
    let executor = DefaultHelmExecutor::new();
    assert_eq!(executor.get_helm_path(), "helm");
    assert_eq!(executor.get_kubeconfig_path(), &None);
    assert_eq!(executor.get_timeout(), 15);
    assert!(!executor.get_debug());
    assert!(!executor.get_unsafe_mode());
}

#[test]
fn new_with_opts_keeps_every_option() {
    let executor = DefaultHelmExecutor::new_with_opts(
        &nb("/usr/local/bin/helm"),
        Some("/home/me/.kube/config".to_string()),
        42,
        true,
        true,
    );
    assert_eq!(executor.get_helm_path(), "/usr/local/bin/helm");
    assert_eq!(executor.get_kubeconfig_path(), &Some("/home/me/.kube/config".to_string()));
    assert_eq!(executor.get_timeout(), 42);
    assert!(executor.get_debug());
    assert!(executor.get_unsafe_mode());
}

#[test]
fn clone_keeps_every_option() {
    let executor = DefaultHelmExecutor::new_with_opts(&nb("h"), Some("k".to_string()), 7, true, false);
    let copy = executor.clone();
    assert_eq!(copy.get_helm_path(), "h");
    assert_eq!(copy.get_kubeconfig_path(), &Some("k".to_string()));
    assert_eq!(copy.get_timeout(), 7);
    assert!(copy.get_debug());
    assert!(!copy.get_unsafe_mode());
}

#[test]
fn list_without_anything_is_bare() {
    let executor = DefaultHelmExecutor::new();
    assert_eq!(executor.list_args(None), words(&["ls"]));
}

#[test]
fn list_with_namespace_asks_for_json() {
    let executor = DefaultHelmExecutor::new();
    assert_eq!(executor.list_args(Some(&nb("whoami"))), words(&["ls", "-n", "whoami", "-o", "json"]));
}

#[test]
fn list_with_everything_keeps_the_order() {
    let executor =
        DefaultHelmExecutor::new_with_opts(&nb("helm"), Some("/tmp/kube.yml".to_string()), 15, true, false);
    assert_eq!(
        executor.list_args(Some(&nb("whoami"))),
        words(&["ls", "--kubeconfig", "/tmp/kube.yml", "-n", "whoami", "-o", "json", "--debug"])
    );
}

#[test]
fn list_with_debug_only() {
    let executor = DefaultHelmExecutor::new_with_opts(&nb("helm"), None, 15, true, false);
    assert_eq!(executor.list_args(None), words(&["ls", "--debug"]));
}

#[test]
fn install_with_required_parameters_only() {
    let executor = DefaultHelmExecutor::new();
    let args = executor.install_or_upgrade_args(
        &nb("whoami"),
        &nb("whoami-release"),
        &nb("cowboysysop/whoami"),
        None,
        None,
        None,
        None,
    );
    assert_eq!(
        args,
        words(&[
            "upgrade",
            "--install",
            "-n",
            "whoami",
            "whoami-release",
            "cowboysysop/whoami",
            "-o",
            "json",
            "--timeout",
            "15s",
        ])
    );
}

#[test]
fn install_leaves_out_flags_of_omitted_parameters() {
    let executor = DefaultHelmExecutor::new();
    let args = executor.install_or_upgrade_args(&nb("ns"), &nb("rel"), &nb("chart"), None, None, None, None);
    for flag in ["--kubeconfig", "--version", "-f", "--set", "--debug"] {
        assert_eq!(position(&args, flag), None, "{flag}");
    }
    assert!(args.iter().all(|a| !a.is_empty()));
}

#[test]
fn install_with_everything_keeps_the_order() {
    let executor =
        DefaultHelmExecutor::new_with_opts(&nb("helm"), Some("kube.yml".to_string()), 300, true, false);
    let pairs = vec![
        ("startupProbe.enabled".to_string(), "false".to_string()),
        ("replicaCount".to_string(), "2".to_string()),
    ];
    let options = vec!["--create-namespace".to_string(), "--dry-run".to_string()];
    let args = executor.install_or_upgrade_args_from_text(
        "whoami",
        "whoami",
        "cowboysysop/whoami",
        Some("5.2.0"),
        Some(&pairs),
        Some("test-data/whoami-values.yml"),
        Some(&options),
    );
    assert_eq!(
        args,
        words(&[
            "upgrade",
            "--install",
            "-n",
            "whoami",
            "whoami",
            "cowboysysop/whoami",
            "--kubeconfig",
            "kube.yml",
            "--version",
            "5.2.0",
            "-f",
            "test-data/whoami-values.yml",
            "--set",
            "startupProbe.enabled=false",
            "--set",
            "replicaCount=2",
            "--create-namespace",
            "--dry-run",
            "--debug",
            "-o",
            "json",
            "--timeout",
            "300s",
        ])
    );
}

#[test]
fn install_writes_one_set_per_map_entry() {
    let executor = DefaultHelmExecutor::new();
    let mut overrides: HashMap<NonBlankString, String> = HashMap::new();
    overrides.insert(nb("startupProbe.enabled"), "false".to_string());
    overrides.insert(nb("replicaCount"), "2".to_string());
    overrides.insert(nb("image.tag"), "".to_string());
    let args = executor.install_or_upgrade_args(
        &nb("ns"),
        &nb("rel"),
        &nb("chart"),
        None,
        Some(&overrides),
        None,
        None,
    );
    assert_eq!(args.len(), 10 + 2 * overrides.len());
    assert_eq!(args.iter().filter(|a| *a == "--set").count(), 3);
    for (i, arg) in args.iter().enumerate() {
        if arg == "--set" {
            assert!((6..12).contains(&i) && i % 2 == 0);
        }
    }
    for expected in ["startupProbe.enabled=false", "replicaCount=2", "image.tag="] {
        let at = position(&args, expected).unwrap();
        assert_eq!(args[at - 1], "--set");
    }
    assert_eq!(args[..6], words(&["upgrade", "--install", "-n", "ns", "rel", "chart"])[..]);
    assert_eq!(args[12..], words(&["-o", "json", "--timeout", "15s"])[..]);
}

#[test]
fn install_with_empty_map_writes_no_set() {
    let executor = DefaultHelmExecutor::new();
    let overrides: HashMap<NonBlankString, String> = HashMap::new();
    let with = executor.install_or_upgrade_args(&nb("n"), &nb("r"), &nb("c"), None, Some(&overrides), None, None);
    let without = executor.install_or_upgrade_args(&nb("n"), &nb("r"), &nb("c"), None, None, None, None);
    assert_eq!(with, without);
}

#[test]
fn install_keeps_override_values_verbatim() {
    let executor = DefaultHelmExecutor::new();
    let pairs = vec![("a.b[0].c".to_string(), "{x,y}=\"q\"\\n$HOME'".to_string())];
    let args = executor.install_or_upgrade_args_from_text("n", "r", "c", None, Some(&pairs), None, None);
    assert_eq!(args[6], "--set");
    assert_eq!(args[7], "a.b[0].c={x,y}=\"q\"\\n$HOME'");
}

#[test]
fn install_splits_a_value_that_holds_a_space() {
    let executor = DefaultHelmExecutor::new();
    let pairs = vec![("greeting".to_string(), "hello world".to_string())];
    let args = executor.install_or_upgrade_args_from_text("n", "r", "c", None, Some(&pairs), None, None);
    assert_eq!(args[6..9], words(&["--set", "greeting=hello", "world"])[..]);
}

#[test]
fn install_with_three_spaces_in_a_value_yields_an_empty_argument() {
    let executor = DefaultHelmExecutor::new();
    let options = vec![nb("a   b")];
    let args =
        executor.install_or_upgrade_args(&nb("n"), &nb("r"), &nb("c"), None, None, None, Some(&options));
    assert_eq!(args[6..9], words(&["a", "", "b"])[..]);
}

#[test]
fn install_with_empty_kubeconfig_leaves_an_empty_argument() {
    let executor = DefaultHelmExecutor::new_with_opts(&nb("helm"), Some(String::new()), 15, false, false);
    let args = executor.install_or_upgrade_args(&nb("n"), &nb("r"), &nb("c"), None, None, None, None);
    assert_eq!(args[6..9], words(&["--kubeconfig", "", "-o"])[..]);
}

#[test]
fn install_shows_the_values_file_as_its_path_displays() {
    let executor = DefaultHelmExecutor::new();
    let file = PathBuf::from("/srv/charts/values.yml");
    let args =
        executor.install_or_upgrade_args(&nb("n"), &nb("r"), &nb("c"), None, None, Some(&file), None);
    assert_eq!(args[6..8], words(&["-f", "/srv/charts/values.yml"])[..]);
}

#[test]
fn timeout_is_written_in_decimal() {
    for (timeout, shown) in [(0u16, "0s"), (9, "9s"), (10, "10s"), (15, "15s"), (909, "909s"), (65535, "65535s")] {
        let executor = DefaultHelmExecutor::new_with_opts(&nb("helm"), None, timeout, false, false);
        let install = executor.install_or_upgrade_args(&nb("n"), &nb("r"), &nb("c"), None, None, None, None);
        assert_eq!(install.last().unwrap(), shown);
        let uninstall = executor.uninstall_args(&nb("n"), &nb("r"));
        assert_eq!(uninstall.last().unwrap(), &format!("--timeout={shown}"));
    }
}

#[test]
fn uninstall_with_required_parameters_only() {
    let executor = DefaultHelmExecutor::new();
    assert_eq!(
        executor.uninstall_args(&nb("whoami"), &nb("whoami-release")),
        words(&["uninstall", "-n", "whoami", "whoami-release", "--timeout=15s"])
    );
}

#[test]
fn uninstall_with_everything_has_no_empty_argument() {
    let executor =
        DefaultHelmExecutor::new_with_opts(&nb("helm"), Some("kube.yml".to_string()), 20, true, true);
    assert_eq!(
        executor.uninstall_args(&nb("whoami"), &nb("whoami")),
        words(&["uninstall", "-n", "whoami", "whoami", "--timeout=20s", "--kubeconfig", "kube.yml", "--debug"])
    );
}

#[test]
fn helm_path_is_never_among_the_arguments() {
    let executor = DefaultHelmExecutor::new_with_opts(&nb("/opt/helm3"), None, 15, false, false);
    assert_eq!(position(&executor.list_args(None), "/opt/helm3"), None);
    assert_eq!(position(&executor.uninstall_args(&nb("n"), &nb("r")), "/opt/helm3"), None);
}

#[test]
fn list_leaves_out_flags_of_omitted_parameters() {
    let executor = DefaultHelmExecutor::new();
    let bare = executor.list_args(None);
    for flag in ["--kubeconfig", "-n", "-o", "json", "--debug"] {
        assert_eq!(position(&bare, flag), None, "{flag}");
    }
    let scoped = executor.list_args(Some(&nb("whoami")));
    for flag in ["--kubeconfig", "--debug"] {
        assert_eq!(position(&scoped, flag), None, "{flag}");
    }
}

#[test]
fn uninstall_leaves_out_flags_of_omitted_parameters() {
    let executor = DefaultHelmExecutor::new();
    let args = executor.uninstall_args(&nb("ns"), &nb("rel"));
    for flag in ["--kubeconfig", "--debug"] {
        assert_eq!(position(&args, flag), None, "{flag}");
    }
    assert!(args.iter().all(|a| !a.is_empty()));
}

#[test]
fn a_flag_handed_in_as_an_option_is_written_as_given() {
    let executor = DefaultHelmExecutor::new();
    let options = vec![nb("--debug")];
    let args = executor.install_or_upgrade_args(&nb("n"), &nb("r"), &nb("c"), None, None, None, Some(&options));
    assert_eq!(args.iter().filter(|a| *a == "--debug").count(), 1);
    assert_eq!(args[6], "--debug");
}

#[test]
fn a_non_blank_string_may_be_a_single_space() {
    let executor = DefaultHelmExecutor::new();
    let args = executor.list_args(Some(&nb(" ")));
    assert_eq!(args, words(&["ls", "-n", "", "-o", "json"]));
}

#[test]
fn config_file_that_ends_with_whitespace_loses_it_at_the_end_of_the_line() {
    let executor = DefaultHelmExecutor::new_with_opts(&nb("helm"), Some("kube.yml\t".to_string()), 15, false, false);
    assert_eq!(executor.list_args(None), words(&["ls", "--kubeconfig", "kube.yml"]));
    assert_eq!(
        executor.list_args(Some(&nb("ns"))),
        words(&["ls", "--kubeconfig", "kube.yml\t", "-n", "ns", "-o", "json"])
    );
}

#[test]
fn clean_overrides_stay_whole_among_texts_that_hold_spaces() {
    let executor = DefaultHelmExecutor::new_with_opts(&nb("helm"), Some(" my kube ".to_string()), 15, true, false);
    let pairs = vec![("a".to_string(), "1".to_string()), ("b.c".to_string(), "".to_string())];
    let options = vec![" --wait".to_string(), "x   y".to_string()];
    let args = executor.install_or_upgrade_args_from_text(
        "name space",
        "rel",
        "chart  ",
        Some(" 1.0"),
        Some(&pairs),
        Some("my values.yml "),
        Some(&options),
    );
    let block = words(&["--set", "a=1", "--set", "b.c="]);
    assert_eq!(args.windows(4).filter(|w| *w == &block[..]).count(), 1);
    assert!(args.iter().any(|a| a.is_empty()));
}

#[test]
fn typed_and_plain_requests_give_the_same_arguments() {
    let executor = DefaultHelmExecutor::new_with_opts(&nb("helm"), Some("k".to_string()), 7, true, false);
    let file = Path::new("test-data").join("whoami-values.yml");
    let typed = executor.install_or_upgrade_args(
        &nb("whoami"),
        &nb("rel"),
        &nb("cowboysysop/whoami"),
        Some(&nb("5.2.0")),
        None,
        Some(&file),
        Some(&vec![nb("--create-namespace")]),
    );
    let plain = executor.install_or_upgrade_args_from_text(
        "whoami",
        "rel",
        "cowboysysop/whoami",
        Some("5.2.0"),
        None,
        Some("test-data/whoami-values.yml"),
        Some(&vec!["--create-namespace".to_string()]),
    );
    assert_eq!(typed, plain);
    assert_eq!(executor.list_args(Some(&nb("whoami"))), executor.list_args_from_text(Some("whoami")));
    assert_eq!(executor.uninstall_args(&nb("a"), &nb("b")), executor.uninstall_args_from_text("a", "b"));
}

#[test]
fn plain_texts_are_not_checked_and_an_empty_one_leaves_no_argument() {
    let executor = DefaultHelmExecutor::new();
    assert_eq!(executor.list_args_from_text(Some("")), words(&["ls", "-n", "-o", "json"]));
    assert_eq!(executor.uninstall_args_from_text("", "r"), words(&["uninstall", "-n", "r", "--timeout=15s"]));
}

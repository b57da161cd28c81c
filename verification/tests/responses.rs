use helm_wrapper_rs::error::HelmWrapperError;
use helm_wrapper_rs::outcome::{install_or_upgrade_result, list_result, uninstall_result, ProcessOutput};
use helm_wrapper_rs::response::{
    decode_releases, decode_upgrade_response, release_from_value, releases_from_value,
    upgrade_response_from_value,
};
use helm_wrapper_rs::{HelmDeployStatus, HelmListItem, HelmUpgradeStatus};
use serde_json::{Number, Value};

type Object = serde_json::Map<String, Value>;

const LISTING: &str = r#"[{"name":"whoami","namespace":"whoami","revision":"1","updated":"2024-05-01 10:11:12.123456789 +0000 UTC","status":"deployed","chart":"whoami-5.2.0","app_version":"1.10.3"},{"name":"other","namespace":"whoami","revision":"7","updated":"yesterday","status":"pending-upgrade","chart":"other-0.1.0","app_version":""}]"#;

fn success(stdout: &[u8]) -> Result<ProcessOutput, std::io::Error> {
    Ok(ProcessOutput { success: true, stdout: stdout.to_vec(), stderr: Vec::new() })
}

fn failure(stdout: &[u8], stderr: &[u8]) -> Result<ProcessOutput, std::io::Error> {
    Ok(ProcessOutput { success: false, stdout: stdout.to_vec(), stderr: stderr.to_vec() })
}

fn not_found() -> Result<ProcessOutput, std::io::Error> {
    Err(std::io::Error::new(std::io::ErrorKind::NotFound, "no such file"))
}

fn text(value: &str) -> Value {
    Value::String(value.to_string())
}

fn release_object(status: Value) -> Object {
    let mut object = Object::new();
    object.insert("name".to_string(), text("whoami"));
    object.insert("namespace".to_string(), text("ns"));
    object.insert("revision".to_string(), text("3"));
    object.insert("updated".to_string(), text("today"));
    object.insert("status".to_string(), status);
    object.insert("chart".to_string(), text("whoami-5.2.0"));
    object.insert("app_version".to_string(), text("1.10.3"));
    object
}

#[test]
fn each_status_word_names_its_status() {
    assert_eq!(HelmUpgradeStatus::from_token("deployed"), Some(HelmUpgradeStatus::Deployed));
    assert_eq!(HelmUpgradeStatus::from_token("pending-install"), Some(HelmUpgradeStatus::PendingInstall));
    assert_eq!(HelmUpgradeStatus::from_token("pending-upgrade"), Some(HelmUpgradeStatus::PendingUpgrade));
    assert_eq!(HelmUpgradeStatus::from_token("failed"), Some(HelmUpgradeStatus::Failed));
}

#[test]
fn each_status_has_its_word() {
    assert_eq!(HelmUpgradeStatus::Deployed.token(), "deployed");
    assert_eq!(HelmUpgradeStatus::PendingInstall.token(), "pending-install");
    assert_eq!(HelmUpgradeStatus::PendingUpgrade.token(), "pending-upgrade");
    assert_eq!(HelmUpgradeStatus::Failed.token(), "failed");
    for status in [
        HelmUpgradeStatus::Deployed,
        HelmUpgradeStatus::PendingInstall,
        HelmUpgradeStatus::PendingUpgrade,
        HelmUpgradeStatus::Failed,
    ] {
        assert_eq!(HelmUpgradeStatus::from_token(status.token()), Some(status));
    }
}

#[test]
fn no_other_word_names_a_status() {
    for word in [
        "",
        "Deployed",
        "DEPLOYED",
        " deployed",
        "deployed ",
        "deploye",
        "deployedd",
        "pending",
        "pending-",
        "pending_install",
        "pending-rollback",
        "uninstalled",
        "superseded",
        "unknown",
        "fail",
        "failed\n",
    ] {
        assert_eq!(HelmUpgradeStatus::from_token(word), None, "{word:?}");
    }
}

#[test]
fn deploy_status_is_the_same_type() {
    let status: HelmDeployStatus = HelmUpgradeStatus::Deployed;
    assert_eq!(status, HelmDeployStatus::Deployed);
}

#[test]
fn listing_is_read_in_order() {
    let releases = decode_releases(LISTING).unwrap();
    assert_eq!(releases.len(), 2);
    assert_eq!(releases[0].name, "whoami");
    assert_eq!(releases[0].namespace, "whoami");
    assert_eq!(releases[0].revision, "1");
    assert_eq!(releases[0].updated, "2024-05-01 10:11:12.123456789 +0000 UTC");
    assert_eq!(releases[0].status, HelmUpgradeStatus::Deployed);
    assert_eq!(releases[0].chart, "whoami-5.2.0");
    assert_eq!(releases[0].app_version, "1.10.3");
    assert_eq!(releases[1].name, "other");
    assert_eq!(releases[1].status, HelmUpgradeStatus::PendingUpgrade);
    assert_eq!(releases[1].app_version, "");
}

#[test]
fn reading_a_listing_twice_gives_equal_records() {
    let first = decode_releases(LISTING).unwrap();
    let second = decode_releases(LISTING).unwrap();
    assert_eq!(first.len(), second.len());
    for (a, b) in first.iter().zip(second.iter()) {
        assert_eq!(a.name, b.name);
        assert_eq!(a.namespace, b.namespace);
        assert_eq!(a.revision, b.revision);
        assert_eq!(a.updated, b.updated);
        assert_eq!(a.status, b.status);
        assert_eq!(a.chart, b.chart);
        assert_eq!(a.app_version, b.app_version);
    }
}

#[test]
fn empty_listing_is_no_error() {
    assert!(decode_releases("[]").unwrap().is_empty());
    assert!(decode_releases(" [ ] \n").unwrap().is_empty());
}

#[test]
fn listing_passes_over_further_fields() {
    let releases = decode_releases(
        r#"[{"extra":[1,2.5,null,true,{"a":{}}],"name":"n","namespace":"s","revision":"1","updated":"u","status":"failed","chart":"c","app_version":"v"}]"#,
    )
    .unwrap();
    assert_eq!(releases.len(), 1);
    assert_eq!(releases[0].status, HelmUpgradeStatus::Failed);
}

#[test]
fn listing_is_refused_when_it_has_another_form() {
    for input in [
        "",
        "null",
        "{}",
        "\"deployed\"",
        "[1]",
        "[null]",
        "[[]]",
        "[{}]",
        "[",
        "[] []",
        "NAME\tNAMESPACE\tREVISION\n",
        r#"[{"name":"n","namespace":"s","revision":"1","updated":"u","status":"deployed","chart":"c"}]"#,
        r#"[{"name":"n","namespace":"s","revision":1,"updated":"u","status":"deployed","chart":"c","app_version":"v"}]"#,
        r#"[{"name":"n","namespace":"s","revision":"1","updated":"u","status":"superseded","chart":"c","app_version":"v"}]"#,
        r#"[{"name":"n","namespace":"s","revision":"1","updated":"u","status":null,"chart":"c","app_version":"v"}]"#,
        r#"[{"Name":"n","namespace":"s","revision":"1","updated":"u","status":"deployed","chart":"c","app_version":"v"}]"#,
    ] {
        assert!(decode_releases(input).is_err(), "{input:?}");
    }
}

#[test]
fn one_bad_release_spoils_the_listing() {
    let input = LISTING.replace("pending-upgrade", "pending");
    assert!(decode_releases(&input).is_err());
}

#[test]
fn release_is_read_from_a_value() {
    let release = release_from_value(&Value::Object(release_object(text("pending-install")))).unwrap();
    assert_eq!(release.name, "whoami");
    assert_eq!(release.namespace, "ns");
    assert_eq!(release.revision, "3");
    assert_eq!(release.updated, "today");
    assert_eq!(release.status, HelmUpgradeStatus::PendingInstall);
    assert_eq!(release.chart, "whoami-5.2.0");
    assert_eq!(release.app_version, "1.10.3");
}

#[test]
fn release_needs_every_field_as_a_string() {
    for name in ["name", "namespace", "revision", "updated", "status", "chart", "app_version"] {
        let mut missing = release_object(text("deployed"));
        missing.remove(name);
        assert!(release_from_value(&Value::Object(missing)).is_none(), "{name}");
        for other in [Value::Null, Value::Bool(true), Value::Number(Number::from(1)), Value::Array(vec![])] {
            let mut wrong = release_object(text("deployed"));
            wrong.insert(name.to_string(), other);
            assert!(release_from_value(&Value::Object(wrong)).is_none(), "{name}");
        }
    }
    assert!(release_from_value(&Value::Null).is_none());
    assert!(release_from_value(&text("whoami")).is_none());
    assert!(release_from_value(&Value::Array(vec![Value::Object(release_object(text("deployed")))])).is_none());
}

#[test]
fn releases_are_read_from_a_value() {
    let list = Value::Array(vec![
        Value::Object(release_object(text("deployed"))),
        Value::Object(release_object(text("failed"))),
    ]);
    let releases = releases_from_value(&list).unwrap();
    assert_eq!(releases.len(), 2);
    assert_eq!(releases[0].status, HelmUpgradeStatus::Deployed);
    assert_eq!(releases[1].status, HelmUpgradeStatus::Failed);
    assert!(releases_from_value(&Value::Array(vec![])).unwrap().is_empty());
    assert!(releases_from_value(&Value::Object(release_object(text("deployed")))).is_none());
    assert!(releases_from_value(&Value::Array(vec![Value::Null])).is_none());
}

#[test]
fn upgrade_response_is_read() {
    for (word, status) in [
        ("deployed", HelmUpgradeStatus::Deployed),
        ("pending-install", HelmUpgradeStatus::PendingInstall),
        ("pending-upgrade", HelmUpgradeStatus::PendingUpgrade),
        ("failed", HelmUpgradeStatus::Failed),
    ] {
        let input = format!(r#"{{"name":"whoami","info":{{"first_deployed":"x","status":"{word}"}},"version":3}}"#);
        assert_eq!(decode_upgrade_response(&input).unwrap().info.status, status);
    }
}

#[test]
fn upgrade_response_is_refused_when_it_has_another_form() {
    for input in [
        "",
        "[]",
        "{}",
        r#"{"info":null}"#,
        r#"{"info":"deployed"}"#,
        r#"{"info":{}}"#,
        r#"{"info":{"status":"installed"}}"#,
        r#"{"info":{"status":["deployed"]}}"#,
        r#"{"status":"deployed"}"#,
        r#"{"info":{"status":"deployed"}} x"#,
    ] {
        assert!(decode_upgrade_response(input).is_err(), "{input:?}");
    }
}

#[test]
fn upgrade_response_is_read_from_a_value() {
    let mut info = Object::new();
    info.insert("status".to_string(), text("failed"));
    let mut document = Object::new();
    document.insert("info".to_string(), Value::Object(info));
    let response = upgrade_response_from_value(&Value::Object(document)).unwrap();
    assert_eq!(response.info.status, HelmUpgradeStatus::Failed);
    assert!(upgrade_response_from_value(&Value::Object(Object::new())).is_none());
    assert!(upgrade_response_from_value(&text("failed")).is_none());
}

#[test]
fn listing_of_a_successful_run_is_decoded() {
    let releases = list_result(success(LISTING.as_bytes())).unwrap();
    assert_eq!(releases.len(), 2);
    assert_eq!(releases[0].app_version, "1.10.3");
}

#[test]
fn listing_of_no_releases_is_empty_and_no_error() {
    let releases = list_result(success(b"[]\n")).unwrap();
    assert!(releases.is_empty());
}

#[test]
fn failed_run_is_an_execution_failure_and_is_not_decoded() {
    assert!(matches!(list_result(failure(LISTING.as_bytes(), b"boom")), Err(HelmWrapperError::Error)));
    assert!(matches!(
        install_or_upgrade_result(failure(br#"{"info":{"status":"deployed"}}"#, b"Error: YAML parse error")),
        Err(HelmWrapperError::Error)
    ));
    assert!(matches!(uninstall_result(failure(b"", b"release: not found")), Err(HelmWrapperError::Error)));
    assert!(matches!(list_result(failure(&[0xff, 0xfe], &[0xff])), Err(HelmWrapperError::Error)));
}

#[test]
fn run_that_could_not_start_keeps_its_cause() {
    match list_result(not_found()) {
        Err(HelmWrapperError::ExecutionError(cause)) => assert_eq!(cause.kind(), std::io::ErrorKind::NotFound),
        other => panic!("{other:?}"),
    }
    assert!(matches!(install_or_upgrade_result(not_found()), Err(HelmWrapperError::ExecutionError(_))));
    assert!(matches!(uninstall_result(not_found()), Err(HelmWrapperError::ExecutionError(_))));
}

#[test]
fn output_that_is_not_utf8_is_its_own_error() {
    let bytes = [b'[', 0xff, b']'];
    match list_result(success(&bytes)) {
        Err(HelmWrapperError::NonUtf8Error(cause)) => assert_eq!(cause.as_bytes(), &bytes),
        other => panic!("{other:?}"),
    }
    assert!(matches!(install_or_upgrade_result(success(&[0xc0, 0x80])), Err(HelmWrapperError::NonUtf8Error(_))));
    assert!(matches!(uninstall_result(success(&[0xed, 0xa0, 0x80])), Err(HelmWrapperError::NonUtf8Error(_))));
}

#[test]
fn output_of_another_form_is_a_decoding_failure() {
    assert!(matches!(list_result(success(b"NAME NAMESPACE")), Err(HelmWrapperError::DeserializationError(_))));
    assert!(matches!(list_result(success(b"{}")), Err(HelmWrapperError::DeserializationError(_))));
    assert!(matches!(install_or_upgrade_result(success(b"[]")), Err(HelmWrapperError::DeserializationError(_))));
    assert!(matches!(install_or_upgrade_result(success(b"")), Err(HelmWrapperError::DeserializationError(_))));
}

#[test]
fn install_of_a_successful_run_reports_the_status() {
    assert_eq!(
        install_or_upgrade_result(success(br#"{"info":{"status":"deployed"}}"#)).unwrap(),
        HelmUpgradeStatus::Deployed
    );
    assert_eq!(
        install_or_upgrade_result(success("{\"info\":{\"status\":\"pending-install\",\"notes\":\"héllo\"}}".as_bytes()))
            .unwrap(),
        HelmUpgradeStatus::PendingInstall
    );
}

#[test]
fn uninstall_of_a_successful_run_reads_no_body() {
    assert!(uninstall_result(success(b"release \"whoami\" uninstalled\n")).is_ok());
    assert!(uninstall_result(success(b"")).is_ok());
}

#[test]
fn errors_say_what_kind_they_are() {
    let cases = [
        (list_result(success(b"x")).unwrap_err(), "Unable to understand helm response format"),
        (list_result(success(&[0xff])).unwrap_err(), "Unsupported helm non-utf8 output"),
        (list_result(not_found()).unwrap_err(), "Helm command execution error"),
        (list_result(failure(b"", b"")).unwrap_err(), "Helm command execution error"),
    ];
    for (error, message) in cases {
        assert_eq!(error.message(), message);
    }
}

#[test]
fn errors_are_made_from_their_causes() {
    let decoding: HelmWrapperError = serde_json::from_str::<Value>("{").unwrap_err().into();
    assert!(matches!(decoding, HelmWrapperError::DeserializationError(_)));
    let encoding: HelmWrapperError = String::from_utf8(vec![0xff]).unwrap_err().into();
    assert!(matches!(encoding, HelmWrapperError::NonUtf8Error(_)));
    let launching: HelmWrapperError = std::io::Error::new(std::io::ErrorKind::PermissionDenied, "no").into();
    assert!(matches!(launching, HelmWrapperError::ExecutionError(_)));
}

#[test]
fn list_item_clone_keeps_every_field() {
    let item = HelmListItem {
        name: "a".to_string(),
        namespace: "b".to_string(),
        revision: "c".to_string(),
        updated: "d".to_string(),
        status: HelmUpgradeStatus::PendingUpgrade,
        chart: "e".to_string(),
        app_version: "f".to_string(),
    };
    let copy = item.clone();
    assert_eq!(copy.name, "a");
    assert_eq!(copy.namespace, "b");
    assert_eq!(copy.revision, "c");
    assert_eq!(copy.updated, "d");
    assert_eq!(copy.status, HelmUpgradeStatus::PendingUpgrade);
    assert_eq!(copy.chart, "e");
    assert_eq!(copy.app_version, "f");
}

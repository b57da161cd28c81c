use helm_wrapper_rs::blocking::HelmExecutor;
use helm_wrapper_rs::blocking_mock::SuccessMockHelmExecutor;
use helm_wrapper_rs::{HelmListItem, HelmUpgradeStatus};
use non_blank_string_rs::NonBlankString;

fn nb(text: &str) -> NonBlankString {
    text.parse().unwrap()
}

fn item(name: &str) -> HelmListItem {
    HelmListItem {
        name: name.to_string(),
        namespace: "ns".to_string(),
        revision: "1".to_string(),
        updated: "now".to_string(),
        status: HelmUpgradeStatus::Deployed,
        chart: "chart-1.0.0".to_string(),
        app_version: "1.0.0".to_string(),
    }
}

#[test]
fn success_mock_answers_with_what_it_was_given() {
    let mock = SuccessMockHelmExecutor::new(vec![item("a"), item("b")], HelmUpgradeStatus::PendingInstall);
    for _ in 0..2 {
        let listed = mock.list(Some(&nb("anything"))).unwrap();
        assert_eq!(listed.len(), 2);
        assert_eq!(listed[0].name, "a");
        assert_eq!(listed[1].name, "b");
        assert_eq!(
            mock.install_or_upgrade(&nb("n"), &nb("r"), &nb("c"), None, None, None, None).unwrap(),
            HelmUpgradeStatus::PendingInstall
        );
        assert!(mock.uninstall(&nb("n"), &nb("r")).is_ok());
    }
}

#[test]
fn success_mock_clone_answers_alike() {
    let mock = SuccessMockHelmExecutor::new(vec![item("a")], HelmUpgradeStatus::Failed);
    let copy = mock.clone();
    assert_eq!(copy.list(None).unwrap()[0].name, "a");
    assert_eq!(
        copy.install_or_upgrade(&nb("n"), &nb("r"), &nb("c"), None, None, None, None).unwrap(),
        HelmUpgradeStatus::Failed
    );
}

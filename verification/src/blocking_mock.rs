//! An executor that runs nothing and always succeeds, for callers that
//! want to try their own code without the tool.
use vstd::prelude::*;
use crate::blocking::HelmExecutor;
use crate::error::HelmWrapperError;
use crate::response::{records, HelmListItem, HelmUpgradeStatus, ReleaseRecord};
use non_blank_string_rs::NonBlankString;
use std::collections::HashMap;
use std::path::PathBuf;

verus! {

/// Answers every listing with the same releases and every install or
/// upgrade with the same status, whatever it is asked.
pub struct SuccessMockHelmExecutor {
    releases: Vec<HelmListItem>,
    status: HelmUpgradeStatus,
}

/// A copy of a list of releases.
fn copy_of(items: &Vec<HelmListItem>) -> (copy: Vec<HelmListItem>)
    ensures
        records(copy@) == records(items@),
{
    let mut copy: Vec<HelmListItem> = Vec::new();
    let mut i: usize = 0;
    while i < items.len()
        invariant
            i <= items.len(),
            copy@.len() == i,
            forall|k: int| 0 <= k < i ==> copy@[k]@ == items@[k]@,
        decreases items.len() - i,
    {
        copy.push(items[i].clone());
        i += 1;
    }
    assert(records(copy@) == records(items@));
    copy
}

impl SuccessMockHelmExecutor {
    /// The releases that every listing is answered with.
    pub closed spec fn listed(&self) -> Seq<ReleaseRecord> {
        records(self.releases@)
    }

    /// The status that every install or upgrade is answered with.
    pub closed spec fn reported(&self) -> HelmUpgradeStatus {
        self.status
    }

    /// An executor that answers with `list_result` and
    /// `install_or_upgrade_result`.
    pub fn new(
        list_result: Vec<HelmListItem>,
        install_or_upgrade_result: HelmUpgradeStatus,
    ) -> (mock: Self)
        ensures
            mock.listed() == records(list_result@),
            mock.reported() == install_or_upgrade_result,
    {
        Self { releases: list_result, status: install_or_upgrade_result }
    }
}

impl Clone for SuccessMockHelmExecutor {
    fn clone(&self) -> (copy: Self)
        ensures
            copy.listed() == self.listed(),
            copy.reported() == self.reported(),
    {
        Self { releases: copy_of(&self.releases), status: self.status }
    }
}

impl HelmExecutor for SuccessMockHelmExecutor {
    fn list(&self, namespace: Option<&NonBlankString>) -> (result: Result<
        Vec<HelmListItem>,
        HelmWrapperError,
    >)
        ensures
            result matches Ok(items) && records(items@) == self.listed(),
    {
        Ok(copy_of(&self.releases))
    }

    fn install_or_upgrade(
        &self,
        namespace: &NonBlankString,
        release_name: &NonBlankString,
        chart_name: &NonBlankString,
        chart_version: Option<&NonBlankString>,
        values_overrides: Option<&HashMap<NonBlankString, String>>,
        values_file: Option<&PathBuf>,
        helm_options: Option<&Vec<NonBlankString>>,
    ) -> (result: Result<HelmUpgradeStatus, HelmWrapperError>)
        ensures
            result == Ok::<_, HelmWrapperError>(self.reported()),
    {
        Ok(self.status)
    }

    fn uninstall(&self, namespace: &NonBlankString, release_name: &NonBlankString) -> (result:
        Result<(), HelmWrapperError>)
        ensures
            result is Ok,
    {
        Ok(())
    }
}

} // verus!

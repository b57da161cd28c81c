//! What the tool answers: the records of a listing, the status of an
//! install or upgrade, and how they are read from JSON.
use vstd::prelude::*;
use crate::json::{
    as_array, as_text, field, json_document, json_of, jsons_of, mismatch, parse, Json,
};
use crate::text::{same_text, text_of_option};
use serde_json::Value;

verus! {

/// The state of a release as the tool reports it.
#[derive(Debug, Clone, Copy, PartialEq, Eq, Structural)]
pub enum HelmUpgradeStatus {
    Deployed,
    PendingInstall,
    PendingUpgrade,
    Failed,
}

/// The state of a release, under the name by which deployments know it.
pub type HelmDeployStatus = HelmUpgradeStatus;

/// One release of a listing.
#[derive(Debug)]
pub struct HelmListItem {
    pub name: String,
    pub namespace: String,
    pub revision: String,
    pub updated: String,
    pub status: HelmUpgradeStatus,
    pub chart: String,
    pub app_version: String,
}

/// The answer to an install or upgrade.
#[derive(Debug)]
pub struct HelmUpgradeResponse {
    pub info: HelmUpgradeResponseInfo,
}

/// The part of an answer to an install or upgrade that holds the status.
#[derive(Debug)]
pub struct HelmUpgradeResponseInfo {
    pub status: HelmUpgradeStatus,
}

/// One release of a listing, every text by its characters.
pub struct ReleaseRecord {
    pub name: Seq<char>,
    pub namespace: Seq<char>,
    pub revision: Seq<char>,
    pub updated: Seq<char>,
    pub status: HelmUpgradeStatus,
    pub chart: Seq<char>,
    pub app_version: Seq<char>,
}

impl View for HelmListItem {
    type V = ReleaseRecord;

    open spec fn view(&self) -> ReleaseRecord {
        ReleaseRecord {
            name: self.name@,
            namespace: self.namespace@,
            revision: self.revision@,
            updated: self.updated@,
            status: self.status,
            chart: self.chart@,
            app_version: self.app_version@,
        }
    }
}

impl Clone for HelmListItem {
    fn clone(&self) -> (copy: Self)
        ensures
            copy@ == self@,
    {
        HelmListItem {
            name: self.name.clone(),
            namespace: self.namespace.clone(),
            revision: self.revision.clone(),
            updated: self.updated.clone(),
            status: self.status,
            chart: self.chart.clone(),
            app_version: self.app_version.clone(),
        }
    }
}

/// The records that a list of releases stands for.
pub open spec fn records(items: Seq<HelmListItem>) -> Seq<ReleaseRecord> {
    Seq::new(items.len(), |i: int| items[i]@)
}

/// The word by which the tool names a status.
pub open spec fn token_of(status: HelmUpgradeStatus) -> Seq<char> {
    match status {
        HelmUpgradeStatus::Deployed => "deployed"@,
        HelmUpgradeStatus::PendingInstall => "pending-install"@,
        HelmUpgradeStatus::PendingUpgrade => "pending-upgrade"@,
        HelmUpgradeStatus::Failed => "failed"@,
    }
}

/// The status that a word names, if it names one.
pub open spec fn status_of(token: Seq<char>) -> Option<HelmUpgradeStatus> {
    if token == "deployed"@ {
        Some(HelmUpgradeStatus::Deployed)
    } else if token == "pending-install"@ {
        Some(HelmUpgradeStatus::PendingInstall)
    } else if token == "pending-upgrade"@ {
        Some(HelmUpgradeStatus::PendingUpgrade)
    } else if token == "failed"@ {
        Some(HelmUpgradeStatus::Failed)
    } else {
        None
    }
}

impl HelmUpgradeStatus {
    /// The word by which the tool names this status.
    pub fn token(&self) -> (word: &'static str)
        ensures
            word@ == token_of(*self),
    {
        match self {
            HelmUpgradeStatus::Deployed => "deployed",
            HelmUpgradeStatus::PendingInstall => "pending-install",
            HelmUpgradeStatus::PendingUpgrade => "pending-upgrade",
            HelmUpgradeStatus::Failed => "failed",
        }
    }

    /// The status that `token` names. Only the four words of the tool name
    /// one; case and surrounding space count.
    pub fn from_token(token: &str) -> (status: Option<Self>)
        ensures
            status == status_of(token@),
    {
        if same_text(token, "deployed") {
            Some(HelmUpgradeStatus::Deployed)
        } else if same_text(token, "pending-install") {
            Some(HelmUpgradeStatus::PendingInstall)
        } else if same_text(token, "pending-upgrade") {
            Some(HelmUpgradeStatus::PendingUpgrade)
        } else if same_text(token, "failed") {
            Some(HelmUpgradeStatus::Failed)
        } else {
            None
        }
    }
}

/// The field `name` of an object, if `json` is an object that has it.
pub open spec fn member(json: Json, name: Seq<char>) -> Option<Json> {
    match json {
        Json::Object(fields) => if fields.dom().contains(name) {
            Some(fields[name])
        } else {
            None
        },
        _ => None,
    }
}

/// The characters of the field `name`, if `json` is an object in which that
/// field is a string.
pub open spec fn text_member(json: Json, name: Seq<char>) -> Option<Seq<char>> {
    match member(json, name) {
        Some(Json::Text(text)) => Some(text),
        _ => None,
    }
}

/// The status that the field `name` names, if `json` is an object in which
/// that field is a string that names one.
pub open spec fn status_member(json: Json, name: Seq<char>) -> Option<HelmUpgradeStatus> {
    match text_member(json, name) {
        Some(token) => status_of(token),
        None => None,
    }
}

/// The release that a JSON value describes: an object with the six string
/// fields and a status. Further fields are passed over.
pub open spec fn release_of(json: Json) -> Option<ReleaseRecord> {
    if text_member(json, "name"@) is Some && text_member(json, "namespace"@) is Some && text_member(
        json,
        "revision"@,
    ) is Some && text_member(json, "updated"@) is Some && status_member(json, "status"@) is Some
        && text_member(json, "chart"@) is Some && text_member(json, "app_version"@) is Some {
        Some(
            ReleaseRecord {
                name: text_member(json, "name"@)->0,
                namespace: text_member(json, "namespace"@)->0,
                revision: text_member(json, "revision"@)->0,
                updated: text_member(json, "updated"@)->0,
                status: status_member(json, "status"@)->0,
                chart: text_member(json, "chart"@)->0,
                app_version: text_member(json, "app_version"@)->0,
            },
        )
    } else {
        None
    }
}

/// The releases that a JSON value lists: an array of which every item
/// describes a release.
pub open spec fn releases_of(json: Json) -> Option<Seq<ReleaseRecord>> {
    match json {
        Json::Array(items) => if forall|i: int|
            0 <= i < items.len() ==> release_of(#[trigger] items[i]) is Some {
            Some(Seq::new(items.len(), |i: int| release_of(items[i])->0))
        } else {
            None
        },
        _ => None,
    }
}

/// The status that an answer to an install or upgrade reports: that of the
/// field `status` in the object `info`.
pub open spec fn upgrade_status_of(json: Json) -> Option<HelmUpgradeStatus> {
    match member(json, "info"@) {
        Some(info) => status_member(info, "status"@),
        None => None,
    }
}

/// The string in the field `name` of `value`.
fn read_text(value: &Value, name: &str) -> (text: Option<String>)
    ensures
        text_of_option(text) == text_member(json_of(*value), name@),
{
    match field(value, name) {
        Some(inner) => match as_text(inner) {
            Some(t) => Some(t.to_owned()),
            None => None,
        },
        None => None,
    }
}

/// The status in the field `name` of `value`.
fn read_status(value: &Value, name: &str) -> (status: Option<HelmUpgradeStatus>)
    ensures
        status == status_member(json_of(*value), name@),
{
    match field(value, name) {
        Some(inner) => match as_text(inner) {
            Some(t) => HelmUpgradeStatus::from_token(t),
            None => None,
        },
        None => None,
    }
}

/// The release that `value` describes, if it describes one.
pub fn release_from_value(value: &Value) -> (release: Option<HelmListItem>)
    ensures
        match release {
            Some(item) => release_of(json_of(*value)) == Some(item@),
            None => release_of(json_of(*value)) is None,
        },
{
    let name = match read_text(value, "name") {
        Some(t) => t,
        None => return None,
    };
    let namespace = match read_text(value, "namespace") {
        Some(t) => t,
        None => return None,
    };
    let revision = match read_text(value, "revision") {
        Some(t) => t,
        None => return None,
    };
    let updated = match read_text(value, "updated") {
        Some(t) => t,
        None => return None,
    };
    let status = match read_status(value, "status") {
        Some(s) => s,
        None => return None,
    };
    let chart = match read_text(value, "chart") {
        Some(t) => t,
        None => return None,
    };
    let app_version = match read_text(value, "app_version") {
        Some(t) => t,
        None => return None,
    };
    Some(HelmListItem { name, namespace, revision, updated, status, chart, app_version })
}

/// The releases that `document` lists, if it is a list of releases.
pub fn releases_from_value(document: &Value) -> (releases: Option<Vec<HelmListItem>>)
    ensures
        match releases {
            Some(items) => releases_of(json_of(*document)) == Some(records(items@)),
            None => releases_of(json_of(*document)) is None,
        },
{
    let list = match as_array(document) {
        Some(list) => list,
        None => return None,
    };
    let ghost all = jsons_of(list@);
    let mut items: Vec<HelmListItem> = Vec::new();
    let mut i: usize = 0;
    while i < list.len()
        invariant
            i <= list.len(),
            all == jsons_of(list@),
            json_of(*document) == Json::Array(all),
            items@.len() == i,
            forall|k: int| 0 <= k < i ==> release_of(#[trigger] all[k]) == Some(items@[k]@),
        decreases list.len() - i,
    {
        match release_from_value(&list[i]) {
            Some(item) => {
                assert(all[i as int] == json_of(list@[i as int]));
                items.push(item);
            },
            None => {
                assert(all[i as int] == json_of(list@[i as int]));
                return None;
            },
        }
        i += 1;
    }
    assert(records(items@) == Seq::new(all.len(), |k: int| release_of(all[k])->0));
    Some(items)
}

/// The answer to an install or upgrade that `document` holds, if it holds
/// one.
pub fn upgrade_response_from_value(document: &Value) -> (response: Option<HelmUpgradeResponse>)
    ensures
        match response {
            Some(r) => upgrade_status_of(json_of(*document)) == Some(r.info.status),
            None => upgrade_status_of(json_of(*document)) is None,
        },
{
    match field(document, "info") {
        Some(info) => match read_status(info, "status") {
            Some(status) => Some(HelmUpgradeResponse { info: HelmUpgradeResponseInfo { status } }),
            None => None,
        },
        None => None,
    }
}

/// The releases that a text lists, where it is a JSON document that lists
/// releases.
pub open spec fn releases_in(text: Seq<char>) -> Option<Seq<ReleaseRecord>> {
    match json_document(text) {
        Some(document) => releases_of(document),
        None => None,
    }
}

/// The status that a text reports, where it is a JSON document that
/// answers an install or upgrade.
pub open spec fn upgrade_status_in(text: Seq<char>) -> Option<HelmUpgradeStatus> {
    match json_document(text) {
        Some(document) => upgrade_status_of(document),
        None => None,
    }
}

/// `decoded` is what reading `text` as a listing gives: the releases that
/// it lists, or an error where it lists none.
pub open spec fn reads_releases(
    text: Seq<char>,
    decoded: Result<Vec<HelmListItem>, serde_json::Error>,
) -> bool {
    match decoded {
        Ok(items) => releases_in(text) == Some(records(items@)),
        Err(_) => releases_in(text) is None,
    }
}

/// `decoded` is what reading `text` as the answer to an install or upgrade
/// gives: the status that it reports, or an error where it reports none.
pub open spec fn reads_upgrade_response(
    text: Seq<char>,
    decoded: Result<HelmUpgradeResponse, serde_json::Error>,
) -> bool {
    match decoded {
        Ok(response) => upgrade_status_in(text) == Some(response.info.status),
        Err(_) => upgrade_status_in(text) is None,
    }
}

/// Reads a listing: `text` must be a JSON array of releases.
pub fn decode_releases(text: &str) -> (decoded: Result<Vec<HelmListItem>, serde_json::Error>)
    ensures
        reads_releases(text@, decoded),
{
    match parse(text) {
        Ok(document) => match releases_from_value(&document) {
            Some(items) => Ok(items),
            None => Err(mismatch("expected a list of releases")),
        },
        Err(error) => Err(error),
    }
}

/// Reads the answer to an install or upgrade: `text` must be a JSON object
/// whose `info` holds a `status`.
pub fn decode_upgrade_response(text: &str) -> (decoded: Result<
    HelmUpgradeResponse,
    serde_json::Error,
>)
    ensures
        reads_upgrade_response(text@, decoded),
{
    match parse(text) {
        Ok(document) => match upgrade_response_from_value(&document) {
            Some(response) => Ok(response),
            None => Err(mismatch("expected the status of a release")),
        },
        Err(error) => Err(error),
    }
}

} // verus!

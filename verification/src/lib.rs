//! Drives the `helm` command-line tool: builds the arguments for listing
//! releases, for installing or upgrading a release and for uninstalling
//! one, and reads what the tool answers.
//!
//! The library runs no process. `blocking::DefaultHelmExecutor` turns a
//! request into the tool's arguments, and `outcome` turns what a run left
//! behind (exit status, output, error output) into the result of the
//! operation. Both are verified: `arguments` and `laws` state what holds of
//! them.

pub mod text;
pub mod line;
pub mod spacing;
pub mod outside;
pub mod command;
pub mod blocking;
pub mod error;
pub mod json;
pub mod response;
pub mod outcome;
pub mod arguments;
pub mod blocking_mock;
pub mod diagnostics;
pub mod laws;

pub use blocking::{DefaultHelmExecutor, HelmExecutor};
pub use response::{
    HelmDeployStatus, HelmListItem, HelmUpgradeResponse, HelmUpgradeResponseInfo,
    HelmUpgradeStatus,
};

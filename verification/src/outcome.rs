//! From a finished run of the tool to the result of the operation.
//!
//! A run either could not be started, or it ended with a status, an output
//! and an error output. Its output counts only where the status reports
//! success; where it counts, it must be UTF-8 and, for a listing and for an
//! install or upgrade, a JSON document of the expected form.
use vstd::prelude::*;
use vstd::utf8::{decode_utf8, valid_utf8};
use crate::error::HelmWrapperError;
use crate::response::{
    decode_releases, decode_upgrade_response, records, releases_in, upgrade_status_in,
    HelmListItem, HelmUpgradeStatus,
};

verus! {

/// What a run of the tool left behind.
#[derive(Debug)]
pub struct ProcessOutput {
    /// Whether the tool's exit status reports success.
    pub success: bool,
    /// Everything that the tool wrote to its standard output.
    pub stdout: Vec<u8>,
    /// Everything that the tool wrote to its standard error.
    pub stderr: Vec<u8>,
}

/// `result` is what a listing comes to after the run `run`.
pub open spec fn is_list_result(
    run: Result<ProcessOutput, std::io::Error>,
    result: Result<Vec<HelmListItem>, HelmWrapperError>,
) -> bool {
    match run {
        Err(error) => result == Err::<Vec<HelmListItem>, _>(
            HelmWrapperError::ExecutionError(error),
        ),
        Ok(output) => if !output.success {
            result == Err::<Vec<HelmListItem>, _>(HelmWrapperError::Error)
        } else if !valid_utf8(output.stdout@) {
            result matches Err(HelmWrapperError::NonUtf8Error(_))
        } else {
            match releases_in(decode_utf8(output.stdout@)) {
                Some(list) => result matches Ok(items) && records(items@) == list,
                None => result matches Err(HelmWrapperError::DeserializationError(_)),
            }
        },
    }
}

/// `result` is what an install or upgrade comes to after the run `run`.
pub open spec fn is_install_or_upgrade_result(
    run: Result<ProcessOutput, std::io::Error>,
    result: Result<HelmUpgradeStatus, HelmWrapperError>,
) -> bool {
    match run {
        Err(error) => result == Err::<HelmUpgradeStatus, _>(
            HelmWrapperError::ExecutionError(error),
        ),
        Ok(output) => if !output.success {
            result == Err::<HelmUpgradeStatus, _>(HelmWrapperError::Error)
        } else if !valid_utf8(output.stdout@) {
            result matches Err(HelmWrapperError::NonUtf8Error(_))
        } else {
            match upgrade_status_in(decode_utf8(output.stdout@)) {
                Some(status) => result == Ok::<_, HelmWrapperError>(status),
                None => result matches Err(HelmWrapperError::DeserializationError(_)),
            }
        },
    }
}

/// `result` is what an uninstall comes to after the run `run`.
pub open spec fn is_uninstall_result(
    run: Result<ProcessOutput, std::io::Error>,
    result: Result<(), HelmWrapperError>,
) -> bool {
    match run {
        Err(error) => result == Err::<(), _>(HelmWrapperError::ExecutionError(error)),
        Ok(output) => if !output.success {
            result == Err::<(), _>(HelmWrapperError::Error)
        } else if !valid_utf8(output.stdout@) {
            result matches Err(HelmWrapperError::NonUtf8Error(_))
        } else {
            result is Ok
        },
    }
}

/// The result of a listing, given how the tool ran.
pub fn list_result(run: Result<ProcessOutput, std::io::Error>) -> (result: Result<
    Vec<HelmListItem>,
    HelmWrapperError,
>)
    ensures
        is_list_result(run, result),
{
    match run {
        Err(error) => Err(HelmWrapperError::ExecutionError(error)),
        Ok(output) => {
            if !output.success {
                return Err(HelmWrapperError::Error);
            }
            match String::from_utf8(output.stdout) {
                Err(error) => Err(HelmWrapperError::NonUtf8Error(error)),
                Ok(text) => match decode_releases(text.as_str()) {
                    Ok(items) => Ok(items),
                    Err(error) => Err(HelmWrapperError::DeserializationError(error)),
                },
            }
        },
    }
}

/// The result of an install or upgrade, given how the tool ran.
pub fn install_or_upgrade_result(run: Result<ProcessOutput, std::io::Error>) -> (result: Result<
    HelmUpgradeStatus,
    HelmWrapperError,
>)
    ensures
        is_install_or_upgrade_result(run, result),
{
    match run {
        Err(error) => Err(HelmWrapperError::ExecutionError(error)),
        Ok(output) => {
            if !output.success {
                return Err(HelmWrapperError::Error);
            }
            match String::from_utf8(output.stdout) {
                Err(error) => Err(HelmWrapperError::NonUtf8Error(error)),
                Ok(text) => match decode_upgrade_response(text.as_str()) {
                    Ok(response) => Ok(response.info.status),
                    Err(error) => Err(HelmWrapperError::DeserializationError(error)),
                },
            }
        },
    }
}

/// The result of an uninstall, given how the tool ran. The output is not
/// read, but it must be UTF-8.
pub fn uninstall_result(run: Result<ProcessOutput, std::io::Error>) -> (result: Result<
    (),
    HelmWrapperError,
>)
    ensures
        is_uninstall_result(run, result),
{
    match run {
        Err(error) => Err(HelmWrapperError::ExecutionError(error)),
        Ok(output) => {
            if !output.success {
                return Err(HelmWrapperError::Error);
            }
            match String::from_utf8(output.stdout) {
                Err(error) => Err(HelmWrapperError::NonUtf8Error(error)),
                Ok(_) => Ok(()),
            }
        },
    }
}

} // verus!

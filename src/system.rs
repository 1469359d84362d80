use vstd::prelude::*;

use platform_info::{PlatformInfo, PlatformInfoAPI, UNameAPI};

use crate::error::{ConfigProblem, DotfoxError};

verus! {

/// Relies on platform_info's `PlatformInfo::new` and `UNameAPI::nodename`:
/// the machine's node name, or `None` where the system query fails. What it
/// returns depends on the machine, so nothing more is stated.
#[verifier::external_body]
pub(crate) fn host_name() -> (r: Option<String>) {
    match PlatformInfo::new() {
        Ok(info) => Some(info.nodename().to_string_lossy().into_owned()),
        Err(_) => None,
    }
}

/// Relies on `dirs::home_dir`: the user's home directory, or `None` where it
/// cannot be determined (or is not valid Unicode). It depends on the
/// environment, so nothing more is stated.
#[verifier::external_body]
fn home_root() -> (r: Option<String>) {
    match dirs::home_dir() {
        Some(p) => p.into_os_string().into_string().ok(),
        None => None,
    }
}

/// Relies on `dirs::config_dir`: the user's XDG config directory, or `None`
/// where it cannot be determined (or is not valid Unicode). It depends on
/// the environment, so nothing more is stated.
#[verifier::external_body]
fn config_root() -> (r: Option<String>) {
    match dirs::config_dir() {
        Some(p) => p.into_os_string().into_string().ok(),
        None => None,
    }
}

/// The two roots that links are planned under: the home directory and the
/// XDG config directory, in that order.
pub fn link_roots() -> (r: Result<(String, String), DotfoxError>)
    ensures
        r is Err ==> (r->Err_0 == DotfoxError::Config(ConfigProblem::HomeDirectory) || r->Err_0
            == DotfoxError::Config(ConfigProblem::ConfigDirectory)),
{
    let home = match home_root() {
        Some(h) => h,
        None => return Err(DotfoxError::Config(ConfigProblem::HomeDirectory)),
    };
    match config_root() {
        Some(c) => Ok((home, c)),
        None => Err(DotfoxError::Config(ConfigProblem::ConfigDirectory)),
    }
}

} // verus!

//! Error taxonomy of the provisioning-and-launch sequence. Every fatal
//! error surfaces to the caller as a single descriptive string.

use vstd::prelude::*;
use crate::text::dec_str_of;
use crate::text::u64_to_dec;

verus! {

/// Why a provisioning or launch step failed.
#[derive(Clone, Debug)]
pub enum LauncherError {
    /// The request could not be sent or timed out.
    Network(String),
    /// The endpoint answered with a non-success status.
    HttpStatus(u16),
    /// A fetched document could not be parsed.
    Parse(String),
    /// A directory could not be created or a file not written or read.
    Filesystem(String),
    /// The pinned version is absent from the manifest.
    VersionNotFound(String),
    /// No usable runtime was found and none could be provisioned.
    RuntimeProvisioning(String),
    /// The game process could not be started.
    ProcessSpawn(String),
    /// The game process exited within the grace window.
    EarlyCrash,
}

impl LauncherError {
    /// The human-readable description that crosses the caller boundary.
    pub fn message(&self) -> (r: String)
        ensures
            r@ == match *self {
                LauncherError::Network(ref d) => "Download failed: "@ + d@,
                LauncherError::HttpStatus(code) => "HTTP error: "@ + dec_str_of(code as int),
                LauncherError::Parse(ref d) => "Failed to parse: "@ + d@,
                LauncherError::Filesystem(ref d) => "Filesystem error: "@ + d@,
                LauncherError::VersionNotFound(ref id) => "Version "@ + id@ + " not found"@,
                LauncherError::RuntimeProvisioning(ref d) => "Runtime provisioning failed: "@
                    + d@,
                LauncherError::ProcessSpawn(ref d) => "Failed to start process: "@ + d@,
                LauncherError::EarlyCrash => "Game exited during startup"@,
            },
    {
        match self {
            LauncherError::Network(d) => {
                let mut out = "Download failed: ".to_owned();
                out.append(d.as_str());
                out
            },
            LauncherError::HttpStatus(code) => {
                let mut out = "HTTP error: ".to_owned();
                let digits = u64_to_dec(*code as u64);
                out.append(digits.as_str());
                out
            },
            LauncherError::Parse(d) => {
                let mut out = "Failed to parse: ".to_owned();
                out.append(d.as_str());
                out
            },
            LauncherError::Filesystem(d) => {
                let mut out = "Filesystem error: ".to_owned();
                out.append(d.as_str());
                out
            },
            LauncherError::VersionNotFound(id) => {
                let mut out = "Version ".to_owned();
                out.append(id.as_str());
                out.append(" not found");
                proof {
                    assert(out@ =~= "Version "@ + id@ + " not found"@);
                }
                out
            },
            LauncherError::RuntimeProvisioning(d) => {
                let mut out = "Runtime provisioning failed: ".to_owned();
                out.append(d.as_str());
                out
            },
            LauncherError::ProcessSpawn(d) => {
                let mut out = "Failed to start process: ".to_owned();
                out.append(d.as_str());
                out
            },
            LauncherError::EarlyCrash => "Game exited during startup".to_owned(),
        }
    }
}

} // verus!

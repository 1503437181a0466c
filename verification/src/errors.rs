//! The error taxonomy of the provisioning engine.
//!
//! Configuration and resolution errors are produced before any step runs;
//! execution errors abort the remaining step sequence.

use vstd::prelude::*;

verus! {

/// Spec-level mirror of [`InstallError`], with names as character sequences.
pub ghost enum InstallErrorV {
    ConfigNotFound,
    InvalidModulesDir,
    ProfileNotSelected,
    ProfileNotFound { profile: Seq<char> },
    ModuleNotFound { module: Seq<char> },
    ToolNotFound { tool: Seq<char> },
    InvalidPackageUrl { url: Seq<char> },
    ProcessFailed { program: Seq<char>, stderr: Seq<char> },
    DownloadFailed { url: Seq<char> },
    ArchiveExtractFailed { url: Seq<char> },
}

/// Everything that can go wrong while loading definitions, resolving a
/// profile, or executing its steps. Each variant carries the offending
/// identifier so the failure can be reported with it.
#[derive(Debug, PartialEq, Eq)]
pub enum InstallError {
    /// The root configuration document does not exist at the resolved path.
    ConfigNotFound,
    /// The configured module-definitions path exists but is not a directory.
    InvalidModulesDir,
    /// No profile was requested and the configuration names no default.
    ProfileNotSelected,
    /// The selected profile is not defined.
    ProfileNotFound { profile: String },
    /// A profile references a module that is not defined.
    ModuleNotFound { module: String },
    /// A tool step references a tool that is not defined.
    ToolNotFound { tool: String },
    /// An archive URL has no non-empty final path segment.
    InvalidPackageUrl { url: String },
    /// A spawned process exited with a non-zero status.
    ProcessFailed { program: String, stderr: String },
    /// An archive could not be downloaded.
    DownloadFailed { url: String },
    /// A downloaded archive could not be decoded or extracted.
    ArchiveExtractFailed { url: String },
}

impl View for InstallError {
    type V = InstallErrorV;

    open spec fn view(&self) -> InstallErrorV {
        match self {
            InstallError::ConfigNotFound => InstallErrorV::ConfigNotFound,
            InstallError::InvalidModulesDir => InstallErrorV::InvalidModulesDir,
            InstallError::ProfileNotSelected => InstallErrorV::ProfileNotSelected,
            InstallError::ProfileNotFound { profile } => InstallErrorV::ProfileNotFound {
                profile: profile@,
            },
            InstallError::ModuleNotFound { module } => InstallErrorV::ModuleNotFound {
                module: module@,
            },
            InstallError::ToolNotFound { tool } => InstallErrorV::ToolNotFound { tool: tool@ },
            InstallError::InvalidPackageUrl { url } => InstallErrorV::InvalidPackageUrl {
                url: url@,
            },
            InstallError::ProcessFailed { program, stderr } => InstallErrorV::ProcessFailed {
                program: program@,
                stderr: stderr@,
            },
            InstallError::DownloadFailed { url } => InstallErrorV::DownloadFailed { url: url@ },
            InstallError::ArchiveExtractFailed { url } => InstallErrorV::ArchiveExtractFailed {
                url: url@,
            },
        }
    }
}

/// The human-readable report for an error, at the spec level.
pub open spec fn message_of(e: InstallErrorV) -> Seq<char> {
    match e {
        InstallErrorV::ConfigNotFound => "profiles.toml not found"@,
        InstallErrorV::InvalidModulesDir => "modules_definitions should be a directory path"@,
        InstallErrorV::ProfileNotSelected => "profile is not selected"@,
        InstallErrorV::ProfileNotFound { profile } => "profile not found: "@ + profile,
        InstallErrorV::ModuleNotFound { module } => "module not found: "@ + module,
        InstallErrorV::ToolNotFound { tool } => "tool not found: "@ + tool,
        InstallErrorV::InvalidPackageUrl { url } => "cannot retrieve package name from url: "@
            + url,
        InstallErrorV::ProcessFailed { program, stderr } => "["@ + program + "]\n"@ + stderr,
        InstallErrorV::DownloadFailed { url } => "download failed: "@ + url,
        InstallErrorV::ArchiveExtractFailed { url } => "archive extraction failed: "@ + url,
    }
}

impl InstallError {
    /// The human-readable report for this error.
    pub fn message(&self) -> (r: String)
        ensures
            r@ == message_of(self@),
    {
        match self {
            InstallError::ConfigNotFound => "profiles.toml not found".to_owned(),
            InstallError::InvalidModulesDir => {
                "modules_definitions should be a directory path".to_owned()
            },
            InstallError::ProfileNotSelected => "profile is not selected".to_owned(),
            InstallError::ProfileNotFound { profile } => {
                "profile not found: ".to_owned().concat(profile.as_str())
            },
            InstallError::ModuleNotFound { module } => {
                "module not found: ".to_owned().concat(module.as_str())
            },
            InstallError::ToolNotFound { tool } => {
                "tool not found: ".to_owned().concat(tool.as_str())
            },
            InstallError::InvalidPackageUrl { url } => {
                "cannot retrieve package name from url: ".to_owned().concat(url.as_str())
            },
            InstallError::ProcessFailed { program, stderr } => {
                "[".to_owned().concat(program.as_str()).concat("]\n").concat(stderr.as_str())
            },
            InstallError::DownloadFailed { url } => {
                "download failed: ".to_owned().concat(url.as_str())
            },
            InstallError::ArchiveExtractFailed { url } => {
                "archive extraction failed: ".to_owned().concat(url.as_str())
            },
        }
    }
}

} // verus!

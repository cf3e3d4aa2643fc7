//! Error taxonomy and process exit codes.

use vstd::prelude::*;

verus! {

/// Exit codes reported to the operating system.
#[derive(Debug, Clone, Copy, PartialEq, Eq, Structural)]
pub enum ExitCode {
    /// Success
    Success,
    /// General error
    GeneralError,
    /// Configuration/setup error (not bootstrapped, invalid config)
    ConfigError,
    /// Network error (download failed, manifest unreachable)
    NetworkError,
    /// JRE error (missing, corrupt, launch failed)
    JreError,
}

/// The numeric value reported for each exit code.
pub open spec fn spec_exit_code_value(code: ExitCode) -> int {
    match code {
        ExitCode::Success => 0,
        ExitCode::GeneralError => 1,
        ExitCode::ConfigError => 2,
        ExitCode::NetworkError => 3,
        ExitCode::JreError => 4,
    }
}

/// A delegated process's exit code remapped so that it stays distinguishable
/// from the tool's own codes while remaining in the 0-255 range.
pub open spec fn spec_jvm_passthrough(code: int) -> int {
    if code == 0 {
        0
    } else if abs_int(code) > 155 {
        255
    } else {
        100 + abs_int(code)
    }
}

pub open spec fn abs_int(x: int) -> int {
    if x < 0 {
        -x
    } else {
        x
    }
}

impl ExitCode {
    /// The numeric exit code handed to the operating system.
    pub fn as_i32(&self) -> (r: i32)
        ensures
            r == spec_exit_code_value(*self),
    {
        match self {
            ExitCode::Success => 0,
            ExitCode::GeneralError => 1,
            ExitCode::ConfigError => 2,
            ExitCode::NetworkError => 3,
            ExitCode::JreError => 4,
        }
    }

    /// Classify a JVM process exit code; the numeric pass-through value is
    /// computed separately by `jvm_passthrough`.
    pub fn from_jvm(code: i32) -> (r: ExitCode)
        ensures
            r == ExitCode::GeneralError,
    {
        let _ = code;
        ExitCode::GeneralError
    }

    /// Remap a delegated process's exit code to `100 + min(|code|, 155)`,
    /// keeping zero as zero.
    pub fn jvm_passthrough(code: i32) -> (r: i32)
        ensures
            r == spec_jvm_passthrough(code as int),
            0 <= r <= 255,
    {
        if code == 0 {
            0
        } else {
            let magnitude: i32 = if code == i32::MIN {
                155
            } else if code < 0 {
                -code
            } else {
                code
            };
            let capped: i32 = if magnitude > 155 { 155 } else { magnitude };
            100 + capped
        }
    }
}

/// Errors reported by the engine.
#[derive(Debug, Clone)]
pub enum KarateError {
    /// No usable runtime or artifact has been installed yet.
    NotBootstrapped,
    /// Invalid configuration.
    Config(String),
    /// Unreachable endpoint or non-success HTTP status.
    Network(String),
    /// Runtime missing, corrupt, or failing to launch.
    Jre(String),
    /// The application archive is absent from the given location.
    JarNotFound(String),
    /// A named plugin is absent.
    PluginNotFound(String),
    /// A download could not be completed.
    DownloadFailed(String),
    /// A downloaded artifact's digest differs from the expected checksum.
    ChecksumMismatch { file: String, expected: String, actual: String },
    /// The running operating system/architecture pair is not supported.
    UnsupportedPlatform { os: String, arch: String },
    /// An underlying I/O failure, carried as its message.
    Io(String),
    /// Any other failure.
    Other(String),
}

/// The exit code that each error maps to.
pub open spec fn spec_error_exit_code(e: KarateError) -> ExitCode {
    match e {
        KarateError::NotBootstrapped => ExitCode::ConfigError,
        KarateError::Config(_) => ExitCode::ConfigError,
        KarateError::Network(_) => ExitCode::NetworkError,
        KarateError::DownloadFailed(_) => ExitCode::NetworkError,
        KarateError::Jre(_) => ExitCode::JreError,
        _ => ExitCode::GeneralError,
    }
}

impl KarateError {
    /// Get the appropriate exit code for this error.
    pub fn exit_code(&self) -> (r: ExitCode)
        ensures
            r == spec_error_exit_code(*self),
    {
        match self {
            KarateError::NotBootstrapped | KarateError::Config(_) => ExitCode::ConfigError,
            KarateError::Network(_) | KarateError::DownloadFailed(_) => ExitCode::NetworkError,
            KarateError::Jre(_) => ExitCode::JreError,
            _ => ExitCode::GeneralError,
        }
    }

    /// A human-readable description of this error.
    pub fn message(&self) -> (r: String)
        ensures
            match self {
                KarateError::NotBootstrapped => r@
                    == "Karate is not set up. Run 'karate setup' first."@,
                KarateError::Config(s) => r@ == "Configuration error: "@ + s@,
                KarateError::Network(s) => r@ == "Network error: "@ + s@,
                KarateError::Jre(s) => r@ == "JRE error: "@ + s@,
                KarateError::JarNotFound(s) => r@ == "Karate JAR not found at "@ + s@,
                KarateError::PluginNotFound(s) => r@ == "Plugin not found: "@ + s@,
                KarateError::DownloadFailed(s) => r@ == "Download failed: "@ + s@,
                KarateError::ChecksumMismatch { file, expected, actual } => r@
                    == "Checksum mismatch for "@ + file@ + ": expected "@ + expected@ + ", got "@
                    + actual@,
                KarateError::UnsupportedPlatform { os, arch } => r@ == "Unsupported platform: "@
                    + os@ + "-"@ + arch@,
                KarateError::Io(s) => r@ == "IO error: "@ + s@,
                KarateError::Other(s) => r@ == s@,
            },
    {
        match self {
            KarateError::NotBootstrapped => "Karate is not set up. Run 'karate setup' first.".to_owned(),
            KarateError::Config(s) => crate::text::concat2("Configuration error: ", s.as_str()),
            KarateError::Network(s) => crate::text::concat2("Network error: ", s.as_str()),
            KarateError::Jre(s) => crate::text::concat2("JRE error: ", s.as_str()),
            KarateError::JarNotFound(s) => crate::text::concat2(
                "Karate JAR not found at ",
                s.as_str(),
            ),
            KarateError::PluginNotFound(s) => crate::text::concat2(
                "Plugin not found: ",
                s.as_str(),
            ),
            KarateError::DownloadFailed(s) => crate::text::concat2(
                "Download failed: ",
                s.as_str(),
            ),
            KarateError::ChecksumMismatch { file, expected, actual } => {
                let head = crate::text::concat3(
                    "Checksum mismatch for ",
                    file.as_str(),
                    ": expected ",
                );
                let tail = crate::text::concat3(expected.as_str(), ", got ", actual.as_str());
                let r = crate::text::concat2(head.as_str(), tail.as_str());
                proof {
                    assert(r@ =~= "Checksum mismatch for "@ + file@ + ": expected "@ + expected@
                        + ", got "@ + actual@);
                }
                r
            },
            KarateError::UnsupportedPlatform { os, arch } => {
                let head = crate::text::concat3("Unsupported platform: ", os.as_str(), "-");
                let r = crate::text::concat2(head.as_str(), arch.as_str());
                proof {
                    assert(r@ =~= "Unsupported platform: "@ + os@ + "-"@ + arch@);
                }
                r
            },
            KarateError::Io(s) => crate::text::concat2("IO error: ", s.as_str()),
            KarateError::Other(s) => s.clone(),
        }
    }
}

} // verus!

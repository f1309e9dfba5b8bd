//! The errors of the crate.

use vstd::prelude::*;
use vstd::string::*;
use crate::text::{char_text, signed_decimal, signed_digits};

verus! {

/// Everything that can go wrong while a toolchain is provisioned and a build
/// is run. Paths and outside errors are carried as text.
#[derive(Debug, Clone)]
pub enum CrossError {
    InvalidArgument(String),
    MissingValue(String),
    UnknownOption(String),
    TargetNotFound { target: String },
    UnsupportedTarget(String),
    UnsupportedGlibcVersion { version: String, supported: String },
    UnsupportedIphoneSdkVersion { version: String, supported: String },
    UnsupportedMacosSdkVersion { version: String, supported: String },
    UnsupportedFreebsdVersion { version: String, supported: String },
    DownloadFailed(String),
    HttpError(String),
    IoError { message: String, details: String },
    ProgramNotFound { program: String },
    CommandExecutionFailed { command: String, reason: String },
    ExtractionFailed(String),
    UnsupportedArchiveFormat(String),
    CompilerNotFound { path: String },
    SdkNotFound { path: String },
    SdkPathNotExist { path: String },
    CommandFailed { command: String },
    TargetInstallFailed { target: String },
    BuildStdRequired { target: String },
    CrossCompilationNotSupported { target_os: String, host_os: String },
    UnsupportedArchitecture { arch: String, os: String },
    EnvError(String),
    NoMatchingTargets { pattern: String },
    InvalidTargetTriple { target: String, invalid: char },
    CargoFailed { code: i32 },
    JsonError(String),
    RegexError(String),
    Other(String),
    ClapError(String),
}

/// The message of an error, for a person to read.
pub open spec fn message_text(e: CrossError) -> Seq<char> {
    match e {
        CrossError::InvalidArgument(a) => "Invalid argument: "@ + a@,
        CrossError::MissingValue(a) => "Missing required value for option: "@ + a@,
        CrossError::UnknownOption(a) => "Unknown option: "@ + a@,
        CrossError::TargetNotFound { target } => "Target not found: "@ + target@ + "\nUse '--list-targets' to see available targets"@,
        CrossError::UnsupportedTarget(a) => "Unsupported target: "@ + a@,
        CrossError::UnsupportedGlibcVersion { version, supported } => "Unsupported glibc version '"@ + version@ + "'\nSupported versions: "@ + supported@,
        CrossError::UnsupportedIphoneSdkVersion { version, supported } => "Unsupported iPhone SDK version '"@ + version@ + "'\nSupported versions: "@ + supported@,
        CrossError::UnsupportedMacosSdkVersion { version, supported } => "Unsupported macOS SDK version '"@ + version@ + "'\nSupported versions: "@ + supported@,
        CrossError::UnsupportedFreebsdVersion { version, supported } => "Unsupported FreeBSD version '"@ + version@ + "'\nSupported versions: "@ + supported@,
        CrossError::DownloadFailed(a) => "Download failed: "@ + a@,
        CrossError::HttpError(a) => "HTTP request failed: "@ + a@,
        CrossError::IoError { message, details } => "IO error: "@ + message@ + "\nDetails: "@ + details@,
        CrossError::ProgramNotFound { program } => "Program not found: '"@ + program@ + "'\nPlease ensure it is installed and available in PATH"@,
        CrossError::CommandExecutionFailed { command, reason } => "Failed to execute command: "@ + command@ + "\nError: "@ + reason@,
        CrossError::ExtractionFailed(a) => "Failed to extract archive: "@ + a@,
        CrossError::UnsupportedArchiveFormat(a) => "Unsupported archive format: "@ + a@,
        CrossError::CompilerNotFound { path } => "Cross-compiler not found at: "@ + path@ + "\nPlease check the toolchain installation"@,
        CrossError::SdkNotFound { path } => "SDK not found at: "@ + path@,
        CrossError::SdkPathNotExist { path } => "SDK path does not exist: "@ + path@,
        CrossError::CommandFailed { command } => "Command failed: "@ + command@,
        CrossError::TargetInstallFailed { target } => "Failed to install Rust target: "@ + target@ + "\nRun 'rustup target add "@ + target@ + "' manually to see details"@,
        CrossError::BuildStdRequired { target } => "Target '"@ + target@ + "' requires build-std but is not in rustc target list\nUse BUILD_STD=core,alloc or similar to enable build-std"@,
        CrossError::CrossCompilationNotSupported { target_os, host_os } => "Cross-compilation to "@ + target_os@ + " is not supported from "@ + host_os@,
        CrossError::UnsupportedArchitecture { arch, os } => "Unsupported architecture '"@ + arch@ + "' for "@ + os@,
        CrossError::EnvError(a) => "Environment variable error: "@ + a@,
        CrossError::NoMatchingTargets { pattern } => "No matching targets found for pattern '"@ + pattern@ + "'\nUse 'cargo-cross targets' to see available targets"@,
        CrossError::InvalidTargetTriple { target, invalid } => "Invalid target triple '"@ + target@ + "': contains invalid character '"@ + seq![invalid] + "'\nTarget triples may only contain lowercase letters (a-z), digits (0-9), hyphens (-), and underscores (_)"@,
        CrossError::CargoFailed { code } => "Cargo exited with code "@ + signed_digits(code as int),
        CrossError::JsonError(a) => "JSON serialization error: "@ + a@,
        CrossError::RegexError(a) => "Regex error: "@ + a@,
        CrossError::Other(a) => a@,
        CrossError::ClapError(a) => "CLI argument error: "@ + a@,
    }
}

impl CrossError {
    /// The message of the error, for a person to read.
    pub fn message(&self) -> (r: String)
        ensures
            r@ == message_text(*self),
    {
        let mut out = String::new();
        match self {
            CrossError::InvalidArgument(a) => {
                out.append("Invalid argument: ");
                out.append(a.as_str());
            },
            CrossError::MissingValue(a) => {
                out.append("Missing required value for option: ");
                out.append(a.as_str());
            },
            CrossError::UnknownOption(a) => {
                out.append("Unknown option: ");
                out.append(a.as_str());
            },
            CrossError::TargetNotFound { target } => {
                out.append("Target not found: ");
                out.append(target.as_str());
                out.append("\nUse '--list-targets' to see available targets");
            },
            CrossError::UnsupportedTarget(a) => {
                out.append("Unsupported target: ");
                out.append(a.as_str());
            },
            CrossError::UnsupportedGlibcVersion { version, supported } => {
                out.append("Unsupported glibc version '");
                out.append(version.as_str());
                out.append("'\nSupported versions: ");
                out.append(supported.as_str());
            },
            CrossError::UnsupportedIphoneSdkVersion { version, supported } => {
                out.append("Unsupported iPhone SDK version '");
                out.append(version.as_str());
                out.append("'\nSupported versions: ");
                out.append(supported.as_str());
            },
            CrossError::UnsupportedMacosSdkVersion { version, supported } => {
                out.append("Unsupported macOS SDK version '");
                out.append(version.as_str());
                out.append("'\nSupported versions: ");
                out.append(supported.as_str());
            },
            CrossError::UnsupportedFreebsdVersion { version, supported } => {
                out.append("Unsupported FreeBSD version '");
                out.append(version.as_str());
                out.append("'\nSupported versions: ");
                out.append(supported.as_str());
            },
            CrossError::DownloadFailed(a) => {
                out.append("Download failed: ");
                out.append(a.as_str());
            },
            CrossError::HttpError(a) => {
                out.append("HTTP request failed: ");
                out.append(a.as_str());
            },
            CrossError::IoError { message, details } => {
                out.append("IO error: ");
                out.append(message.as_str());
                out.append("\nDetails: ");
                out.append(details.as_str());
            },
            CrossError::ProgramNotFound { program } => {
                out.append("Program not found: '");
                out.append(program.as_str());
                out.append("'\nPlease ensure it is installed and available in PATH");
            },
            CrossError::CommandExecutionFailed { command, reason } => {
                out.append("Failed to execute command: ");
                out.append(command.as_str());
                out.append("\nError: ");
                out.append(reason.as_str());
            },
            CrossError::ExtractionFailed(a) => {
                out.append("Failed to extract archive: ");
                out.append(a.as_str());
            },
            CrossError::UnsupportedArchiveFormat(a) => {
                out.append("Unsupported archive format: ");
                out.append(a.as_str());
            },
            CrossError::CompilerNotFound { path } => {
                out.append("Cross-compiler not found at: ");
                out.append(path.as_str());
                out.append("\nPlease check the toolchain installation");
            },
            CrossError::SdkNotFound { path } => {
                out.append("SDK not found at: ");
                out.append(path.as_str());
            },
            CrossError::SdkPathNotExist { path } => {
                out.append("SDK path does not exist: ");
                out.append(path.as_str());
            },
            CrossError::CommandFailed { command } => {
                out.append("Command failed: ");
                out.append(command.as_str());
            },
            CrossError::TargetInstallFailed { target } => {
                out.append("Failed to install Rust target: ");
                out.append(target.as_str());
                out.append("\nRun 'rustup target add ");
                out.append(target.as_str());
                out.append("' manually to see details");
            },
            CrossError::BuildStdRequired { target } => {
                out.append("Target '");
                out.append(target.as_str());
                out.append("' requires build-std but is not in rustc target list\nUse BUILD_STD=core,alloc or similar to enable build-std");
            },
            CrossError::CrossCompilationNotSupported { target_os, host_os } => {
                out.append("Cross-compilation to ");
                out.append(target_os.as_str());
                out.append(" is not supported from ");
                out.append(host_os.as_str());
            },
            CrossError::UnsupportedArchitecture { arch, os } => {
                out.append("Unsupported architecture '");
                out.append(arch.as_str());
                out.append("' for ");
                out.append(os.as_str());
            },
            CrossError::EnvError(a) => {
                out.append("Environment variable error: ");
                out.append(a.as_str());
            },
            CrossError::NoMatchingTargets { pattern } => {
                out.append("No matching targets found for pattern '");
                out.append(pattern.as_str());
                out.append("'\nUse 'cargo-cross targets' to see available targets");
            },
            CrossError::InvalidTargetTriple { target, invalid } => {
                out.append("Invalid target triple '");
                out.append(target.as_str());
                out.append("': contains invalid character '");
                out.append(char_text(*invalid).as_str());
                out.append("'\nTarget triples may only contain lowercase letters (a-z), digits (0-9), hyphens (-), and underscores (_)");
            },
            CrossError::CargoFailed { code } => {
                out.append("Cargo exited with code ");
                out.append(signed_decimal(*code).as_str());
            },
            CrossError::JsonError(a) => {
                out.append("JSON serialization error: ");
                out.append(a.as_str());
            },
            CrossError::RegexError(a) => {
                out.append("Regex error: ");
                out.append(a.as_str());
            },
            CrossError::Other(a) => {
                out.append(a.as_str());
            },
            CrossError::ClapError(a) => {
                out.append("CLI argument error: ");
                out.append(a.as_str());
            },
        }
        proof {
            assert(out@ =~= message_text(*self));
        }
        out
    }
}

} // verus!

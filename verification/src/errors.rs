//! Error taxonomy of the provisioning engine: one kind per distinct failure,
//! none silently downgraded, plus short human-readable renderings.

use vstd::prelude::*;

verus! {

/// Failure kinds of one provisioning attempt.
#[derive(Clone, Copy, Debug, PartialEq, Eq, Structural)]
pub enum ProvisionError {
    /// The archive's filename names no supported container format.
    UnsupportedFormat,
    /// The container itself (zip table or tar structure) is malformed.
    CorruptArchive,
    /// The compressed stream around the container cannot be decompressed.
    DecompressionFailed,
    /// An underlying read, write or network transfer failed.
    IoError,
    /// The archive parsed cleanly but holds no entry for the target.
    TargetNotFoundInArchive,
    /// A progress notification could not be delivered to the observer.
    ObserverDeliveryFailed,
}

/// Failure kinds of the read-only verification operation.
#[derive(Clone, Copy, Debug, PartialEq, Eq, Structural)]
pub enum VerifyError {
    /// No executable is present at the expected destination path.
    ExecutableNotPresent,
    /// The executable could not be started, or exited unsuccessfully.
    ProcessInvocationFailed,
}

/// The human-readable rendering of each provisioning error kind.
pub open spec fn spec_provision_error_message(e: ProvisionError) -> Seq<char> {
    match e {
        ProvisionError::UnsupportedFormat => "unsupported archive format"@,
        ProvisionError::CorruptArchive => "malformed archive"@,
        ProvisionError::DecompressionFailed => "decompression failed"@,
        ProvisionError::IoError => "input/output failure"@,
        ProvisionError::TargetNotFoundInArchive => "FFmpeg binary not found in archive"@,
        ProvisionError::ObserverDeliveryFailed => "progress notification failed"@,
    }
}

/// The human-readable rendering of each verification error kind.
pub open spec fn spec_verify_error_message(e: VerifyError) -> Seq<char> {
    match e {
        VerifyError::ExecutableNotPresent => "FFmpeg not found. Please download it first."@,
        VerifyError::ProcessInvocationFailed => "FFmpeg test failed"@,
    }
}

impl ProvisionError {
    /// A short human-readable message for this error kind.
    pub fn message(&self) -> (r: &'static str)
        ensures
            r@ == spec_provision_error_message(*self),
    {
        match self {
            ProvisionError::UnsupportedFormat => "unsupported archive format",
            ProvisionError::CorruptArchive => "malformed archive",
            ProvisionError::DecompressionFailed => "decompression failed",
            ProvisionError::IoError => "input/output failure",
            ProvisionError::TargetNotFoundInArchive => "FFmpeg binary not found in archive",
            ProvisionError::ObserverDeliveryFailed => "progress notification failed",
        }
    }
}

impl VerifyError {
    /// A short human-readable message for this error kind.
    pub fn message(&self) -> (r: &'static str)
        ensures
            r@ == spec_verify_error_message(*self),
    {
        match self {
            VerifyError::ExecutableNotPresent => "FFmpeg not found. Please download it first.",
            VerifyError::ProcessInvocationFailed => "FFmpeg test failed",
        }
    }
}

} // verus!

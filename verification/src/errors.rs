//! Typed failures of the burn, erase, digest and encryption engines.

use vstd::prelude::*;

verus! {

/// Why an operation failed. Every failure of the pipeline is surfaced as one
/// of these; none is silently swallowed or retried internally.
#[derive(Debug, Clone, Copy, PartialEq, Eq, Structural)]
pub enum ErrorKind {
    /// A pipeline run was started while another was already in progress.
    AlreadyRunning,
    /// The source image does not exist or cannot be read.
    SourceNotFound,
    /// The target device could not be opened.
    DeviceOpenFailed,
    /// A read, write, seek or sync failed during erase, copy or verify.
    IoFailure,
    /// A hash or cipher name was not recognized.
    UnsupportedAlgorithm,
    /// Ciphertext input shorter than the nonce length.
    MalformedCiphertext,
    /// AEAD tag mismatch: the data was tampered with or the key is wrong.
    AuthenticationFailed,
    /// The key-derivation function rejected its inputs.
    KeyDerivationFailed,
    /// The run was cancelled by an external request.
    OperationCancelled,
    /// A configuration combination was rejected (e.g. unknown encryption type).
    RejectedInput,
}

impl ErrorKind {
    /// Human-readable cause string for each failure kind.
    pub open spec fn spec_message(self) -> Seq<char> {
        match self {
            ErrorKind::AlreadyRunning => "A burn operation is already in progress"@,
            ErrorKind::SourceNotFound => "Image file not found"@,
            ErrorKind::DeviceOpenFailed => "Failed to open device"@,
            ErrorKind::IoFailure => "I/O failure"@,
            ErrorKind::UnsupportedAlgorithm => "Unsupported algorithm"@,
            ErrorKind::MalformedCiphertext => "Invalid encrypted data"@,
            ErrorKind::AuthenticationFailed => "Decryption failed"@,
            ErrorKind::KeyDerivationFailed => "Key derivation failed"@,
            ErrorKind::OperationCancelled => "Operation cancelled"@,
            ErrorKind::RejectedInput => "Rejected input"@,
        }
    }

    /// Human-readable cause string for this failure.
    pub fn message(&self) -> (r: &'static str)
        ensures
            r@ == self.spec_message(),
    {
        match self {
            ErrorKind::AlreadyRunning => "A burn operation is already in progress",
            ErrorKind::SourceNotFound => "Image file not found",
            ErrorKind::DeviceOpenFailed => "Failed to open device",
            ErrorKind::IoFailure => "I/O failure",
            ErrorKind::UnsupportedAlgorithm => "Unsupported algorithm",
            ErrorKind::MalformedCiphertext => "Invalid encrypted data",
            ErrorKind::AuthenticationFailed => "Decryption failed",
            ErrorKind::KeyDerivationFailed => "Key derivation failed",
            ErrorKind::OperationCancelled => "Operation cancelled",
            ErrorKind::RejectedInput => "Rejected input",
        }
    }
}

} // verus!

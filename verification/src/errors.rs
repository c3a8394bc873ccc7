//! Application error type returned by every fallible operation of the library.
use vstd::prelude::*;
use crate::text::str_of;

verus! {

/// Typed application error for all backend operations.
///
/// Each variant carries a human-readable detail; `message` renders the
/// variant's prefix followed by that detail.
#[derive(Debug, Clone)]
pub enum AppError {
    /// A feature that is planned but not yet implemented in this phase.
    FeatureNotImplemented(String),
    /// A generic internal error with a human-readable message.
    Internal(String),
    /// An I/O error from the filesystem or other OS operations.
    Io(String),
    /// A serialization/deserialization error.
    Serialization(String),
    /// A requested resource was not found.
    NotFound(String),
    /// Input failed validation rules.
    ValidationError(String),
    /// A persistence or storage operation failed.
    StorageError(String),
    /// An operation was blocked by the privacy policy.
    PrivacyBlocked(String),
    /// An AI provider is unavailable or misconfigured.
    ProviderUnavailable(String),
    /// A diagnostics check or report operation failed.
    DiagnosticsError(String),
    /// An audio recording or device operation failed.
    AudioError(String),
    /// Local transcription could not run or produced nothing.
    TranscriptionError(String),
    /// AI text clean-up failed.
    CleanupError(String),
    /// A provider operation (keychain, connection test) failed.
    ProviderError(String),
}

impl AppError {
    /// The detail text the error carries.
    pub open spec fn detail(&self) -> Seq<char> {
        match self {
            AppError::FeatureNotImplemented(m) => m@,
            AppError::Internal(m) => m@,
            AppError::Io(m) => m@,
            AppError::Serialization(m) => m@,
            AppError::NotFound(m) => m@,
            AppError::ValidationError(m) => m@,
            AppError::StorageError(m) => m@,
            AppError::PrivacyBlocked(m) => m@,
            AppError::ProviderUnavailable(m) => m@,
            AppError::DiagnosticsError(m) => m@,
            AppError::AudioError(m) => m@,
            AppError::TranscriptionError(m) => m@,
            AppError::CleanupError(m) => m@,
            AppError::ProviderError(m) => m@,
        }
    }

    /// The prefix that names the variant in the rendered message.
    pub open spec fn prefix(&self) -> Seq<char> {
        match self {
            AppError::FeatureNotImplemented(_) => "Feature not implemented: "@,
            AppError::Internal(_) => "Internal error: "@,
            AppError::Io(_) => "IO error: "@,
            AppError::Serialization(_) => "Serialization error: "@,
            AppError::NotFound(_) => "Not found: "@,
            AppError::ValidationError(_) => "Validation error: "@,
            AppError::StorageError(_) => "Storage error: "@,
            AppError::PrivacyBlocked(_) => "Privacy blocked: "@,
            AppError::ProviderUnavailable(_) => "Provider unavailable: "@,
            AppError::DiagnosticsError(_) => "Diagnostics error: "@,
            AppError::AudioError(_) => "Audio error: "@,
            AppError::TranscriptionError(_) => "Transcription error: "@,
            AppError::CleanupError(_) => "Cleanup error: "@,
            AppError::ProviderError(_) => "Provider error: "@,
        }
    }

    /// The human-readable rendering of the error.
    pub fn message(&self) -> (r: String)
        ensures
            r@ == self.prefix() + self.detail(),
    {
        let (p, m) = match self {
            AppError::FeatureNotImplemented(m) => ("Feature not implemented: ", m),
            AppError::Internal(m) => ("Internal error: ", m),
            AppError::Io(m) => ("IO error: ", m),
            AppError::Serialization(m) => ("Serialization error: ", m),
            AppError::NotFound(m) => ("Not found: ", m),
            AppError::ValidationError(m) => ("Validation error: ", m),
            AppError::StorageError(m) => ("Storage error: ", m),
            AppError::PrivacyBlocked(m) => ("Privacy blocked: ", m),
            AppError::ProviderUnavailable(m) => ("Provider unavailable: ", m),
            AppError::DiagnosticsError(m) => ("Diagnostics error: ", m),
            AppError::AudioError(m) => ("Audio error: ", m),
            AppError::TranscriptionError(m) => ("Transcription error: ", m),
            AppError::CleanupError(m) => ("Cleanup error: ", m),
            AppError::ProviderError(m) => ("Provider error: ", m),
        };
        let mut r = str_of(p);
        r.append(m.as_str());
        r
    }
}

/// `r` failed with `NotFound` carrying detail `d`.
pub open spec fn fails_not_found<T>(r: Result<T, AppError>, d: Seq<char>) -> bool {
    r matches Err(e) && e is NotFound && e.detail() == d
}

/// `r` failed with `ValidationError` carrying detail `d`.
pub open spec fn fails_validation<T>(r: Result<T, AppError>, d: Seq<char>) -> bool {
    r matches Err(e) && e is ValidationError && e.detail() == d
}

/// `r` failed with `StorageError` carrying detail `d`.
pub open spec fn fails_storage<T>(r: Result<T, AppError>, d: Seq<char>) -> bool {
    r matches Err(e) && e is StorageError && e.detail() == d
}

/// `r` failed with `FeatureNotImplemented` carrying detail `d`.
pub open spec fn fails_not_implemented<T>(r: Result<T, AppError>, d: Seq<char>) -> bool {
    r matches Err(e) && e is FeatureNotImplemented && e.detail() == d
}

/// `r` failed with `CleanupError` carrying detail `d`.
pub open spec fn fails_cleanup<T>(r: Result<T, AppError>, d: Seq<char>) -> bool {
    r matches Err(e) && e is CleanupError && e.detail() == d
}

/// `r` failed with `PrivacyBlocked` carrying detail `d`.
pub open spec fn fails_privacy<T>(r: Result<T, AppError>, d: Seq<char>) -> bool {
    r matches Err(e) && e is PrivacyBlocked && e.detail() == d
}

/// `r` failed with `TranscriptionError` carrying detail `d`.
pub open spec fn fails_transcription<T>(r: Result<T, AppError>, d: Seq<char>) -> bool {
    r matches Err(e) && e is TranscriptionError && e.detail() == d
}

/// `r` failed with `ProviderError` carrying detail `d`.
pub open spec fn fails_provider<T>(r: Result<T, AppError>, d: Seq<char>) -> bool {
    r matches Err(e) && e is ProviderError && e.detail() == d
}

/// `r` failed with `AudioError` carrying detail `d`.
pub open spec fn fails_audio<T>(r: Result<T, AppError>, d: Seq<char>) -> bool {
    r matches Err(e) && e is AudioError && e.detail() == d
}

} // verus!

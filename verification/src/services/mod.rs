//! Business rules of the application, one module per domain.
use vstd::prelude::*;
use crate::errors::{AppError, fails_not_implemented};
use crate::text::str_of;

pub mod audio;
pub mod cleanup;
pub mod diagnostics;
pub mod history;
pub mod insertion;
pub mod modes;
pub mod privacy;
pub mod providers;
pub mod ptt;
pub mod retention;
pub mod settings;
pub mod shortcut;
pub mod status;
pub mod transcript;
pub mod transcription;
pub mod vocabulary;

verus! {

/// The early text-insertion entry point, kept for callers of the first
/// releases: it always reports that the feature is not available here.
pub fn insert_text(_text: &str) -> (r: Result<(), AppError>)
    ensures
        fails_not_implemented(r, "text insertion starts in Phase 6"@),
{
    Err(AppError::FeatureNotImplemented(str_of("text insertion starts in Phase 6")))
}

} // verus!

//! Data structures shared by the repositories and services.
use vstd::prelude::*;

verus! {

/// Summary of the application status for the home page.
#[derive(Debug, Clone)]
pub struct StatusSummary {
    /// Current privacy mode: "local-only" or "cloud-enabled"
    pub privacy_mode: String,
    /// Whether a transcription model is configured and ready
    pub transcription_ready: bool,
    /// Name of the active cleanup provider, if any
    pub cleanup_provider: Option<String>,
    /// Current dictation mode name
    pub active_mode: String,
    /// Total number of history entries
    pub history_count: u32,
}

/// Application-level settings stored per user.
#[derive(Debug, Clone)]
pub struct AppSettings {
    pub active_mode: String,
    pub local_only_mode: bool,
    pub theme: String,
    pub retention_days: u32,
    pub audio_history_enabled: bool,
    pub clipboard_restore_enabled: bool,
    /// Path of the whisper.cpp binary, when configured.
    pub whisper_binary_path: Option<String>,
    /// Path of the whisper model file, when configured.
    pub whisper_model_path: Option<String>,
    /// Global dictation shortcut, e.g. "CommandOrControl+Shift+Space".
    pub shortcut: String,
    /// "open_dictation" | "push_to_talk_hold" | "push_to_talk_toggle"
    pub shortcut_behavior: String,
    /// "clean_before_insert" | "insert_raw"
    pub ptt_output_mode: String,
}

/// A named dictation mode (Smart, Raw, Clean, Email, etc.).
#[derive(Debug, Clone)]
pub struct DictationMode {
    pub id: String,
    pub name: String,
    pub description: String,
    pub system_prompt: String,
    pub active: bool,
    /// True if this mode ships with the app and cannot be deleted.
    pub builtin: bool,
}

/// A vocabulary substitution rule.
#[derive(Debug, Clone)]
pub struct VocabularyEntry {
    pub id: String,
    pub term: String,
    pub replacement: String,
    pub category: String,
    pub enabled: bool,
}

/// A single transcription history record.
#[derive(Debug, Clone)]
pub struct HistoryEntry {
    pub id: String,
    pub raw_text: String,
    pub cleaned_text: String,
    pub mode_used: String,
    /// ISO 8601 timestamp string.
    pub timestamp: String,
    pub was_inserted: bool,
}

/// Configuration for an AI cleanup or transcription provider.
#[derive(Debug, Clone)]
pub struct AiProvider {
    pub id: String,
    pub name: String,
    /// "openai_compatible" | "ollama" | "local"
    pub provider_type: String,
    pub base_url: String,
    pub model: String,
    pub enabled: bool,
    pub use_for_cleanup: bool,
    pub use_for_transcription: bool,
    /// True if an API key has been stored; the key itself is never held here.
    pub api_key_set: bool,
}

/// Result of a single diagnostic check.
#[derive(Debug, Clone)]
pub struct DiagnosticCheck {
    pub name: String,
    /// "pass" | "fail" | "warn" | "skip"
    pub status: String,
    pub message: String,
}

/// Full diagnostics report returned to the frontend.
#[derive(Debug, Clone)]
pub struct DiagnosticReport {
    pub checks: Vec<DiagnosticCheck>,
    /// ISO 8601 timestamp string.
    pub generated_at: String,
}

/// Current privacy state returned to the frontend status bar.
#[derive(Debug, Clone)]
pub struct PrivacySummary {
    pub local_only_mode: bool,
    /// Days to retain audio files; 0 means delete immediately.
    pub audio_retention_days: u32,
    pub history_retention_days: u32,
    pub cloud_allowed: bool,
    pub reason: String,
}

/// Describes a privacy-relevant operation to evaluate before execution.
#[derive(Debug, Clone)]
pub struct PrivacyOperation {
    /// "transcribe" | "cleanup" | "export" | "cloud_call"
    pub operation_type: String,
    pub provider_id: Option<String>,
}

/// Result of a privacy enforcement check.
#[derive(Debug, Clone)]
pub struct PrivacyDecision {
    pub allowed: bool,
    pub reason: String,
}

/// Information about an available microphone input device.
#[derive(Debug, Clone)]
pub struct MicrophoneInfo {
    pub name: String,
    pub is_default: bool,
}

/// Result returned after a successful stop_recording call.
#[derive(Debug, Clone)]
pub struct RecordingResult {
    /// Absolute path to the written WAV file.
    pub file_path: String,
    pub duration_ms: u64,
    pub sample_rate: u32,
    /// Always 1 — WAV output is mono regardless of capture channels.
    pub channels: u16,
}

/// Result of an AI clean-up call.
#[derive(Debug, Clone)]
pub struct CleanupResult {
    pub cleaned_text: String,
    pub provider_id: String,
    pub provider_name: String,
    pub duration_ms: u64,
}

/// Result of a local transcription.
#[derive(Debug, Clone)]
pub struct TranscriptionResult {
    pub raw_text: String,
    pub duration_ms: u64,
    pub model_path: String,
}

/// Outcome of a text insertion attempt.
#[derive(Debug, Clone)]
pub struct InsertionResult {
    pub success: bool,
    /// "clipboard_paste" | "clipboard_only"
    pub method: String,
    pub message: String,
}

/// Status event emitted while the push-to-talk pipeline runs.
#[derive(Debug, Clone)]
pub struct PttStatusEvent {
    pub phase: String,
    pub message: String,
}

/// Counts of what a retention pass deleted.
#[derive(Debug, Clone, Copy)]
pub struct RetentionResult {
    pub deleted_history_count: u32,
    pub deleted_wav_count: u32,
}

} // verus!

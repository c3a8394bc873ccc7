//! The single settings row.
use vstd::prelude::*;
use crate::errors::AppError;
use crate::models::AppSettings;
use crate::text::str_of;

verus! {

/// A copy of an optional string.
pub fn copy_opt(s: &Option<String>) -> (r: Option<String>)
    ensures
        r == *s,
{
    match s {
        Some(v) => Some(v.clone()),
        None => None,
    }
}

impl AppSettings {
    /// A field-by-field copy.
    pub fn duplicate(&self) -> (r: AppSettings)
        ensures
            r == *self,
    {
        AppSettings {
            active_mode: self.active_mode.clone(),
            local_only_mode: self.local_only_mode,
            theme: self.theme.clone(),
            retention_days: self.retention_days,
            audio_history_enabled: self.audio_history_enabled,
            clipboard_restore_enabled: self.clipboard_restore_enabled,
            whisper_binary_path: copy_opt(&self.whisper_binary_path),
            whisper_model_path: copy_opt(&self.whisper_model_path),
            shortcut: self.shortcut.clone(),
            shortcut_behavior: self.shortcut_behavior.clone(),
            ptt_output_mode: self.ptt_output_mode.clone(),
        }
    }
}

/// Every setting but the shortcut is as a fresh installation has it.
pub open spec fn defaults_apart_from_shortcut(s: AppSettings) -> bool {
    &&& s.active_mode@ == "smart"@
    &&& !s.local_only_mode
    &&& s.theme@ == "dark"@
    &&& s.retention_days == 30
    &&& !s.audio_history_enabled
    &&& !s.clipboard_restore_enabled
    &&& s.whisper_binary_path is None
    &&& s.whisper_model_path is None
    &&& s.shortcut_behavior@ == "open_dictation"@
    &&& s.ptt_output_mode@ == "clean_before_insert"@
}

/// The settings a fresh installation starts with.
pub open spec fn is_default_settings(s: AppSettings) -> bool {
    &&& defaults_apart_from_shortcut(s)
    &&& s.shortcut@ == "CommandOrControl+Shift+Space"@
}

/// Settings of a fresh installation: Smart mode, cloud allowed, dark theme,
/// 30 days of retention, no audio history, no clipboard restore, no whisper
/// paths, the default shortcut opening the dictation window, clean-up before insert.
pub fn default_settings() -> (s: AppSettings)
    ensures
        is_default_settings(s),
{
    AppSettings {
        active_mode: str_of("smart"),
        local_only_mode: false,
        theme: str_of("dark"),
        retention_days: 30,
        audio_history_enabled: false,
        clipboard_restore_enabled: false,
        whisper_binary_path: None,
        whisper_model_path: None,
        shortcut: str_of("CommandOrControl+Shift+Space"),
        shortcut_behavior: str_of("open_dictation"),
        ptt_output_mode: str_of("clean_before_insert"),
    }
}

/// The settings table: at most one row.
pub struct SettingsRepository {
    row: Option<AppSettings>,
}

impl View for SettingsRepository {
    type V = Option<AppSettings>;

    closed spec fn view(&self) -> Option<AppSettings> {
        self.row
    }
}

impl SettingsRepository {
    /// The table as a fresh installation creates it: one row holding the defaults.
    pub fn new() -> (r: Self)
        ensures
            r@ matches Some(s) && is_default_settings(s),
    {
        SettingsRepository { row: Some(default_settings()) }
    }

    /// A table holding `row` as loaded from storage.
    pub fn from_row(row: Option<AppSettings>) -> (r: Self)
        ensures
            r@ == row,
    {
        SettingsRepository { row }
    }

    /// The persisted settings row, or the defaults if no row exists.
    pub fn get(&self) -> (r: Result<AppSettings, AppError>)
        ensures
            self@ matches Some(s) ==> r == Ok::<AppSettings, AppError>(s),
            self@ is None ==> (r matches Ok(s) && is_default_settings(s)),
    {
        match &self.row {
            Some(s) => Ok(s.duplicate()),
            None => Ok(default_settings()),
        }
    }

    /// Whether the settings row exists.
    pub fn is_stored(&self) -> (r: bool)
        ensures
            r == self@ is Some,
    {
        self.row.is_some()
    }

    /// Replaces all fields of the single settings row at once.
    pub fn upsert(&mut self, settings: &AppSettings) -> (r: Result<(), AppError>)
        ensures
            r is Ok,
            final(self)@ == Some(*settings),
    {
        self.row = Some(settings.duplicate());
        Ok(())
    }
}

} // verus!

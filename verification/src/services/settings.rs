//! Reading and writing the user's settings.
use vstd::prelude::*;
use crate::db::database::Database;
use crate::db::settings_repo::is_default_settings;
use crate::errors::AppError;
use crate::models::AppSettings;

verus! {

/// Settings as the application reads and writes them.
pub struct SettingsService;

impl SettingsService {
    /// The stored settings, or the defaults when none are stored.
    pub fn get_settings(&self, db: &Database) -> (r: Result<AppSettings, AppError>)
        ensures
            db.settings@ matches Some(s) ==> r == Ok::<AppSettings, AppError>(s),
            db.settings@ is None ==> (r matches Ok(s) && is_default_settings(s)),
    {
        db.settings.get()
    }

    /// Replaces the stored settings.
    pub fn update_settings(&self, db: &mut Database, settings: AppSettings) -> (r: Result<(), AppError>)
        ensures
            r is Ok,
            final(db).settings@ == Some(settings),
            final(db).modes == old(db).modes,
            final(db).vocabulary == old(db).vocabulary,
            final(db).history == old(db).history,
            final(db).providers == old(db).providers,
            final(db).schema_version == old(db).schema_version,
    {
        db.settings.upsert(&settings)
    }
}

} // verus!

//! All tables of the application in one place.
use vstd::prelude::*;
use crate::db::history_repo::HistoryRepository;
use crate::db::modes_repo::ModesRepository;
use crate::db::providers_repo::ProvidersRepository;
use crate::db::settings_repo::{SettingsRepository, is_default_settings};
use crate::db::vocabulary_repo::VocabularyRepository;

verus! {

/// The schema version a fully migrated database is at.
pub const CURRENT_SCHEMA_VERSION: i64 = 6;

/// The application's persisted state: settings, modes, vocabulary, history
/// and providers, plus the highest schema migration applied.
pub struct Database {
    pub settings: SettingsRepository,
    pub modes: ModesRepository,
    pub vocabulary: VocabularyRepository,
    pub history: HistoryRepository,
    pub providers: ProvidersRepository,
    /// Highest applied migration, `None` when none is recorded.
    pub schema_version: Option<i64>,
}

impl Database {
    /// Every keyed table has unique primary keys.
    pub open spec fn wf(&self) -> bool {
        &&& self.modes.wf()
        &&& self.vocabulary.wf()
        &&& self.history.wf()
        &&& self.providers.wf()
    }

    /// A freshly migrated database: default settings, the ten built-in modes,
    /// no vocabulary, history or providers, schema at the current version.
    pub fn new() -> (db: Self)
        ensures
            db.wf(),
            db.settings@ matches Some(s) && is_default_settings(s),
            db.modes@.len() == 10,
            db.vocabulary@.len() == 0,
            db.history@.len() == 0,
            db.providers@.len() == 0,
            db.schema_version == Some(CURRENT_SCHEMA_VERSION),
    {
        Database {
            settings: SettingsRepository::new(),
            modes: ModesRepository::new(),
            vocabulary: VocabularyRepository::new(),
            history: HistoryRepository::new(),
            providers: ProvidersRepository::new(),
            schema_version: Some(CURRENT_SCHEMA_VERSION),
        }
    }
}

} // verus!

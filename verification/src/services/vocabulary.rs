//! Vocabulary substitution rules as the application manages them.
use vstd::prelude::*;
use crate::db::database::Database;
use crate::db::table::{find_key, has_key, is_listing};
use crate::db::vocabulary_repo::entry_not_found;
use crate::errors::{AppError, fails_not_found, fails_storage};
use crate::models::VocabularyEntry;

verus! {

/// Vocabulary rules: list, add, edit and delete.
#[derive(Default)]
pub struct VocabularyService;

impl VocabularyService {
    /// All entries, alphabetically by term.
    pub fn list_vocabulary(&self, db: &Database) -> (r: Result<Vec<VocabularyEntry>, AppError>)
        ensures
            r matches Ok(v) && is_listing(v@, db.vocabulary@),
    {
        db.vocabulary.list()
    }

    /// Adds an entry under its own id.
    pub fn add_entry(&self, db: &mut Database, entry: VocabularyEntry) -> (r: Result<VocabularyEntry, AppError>)
        requires
            old(db).wf(),
        ensures
            final(db).wf(),
            final(db).settings == old(db).settings,
            final(db).modes == old(db).modes,
            final(db).history == old(db).history,
            final(db).providers == old(db).providers,
            final(db).schema_version == old(db).schema_version,
            has_key(old(db).vocabulary@, entry.id@) ==> final(db).vocabulary@ == old(db).vocabulary@
                && fails_storage(r, "UNIQUE constraint failed: vocabulary.id"@),
            !has_key(old(db).vocabulary@, entry.id@) ==> final(db).vocabulary@ == old(db).vocabulary@.push(entry)
                && r == Ok::<VocabularyEntry, AppError>(entry),
    {
        db.vocabulary.create(&entry)
    }

    /// Replaces an existing entry; `NotFound` if its id is unknown.
    pub fn update_entry(&self, db: &mut Database, entry: VocabularyEntry) -> (r: Result<VocabularyEntry, AppError>)
        requires
            old(db).wf(),
        ensures
            final(db).wf(),
            final(db).settings == old(db).settings,
            final(db).modes == old(db).modes,
            final(db).history == old(db).history,
            final(db).providers == old(db).providers,
            final(db).schema_version == old(db).schema_version,
            find_key(old(db).vocabulary@, entry.id@) is None ==> final(db).vocabulary@ == old(db).vocabulary@
                && fails_not_found(r, entry_not_found(entry.id@)),
            find_key(old(db).vocabulary@, entry.id@) is Some ==> r == Ok::<VocabularyEntry, AppError>(entry)
                && find_key(final(db).vocabulary@, entry.id@) == Some(entry)
                && forall|k: Seq<char>| k != entry.id@ ==> find_key(final(db).vocabulary@, k) == find_key(old(db).vocabulary@, k),
    {
        db.vocabulary.update(&entry)
    }

    /// Deletes the entry with id `id`; `NotFound` if there is none.
    pub fn delete_entry(&self, db: &mut Database, id: String) -> (r: Result<(), AppError>)
        requires
            old(db).wf(),
        ensures
            final(db).wf(),
            final(db).settings == old(db).settings,
            final(db).modes == old(db).modes,
            final(db).history == old(db).history,
            final(db).providers == old(db).providers,
            final(db).schema_version == old(db).schema_version,
            find_key(old(db).vocabulary@, id@) is None ==> final(db).vocabulary@ == old(db).vocabulary@
                && fails_not_found(r, entry_not_found(id@)),
            find_key(old(db).vocabulary@, id@) is Some ==> r is Ok
                && !has_key(final(db).vocabulary@, id@)
                && forall|k: Seq<char>| k != id@ ==> find_key(final(db).vocabulary@, k) == find_key(old(db).vocabulary@, k),
    {
        db.vocabulary.delete(id.as_str())
    }
}

} // verus!

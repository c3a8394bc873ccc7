//! Dictation modes as the application manages them.
use vstd::prelude::*;
use crate::db::database::Database;
use crate::db::modes_repo::{as_custom, builtin_modes_kept, mode_not_found, with_edits};
use crate::db::table::{find_key, has_key, is_listing};
use crate::errors::{AppError, fails_not_found, fails_storage, fails_validation};
use crate::models::DictationMode;

verus! {

/// Dictation modes: list, read, create, edit and delete.
#[derive(Default)]
pub struct ModesService;

impl ModesService {
    /// All modes: built-in first, then custom, alphabetically within each group.
    pub fn list_modes(&self, db: &Database) -> (r: Result<Vec<DictationMode>, AppError>)
        ensures
            r matches Ok(v) && is_listing(v@, db.modes@),
    {
        db.modes.list()
    }

    /// The mode with id `id`, or `NotFound`.
    pub fn get_mode(&self, db: &Database, id: String) -> (r: Result<DictationMode, AppError>)
        requires
            db.wf(),
        ensures
            find_key(db.modes@, id@) is Some ==> r == Ok::<DictationMode, AppError>(find_key(db.modes@, id@)->0),
            find_key(db.modes@, id@) is None ==> fails_not_found(r, mode_not_found(id@)),
    {
        db.modes.get(id.as_str())
    }

    /// Creates a custom mode (never built-in).
    pub fn create_mode(&self, db: &mut Database, mode: DictationMode) -> (r: Result<DictationMode, AppError>)
        requires
            old(db).wf(),
        ensures
            final(db).wf(),
            final(db).settings == old(db).settings,
            final(db).vocabulary == old(db).vocabulary,
            final(db).history == old(db).history,
            final(db).providers == old(db).providers,
            final(db).schema_version == old(db).schema_version,
            has_key(old(db).modes@, mode.id@) ==> final(db).modes@ == old(db).modes@
                && fails_storage(r, "UNIQUE constraint failed: modes.id"@),
            !has_key(old(db).modes@, mode.id@) ==> final(db).modes@ == old(db).modes@.push(as_custom(mode))
                && r == Ok::<DictationMode, AppError>(as_custom(mode)),
            builtin_modes_kept(old(db).modes@, final(db).modes@),
    {
        db.modes.create(&mode)
    }

    /// Edits a custom mode; built-in modes cannot be modified.
    pub fn update_mode(&self, db: &mut Database, mode: DictationMode) -> (r: Result<DictationMode, AppError>)
        requires
            old(db).wf(),
        ensures
            final(db).wf(),
            final(db).settings == old(db).settings,
            final(db).vocabulary == old(db).vocabulary,
            final(db).history == old(db).history,
            final(db).providers == old(db).providers,
            final(db).schema_version == old(db).schema_version,
            find_key(old(db).modes@, mode.id@) is None ==> final(db).modes@ == old(db).modes@
                && fails_not_found(r, mode_not_found(mode.id@)),
            find_key(old(db).modes@, mode.id@) is Some && find_key(old(db).modes@, mode.id@)->0.builtin ==>
                final(db).modes@ == old(db).modes@
                && fails_validation(r, "built-in mode '"@ + mode.id@ + "' cannot be modified"@),
            find_key(old(db).modes@, mode.id@) is Some && !find_key(old(db).modes@, mode.id@)->0.builtin ==>
                r == Ok::<DictationMode, AppError>(with_edits(find_key(old(db).modes@, mode.id@)->0, mode))
                && find_key(final(db).modes@, mode.id@) == Some(with_edits(find_key(old(db).modes@, mode.id@)->0, mode))
                && forall|k: Seq<char>| k != mode.id@ ==> find_key(final(db).modes@, k) == find_key(old(db).modes@, k),
            builtin_modes_kept(old(db).modes@, final(db).modes@),
    {
        db.modes.update(&mode)
    }

    /// Deletes a custom mode; built-in modes cannot be deleted.
    pub fn delete_mode(&self, db: &mut Database, id: String) -> (r: Result<(), AppError>)
        requires
            old(db).wf(),
        ensures
            final(db).wf(),
            final(db).settings == old(db).settings,
            final(db).vocabulary == old(db).vocabulary,
            final(db).history == old(db).history,
            final(db).providers == old(db).providers,
            final(db).schema_version == old(db).schema_version,
            find_key(old(db).modes@, id@) is None ==> final(db).modes@ == old(db).modes@
                && fails_not_found(r, mode_not_found(id@)),
            find_key(old(db).modes@, id@) is Some && find_key(old(db).modes@, id@)->0.builtin ==>
                final(db).modes@ == old(db).modes@
                && fails_validation(r, "built-in mode '"@ + id@ + "' cannot be deleted"@),
            find_key(old(db).modes@, id@) is Some && !find_key(old(db).modes@, id@)->0.builtin ==> r is Ok
                && !has_key(final(db).modes@, id@)
                && forall|k: Seq<char>| k != id@ ==> find_key(final(db).modes@, k) == find_key(old(db).modes@, k),
            builtin_modes_kept(old(db).modes@, final(db).modes@),
    {
        db.modes.delete(id.as_str())
    }
}

} // verus!

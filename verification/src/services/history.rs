//! Transcription history as the application manages it.
use vstd::prelude::*;
use crate::clock::{new_uuid_string, now_rfc3339};
use crate::db::database::Database;
use crate::db::history_repo::history_not_found;
use crate::db::table::{find_key, has_key, is_listing, Row};
use crate::errors::{AppError, fails_not_found, fails_storage};
use crate::models::HistoryEntry;

verus! {

/// The stored row `e` is `entry` with id `id` and timestamp `ts`.
pub open spec fn stored_as(e: HistoryEntry, entry: HistoryEntry, id: Seq<char>, ts: Seq<char>) -> bool {
    &&& e.id@ == id
    &&& e.timestamp@ == ts
    &&& e.raw_text == entry.raw_text
    &&& e.cleaned_text == entry.cleaned_text
    &&& e.mode_used == entry.mode_used
    &&& e.was_inserted == entry.was_inserted
}

/// Transcription history: list, read, record, mark, delete and clear.
#[derive(Default)]
pub struct HistoryService;

impl HistoryService {
    /// All entries, newest first.
    pub fn list_history(&self, db: &Database) -> (r: Result<Vec<HistoryEntry>, AppError>)
        ensures
            r matches Ok(v) && is_listing(v@, db.history@),
    {
        db.history.list()
    }

    /// The entry with id `id`, or `NotFound`.
    pub fn get_entry(&self, db: &Database, id: String) -> (r: Result<HistoryEntry, AppError>)
        requires
            db.wf(),
        ensures
            find_key(db.history@, id@) is Some ==> r == Ok::<HistoryEntry, AppError>(find_key(db.history@, id@)->0),
            find_key(db.history@, id@) is None ==> fails_not_found(r, history_not_found(id@)),
    {
        db.history.get(id.as_str())
    }

    /// Deletes the entry with id `id`; `NotFound` if there is none.
    pub fn delete_entry(&self, db: &mut Database, id: String) -> (r: Result<(), AppError>)
        requires
            old(db).wf(),
        ensures
            final(db).wf(),
            final(db).settings == old(db).settings,
            final(db).modes == old(db).modes,
            final(db).vocabulary == old(db).vocabulary,
            final(db).providers == old(db).providers,
            final(db).schema_version == old(db).schema_version,
            find_key(old(db).history@, id@) is None ==> final(db).history@ == old(db).history@
                && fails_not_found(r, history_not_found(id@)),
            find_key(old(db).history@, id@) is Some ==> r is Ok
                && !has_key(final(db).history@, id@)
                && forall|k: Seq<char>| k != id@ ==> find_key(final(db).history@, k) == find_key(old(db).history@, k),
    {
        db.history.delete(id.as_str())
    }

    /// Deletes every entry.
    pub fn clear_history(&self, db: &mut Database) -> (r: Result<(), AppError>)
        requires
            old(db).wf(),
        ensures
            final(db).wf(),
            r is Ok,
            final(db).history@.len() == 0,
            final(db).settings == old(db).settings,
            final(db).modes == old(db).modes,
            final(db).vocabulary == old(db).vocabulary,
            final(db).providers == old(db).providers,
            final(db).schema_version == old(db).schema_version,
    {
        db.history.clear()
    }

    /// Records `entry`, with an empty id replaced by `fresh_id` and an empty
    /// timestamp by `now`; a taken id is refused as a storage error.
    pub fn create_history_entry_with(&self, db: &mut Database, entry: HistoryEntry, fresh_id: String, now: String) -> (r: Result<HistoryEntry, AppError>)
        requires
            old(db).wf(),
        ensures
            final(db).wf(),
            final(db).settings == old(db).settings,
            final(db).modes == old(db).modes,
            final(db).vocabulary == old(db).vocabulary,
            final(db).providers == old(db).providers,
            final(db).schema_version == old(db).schema_version,
            ({
                let id = if entry.id@.len() == 0 { fresh_id@ } else { entry.id@ };
                let ts = if entry.timestamp@.len() == 0 { now@ } else { entry.timestamp@ };
                &&& has_key(old(db).history@, id) ==> final(db).history@ == old(db).history@
                    && fails_storage(r, "UNIQUE constraint failed: history.id"@)
                &&& !has_key(old(db).history@, id) ==> (r matches Ok(e) && stored_as(e, entry, id, ts)
                    && final(db).history@ == old(db).history@.push(e))
            }),
    {
        let id = if entry.id.as_str().is_empty() { fresh_id } else { entry.id.clone() };
        let timestamp = if entry.timestamp.as_str().is_empty() { now } else { entry.timestamp.clone() };
        let row = HistoryEntry {
            id,
            raw_text: entry.raw_text,
            cleaned_text: entry.cleaned_text,
            mode_used: entry.mode_used,
            timestamp,
            was_inserted: entry.was_inserted,
        };
        db.history.create(&row)
    }

    /// Records `entry`, giving it a fresh UUID when its id is empty and the
    /// current time when its timestamp is empty. A given id that is already
    /// taken is refused as a storage error; a drawn one can only be refused
    /// when some stored id has the UUID's length.
    pub fn create_history_entry(&self, db: &mut Database, entry: HistoryEntry) -> (r: Result<HistoryEntry, AppError>)
        requires
            old(db).wf(),
        ensures
            final(db).wf(),
            final(db).settings == old(db).settings,
            final(db).modes == old(db).modes,
            final(db).vocabulary == old(db).vocabulary,
            final(db).providers == old(db).providers,
            final(db).schema_version == old(db).schema_version,
            r matches Ok(e) ==> final(db).history@ == old(db).history@.push(e)
                && e.raw_text == entry.raw_text && e.cleaned_text == entry.cleaned_text
                && e.mode_used == entry.mode_used && e.was_inserted == entry.was_inserted
                && (entry.id@.len() > 0 ==> e.id@ == entry.id@)
                && (entry.id@.len() == 0 ==> e.id@.len() == 36)
                && (entry.timestamp@.len() > 0 ==> e.timestamp@ == entry.timestamp@)
                && e.timestamp@.len() > 0,
            r is Err ==> final(db).history@ == old(db).history@
                && fails_storage(r, "UNIQUE constraint failed: history.id"@)
                && (entry.id@.len() > 0 ==> has_key(old(db).history@, entry.id@))
                && (entry.id@.len() == 0 ==> exists|i: int| 0 <= i < old(db).history@.len()
                    && (#[trigger] old(db).history@[i]).id@.len() == 36),
            entry.id@.len() > 0 && !has_key(old(db).history@, entry.id@) ==> r is Ok,
            entry.id@.len() == 0 && (forall|i: int| 0 <= i < old(db).history@.len()
                ==> (#[trigger] old(db).history@[i]).id@.len() != 36) ==> r is Ok,
    {
        let fresh_id = new_uuid_string();
        let now = now_rfc3339();
        let ghost before = db.history@;
        let r = self.create_history_entry_with(db, entry, fresh_id, now);
        proof {
            if entry.id@.len() == 0 && has_key(before, fresh_id@) {
                let i = choose|i: int| 0 <= i < before.len() && #[trigger] before[i].key() == fresh_id@;
                assert(before[i].id@.len() == 36);
            }
        }
        r
    }

    /// Marks the entry as inserted into an external application; `NotFound`
    /// if there is none.
    pub fn mark_inserted(&self, db: &mut Database, id: String) -> (r: Result<(), AppError>)
        requires
            old(db).wf(),
        ensures
            final(db).wf(),
            final(db).settings == old(db).settings,
            final(db).modes == old(db).modes,
            final(db).vocabulary == old(db).vocabulary,
            final(db).providers == old(db).providers,
            final(db).schema_version == old(db).schema_version,
            find_key(old(db).history@, id@) is None ==> final(db).history@ == old(db).history@
                && fails_not_found(r, history_not_found(id@)),
            find_key(old(db).history@, id@) is Some ==> r is Ok
                && find_key(final(db).history@, id@) == Some(HistoryEntry { was_inserted: true, ..find_key(old(db).history@, id@)->0 })
                && final(db).history@.len() == old(db).history@.len()
                && forall|k: Seq<char>| k != id@ ==> find_key(final(db).history@, k) == find_key(old(db).history@, k),
    {
        db.history.mark_inserted(id.as_str())
    }
}

} // verus!

//! The vocabulary table: substitution rules listed alphabetically by term.
use vstd::prelude::*;
use crate::db::table::{Row, has_key, find_key, keys_unique, is_listing, position, listing, insert_unique, law_update_then_find, law_remove_then_find, copy_rows, unique_rows};
use crate::errors::{AppError, fails_not_found, fails_storage};
use crate::models::VocabularyEntry;
use crate::text::{lex_le, str_lex_le, lemma_lex_le_total, lemma_lex_le_trans, concat3, str_of};

verus! {

impl Row for VocabularyEntry {
    open spec fn key(&self) -> Seq<char> {
        self.id@
    }

    /// Alphabetical by term.
    open spec fn precedes(&self, other: &Self) -> bool {
        lex_le(self.term@, other.term@)
    }

    fn key_ref(&self) -> (r: &String) {
        &self.id
    }

    fn precedes_exec(&self, other: &Self) -> (r: bool) {
        str_lex_le(self.term.as_str(), other.term.as_str())
    }

    fn duplicate(&self) -> (r: Self) {
        VocabularyEntry {
            id: self.id.clone(),
            term: self.term.clone(),
            replacement: self.replacement.clone(),
            category: self.category.clone(),
            enabled: self.enabled,
        }
    }

    proof fn lemma_precedes_total(a: Self, b: Self) {
        lemma_lex_le_total(a.term@, b.term@);
    }

    proof fn lemma_precedes_trans(a: Self, b: Self, c: Self) {
        lemma_lex_le_trans(a.term@, b.term@, c.term@);
    }
}

/// The detail of the error for an unknown vocabulary id.
pub open spec fn entry_not_found(id: Seq<char>) -> Seq<char> {
    "vocabulary entry '"@ + id + "'"@
}

/// The vocabulary table.
pub struct VocabularyRepository {
    rows: Vec<VocabularyEntry>,
}

impl View for VocabularyRepository {
    type V = Seq<VocabularyEntry>;

    closed spec fn view(&self) -> Seq<VocabularyEntry> {
        self.rows@
    }
}

impl VocabularyRepository {
    /// No two entries share an id.
    pub open spec fn wf(&self) -> bool {
        keys_unique(self@)
    }

    /// An empty table.
    pub fn new() -> (r: Self)
        ensures
            r.wf(),
            r@.len() == 0,
    {
        VocabularyRepository { rows: Vec::new() }
    }

    /// A table holding `rows` as loaded from storage; `None` when two share an id.
    pub fn from_rows(rows: Vec<VocabularyEntry>) -> (r: Option<Self>)
        ensures
            r is Some <==> keys_unique(rows@),
            r matches Some(t) ==> t@ == rows@ && t.wf(),
    {
        match unique_rows(rows) {
            Some(v) => Some(VocabularyRepository { rows: v }),
            None => None,
        }
    }

    /// Every stored row, in table order (for writing back to storage).
    pub fn rows(&self) -> (r: Vec<VocabularyEntry>)
        ensures
            r@ == self@,
    {
        copy_rows(&self.rows)
    }

    /// All entries, alphabetically by term.
    pub fn list(&self) -> (r: Result<Vec<VocabularyEntry>, AppError>)
        ensures
            r matches Ok(v) && is_listing(v@, self@),
    {
        Ok(listing(&self.rows))
    }

    /// The entry with id `id`, or `NotFound`.
    pub fn get(&self, id: &str) -> (r: Result<VocabularyEntry, AppError>)
        requires
            self.wf(),
        ensures
            find_key(self@, id@) is Some ==> r == Ok::<VocabularyEntry, AppError>(find_key(self@, id@)->0),
            find_key(self@, id@) is None ==> fails_not_found(r, entry_not_found(id@)),
    {
        match position(&self.rows, id) {
            Some(k) => Ok(self.rows[k].duplicate()),
            None => Err(AppError::NotFound(concat3("vocabulary entry '", id, "'"))),
        }
    }

    /// Inserts a new entry; an id that is already taken is refused as a storage error.
    pub fn create(&mut self, entry: &VocabularyEntry) -> (r: Result<VocabularyEntry, AppError>)
        requires
            old(self).wf(),
        ensures
            final(self).wf(),
            has_key(old(self)@, entry.id@) ==> final(self)@ == old(self)@
                && fails_storage(r, "UNIQUE constraint failed: vocabulary.id"@),
            !has_key(old(self)@, entry.id@) ==> final(self)@ == old(self)@.push(*entry)
                && r == Ok::<VocabularyEntry, AppError>(*entry),
    {
        if insert_unique(&mut self.rows, entry.duplicate()) {
            Ok(entry.duplicate())
        } else {
            Err(AppError::StorageError(str_of("UNIQUE constraint failed: vocabulary.id")))
        }
    }

    /// Replaces the term, replacement, category and enabled flag of the entry
    /// with `entry.id`; `NotFound` if there is none.
    pub fn update(&mut self, entry: &VocabularyEntry) -> (r: Result<VocabularyEntry, AppError>)
        requires
            old(self).wf(),
        ensures
            final(self).wf(),
            find_key(old(self)@, entry.id@) is None ==> final(self)@ == old(self)@
                && fails_not_found(r, entry_not_found(entry.id@)),
            find_key(old(self)@, entry.id@) is Some ==> r == Ok::<VocabularyEntry, AppError>(*entry)
                && find_key(final(self)@, entry.id@) == Some(*entry)
                && final(self)@.len() == old(self)@.len()
                && forall|k: Seq<char>| k != entry.id@ ==> find_key(final(self)@, k) == find_key(old(self)@, k),
    {
        match position(&self.rows, entry.id.as_str()) {
            None => Err(AppError::NotFound(concat3("vocabulary entry '", entry.id.as_str(), "'"))),
            Some(k) => {
                let row = entry.duplicate();
                proof { law_update_then_find(self.rows@, k as int, row); }
                self.rows.set(k, row);
                Ok(entry.duplicate())
            }
        }
    }

    /// Deletes the entry with id `id`; `NotFound` if there is none.
    pub fn delete(&mut self, id: &str) -> (r: Result<(), AppError>)
        requires
            old(self).wf(),
        ensures
            final(self).wf(),
            find_key(old(self)@, id@) is None ==> final(self)@ == old(self)@ && fails_not_found(r, entry_not_found(id@)),
            find_key(old(self)@, id@) is Some ==> r is Ok
                && !has_key(final(self)@, id@)
                && final(self)@.len() + 1 == old(self)@.len()
                && forall|k: Seq<char>| k != id@ ==> find_key(final(self)@, k) == find_key(old(self)@, k),
    {
        match position(&self.rows, id) {
            None => Err(AppError::NotFound(concat3("vocabulary entry '", id, "'"))),
            Some(k) => {
                proof { law_remove_then_find(self.rows@, k as int); }
                self.rows.remove(k);
                Ok(())
            }
        }
    }
}

} // verus!

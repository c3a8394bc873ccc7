//! The transcription history table.
use vstd::prelude::*;
use crate::db::table::{Row, has_key, find_key, keys_unique, is_listing, position, listing, insert_unique, law_update_then_find, law_remove_then_find, copy_rows, unique_rows};
use crate::errors::{AppError, fails_not_found, fails_storage};
use crate::models::HistoryEntry;
use crate::text::{lex_le, str_lex_le, lemma_lex_le_total, lemma_lex_le_trans, concat3, str_of};
use crate::time::{timestamp_seconds, parse_timestamp};

verus! {

impl Row for HistoryEntry {
    open spec fn key(&self) -> Seq<char> {
        self.id@
    }

    /// Newest first: descending by timestamp text.
    open spec fn precedes(&self, other: &Self) -> bool {
        lex_le(other.timestamp@, self.timestamp@)
    }

    fn key_ref(&self) -> (r: &String) {
        &self.id
    }

    fn precedes_exec(&self, other: &Self) -> (r: bool) {
        str_lex_le(other.timestamp.as_str(), self.timestamp.as_str())
    }

    fn duplicate(&self) -> (r: Self) {
        HistoryEntry {
            id: self.id.clone(),
            raw_text: self.raw_text.clone(),
            cleaned_text: self.cleaned_text.clone(),
            mode_used: self.mode_used.clone(),
            timestamp: self.timestamp.clone(),
            was_inserted: self.was_inserted,
        }
    }

    proof fn lemma_precedes_total(a: Self, b: Self) {
        lemma_lex_le_total(a.timestamp@, b.timestamp@);
    }

    proof fn lemma_precedes_trans(a: Self, b: Self, c: Self) {
        lemma_lex_le_trans(c.timestamp@, b.timestamp@, a.timestamp@);
    }
}

/// The detail of the error for an unknown history id.
pub open spec fn history_not_found(id: Seq<char>) -> Seq<char> {
    "history entry '"@ + id + "'"@
}

/// The entry's timestamp names an instant before `cutoff` (seconds since the epoch).
pub open spec fn is_expired(e: HistoryEntry, cutoff: int) -> bool {
    timestamp_seconds(e.timestamp@) matches Some(t) && t < cutoff
}

/// The entries that are not expired at `cutoff`, in table order.
pub open spec fn unexpired(s: Seq<HistoryEntry>, cutoff: int) -> Seq<HistoryEntry>
    decreases s.len(),
{
    if s.len() == 0 {
        Seq::empty()
    } else if is_expired(s.last(), cutoff) {
        unexpired(s.drop_last(), cutoff)
    } else {
        unexpired(s.drop_last(), cutoff).push(s.last())
    }
}

/// Retention keeps exactly the entries that have not expired: an entry is
/// kept if and only if it was there and its timestamp is not before the cutoff
/// (entries without a readable timestamp are kept).
pub proof fn law_retention_keeps_exactly_unexpired(s: Seq<HistoryEntry>, cutoff: int, e: HistoryEntry)
    ensures
        unexpired(s, cutoff).contains(e) <==> (s.contains(e) && !is_expired(e, cutoff)),
    decreases s.len(),
{
    if s.len() > 0 {
        let d = s.drop_last();
        law_retention_keeps_exactly_unexpired(d, cutoff, e);
        assert(s =~= d.push(s.last()));
        if d.contains(e) {
            let j = choose|j: int| 0 <= j < d.len() && d[j] == e;
            assert(s[j] == e);
        }
        if s.contains(e) && e != s.last() {
            let j = choose|j: int| 0 <= j < s.len() && s[j] == e;
            assert(j < d.len());
            assert(d[j] == e);
        }
        let u = unexpired(d, cutoff);
        if !is_expired(s.last(), cutoff) {
            assert(u.push(s.last())[u.len() as int] == s.last());
            if u.contains(e) {
                let j = choose|j: int| 0 <= j < u.len() && u[j] == e;
                assert(u.push(s.last())[j] == e);
            }
            if u.push(s.last()).contains(e) && e != s.last() {
                let j = choose|j: int| 0 <= j < u.len() + 1 && u.push(s.last())[j] == e;
                assert(j < u.len());
                assert(u[j] == e);
            }
        }
    }
}

/// Retention never leaves more entries than there were.
pub proof fn law_retention_shrinks(s: Seq<HistoryEntry>, cutoff: int)
    ensures
        unexpired(s, cutoff).len() <= s.len(),
{
    lemma_unexpired_len(s, cutoff);
}

/// The history table.
pub struct HistoryRepository {
    rows: Vec<HistoryEntry>,
}

impl View for HistoryRepository {
    type V = Seq<HistoryEntry>;

    closed spec fn view(&self) -> Seq<HistoryEntry> {
        self.rows@
    }
}

proof fn lemma_unexpired_len(s: Seq<HistoryEntry>, cutoff: int)
    ensures
        unexpired(s, cutoff).len() <= s.len(),
    decreases s.len(),
{
    if s.len() > 0 {
        lemma_unexpired_len(s.drop_last(), cutoff);
    }
}

proof fn lemma_unexpired_keys(s: Seq<HistoryEntry>, cutoff: int)
    requires
        keys_unique(s),
    ensures
        keys_unique(unexpired(s, cutoff)),
        forall|i: int| 0 <= i < unexpired(s, cutoff).len() ==> s.contains(#[trigger] unexpired(s, cutoff)[i]),
    decreases s.len(),
{
    if s.len() > 0 {
        let d = s.drop_last();
        assert(keys_unique(d)) by {
            assert forall|a: int, b: int| 0 <= a < d.len() && 0 <= b < d.len() && a != b implies #[trigger] d[a].key() != #[trigger] d[b].key() by {
                assert(d[a] == s[a] && d[b] == s[b]);
            }
        }
        lemma_unexpired_keys(d, cutoff);
        let u = unexpired(d, cutoff);
        assert forall|i: int| 0 <= i < u.len() implies s.contains(#[trigger] u[i]) by {
            assert(d.contains(u[i]));
            let j = choose|j: int| 0 <= j < d.len() && d[j] == u[i];
            assert(s[j] == u[i]);
        }
        if !is_expired(s.last(), cutoff) {
            let r = u.push(s.last());
            assert forall|a: int, b: int| 0 <= a < r.len() && 0 <= b < r.len() && a != b implies #[trigger] r[a].key() != #[trigger] r[b].key() by {
                if a < u.len() && b < u.len() {
                    assert(r[a] == u[a] && r[b] == u[b]);
                } else if a < u.len() {
                    assert(r[a] == u[a]);
                    assert(d.contains(u[a]));
                    let j2 = choose|j2: int| 0 <= j2 < d.len() && d[j2] == u[a];
                    assert(s[j2] == u[a]);
                    assert(s[j2].key() != s[s.len() - 1].key());
                } else if b < u.len() {
                    assert(r[b] == u[b]);
                    assert(d.contains(u[b]));
                    let j2 = choose|j2: int| 0 <= j2 < d.len() && d[j2] == u[b];
                    assert(s[j2] == u[b]);
                    assert(s[j2].key() != s[s.len() - 1].key());
                }
            }
            assert forall|i: int| 0 <= i < r.len() implies s.contains(#[trigger] r[i]) by {
                if i < u.len() {
                    assert(r[i] == u[i]);
                } else {
                    assert(s[s.len() - 1] == r[i]);
                }
            }
        }
    }
}

impl HistoryRepository {
    /// No two entries share an id.
    pub open spec fn wf(&self) -> bool {
        keys_unique(self@)
    }

    /// An empty table.
    pub fn new() -> (r: Self)
        ensures
            r.wf(),
            r@.len() == 0,
    {
        HistoryRepository { rows: Vec::new() }
    }

    /// A table holding `rows` as loaded from storage; `None` when two share an id.
    pub fn from_rows(rows: Vec<HistoryEntry>) -> (r: Option<Self>)
        ensures
            r is Some <==> keys_unique(rows@),
            r matches Some(t) ==> t@ == rows@ && t.wf(),
    {
        match unique_rows(rows) {
            Some(v) => Some(HistoryRepository { rows: v }),
            None => None,
        }
    }

    /// Every stored row, in table order (for writing back to storage).
    pub fn rows(&self) -> (r: Vec<HistoryEntry>)
        ensures
            r@ == self@,
    {
        copy_rows(&self.rows)
    }

    /// The number of stored entries.
    pub fn count(&self) -> (n: usize)
        ensures
            n == self@.len(),
    {
        self.rows.len()
    }

    /// Inserts a new record and returns it as stored; an id that is already
    /// taken is refused as a storage error.
    pub fn create(&mut self, entry: &HistoryEntry) -> (r: Result<HistoryEntry, AppError>)
        requires
            old(self).wf(),
        ensures
            final(self).wf(),
            has_key(old(self)@, entry.id@) ==> final(self)@ == old(self)@
                && fails_storage(r, "UNIQUE constraint failed: history.id"@),
            !has_key(old(self)@, entry.id@) ==> final(self)@ == old(self)@.push(*entry)
                && r == Ok::<HistoryEntry, AppError>(*entry),
    {
        if insert_unique(&mut self.rows, entry.duplicate()) {
            Ok(entry.duplicate())
        } else {
            Err(AppError::StorageError(str_of("UNIQUE constraint failed: history.id")))
        }
    }

    /// All entries, newest first.
    pub fn list(&self) -> (r: Result<Vec<HistoryEntry>, AppError>)
        ensures
            r matches Ok(v) && is_listing(v@, self@),
    {
        Ok(listing(&self.rows))
    }

    /// The entry with id `id`, or `NotFound`.
    pub fn get(&self, id: &str) -> (r: Result<HistoryEntry, AppError>)
        requires
            self.wf(),
        ensures
            find_key(self@, id@) is Some ==> r == Ok::<HistoryEntry, AppError>(find_key(self@, id@)->0),
            find_key(self@, id@) is None ==> fails_not_found(r, history_not_found(id@)),
    {
        match position(&self.rows, id) {
            Some(k) => Ok(self.rows[k].duplicate()),
            None => Err(AppError::NotFound(concat3("history entry '", id, "'"))),
        }
    }

    /// Deletes the entry with id `id`; `NotFound` if there is none.
    pub fn delete(&mut self, id: &str) -> (r: Result<(), AppError>)
        requires
            old(self).wf(),
        ensures
            final(self).wf(),
            find_key(old(self)@, id@) is None ==> final(self)@ == old(self)@ && fails_not_found(r, history_not_found(id@)),
            find_key(old(self)@, id@) is Some ==> r is Ok
                && !has_key(final(self)@, id@)
                && final(self)@.len() + 1 == old(self)@.len()
                && forall|k: Seq<char>| k != id@ ==> find_key(final(self)@, k) == find_key(old(self)@, k),
    {
        match position(&self.rows, id) {
            None => Err(AppError::NotFound(concat3("history entry '", id, "'"))),
            Some(k) => {
                proof { law_remove_then_find(self.rows@, k as int); }
                self.rows.remove(k);
                Ok(())
            }
        }
    }

    /// Deletes every entry.
    pub fn clear(&mut self) -> (r: Result<(), AppError>)
        ensures
            r is Ok,
            final(self)@.len() == 0,
            final(self).wf(),
    {
        self.rows = Vec::new();
        Ok(())
    }

    /// Marks the entry as inserted into an external application; `NotFound`
    /// if there is none.
    pub fn mark_inserted(&mut self, id: &str) -> (r: Result<(), AppError>)
        requires
            old(self).wf(),
        ensures
            final(self).wf(),
            find_key(old(self)@, id@) is None ==> final(self)@ == old(self)@ && fails_not_found(r, history_not_found(id@)),
            find_key(old(self)@, id@) is Some ==> r is Ok
                && find_key(final(self)@, id@) == Some(HistoryEntry { was_inserted: true, ..find_key(old(self)@, id@)->0 })
                && final(self)@.len() == old(self)@.len()
                && forall|k: Seq<char>| k != id@ ==> find_key(final(self)@, k) == find_key(old(self)@, k),
    {
        match position(&self.rows, id) {
            None => Err(AppError::NotFound(concat3("history entry '", id, "'"))),
            Some(k) => {
                let mut row = self.rows[k].duplicate();
                row.was_inserted = true;
                proof { law_update_then_find(self.rows@, k as int, row); }
                self.rows.set(k, row);
                Ok(())
            }
        }
    }

    /// Deletes the entries whose timestamp lies more than `days` days before
    /// `now` (seconds since the epoch) and returns how many went. Zero days
    /// means keep forever; entries whose timestamp is not a date-time value stay.
    pub fn delete_older_than(&mut self, days: u32, now: i64) -> (r: Result<u32, AppError>)
        requires
            old(self).wf(),
        ensures
            final(self).wf(),
            days == 0 ==> final(self)@ == old(self)@ && r == Ok::<u32, AppError>(0),
            days > 0 ==> final(self)@ == unexpired(old(self)@, now - days * 86400)
                && r == Ok::<u32, AppError>((old(self)@.len() - final(self)@.len()) as u32),
    {
        if days == 0 {
            return Ok(0);
        }
        let cutoff: i128 = (now as i128) - (days as i128) * 86400;
        let ghost c = now - days * 86400;
        let mut kept: Vec<HistoryEntry> = Vec::new();
        let mut i: usize = 0;
        while i < self.rows.len()
            invariant
                i <= self.rows.len(),
                cutoff == c,
                kept@ == unexpired(self.rows@.take(i as int), c),
            decreases self.rows.len() - i,
        {
            let ghost prefix = self.rows@.take(i + 1);
            assert(prefix.drop_last() =~= self.rows@.take(i as int));
            let expired = match parse_timestamp(self.rows[i].timestamp.as_str()) {
                Some(t) => (t as i128) < cutoff,
                None => false,
            };
            if !expired {
                kept.push(self.rows[i].duplicate());
            }
            i = i + 1;
        }
        assert(self.rows@.take(self.rows.len() as int) =~= self.rows@);
        proof {
            lemma_unexpired_len(self.rows@, c);
            lemma_unexpired_keys(self.rows@, c);
        }
        let removed = self.rows.len() - kept.len();
        self.rows = kept;
        Ok(removed as u32)
    }
}

} // verus!

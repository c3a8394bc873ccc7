//! The dictation modes table: ten built-in modes plus the user's own.
use vstd::prelude::*;
use crate::db::table::{Row, has_key, find_key, keys_unique, is_listing, position, listing, law_insert_then_find, law_update_then_find, law_remove_then_find, copy_rows, unique_rows};
use crate::errors::{AppError, fails_not_found, fails_storage, fails_validation};
use crate::models::DictationMode;
use crate::text::{lex_le, str_lex_le, lemma_lex_le_total, lemma_lex_le_trans, concat3, str_of};

verus! {

impl Row for DictationMode {
    open spec fn key(&self) -> Seq<char> {
        self.id@
    }

    /// Built-in modes first, then by name.
    open spec fn precedes(&self, other: &Self) -> bool {
        if self.builtin != other.builtin {
            self.builtin
        } else {
            lex_le(self.name@, other.name@)
        }
    }

    fn key_ref(&self) -> (r: &String) {
        &self.id
    }

    fn precedes_exec(&self, other: &Self) -> (r: bool) {
        if self.builtin != other.builtin {
            self.builtin
        } else {
            str_lex_le(self.name.as_str(), other.name.as_str())
        }
    }

    fn duplicate(&self) -> (r: Self) {
        DictationMode {
            id: self.id.clone(),
            name: self.name.clone(),
            description: self.description.clone(),
            system_prompt: self.system_prompt.clone(),
            active: self.active,
            builtin: self.builtin,
        }
    }

    proof fn lemma_precedes_total(a: Self, b: Self) {
        lemma_lex_le_total(a.name@, b.name@);
    }

    proof fn lemma_precedes_trans(a: Self, b: Self, c: Self) {
        if a.builtin == b.builtin && b.builtin == c.builtin {
            lemma_lex_le_trans(a.name@, b.name@, c.name@);
        }
    }
}

/// `mode` as it is stored by `create`: never built-in.
pub open spec fn as_custom(mode: DictationMode) -> DictationMode {
    DictationMode { builtin: false, ..mode }
}

/// `existing` with the editable fields taken from `mode`.
pub open spec fn with_edits(existing: DictationMode, mode: DictationMode) -> DictationMode {
    DictationMode {
        name: mode.name,
        description: mode.description,
        system_prompt: mode.system_prompt,
        active: mode.active,
        ..existing
    }
}

/// The detail of the error for an unknown mode id.
pub open spec fn mode_not_found(id: Seq<char>) -> Seq<char> {
    "mode '"@ + id + "'"@
}

/// Every built-in mode of `before` is still in `after`, unchanged.
pub open spec fn builtin_modes_kept(before: Seq<DictationMode>, after: Seq<DictationMode>) -> bool {
    forall|k: Seq<char>| (#[trigger] find_key(before, k) is Some && find_key(before, k)->0.builtin)
        ==> find_key(after, k) == find_key(before, k)
}

/// The dictation modes table.
pub struct ModesRepository {
    rows: Vec<DictationMode>,
}

impl View for ModesRepository {
    type V = Seq<DictationMode>;

    closed spec fn view(&self) -> Seq<DictationMode> {
        self.rows@
    }
}

fn builtin_mode(id: &str, name: &str, description: &str, active: bool) -> (m: DictationMode)
    ensures
        m.id@ == id@,
        m.name@ == name@,
        m.description@ == description@,
        m.system_prompt@ == Seq::<char>::empty(),
        m.active == active,
        m.builtin,
{
    DictationMode {
        id: str_of(id),
        name: str_of(name),
        description: str_of(description),
        system_prompt: String::new(),
        active,
        builtin: true,
    }
}

impl ModesRepository {
    /// No two modes share an id.
    pub open spec fn wf(&self) -> bool {
        keys_unique(self@)
    }

    /// The modes that ship with the app: Smart (active), Raw, Clean, Email,
    /// Chat, Notes, Developer, Terminal, Translate and Prompt, all built-in
    /// and with an empty system prompt.
    pub fn new() -> (r: Self)
        ensures
            r.wf(),
            r@.len() == 10,
            forall|i: int| 0 <= i < 10 ==> (#[trigger] r@[i]).builtin && r@[i].system_prompt@.len() == 0,
            r@[0].id@ == "smart"@ && r@[0].active,
            r@[1].id@ == "raw"@,
            r@[2].id@ == "clean"@,
            r@[3].id@ == "email"@,
            r@[4].id@ == "chat"@,
            r@[5].id@ == "notes"@,
            r@[6].id@ == "developer"@,
            r@[7].id@ == "terminal"@,
            r@[8].id@ == "translate"@,
            r@[9].id@ == "prompt"@,
    {
        let mut rows: Vec<DictationMode> = Vec::new();
        rows.push(builtin_mode("smart", "Smart Mode", "Automatically adapts to context.", true));
        rows.push(builtin_mode("raw", "Raw Mode", "Verbatim transcription, no cleanup.", false));
        rows.push(builtin_mode("clean", "Clean Mode", "Fix grammar and punctuation.", false));
        rows.push(builtin_mode("email", "Email Mode", "Format for professional email.", false));
        rows.push(builtin_mode("chat", "Chat Mode", "Casual conversational tone.", false));
        rows.push(builtin_mode("notes", "Notes Mode", "Structured notes format.", false));
        rows.push(builtin_mode("developer", "Developer Mode", "Preserve code, flags, and acronyms.", false));
        rows.push(builtin_mode("terminal", "Terminal Mode", "Output shell commands and scripts.", false));
        rows.push(builtin_mode("translate", "Translate Mode", "Translate speech to another language.", false));
        rows.push(builtin_mode("prompt", "Prompt Mode", "Format as AI prompt.", false));
        proof {
            reveal_strlit("smart");
            reveal_strlit("raw");
            reveal_strlit("clean");
            reveal_strlit("email");
            reveal_strlit("chat");
            reveal_strlit("notes");
            reveal_strlit("developer");
            reveal_strlit("terminal");
            reveal_strlit("translate");
            reveal_strlit("prompt");
            assert(keys_unique(rows@)) by {
                assert forall|i: int, j: int| 0 <= i < rows@.len() && 0 <= j < rows@.len() && i != j implies #[trigger] rows@[i].key() != #[trigger] rows@[j].key() by {
                    if rows@[i].key() == rows@[j].key() {
                        assert(rows@[i].key()[0] == rows@[j].key()[0]);
                        assert(rows@[i].key().len() == rows@[j].key().len());
                        assert(rows@[i].key()[1] == rows@[j].key()[1]);
                    }
                }
            }
        }
        ModesRepository { rows }
    }

    /// A table holding `rows` as loaded from storage; `None` when two share an id.
    pub fn from_rows(rows: Vec<DictationMode>) -> (r: Option<Self>)
        ensures
            r is Some <==> keys_unique(rows@),
            r matches Some(t) ==> t@ == rows@ && t.wf(),
    {
        match unique_rows(rows) {
            Some(v) => Some(ModesRepository { rows: v }),
            None => None,
        }
    }

    /// Every stored row, in table order (for writing back to storage).
    pub fn rows(&self) -> (r: Vec<DictationMode>)
        ensures
            r@ == self@,
    {
        copy_rows(&self.rows)
    }

    /// All modes: built-in first, then custom, alphabetically within each group.
    pub fn list(&self) -> (r: Result<Vec<DictationMode>, AppError>)
        ensures
            r matches Ok(v) && is_listing(v@, self@),
    {
        Ok(listing(&self.rows))
    }

    /// The mode with id `id`, or `NotFound`.
    pub fn get(&self, id: &str) -> (r: Result<DictationMode, AppError>)
        requires
            self.wf(),
        ensures
            find_key(self@, id@) is Some ==> r == Ok::<DictationMode, AppError>(find_key(self@, id@)->0),
            find_key(self@, id@) is None ==> fails_not_found(r, mode_not_found(id@)),
    {
        match position(&self.rows, id) {
            Some(k) => Ok(self.rows[k].duplicate()),
            None => Err(AppError::NotFound(concat3("mode '", id, "'"))),
        }
    }

    /// Creates a custom mode; `builtin` is forced to false whatever the input says.
    /// A mode id that is already taken is refused as a storage error.
    pub fn create(&mut self, mode: &DictationMode) -> (r: Result<DictationMode, AppError>)
        requires
            old(self).wf(),
        ensures
            final(self).wf(),
            has_key(old(self)@, mode.id@) ==> final(self)@ == old(self)@
                && fails_storage(r, "UNIQUE constraint failed: modes.id"@),
            !has_key(old(self)@, mode.id@) ==> final(self)@ == old(self)@.push(as_custom(*mode))
                && r == Ok::<DictationMode, AppError>(as_custom(*mode)),
            builtin_modes_kept(old(self)@, final(self)@),
    {
        if position(&self.rows, mode.id.as_str()).is_some() {
            return Err(AppError::StorageError(str_of("UNIQUE constraint failed: modes.id")));
        }
        let mut row = mode.duplicate();
        row.builtin = false;
        proof { law_insert_then_find(self.rows@, row); }
        let ghost before = self.rows@;
        let out = row.duplicate();
        self.rows.push(row);
        assert forall|k: Seq<char>| (#[trigger] find_key(before, k) is Some && find_key(before, k)->0.builtin)
            implies find_key(self.rows@, k) == find_key(before, k) by {
            if k == row.key() {
                assert(has_key(before, k));
            }
        }
        Ok(out)
    }

    /// Updates a custom mode's name, description, system prompt and active flag.
    /// Unknown ids are `NotFound`; built-in modes are refused with `ValidationError`.
    pub fn update(&mut self, mode: &DictationMode) -> (r: Result<DictationMode, AppError>)
        requires
            old(self).wf(),
        ensures
            final(self).wf(),
            find_key(old(self)@, mode.id@) is None ==> final(self)@ == old(self)@
                && fails_not_found(r, mode_not_found(mode.id@)),
            find_key(old(self)@, mode.id@) is Some && find_key(old(self)@, mode.id@)->0.builtin ==> final(self)@ == old(self)@
                && fails_validation(r, "built-in mode '"@ + mode.id@ + "' cannot be modified"@),
            find_key(old(self)@, mode.id@) is Some && !find_key(old(self)@, mode.id@)->0.builtin ==>
                r == Ok::<DictationMode, AppError>(with_edits(find_key(old(self)@, mode.id@)->0, *mode))
                && find_key(final(self)@, mode.id@) == Some(with_edits(find_key(old(self)@, mode.id@)->0, *mode))
                && final(self)@.len() == old(self)@.len()
                && forall|k: Seq<char>| k != mode.id@ ==> find_key(final(self)@, k) == find_key(old(self)@, k),
            builtin_modes_kept(old(self)@, final(self)@),
    {
        match position(&self.rows, mode.id.as_str()) {
            None => Err(AppError::NotFound(concat3("mode '", mode.id.as_str(), "'"))),
            Some(k) => {
                if self.rows[k].builtin {
                    return Err(AppError::ValidationError(concat3("built-in mode '", mode.id.as_str(), "' cannot be modified")));
                }
                let existing = self.rows[k].duplicate();
                let row = DictationMode {
                    id: existing.id,
                    name: mode.name.clone(),
                    description: mode.description.clone(),
                    system_prompt: mode.system_prompt.clone(),
                    active: mode.active,
                    builtin: existing.builtin,
                };
                proof { law_update_then_find(self.rows@, k as int, row); }
                let out = row.duplicate();
                self.rows.set(k, row);
                Ok(out)
            }
        }
    }

    /// Deletes a custom mode. Unknown ids are `NotFound`; built-in modes are
    /// refused with `ValidationError`.
    pub fn delete(&mut self, id: &str) -> (r: Result<(), AppError>)
        requires
            old(self).wf(),
        ensures
            final(self).wf(),
            find_key(old(self)@, id@) is None ==> final(self)@ == old(self)@ && fails_not_found(r, mode_not_found(id@)),
            find_key(old(self)@, id@) is Some && find_key(old(self)@, id@)->0.builtin ==> final(self)@ == old(self)@
                && fails_validation(r, "built-in mode '"@ + id@ + "' cannot be deleted"@),
            find_key(old(self)@, id@) is Some && !find_key(old(self)@, id@)->0.builtin ==> r is Ok
                && !has_key(final(self)@, id@)
                && final(self)@.len() + 1 == old(self)@.len()
                && forall|k: Seq<char>| k != id@ ==> find_key(final(self)@, k) == find_key(old(self)@, k),
            builtin_modes_kept(old(self)@, final(self)@),
    {
        match position(&self.rows, id) {
            None => Err(AppError::NotFound(concat3("mode '", id, "'"))),
            Some(k) => {
                if self.rows[k].builtin {
                    return Err(AppError::ValidationError(concat3("built-in mode '", id, "' cannot be deleted")));
                }
                proof { law_remove_then_find(self.rows@, k as int); }
                self.rows.remove(k);
                Ok(())
            }
        }
    }
}

} // verus!

//! The AI providers table.
use vstd::prelude::*;
use crate::db::table::{Row, has_key, find_key, keys_unique, is_listing, position, listing, insert_unique, law_update_then_find, law_remove_then_find, copy_rows, unique_rows};
use crate::errors::{AppError, fails_not_found, fails_storage};
use crate::models::AiProvider;
use crate::text::{lex_le, str_lex_le, lemma_lex_le_total, lemma_lex_le_trans, concat3, eq_lit, str_of};

verus! {

impl Row for AiProvider {
    open spec fn key(&self) -> Seq<char> {
        self.id@
    }

    /// Alphabetical by name.
    open spec fn precedes(&self, other: &Self) -> bool {
        lex_le(self.name@, other.name@)
    }

    fn key_ref(&self) -> (r: &String) {
        &self.id
    }

    fn precedes_exec(&self, other: &Self) -> (r: bool) {
        str_lex_le(self.name.as_str(), other.name.as_str())
    }

    fn duplicate(&self) -> (r: Self) {
        AiProvider {
            id: self.id.clone(),
            name: self.name.clone(),
            provider_type: self.provider_type.clone(),
            base_url: self.base_url.clone(),
            model: self.model.clone(),
            enabled: self.enabled,
            use_for_cleanup: self.use_for_cleanup,
            use_for_transcription: self.use_for_transcription,
            api_key_set: self.api_key_set,
        }
    }

    proof fn lemma_precedes_total(a: Self, b: Self) {
        lemma_lex_le_total(a.name@, b.name@);
    }

    proof fn lemma_precedes_trans(a: Self, b: Self, c: Self) {
        lemma_lex_le_trans(a.name@, b.name@, c.name@);
    }
}

/// The detail of the error for an unknown provider id.
pub open spec fn provider_not_found(id: Seq<char>) -> Seq<char> {
    "provider '"@ + id + "' not found"@
}

/// The providers that are enabled and marked for clean-up, in table order.
pub open spec fn enabled_cleanup(s: Seq<AiProvider>) -> Seq<AiProvider>
    decreases s.len(),
{
    if s.len() == 0 {
        Seq::empty()
    } else if s.last().enabled && s.last().use_for_cleanup {
        enabled_cleanup(s.drop_last()).push(s.last())
    } else {
        enabled_cleanup(s.drop_last())
    }
}

/// The number of enabled providers.
pub open spec fn enabled_count(s: Seq<AiProvider>) -> nat
    decreases s.len(),
{
    if s.len() == 0 {
        0
    } else {
        enabled_count(s.drop_last()) + if s.last().enabled { 1nat } else { 0nat }
    }
}

/// The first enabled Ollama provider in table order.
pub open spec fn first_enabled_ollama(s: Seq<AiProvider>) -> Option<AiProvider>
    decreases s.len(),
{
    if s.len() == 0 {
        None
    } else if s[0].provider_type@ == "ollama"@ && s[0].enabled {
        Some(s[0])
    } else {
        first_enabled_ollama(s.drop_first())
    }
}

proof fn lemma_enabled_count_le(s: Seq<AiProvider>)
    ensures
        enabled_count(s) <= s.len(),
    decreases s.len(),
{
    if s.len() > 0 {
        lemma_enabled_count_le(s.drop_last());
    }
}

/// `existing` with the fields an update may change taken from `p`; the
/// provider type and the key flag stay.
pub open spec fn with_provider_edits(existing: AiProvider, p: AiProvider) -> AiProvider {
    AiProvider {
        name: p.name,
        base_url: p.base_url,
        model: p.model,
        enabled: p.enabled,
        use_for_cleanup: p.use_for_cleanup,
        use_for_transcription: p.use_for_transcription,
        ..existing
    }
}

/// The providers table.
pub struct ProvidersRepository {
    rows: Vec<AiProvider>,
}

impl View for ProvidersRepository {
    type V = Seq<AiProvider>;

    closed spec fn view(&self) -> Seq<AiProvider> {
        self.rows@
    }
}

impl ProvidersRepository {
    /// No two providers share an id.
    pub open spec fn wf(&self) -> bool {
        keys_unique(self@)
    }

    /// An empty table.
    pub fn new() -> (r: Self)
        ensures
            r.wf(),
            r@.len() == 0,
    {
        ProvidersRepository { rows: Vec::new() }
    }

    /// A table holding `rows` as loaded from storage; `None` when two share an id.
    pub fn from_rows(rows: Vec<AiProvider>) -> (r: Option<Self>)
        ensures
            r is Some <==> keys_unique(rows@),
            r matches Some(t) ==> t@ == rows@ && t.wf(),
    {
        match unique_rows(rows) {
            Some(v) => Some(ProvidersRepository { rows: v }),
            None => None,
        }
    }

    /// Every stored row, in table order (for writing back to storage).
    pub fn rows(&self) -> (r: Vec<AiProvider>)
        ensures
            r@ == self@,
    {
        copy_rows(&self.rows)
    }

    /// All providers, by name.
    pub fn list_all(&self) -> (r: Result<Vec<AiProvider>, AppError>)
        ensures
            r matches Ok(v) && is_listing(v@, self@),
    {
        Ok(listing(&self.rows))
    }

    /// The provider with id `id`, or `NotFound`.
    pub fn get_by_id(&self, id: &str) -> (r: Result<AiProvider, AppError>)
        requires
            self.wf(),
        ensures
            find_key(self@, id@) is Some ==> r == Ok::<AiProvider, AppError>(find_key(self@, id@)->0),
            find_key(self@, id@) is None ==> fails_not_found(r, provider_not_found(id@)),
    {
        match position(&self.rows, id) {
            Some(k) => Ok(self.rows[k].duplicate()),
            None => Err(AppError::NotFound(concat3("provider '", id, "' not found"))),
        }
    }

    /// Stores a new provider; an id that is already taken is refused as a storage error.
    pub fn insert(&mut self, provider: &AiProvider) -> (r: Result<(), AppError>)
        requires
            old(self).wf(),
        ensures
            final(self).wf(),
            has_key(old(self)@, provider.id@) ==> final(self)@ == old(self)@
                && fails_storage(r, "UNIQUE constraint failed: providers.id"@),
            !has_key(old(self)@, provider.id@) ==> final(self)@ == old(self)@.push(*provider) && r is Ok,
    {
        if insert_unique(&mut self.rows, provider.duplicate()) {
            Ok(())
        } else {
            Err(AppError::StorageError(str_of("UNIQUE constraint failed: providers.id")))
        }
    }

    /// Replaces name, base URL, model and the three usage flags of the provider
    /// with `provider.id`; the provider type and the key flag stay. `NotFound`
    /// if there is none.
    pub fn update(&mut self, provider: &AiProvider) -> (r: Result<(), AppError>)
        requires
            old(self).wf(),
        ensures
            final(self).wf(),
            find_key(old(self)@, provider.id@) is None ==> final(self)@ == old(self)@
                && fails_not_found(r, provider_not_found(provider.id@)),
            find_key(old(self)@, provider.id@) is Some ==> r is Ok
                && find_key(final(self)@, provider.id@) == Some(with_provider_edits(find_key(old(self)@, provider.id@)->0, *provider))
                && final(self)@.len() == old(self)@.len()
                && forall|k: Seq<char>| k != provider.id@ ==> find_key(final(self)@, k) == find_key(old(self)@, k),
    {
        match position(&self.rows, provider.id.as_str()) {
            None => Err(AppError::NotFound(concat3("provider '", provider.id.as_str(), "' not found"))),
            Some(k) => {
                let existing = self.rows[k].duplicate();
                let row = AiProvider {
                    id: existing.id,
                    name: provider.name.clone(),
                    provider_type: existing.provider_type,
                    base_url: provider.base_url.clone(),
                    model: provider.model.clone(),
                    enabled: provider.enabled,
                    use_for_cleanup: provider.use_for_cleanup,
                    use_for_transcription: provider.use_for_transcription,
                    api_key_set: existing.api_key_set,
                };
                proof { law_update_then_find(self.rows@, k as int, row); }
                self.rows.set(k, row);
                Ok(())
            }
        }
    }

    /// Deletes the provider with id `id`; `NotFound` if there is none.
    pub fn delete(&mut self, id: &str) -> (r: Result<(), AppError>)
        requires
            old(self).wf(),
        ensures
            final(self).wf(),
            find_key(old(self)@, id@) is None ==> final(self)@ == old(self)@ && fails_not_found(r, provider_not_found(id@)),
            find_key(old(self)@, id@) is Some ==> r is Ok
                && !has_key(final(self)@, id@)
                && final(self)@.len() + 1 == old(self)@.len()
                && forall|k: Seq<char>| k != id@ ==> find_key(final(self)@, k) == find_key(old(self)@, k),
    {
        match position(&self.rows, id) {
            None => Err(AppError::NotFound(concat3("provider '", id, "' not found"))),
            Some(k) => {
                proof { law_remove_then_find(self.rows@, k as int); }
                self.rows.remove(k);
                Ok(())
            }
        }
    }

    /// Records whether an API key is stored for the provider; `NotFound` if there is none.
    pub fn set_api_key_flag(&mut self, id: &str, set: bool) -> (r: Result<(), AppError>)
        requires
            old(self).wf(),
        ensures
            final(self).wf(),
            find_key(old(self)@, id@) is None ==> final(self)@ == old(self)@ && fails_not_found(r, provider_not_found(id@)),
            find_key(old(self)@, id@) is Some ==> r is Ok
                && find_key(final(self)@, id@) == Some(AiProvider { api_key_set: set, ..find_key(old(self)@, id@)->0 })
                && final(self)@.len() == old(self)@.len()
                && forall|k: Seq<char>| k != id@ ==> find_key(final(self)@, k) == find_key(old(self)@, k),
    {
        match position(&self.rows, id) {
            None => Err(AppError::NotFound(concat3("provider '", id, "' not found"))),
            Some(k) => {
                let mut row = self.rows[k].duplicate();
                row.api_key_set = set;
                proof { law_update_then_find(self.rows@, k as int, row); }
                self.rows.set(k, row);
                Ok(())
            }
        }
    }

    /// The enabled providers marked for clean-up, by name.
    pub fn list_enabled_cleanup(&self) -> (r: Result<Vec<AiProvider>, AppError>)
        ensures
            r matches Ok(v) && is_listing(v@, enabled_cleanup(self@)),
    {
        let mut chosen: Vec<AiProvider> = Vec::new();
        let mut i: usize = 0;
        while i < self.rows.len()
            invariant
                i <= self.rows.len(),
                chosen@ == enabled_cleanup(self.rows@.take(i as int)),
            decreases self.rows.len() - i,
        {
            let ghost prefix = self.rows@.take(i + 1);
            assert(prefix.drop_last() =~= self.rows@.take(i as int));
            if self.rows[i].enabled && self.rows[i].use_for_cleanup {
                chosen.push(self.rows[i].duplicate());
            }
            i = i + 1;
        }
        assert(self.rows@.take(self.rows.len() as int) =~= self.rows@);
        Ok(listing(&chosen))
    }

    /// How many providers are enabled.
    pub fn count_enabled(&self) -> (n: usize)
        ensures
            n == enabled_count(self@),
    {
        let mut n: usize = 0;
        let mut i: usize = 0;
        while i < self.rows.len()
            invariant
                i <= self.rows.len(),
                n == enabled_count(self.rows@.take(i as int)),
            decreases self.rows.len() - i,
        {
            let ghost prefix = self.rows@.take(i + 1);
            assert(prefix.drop_last() =~= self.rows@.take(i as int));
            proof { lemma_enabled_count_le(self.rows@.take(i as int)); }
            if self.rows[i].enabled {
                n = n + 1;
            }
            i = i + 1;
        }
        assert(self.rows@.take(self.rows.len() as int) =~= self.rows@);
        n
    }

    /// The first enabled Ollama provider in table order, if any.
    pub fn first_enabled_ollama(&self) -> (r: Option<AiProvider>)
        ensures
            r == first_enabled_ollama(self@),
    {
        let mut i: usize = 0;
        proof { reveal_strlit("ollama"); }
        assert(self.rows@.skip(0) =~= self.rows@);
        while i < self.rows.len()
            invariant
                i <= self.rows.len(),
                first_enabled_ollama(self.rows@.skip(i as int)) == first_enabled_ollama(self.rows@),
            decreases self.rows.len() - i,
        {
            let ghost rest = self.rows@.skip(i as int);
            assert(rest[0] == self.rows@[i as int]);
            if self.rows[i].enabled && eq_lit(&self.rows[i].provider_type, "ollama") {
                return Some(self.rows[i].duplicate());
            }
            assert(rest.drop_first() =~= self.rows@.skip(i + 1));
            i = i + 1;
        }
        None
    }
}

} // verus!

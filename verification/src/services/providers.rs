//! AI providers: configuration, API-key bookkeeping and connection tests.
use vstd::prelude::*;
use crate::clock::new_uuid_string;
use crate::db::database::Database;
use crate::db::providers_repo::{enabled_cleanup, provider_not_found};
use crate::db::table::{find_key, has_key, is_listing};
use crate::errors::{AppError, fails_not_found, fails_provider, fails_storage};
use crate::models::AiProvider;
use crate::text::{concat3, eq_lit, str_of, strip_trailing, trim_end_char};

verus! {

/// The HTTP request that tests whether a provider is reachable.
pub enum ConnectionProbe {
    /// `GET {url}` of an Ollama server's model list.
    Ollama { url: String },
    /// `GET {url}` of an OpenAI-compatible model list, sent with the stored API key.
    OpenAiCompatible { url: String },
}

/// What came back from a connection probe.
pub enum ProbeOutcome {
    /// A successful HTTP response.
    Reached,
    /// An HTTP error status, with the client's description of it.
    HttpStatus { code: u16, text: String },
    /// No HTTP response at all, with the client's description of the failure.
    Transport(String),
}

/// A newly configured provider: enabled, not used for transcription, no key stored.
pub open spec fn new_provider(id: Seq<char>, name: Seq<char>, provider_type: Seq<char>, base_url: Seq<char>, model: Seq<char>, use_for_cleanup: bool, p: AiProvider) -> bool {
    &&& p.id@ == id
    &&& p.name@ == name
    &&& p.provider_type@ == provider_type
    &&& p.base_url@ == base_url
    &&& p.model@ == model
    &&& p.enabled
    &&& p.use_for_cleanup == use_for_cleanup
    &&& !p.use_for_transcription
    &&& !p.api_key_set
}

/// The keychain account under which a provider's API key is stored.
pub open spec fn api_key_account(id: Seq<char>) -> Seq<char> {
    "provider:"@ + id
}

/// The text of a probe outcome that was not a success.
pub open spec fn outcome_text(o: ProbeOutcome) -> Seq<char> {
    match o {
        ProbeOutcome::Reached => Seq::empty(),
        ProbeOutcome::HttpStatus { code: _, text } => text@,
        ProbeOutcome::Transport(t) => t@,
    }
}

/// An API key to be written to the OS keychain.
pub struct KeychainWrite {
    /// The keychain service name.
    pub service: String,
    /// The account under the service: `provider:{id}`.
    pub account: String,
    /// The key itself.
    pub secret: String,
}

/// The keychain operation that failed.
#[derive(Debug, Clone, Copy, PartialEq, Eq)]
pub enum KeychainStep {
    /// Opening the keychain entry.
    Open,
    /// Storing a key.
    Store,
    /// Reading a key back.
    Read,
}

/// The text that introduces a keychain failure at `step`.
pub open spec fn keychain_prefix(step: KeychainStep) -> Seq<char> {
    match step {
        KeychainStep::Open => "Cannot access OS keychain: "@,
        KeychainStep::Store => "Cannot store API key: OS keychain unavailable. "@,
        KeychainStep::Read => "API key not found in keychain: "@,
    }
}

/// Providers as the application manages them.
pub struct ProvidersService;

impl ProvidersService {
    /// All providers, by name.
    pub fn list_providers(&self, db: &Database) -> (r: Result<Vec<AiProvider>, AppError>)
        ensures
            r matches Ok(v) && is_listing(v@, db.providers@),
    {
        db.providers.list_all()
    }

    /// The provider with id `id`, or `NotFound`.
    pub fn get_provider(&self, db: &Database, id: &str) -> (r: Result<AiProvider, AppError>)
        requires
            db.wf(),
        ensures
            find_key(db.providers@, id@) is Some ==> r == Ok::<AiProvider, AppError>(find_key(db.providers@, id@)->0),
            find_key(db.providers@, id@) is None ==> fails_not_found(r, provider_not_found(id@)),
    {
        db.providers.get_by_id(id)
    }

    /// Configures a new provider under id `id`: enabled, not for transcription,
    /// no API key stored.
    pub fn create_provider_with_id(&self, db: &mut Database, id: String, name: &str, provider_type: &str, base_url: &str, model: &str, use_for_cleanup: bool) -> (r: Result<AiProvider, AppError>)
        requires
            old(db).wf(),
        ensures
            final(db).wf(),
            final(db).settings == old(db).settings,
            final(db).modes == old(db).modes,
            final(db).vocabulary == old(db).vocabulary,
            final(db).history == old(db).history,
            final(db).schema_version == old(db).schema_version,
            has_key(old(db).providers@, id@) ==> final(db).providers@ == old(db).providers@
                && fails_storage(r, "UNIQUE constraint failed: providers.id"@),
            !has_key(old(db).providers@, id@) ==> (r matches Ok(p)
                && new_provider(id@, name@, provider_type@, base_url@, model@, use_for_cleanup, p)
                && final(db).providers@ == old(db).providers@.push(p)),
    {
        let provider = AiProvider {
            id,
            name: str_of(name),
            provider_type: str_of(provider_type),
            base_url: str_of(base_url),
            model: str_of(model),
            enabled: true,
            use_for_cleanup,
            use_for_transcription: false,
            api_key_set: false,
        };
        db.providers.insert(&provider)?;
        Ok(provider)
    }

    /// Configures a new provider under a fresh UUID. It can only fail when the
    /// UUID is already taken, so it succeeds whenever no stored id is 36
    /// characters long.
    pub fn create_provider(&self, db: &mut Database, name: &str, provider_type: &str, base_url: &str, model: &str, use_for_cleanup: bool) -> (r: Result<AiProvider, AppError>)
        requires
            old(db).wf(),
        ensures
            final(db).wf(),
            final(db).settings == old(db).settings,
            final(db).modes == old(db).modes,
            final(db).vocabulary == old(db).vocabulary,
            final(db).history == old(db).history,
            final(db).schema_version == old(db).schema_version,
            r matches Ok(p) ==> p.id@.len() == 36
                && new_provider(p.id@, name@, provider_type@, base_url@, model@, use_for_cleanup, p)
                && final(db).providers@ == old(db).providers@.push(p),
            r is Err ==> final(db).providers@ == old(db).providers@
                && fails_storage(r, "UNIQUE constraint failed: providers.id"@),
            (forall|i: int| 0 <= i < old(db).providers@.len() ==> (#[trigger] old(db).providers@[i]).id@.len() != 36)
                ==> r is Ok,
    {
        let id = new_uuid_string();
        self.create_provider_with_id(db, id, name, provider_type, base_url, model, use_for_cleanup)
    }

    /// Changes name, base URL, model, enabled and clean-up flags of a provider;
    /// its type, transcription flag and key flag stay. `NotFound` if unknown.
    pub fn update_provider(&self, db: &mut Database, id: &str, name: &str, base_url: &str, model: &str, enabled: bool, use_for_cleanup: bool) -> (r: Result<AiProvider, AppError>)
        requires
            old(db).wf(),
        ensures
            final(db).wf(),
            final(db).settings == old(db).settings,
            final(db).modes == old(db).modes,
            final(db).vocabulary == old(db).vocabulary,
            final(db).history == old(db).history,
            final(db).schema_version == old(db).schema_version,
            find_key(old(db).providers@, id@) is None ==> final(db).providers@ == old(db).providers@
                && fails_not_found(r, provider_not_found(id@)),
            find_key(old(db).providers@, id@) is Some ==> (r matches Ok(p) && ({
                let e = find_key(old(db).providers@, id@)->0;
                &&& p.id@ == id@ && p.name@ == name@ && p.base_url@ == base_url@ && p.model@ == model@
                &&& p.enabled == enabled && p.use_for_cleanup == use_for_cleanup
                &&& p.provider_type == e.provider_type && p.use_for_transcription == e.use_for_transcription
                &&& p.api_key_set == e.api_key_set
                &&& find_key(final(db).providers@, id@) == Some(p)
                &&& forall|k: Seq<char>| k != id@ ==> find_key(final(db).providers@, k) == find_key(old(db).providers@, k)
            })),
    {
        let existing = db.providers.get_by_id(id)?;
        let updated = AiProvider {
            id: existing.id,
            name: str_of(name),
            base_url: str_of(base_url),
            model: str_of(model),
            enabled,
            use_for_cleanup,
            provider_type: existing.provider_type,
            use_for_transcription: existing.use_for_transcription,
            api_key_set: existing.api_key_set,
        };
        db.providers.update(&updated)?;
        Ok(updated)
    }

    /// Deletes the provider's row; `NotFound` if there is none.
    pub fn delete_provider(&self, db: &mut Database, id: &str) -> (r: Result<(), AppError>)
        requires
            old(db).wf(),
        ensures
            final(db).wf(),
            final(db).settings == old(db).settings,
            final(db).modes == old(db).modes,
            final(db).vocabulary == old(db).vocabulary,
            final(db).history == old(db).history,
            final(db).schema_version == old(db).schema_version,
            find_key(old(db).providers@, id@) is None ==> final(db).providers@ == old(db).providers@
                && fails_not_found(r, provider_not_found(id@)),
            find_key(old(db).providers@, id@) is Some ==> r is Ok && !has_key(final(db).providers@, id@)
                && forall|k: Seq<char>| k != id@ ==> find_key(final(db).providers@, k) == find_key(old(db).providers@, k),
    {
        db.providers.delete(id)
    }

    /// Records that an API key is now stored for the provider; `NotFound` if unknown.
    pub fn mark_api_key_stored(&self, db: &mut Database, id: &str) -> (r: Result<(), AppError>)
        requires
            old(db).wf(),
        ensures
            final(db).wf(),
            final(db).settings == old(db).settings,
            final(db).modes == old(db).modes,
            final(db).vocabulary == old(db).vocabulary,
            final(db).history == old(db).history,
            final(db).schema_version == old(db).schema_version,
            find_key(old(db).providers@, id@) is None ==> final(db).providers@ == old(db).providers@
                && fails_not_found(r, provider_not_found(id@)),
            find_key(old(db).providers@, id@) is Some ==> r is Ok
                && find_key(final(db).providers@, id@) == Some(AiProvider { api_key_set: true, ..find_key(old(db).providers@, id@)->0 })
                && forall|k: Seq<char>| k != id@ ==> find_key(final(db).providers@, k) == find_key(old(db).providers@, k),
    {
        db.providers.set_api_key_flag(id, true)
    }

    /// Starts storing an API key for the provider: an unknown provider is
    /// refused with `NotFound` before the keychain is touched; otherwise the
    /// write to perform, under service `transtypro` and account `provider:{id}`.
    /// The key never goes to the database; once it is stored,
    /// `mark_api_key_stored` records that it is.
    pub fn set_api_key(&self, db: &Database, id: &str, api_key: &str) -> (r: Result<KeychainWrite, AppError>)
        requires
            db.wf(),
        ensures
            find_key(db.providers@, id@) is None ==> fails_not_found(r, provider_not_found(id@)),
            find_key(db.providers@, id@) is Some ==> (r matches Ok(w) && w.service@ == "transtypro"@
                && w.account@ == api_key_account(id@) && w.secret@ == api_key@),
    {
        db.providers.get_by_id(id)?;
        Ok(KeychainWrite {
            service: str_of("transtypro"),
            account: Self::api_key_account(id),
            secret: str_of(api_key),
        })
    }

    /// The error reported when the keychain fails at `step` for this reason.
    pub fn keychain_error(step: KeychainStep, detail: &str) -> (e: AppError)
        ensures
            e is ProviderError,
            e.detail() == keychain_prefix(step) + detail@,
    {
        let mut m = match step {
            KeychainStep::Open => str_of("Cannot access OS keychain: "),
            KeychainStep::Store => str_of("Cannot store API key: OS keychain unavailable. "),
            KeychainStep::Read => str_of("API key not found in keychain: "),
        };
        m.append(detail);
        AppError::ProviderError(m)
    }

    /// The keychain account for the provider's API key: `provider:{id}`.
    pub fn api_key_account(id: &str) -> (r: String)
        ensures
            r@ == api_key_account(id@),
    {
        let mut r = str_of("provider:");
        r.append(id);
        r
    }

    /// The enabled providers marked for clean-up, by name.
    pub fn list_enabled_cleanup_providers(&self, db: &Database) -> (r: Result<Vec<AiProvider>, AppError>)
        ensures
            r matches Ok(v) && is_listing(v@, enabled_cleanup(db.providers@)),
    {
        db.providers.list_enabled_cleanup()
    }

    /// The request that tests the provider: Ollama's `/api/tags`, an
    /// OpenAI-compatible `/models`; other provider types are refused.
    pub fn connection_probe(&self, db: &Database, id: &str) -> (r: Result<ConnectionProbe, AppError>)
        requires
            db.wf(),
        ensures
            find_key(db.providers@, id@) is None ==> fails_not_found(r, provider_not_found(id@)),
            find_key(db.providers@, id@) is Some ==> ({
                let p = find_key(db.providers@, id@)->0;
                let base = strip_trailing(p.base_url@, '/');
                &&& p.provider_type@ == "ollama"@ ==> (r matches Ok(ConnectionProbe::Ollama { url }) && url@ == base + "/api/tags"@)
                &&& p.provider_type@ == "openai_compatible"@ ==> (r matches Ok(ConnectionProbe::OpenAiCompatible { url })
                    && url@ == base + "/models"@)
                &&& p.provider_type@ != "ollama"@ && p.provider_type@ != "openai_compatible"@ ==>
                    fails_provider(r, "Unknown provider type for connection test: "@ + p.provider_type@)
            }),
    {
        let provider = db.providers.get_by_id(id)?;
        proof {
            reveal_strlit("ollama");
            reveal_strlit("openai_compatible");
            assert("ollama"@.len() != "openai_compatible"@.len());
        }
        if eq_lit(&provider.provider_type, "ollama") {
            let mut url = trim_end_char(provider.base_url.as_str(), '/');
            url.append("/api/tags");
            Ok(ConnectionProbe::Ollama { url })
        } else if eq_lit(&provider.provider_type, "openai_compatible") {
            let mut url = trim_end_char(provider.base_url.as_str(), '/');
            url.append("/models");
            Ok(ConnectionProbe::OpenAiCompatible { url })
        } else {
            let mut m = str_of("Unknown provider type for connection test: ");
            m.append(provider.provider_type.as_str());
            Err(AppError::ProviderError(m))
        }
    }

    /// The verdict of a connection test. Ollama counts as reachable on a
    /// successful response; an OpenAI-compatible host also on HTTP 401 (the
    /// URL is right, the key is not).
    pub fn connection_outcome(probe: &ConnectionProbe, base_url: &str, outcome: ProbeOutcome) -> (r: Result<String, AppError>)
        ensures
            probe is Ollama ==> match outcome {
                ProbeOutcome::Reached => r matches Ok(m) && m@ == "Ollama reachable at "@ + base_url@,
                _ => fails_provider(r, "Cannot reach Ollama at "@ + base_url@ + ": "@ + outcome_text(outcome)),
            },
            probe is OpenAiCompatible ==> match outcome {
                ProbeOutcome::Reached => r matches Ok(m) && m@ == "Provider reachable"@,
                ProbeOutcome::HttpStatus { code, text: _ } => if code == 401 {
                    r matches Ok(m) && m@ == "Provider reachable"@
                } else {
                    fails_provider(r, "Cannot reach provider at "@ + base_url@ + ": "@ + outcome_text(outcome))
                },
                ProbeOutcome::Transport(_) => fails_provider(r, "Cannot reach provider at "@ + base_url@ + ": "@ + outcome_text(outcome)),
            },
    {
        let accepts_401 = match probe {
            ConnectionProbe::Ollama { url: _ } => false,
            ConnectionProbe::OpenAiCompatible { url: _ } => true,
        };
        let (reached, detail) = match outcome {
            ProbeOutcome::Reached => (true, String::new()),
            ProbeOutcome::HttpStatus { code, text } => (code == 401 && accepts_401, text),
            ProbeOutcome::Transport(t) => (false, t),
        };
        match probe {
            ConnectionProbe::Ollama { url: _ } => {
                if reached {
                    let mut m = str_of("Ollama reachable at ");
                    m.append(base_url);
                    Ok(m)
                } else {
                    let mut m = concat3("Cannot reach Ollama at ", base_url, ": ");
                    m.append(detail.as_str());
                    Err(AppError::ProviderError(m))
                }
            },
            ConnectionProbe::OpenAiCompatible { url: _ } => {
                if reached {
                    Ok(str_of("Provider reachable"))
                } else {
                    let mut m = concat3("Cannot reach provider at ", base_url, ": ");
                    m.append(detail.as_str());
                    Err(AppError::ProviderError(m))
                }
            },
        }
    }
}

} // verus!

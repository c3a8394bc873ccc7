//! The home page's status summary.
use vstd::prelude::*;
use crate::db::database::Database;
use crate::db::providers_repo::enabled_cleanup;
use crate::db::settings_repo::is_default_settings;
use crate::db::table::{is_listing, Row};
use crate::errors::AppError;
use crate::models::{AiProvider, AppSettings, StatusSummary};
use crate::text::{lex_le, str_of, lemma_lex_le_refl};

verus! {

/// `name` is the first name, in listing order, among the providers `s`;
/// `None` when `s` is empty.
pub open spec fn first_name(s: Seq<AiProvider>, name: Option<Seq<char>>) -> bool {
    match name {
        None => s.len() == 0,
        Some(n) => (exists|i: int| 0 <= i < s.len() && #[trigger] s[i].name@ == n)
            && forall|i: int| 0 <= i < s.len() ==> lex_le(n, #[trigger] s[i].name@),
    }
}

/// The summary `r` describes `settings`, the history size and the clean-up providers.
pub open spec fn describes(r: StatusSummary, settings: AppSettings, history_len: nat, providers: Seq<AiProvider>) -> bool {
    &&& r.privacy_mode@ == if settings.local_only_mode { "local-only"@ } else { "cloud-enabled"@ }
    &&& r.transcription_ready == (settings.whisper_binary_path is Some && settings.whisper_model_path is Some)
    &&& first_name(enabled_cleanup(providers), match r.cleanup_provider { Some(n) => Some(n@), None => None })
    &&& r.active_mode == settings.active_mode
    &&& r.history_count == history_len as u32
}

/// The first provider of a listing of `s` belongs to `s` and has the first name.
pub proof fn lemma_first_of_listing(v: Seq<AiProvider>, s: Seq<AiProvider>)
    requires
        is_listing(v, s),
        v.len() > 0,
    ensures
        first_name(s, Some(v[0].name@)),
        s.contains(v[0]),
{
    broadcast use vstd::seq_lib::group_to_multiset_ensures;
    assert(v.to_multiset().count(v[0]) > 0);
    assert(s.contains(v[0]));
    assert forall|i: int| 0 <= i < s.len() implies lex_le(v[0].name@, #[trigger] s[i].name@) by {
        assert(s.to_multiset().count(s[i]) > 0);
        assert(v.contains(s[i]));
        let j = choose|j: int| 0 <= j < v.len() && v[j] == s[i];
        if j > 0 {
            assert(v[0].precedes(&v[j]));
        } else {
            lemma_lex_le_refl(v[0].name@);
        }
    }
}

/// Builds the status summary from the stored settings, history and providers.
pub fn build_status_summary(db: &Database) -> (r: Result<StatusSummary, AppError>)
    ensures
        db.settings@ is Some ==> (r matches Ok(sum) && describes(sum, db.settings@->0, db.history@.len(), db.providers@)),
        db.settings@ is None ==> (r matches Ok(sum) && exists|s: AppSettings| is_default_settings(s)
            && #[trigger] describes(sum, s, db.history@.len(), db.providers@)),
{
    let settings = db.settings.get()?;
    let count = db.history.count();
    let providers = db.providers.list_enabled_cleanup()?;
    let cleanup_provider = if providers.len() > 0 {
        proof { lemma_first_of_listing(providers@, enabled_cleanup(db.providers@)); }
        Some(providers[0].name.clone())
    } else {
        proof {
            vstd::seq_lib::to_multiset_len(providers@);
            vstd::seq_lib::to_multiset_len(enabled_cleanup(db.providers@));
        }
        None
    };
    let privacy_mode = if settings.local_only_mode { str_of("local-only") } else { str_of("cloud-enabled") };
    let r = StatusSummary {
        privacy_mode,
        transcription_ready: settings.whisper_binary_path.is_some() && settings.whisper_model_path.is_some(),
        cleanup_provider,
        active_mode: settings.active_mode.clone(),
        history_count: count as u32,
    };
    assert(describes(r, settings, db.history@.len(), db.providers@));
    Ok(r)
}

} // verus!

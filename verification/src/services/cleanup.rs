//! AI clean-up of transcripts: choosing the prompt and the request to send.
use vstd::prelude::*;
use crate::db::database::Database;
use crate::db::providers_repo::provider_not_found;
use crate::db::table::find_key;
use crate::errors::{AppError, fails_cleanup, fails_not_found, fails_privacy};
use crate::models::{AppSettings, CleanupResult};
use crate::services::privacy::{decide, decision_reason, law_local_only_permits_exactly_the_local_list,
    law_local_only_refuses_the_cloud_list, op_allowed};
use crate::text::{concat3, eq_lit, str_of, strip_trailing, trim_end_char};

verus! {

/// The prompt used when the active mode has none of its own.
pub open spec fn default_system_prompt() -> Seq<char> {
    "You are a text cleanup assistant. Fix grammar, punctuation, and formatting. Return only the cleaned text with no explanation."@
}

/// The id of the active dictation mode in the stored settings (Smart without settings).
pub open spec fn active_mode_id(settings: Option<AppSettings>) -> Seq<char> {
    match settings {
        Some(s) => s.active_mode@,
        None => "smart"@,
    }
}

/// The system prompt of the active mode, or the default when that mode is
/// unknown or its prompt is empty.
pub open spec fn system_prompt_for(db: Database) -> Seq<char> {
    match find_key(db.modes@, active_mode_id(db.settings@)) {
        Some(m) => if m.system_prompt@.len() > 0 { m.system_prompt@ } else { default_system_prompt() },
        None => default_system_prompt(),
    }
}

/// The prompt sent to Ollama: the system prompt, a blank line, then the text.
pub open spec fn ollama_prompt(system_prompt: Seq<char>, raw_text: Seq<char>) -> Seq<char> {
    system_prompt + "\n\nText to clean:\n"@ + raw_text
}

/// The privacy operation a clean-up with a provider of this type amounts to.
pub open spec fn cleanup_operation(provider_type: Seq<char>) -> Seq<char> {
    if provider_type == "ollama"@ { "local_cleanup"@ } else { "cloud_cleanup"@ }
}

/// The HTTP request that performs a clean-up.
pub enum CleanupRequest {
    /// `POST {url}` with `{model, prompt, stream: false}`; the reply's `response` is the text.
    Ollama { url: String, model: String, prompt: String },
    /// `POST {url}` with the stored API key and a system and a user message;
    /// the first choice's message content is the text.
    OpenAiCompatible { url: String, model: String, system_prompt: String, user_text: String },
}

/// A clean-up that passed every check, ready to be sent.
pub struct CleanupPlan {
    pub provider_id: String,
    pub provider_name: String,
    pub request: CleanupRequest,
}

/// What the provider's reply to a clean-up request gave.
pub enum CleanupReply {
    /// The cleaned text.
    Text(String),
    /// The request failed, for this reason.
    RequestFailed(String),
    /// The reply could not be read, for this reason.
    ParseFailed(String),
    /// An OpenAI-compatible reply without any choice.
    NoChoices,
}

/// The name a request's errors are reported under.
pub open spec fn request_label(request: CleanupRequest) -> Seq<char> {
    match request {
        CleanupRequest::Ollama { .. } => "Ollama"@,
        CleanupRequest::OpenAiCompatible { .. } => "OpenAI"@,
    }
}

/// AI text clean-up.
pub struct CleanupService;

impl CleanupService {
    /// Build the Ollama prompt string.
    pub fn build_ollama_prompt(system_prompt: &str, raw_text: &str) -> (r: String)
        ensures
            r@ == ollama_prompt(system_prompt@, raw_text@),
    {
        concat3(system_prompt, "\n\nText to clean:\n", raw_text)
    }

    /// The system prompt of the active dictation mode, or the default prompt
    /// when that mode has an empty prompt or does not exist.
    pub fn load_system_prompt(&self, db: &Database) -> (r: String)
        requires
            db.wf(),
        ensures
            r@ == system_prompt_for(*db),
    {
        let settings = match db.settings.get() {
            Ok(s) => s,
            Err(_) => return default_prompt(),
        };
        match db.modes.get(settings.active_mode.as_str()) {
            Ok(m) => {
                if m.system_prompt.as_str().is_empty() {
                    default_prompt()
                } else {
                    m.system_prompt
                }
            },
            Err(_) => default_prompt(),
        }
    }

    /// Checks a clean-up of `raw_text` with provider `provider_id` and says
    /// which request performs it: the provider must exist and be enabled, the
    /// privacy policy must allow the operation (`local_cleanup` for Ollama,
    /// `cloud_cleanup` otherwise), and its type must be Ollama or OpenAI-compatible.
    pub fn plan_cleanup(&self, db: &Database, raw_text: &str, provider_id: &str) -> (r: Result<CleanupPlan, AppError>)
        requires
            db.wf(),
        ensures
            find_key(db.providers@, provider_id@) is None ==> fails_not_found(r, provider_not_found(provider_id@)),
            find_key(db.providers@, provider_id@) is Some ==> ({
                let p = find_key(db.providers@, provider_id@)->0;
                let local_only = match db.settings@ { Some(s) => s.local_only_mode, None => false };
                let op = cleanup_operation(p.provider_type@);
                let base = strip_trailing(p.base_url@, '/');
                let sys = system_prompt_for(*db);
                &&& !p.enabled ==> fails_cleanup(r, "Provider '"@ + p.name@ + "' is disabled"@)
                &&& p.enabled && !op_allowed(local_only, op) ==> fails_privacy(r, decision_reason(local_only, op))
                &&& p.enabled && op_allowed(local_only, op) && p.provider_type@ == "ollama"@ ==> (r matches Ok(plan)
                    && plan.provider_id@ == provider_id@ && plan.provider_name == p.name
                    && (plan.request matches CleanupRequest::Ollama { url, model, prompt }
                    && url@ == base + "/api/generate"@ && model == p.model && prompt@ == ollama_prompt(sys, raw_text@)))
                &&& p.enabled && op_allowed(local_only, op) && p.provider_type@ == "openai_compatible"@ ==> (r matches Ok(plan)
                    && plan.provider_id@ == provider_id@ && plan.provider_name == p.name
                    && (plan.request matches CleanupRequest::OpenAiCompatible { url, model, system_prompt, user_text }
                    && url@ == base + "/chat/completions"@ && model == p.model && system_prompt@ == sys
                    && user_text@ == raw_text@))
                &&& p.enabled && op_allowed(local_only, op) && p.provider_type@ != "ollama"@
                    && p.provider_type@ != "openai_compatible"@ ==> fails_cleanup(r, "Unknown provider type: "@ + p.provider_type@)
            }),
            r is Ok ==> ({
                let local_only = match db.settings@ { Some(s) => s.local_only_mode, None => false };
                &&& find_key(db.providers@, provider_id@) is Some
                &&& find_key(db.providers@, provider_id@)->0.enabled
                &&& op_allowed(local_only, cleanup_operation(find_key(db.providers@, provider_id@)->0.provider_type@))
            }),
    {
        let provider = db.providers.get_by_id(provider_id)?;
        proof {
            reveal_strlit("ollama");
            reveal_strlit("openai_compatible");
            assert("ollama"@.len() != "openai_compatible"@.len());
        }
        if !provider.enabled {
            return Err(AppError::CleanupError(concat3("Provider '", provider.name.as_str(), "' is disabled")));
        }
        let is_ollama = eq_lit(&provider.provider_type, "ollama");
        let op = if is_ollama { str_of("local_cleanup") } else { str_of("cloud_cleanup") };
        let settings = db.settings.get()?;
        let decision = decide(settings.local_only_mode, &op);
        if !decision.allowed {
            return Err(AppError::PrivacyBlocked(decision.reason));
        }
        let system_prompt = self.load_system_prompt(db);
        let base = trim_end_char(provider.base_url.as_str(), '/');
        if is_ollama {
            let mut url = base;
            url.append("/api/generate");
            let prompt = Self::build_ollama_prompt(system_prompt.as_str(), raw_text);
            Ok(CleanupPlan {
                provider_id: str_of(provider_id),
                provider_name: provider.name,
                request: CleanupRequest::Ollama { url, model: provider.model, prompt },
            })
        } else if eq_lit(&provider.provider_type, "openai_compatible") {
            let mut url = base;
            url.append("/chat/completions");
            Ok(CleanupPlan {
                provider_id: str_of(provider_id),
                provider_name: provider.name,
                request: CleanupRequest::OpenAiCompatible {
                    url,
                    model: provider.model,
                    system_prompt,
                    user_text: str_of(raw_text),
                },
            })
        } else {
            let mut m = str_of("Unknown provider type: ");
            m.append(provider.provider_type.as_str());
            Err(AppError::CleanupError(m))
        }
    }

    /// The clean-up result of a plan once its request has been answered,
    /// `duration_ms` after it started.
    pub fn complete(plan: CleanupPlan, reply: CleanupReply, duration_ms: u64) -> (r: Result<CleanupResult, AppError>)
        ensures
            reply matches CleanupReply::Text(t) ==> (r matches Ok(res) && res.cleaned_text == t
                && res.provider_id == plan.provider_id && res.provider_name == plan.provider_name
                && res.duration_ms == duration_ms),
            reply matches CleanupReply::RequestFailed(e) ==> fails_cleanup(r,
                request_label(plan.request) + " request failed: "@ + e@),
            reply matches CleanupReply::ParseFailed(e) ==> fails_cleanup(r,
                request_label(plan.request) + " response parse failed: "@ + e@),
            reply is NoChoices ==> fails_cleanup(r, "Provider response had no choices"@),
    {
        let label = match &plan.request {
            CleanupRequest::Ollama { .. } => "Ollama",
            CleanupRequest::OpenAiCompatible { .. } => "OpenAI",
        };
        match reply {
            CleanupReply::Text(t) => Ok(CleanupResult {
                cleaned_text: t,
                provider_id: plan.provider_id,
                provider_name: plan.provider_name,
                duration_ms,
            }),
            CleanupReply::RequestFailed(e) => {
                Err(AppError::CleanupError(concat3(label, " request failed: ", e.as_str())))
            },
            CleanupReply::ParseFailed(e) => {
                Err(AppError::CleanupError(concat3(label, " response parse failed: ", e.as_str())))
            },
            CleanupReply::NoChoices => Err(AppError::CleanupError(str_of("Provider response had no choices"))),
        }
    }

    /// The text of the first choice of an OpenAI-compatible reply, given the
    /// message contents of its choices in order.
    pub fn first_choice(contents: Vec<String>) -> (r: Result<String, AppError>)
        ensures
            contents@.len() > 0 ==> r == Ok::<String, AppError>(contents@[0]),
            contents@.len() == 0 ==> fails_cleanup(r, "Provider response had no choices"@),
    {
        let mut contents = contents;
        if contents.len() == 0 {
            return Err(AppError::CleanupError(str_of("Provider response had no choices")));
        }
        Ok(contents.remove(0))
    }
}

fn default_prompt() -> (r: String)
    ensures
        r@ == default_system_prompt(),
{
    str_of("You are a text cleanup assistant. Fix grammar, punctuation, and formatting. Return only the cleaned text with no explanation.")
}

/// In local-only mode a clean-up may only go to an Ollama provider (a local
/// model); every other provider type is a cloud clean-up and is refused.
/// With local-only mode off, every provider type may clean up.
pub proof fn law_local_only_cleanup_stays_local(provider_type: Seq<char>)
    ensures
        op_allowed(true, cleanup_operation(provider_type)) <==> provider_type == "ollama"@,
        op_allowed(false, cleanup_operation(provider_type)),
{
    law_local_only_permits_exactly_the_local_list("local_cleanup"@);
    law_local_only_refuses_the_cloud_list("cloud_cleanup"@);
}

} // verus!

//! The privacy policy: what local-only mode permits.
use vstd::prelude::*;
use crate::db::database::Database;
use crate::errors::AppError;
use crate::models::{AppSettings, PrivacyDecision, PrivacyOperation, PrivacySummary};
use crate::text::{concat3, eq_lit, str_of};

verus! {

/// Operation types that are explicitly cloud/provider-related.
pub open spec fn is_cloud_op(op: Seq<char>) -> bool {
    ||| op == "cloud_transcription"@
    ||| op == "cloud_cleanup"@
    ||| op == "provider_test"@
    ||| op == "provider_call"@
    ||| op == "openai"@
    ||| op == "anthropic"@
    ||| op == "remote_model"@
}

/// Operation types that are explicitly permitted when local-only mode is active.
pub open spec fn is_local_op(op: Seq<char>) -> bool {
    ||| op == "local_transcription"@
    ||| op == "local_cleanup"@
    ||| op == "read_settings"@
    ||| op == "write_settings"@
    ||| op == "read_history"@
    ||| op == "write_history"@
    ||| op == "read_vocabulary"@
    ||| op == "write_vocabulary"@
    ||| op == "read_modes"@
    ||| op == "write_modes"@
}

/// Whether an operation may run: everything is permitted when local-only mode
/// is off; in local-only mode only the listed local operations are, and
/// unknown operations are refused (fail closed).
pub open spec fn op_allowed(local_only: bool, op: Seq<char>) -> bool {
    !local_only || (!is_cloud_op(op) && is_local_op(op))
}

/// The explanation given with a decision.
pub open spec fn decision_reason(local_only: bool, op: Seq<char>) -> Seq<char> {
    if !local_only {
        "local-only mode is off; cloud operations are permitted"@
    } else if is_cloud_op(op) {
        "operation '"@ + op + "' is not allowed in local-only mode"@
    } else if is_local_op(op) {
        "operation '"@ + op + "' is permitted in local-only mode"@
    } else {
        "unknown operation '"@ + op + "' blocked by default in local-only mode"@
    }
}

/// The privacy summary `s` describes `settings`.
pub open spec fn summarizes(s: PrivacySummary, settings: AppSettings) -> bool {
    &&& s.local_only_mode == settings.local_only_mode
    &&& s.audio_retention_days == if settings.audio_history_enabled { settings.retention_days } else { 0 }
    &&& s.history_retention_days == settings.retention_days
    &&& s.cloud_allowed == !settings.local_only_mode
    &&& s.reason@ == if settings.local_only_mode {
            "local-only mode is active; no data may leave this device"@
        } else {
            "cloud providers are enabled; audio and text may leave this device if a provider is configured"@
        }
}

fn is_cloud_operation(op: &String) -> (b: bool)
    ensures
        b == is_cloud_op(op@),
{
    eq_lit(op, "cloud_transcription") || eq_lit(op, "cloud_cleanup") || eq_lit(op, "provider_test")
        || eq_lit(op, "provider_call") || eq_lit(op, "openai") || eq_lit(op, "anthropic")
        || eq_lit(op, "remote_model")
}

fn is_local_operation(op: &String) -> (b: bool)
    ensures
        b == is_local_op(op@),
{
    eq_lit(op, "local_transcription") || eq_lit(op, "local_cleanup") || eq_lit(op, "read_settings")
        || eq_lit(op, "write_settings") || eq_lit(op, "read_history") || eq_lit(op, "write_history")
        || eq_lit(op, "read_vocabulary") || eq_lit(op, "write_vocabulary") || eq_lit(op, "read_modes")
        || eq_lit(op, "write_modes")
}

/// The decision for operation type `op` under the given local-only setting.
pub fn decide(local_only: bool, op: &String) -> (d: PrivacyDecision)
    ensures
        d.allowed == op_allowed(local_only, op@),
        d.reason@ == decision_reason(local_only, op@),
{
    if !local_only {
        return PrivacyDecision {
            allowed: true,
            reason: str_of("local-only mode is off; cloud operations are permitted"),
        };
    }
    if is_cloud_operation(op) {
        return PrivacyDecision {
            allowed: false,
            reason: concat3("operation '", op.as_str(), "' is not allowed in local-only mode"),
        };
    }
    if is_local_operation(op) {
        return PrivacyDecision {
            allowed: true,
            reason: concat3("operation '", op.as_str(), "' is permitted in local-only mode"),
        };
    }
    PrivacyDecision {
        allowed: false,
        reason: concat3("unknown operation '", op.as_str(), "' blocked by default in local-only mode"),
    }
}

/// The privacy summary of `settings`.
pub fn summarize(settings: &AppSettings) -> (s: PrivacySummary)
    ensures
        summarizes(s, *settings),
{
    let audio_retention_days = if settings.audio_history_enabled { settings.retention_days } else { 0 };
    let (cloud_allowed, reason) = if settings.local_only_mode {
        (false, str_of("local-only mode is active; no data may leave this device"))
    } else {
        (true, str_of("cloud providers are enabled; audio and text may leave this device if a provider is configured"))
    };
    PrivacySummary {
        local_only_mode: settings.local_only_mode,
        audio_retention_days,
        history_retention_days: settings.retention_days,
        cloud_allowed,
        reason,
    }
}

/// The privacy policy applied to the stored settings.
pub struct PrivacyService;

impl PrivacyService {
    /// The current privacy state derived from the stored settings.
    pub fn get_privacy_status(&self, db: &Database) -> (r: Result<PrivacySummary, AppError>)
        ensures
            db.settings@ is Some ==> (r matches Ok(s) && summarizes(s, db.settings@->0)),
            db.settings@ is None ==> (r matches Ok(s) && !s.local_only_mode && s.cloud_allowed
                && s.audio_retention_days == 0 && s.history_retention_days == 30),
    {
        let settings = db.settings.get()?;
        Ok(summarize(&settings))
    }

    /// Whether `op` may run under the stored settings. Fails closed: unknown
    /// operations are blocked when local-only mode is on.
    pub fn enforce_privacy_preview(&self, db: &Database, op: PrivacyOperation) -> (r: Result<PrivacyDecision, AppError>)
        ensures
            r matches Ok(d) && ({
                let local_only = match db.settings@ { Some(s) => s.local_only_mode, None => false };
                &&& d.allowed == op_allowed(local_only, op.operation_type@)
                &&& d.reason@ == decision_reason(local_only, op.operation_type@)
            }),
    {
        let settings = db.settings.get()?;
        Ok(decide(settings.local_only_mode, &op.operation_type))
    }
}

/// Local-only mode fails closed: every operation that is not one of the
/// listed local operations is refused, cloud operations included.
pub proof fn law_local_only_fails_closed(op: Seq<char>)
    requires
        !is_local_op(op) || is_cloud_op(op),
    ensures
        !op_allowed(true, op),
{
}

/// The listed local operations are permitted whatever the mode, and with
/// local-only mode off every operation is.
pub proof fn law_local_operations_always_allowed(local_only: bool, op: Seq<char>)
    ensures
        is_local_op(op) ==> op_allowed(local_only, op),
        !local_only ==> op_allowed(local_only, op),
{
    if is_local_op(op) {
        lemma_local_not_cloud(op);
    }
}

proof fn lemma_local_not_cloud(op: Seq<char>)
    requires
        is_local_op(op),
    ensures
        !is_cloud_op(op),
{
    reveal_strlit("local_transcription");
    reveal_strlit("local_cleanup");
    reveal_strlit("read_settings");
    reveal_strlit("write_settings");
    reveal_strlit("read_history");
    reveal_strlit("write_history");
    reveal_strlit("read_vocabulary");
    reveal_strlit("write_vocabulary");
    reveal_strlit("read_modes");
    reveal_strlit("write_modes");
    reveal_strlit("cloud_transcription");
    reveal_strlit("cloud_cleanup");
    reveal_strlit("provider_test");
    reveal_strlit("provider_call");
    reveal_strlit("openai");
    reveal_strlit("anthropic");
    reveal_strlit("remote_model");
    assert("local_transcription"@[0] != "cloud_transcription"@[0]);
    assert("local_transcription"@.len() != "cloud_cleanup"@.len());
    assert("local_transcription"@.len() != "provider_test"@.len());
    assert("local_transcription"@.len() != "provider_call"@.len());
    assert("local_transcription"@.len() != "openai"@.len());
    assert("local_transcription"@.len() != "anthropic"@.len());
    assert("local_transcription"@.len() != "remote_model"@.len());
    assert("local_cleanup"@.len() != "cloud_transcription"@.len());
    assert("local_cleanup"@[0] != "cloud_cleanup"@[0]);
    assert("local_cleanup"@[0] != "provider_test"@[0]);
    assert("local_cleanup"@[0] != "provider_call"@[0]);
    assert("local_cleanup"@.len() != "openai"@.len());
    assert("local_cleanup"@.len() != "anthropic"@.len());
    assert("local_cleanup"@.len() != "remote_model"@.len());
    assert("read_settings"@.len() != "cloud_transcription"@.len());
    assert("read_settings"@[0] != "cloud_cleanup"@[0]);
    assert("read_settings"@[0] != "provider_test"@[0]);
    assert("read_settings"@[0] != "provider_call"@[0]);
    assert("read_settings"@.len() != "openai"@.len());
    assert("read_settings"@.len() != "anthropic"@.len());
    assert("read_settings"@.len() != "remote_model"@.len());
    assert("write_settings"@.len() != "cloud_transcription"@.len());
    assert("write_settings"@.len() != "cloud_cleanup"@.len());
    assert("write_settings"@.len() != "provider_test"@.len());
    assert("write_settings"@.len() != "provider_call"@.len());
    assert("write_settings"@.len() != "openai"@.len());
    assert("write_settings"@.len() != "anthropic"@.len());
    assert("write_settings"@.len() != "remote_model"@.len());
    assert("read_history"@.len() != "cloud_transcription"@.len());
    assert("read_history"@.len() != "cloud_cleanup"@.len());
    assert("read_history"@.len() != "provider_test"@.len());
    assert("read_history"@.len() != "provider_call"@.len());
    assert("read_history"@.len() != "openai"@.len());
    assert("read_history"@.len() != "anthropic"@.len());
    assert("read_history"@[2] != "remote_model"@[2]);
    assert("write_history"@.len() != "cloud_transcription"@.len());
    assert("write_history"@[0] != "cloud_cleanup"@[0]);
    assert("write_history"@[0] != "provider_test"@[0]);
    assert("write_history"@[0] != "provider_call"@[0]);
    assert("write_history"@.len() != "openai"@.len());
    assert("write_history"@.len() != "anthropic"@.len());
    assert("write_history"@.len() != "remote_model"@.len());
    assert("read_vocabulary"@.len() != "cloud_transcription"@.len());
    assert("read_vocabulary"@.len() != "cloud_cleanup"@.len());
    assert("read_vocabulary"@.len() != "provider_test"@.len());
    assert("read_vocabulary"@.len() != "provider_call"@.len());
    assert("read_vocabulary"@.len() != "openai"@.len());
    assert("read_vocabulary"@.len() != "anthropic"@.len());
    assert("read_vocabulary"@.len() != "remote_model"@.len());
    assert("write_vocabulary"@.len() != "cloud_transcription"@.len());
    assert("write_vocabulary"@.len() != "cloud_cleanup"@.len());
    assert("write_vocabulary"@.len() != "provider_test"@.len());
    assert("write_vocabulary"@.len() != "provider_call"@.len());
    assert("write_vocabulary"@.len() != "openai"@.len());
    assert("write_vocabulary"@.len() != "anthropic"@.len());
    assert("write_vocabulary"@.len() != "remote_model"@.len());
    assert("read_modes"@.len() != "cloud_transcription"@.len());
    assert("read_modes"@.len() != "cloud_cleanup"@.len());
    assert("read_modes"@.len() != "provider_test"@.len());
    assert("read_modes"@.len() != "provider_call"@.len());
    assert("read_modes"@.len() != "openai"@.len());
    assert("read_modes"@.len() != "anthropic"@.len());
    assert("read_modes"@.len() != "remote_model"@.len());
    assert("write_modes"@.len() != "cloud_transcription"@.len());
    assert("write_modes"@.len() != "cloud_cleanup"@.len());
    assert("write_modes"@.len() != "provider_test"@.len());
    assert("write_modes"@.len() != "provider_call"@.len());
    assert("write_modes"@.len() != "openai"@.len());
    assert("write_modes"@.len() != "anthropic"@.len());
    assert("write_modes"@.len() != "remote_model"@.len());
}

/// A refusal always says why, and names the operation: the reason given with
/// a refused operation is the local-only explanation for it.
pub proof fn law_refusal_names_operation(op: Seq<char>)
    requires
        !op_allowed(true, op),
    ensures
        decision_reason(true, op) == "operation '"@ + op + "' is not allowed in local-only mode"@
            || decision_reason(true, op) == "unknown operation '"@ + op + "' blocked by default in local-only mode"@,
{
}

/// In local-only mode exactly these ten operations run: local transcription
/// and clean-up, and reading or writing settings, history, vocabulary and
/// modes. Each is permitted with the permission named in the reason; every
/// other operation, cloud or unknown, is refused.
pub proof fn law_local_only_permits_exactly_the_local_list(op: Seq<char>)
    ensures
        op_allowed(true, op) <==> (op == "local_transcription"@ || op == "local_cleanup"@
            || op == "read_settings"@ || op == "write_settings"@
            || op == "read_history"@ || op == "write_history"@
            || op == "read_vocabulary"@ || op == "write_vocabulary"@
            || op == "read_modes"@ || op == "write_modes"@),
        (op == "local_transcription"@ || op == "local_cleanup"@
            || op == "read_settings"@ || op == "write_settings"@
            || op == "read_history"@ || op == "write_history"@
            || op == "read_vocabulary"@ || op == "write_vocabulary"@
            || op == "read_modes"@ || op == "write_modes"@)
            ==> decision_reason(true, op) == "operation '"@ + op + "' is permitted in local-only mode"@,
{
    if op == "local_transcription"@ || op == "local_cleanup"@
        || op == "read_settings"@ || op == "write_settings"@
        || op == "read_history"@ || op == "write_history"@
        || op == "read_vocabulary"@ || op == "write_vocabulary"@
        || op == "read_modes"@ || op == "write_modes"@ {
        lemma_local_not_cloud(op);
    }
}

/// In local-only mode the seven cloud and provider operations are refused,
/// each with the reason that names it as not allowed.
pub proof fn law_local_only_refuses_the_cloud_list(op: Seq<char>)
    requires
        op == "cloud_transcription"@ || op == "cloud_cleanup"@ || op == "provider_test"@
            || op == "provider_call"@ || op == "openai"@ || op == "anthropic"@ || op == "remote_model"@,
    ensures
        !op_allowed(true, op),
        decision_reason(true, op) == "operation '"@ + op + "' is not allowed in local-only mode"@,
{
}

} // verus!

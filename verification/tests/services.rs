use transtypro::db::database::Database;
use transtypro::errors::AppError;
use transtypro::models::{AiProvider, DiagnosticCheck, DiagnosticReport, DictationMode, HistoryEntry, PrivacyOperation, VocabularyEntry};
use transtypro::services::cleanup::{CleanupReply, CleanupRequest, CleanupService};
use transtypro::services::diagnostics::{DiagnosticFacts, DiagnosticsService};
use transtypro::services::history::HistoryService;
use transtypro::services::insert_text;
use transtypro::services::insertion::{ClipboardWrite, InsertionService};
use transtypro::services::modes::ModesService;
use transtypro::services::privacy::PrivacyService;
use transtypro::services::providers::{ConnectionProbe, KeychainStep, ProbeOutcome, ProvidersService};
use transtypro::services::retention::{AudioFileFacts, AudioRetention, RetentionService};
use transtypro::services::settings::SettingsService;
use transtypro::services::status::build_status_summary;
use transtypro::services::transcription::{PathFacts, ProcessOutcome, TranscriptionService, WavLocation};
use transtypro::services::vocabulary::VocabularyService;

fn setup() -> Database {
    Database::new()
}

fn with_local_only(local_only: bool) -> Database {
    let mut db = setup();
    if local_only {
        let mut s = db.settings.get().unwrap();
        s.local_only_mode = true;
        db.settings.upsert(&s).unwrap();
    }
    db
}

fn history_entry(raw: &str) -> HistoryEntry {
    HistoryEntry {
        id: String::new(),
        raw_text: raw.to_string(),
        cleaned_text: raw.to_string(),
        mode_used: "smart".to_string(),
        timestamp: String::new(),
        was_inserted: false,
    }
}

// ── status summary ──────────────────────────────────────────────────────────

#[test]
fn test_status_summary_defaults() {
    let db = setup();
    let summary = build_status_summary(&db).unwrap();
    assert_eq!(summary.privacy_mode, "cloud-enabled");
    assert!(!summary.transcription_ready);
    assert!(summary.cleanup_provider.is_none());
    assert_eq!(summary.history_count, 0);
}

#[test]
fn test_status_summary_history_count() {
    let mut db = setup();
    HistoryService.create_history_entry(&mut db, history_entry("a")).unwrap();
    let summary = build_status_summary(&db).unwrap();
    assert_eq!(summary.history_count, 1);
}

#[test]
fn test_status_summary_transcription_ready_requires_both_paths() {
    let mut db = setup();
    let mut s = SettingsService.get_settings(&db).unwrap();
    s.whisper_binary_path = Some("/usr/bin/whisper".to_string());
    s.whisper_model_path = None;
    SettingsService.update_settings(&mut db, s).unwrap();
    assert!(!build_status_summary(&db).unwrap().transcription_ready);

    let mut s2 = SettingsService.get_settings(&db).unwrap();
    s2.whisper_model_path = Some("/models/ggml-base.bin".to_string());
    SettingsService.update_settings(&mut db, s2).unwrap();
    assert!(build_status_summary(&db).unwrap().transcription_ready);
}

#[test]
fn test_status_summary_privacy_mode_reflects_settings() {
    let mut db = setup();
    let mut s = SettingsService.get_settings(&db).unwrap();
    s.local_only_mode = false;
    SettingsService.update_settings(&mut db, s).unwrap();
    assert_eq!(build_status_summary(&db).unwrap().privacy_mode, "cloud-enabled");
}

#[test]
fn status_summary_names_first_cleanup_provider() {
    let mut db = with_local_only(true);
    let svc = ProvidersService;
    svc.create_provider_with_id(&mut db, "z".to_string(), "Zed", "ollama", "http://h", "m", true).unwrap();
    svc.create_provider_with_id(&mut db, "y".to_string(), "Yak", "ollama", "http://h", "m", true).unwrap();
    let summary = build_status_summary(&db).unwrap();
    assert_eq!(summary.privacy_mode, "local-only");
    assert_eq!(summary.cleanup_provider.as_deref(), Some("Yak"));
    assert_eq!(summary.active_mode, "smart");
}

// ── privacy ─────────────────────────────────────────────────────────────────

fn op(operation_type: &str) -> PrivacyOperation {
    PrivacyOperation { operation_type: operation_type.to_string(), provider_id: None }
}

#[test]
fn test_status_cloud_allowed_by_default() {
    let db = with_local_only(false);
    let status = PrivacyService.get_privacy_status(&db).unwrap();
    assert!(status.cloud_allowed);
    assert!(!status.local_only_mode);
}

#[test]
fn test_status_blocked_in_local_only_mode() {
    let db = with_local_only(true);
    let status = PrivacyService.get_privacy_status(&db).unwrap();
    assert!(!status.cloud_allowed);
    assert!(status.local_only_mode);
}

#[test]
fn test_status_audio_retention_zero_when_disabled() {
    let db = with_local_only(false);
    let status = PrivacyService.get_privacy_status(&db).unwrap();
    assert_eq!(status.audio_retention_days, 0);
}

#[test]
fn test_status_audio_retention_uses_settings_when_enabled() {
    let mut db = setup();
    let mut s = db.settings.get().unwrap();
    s.audio_history_enabled = true;
    s.retention_days = 14;
    db.settings.upsert(&s).unwrap();
    let status = PrivacyService.get_privacy_status(&db).unwrap();
    assert_eq!(status.audio_retention_days, 14);
}

#[test]
fn test_enforce_allows_cloud_when_not_local_mode() {
    let db = with_local_only(false);
    let decision = PrivacyService.enforce_privacy_preview(&db, op("cloud_transcription")).unwrap();
    assert!(decision.allowed);
}

#[test]
fn test_enforce_blocks_cloud_transcription_in_local_only() {
    let db = with_local_only(true);
    let decision = PrivacyService.enforce_privacy_preview(&db, op("cloud_transcription")).unwrap();
    assert!(!decision.allowed);
}

#[test]
fn test_enforce_blocks_openai_in_local_only() {
    let db = with_local_only(true);
    let decision = PrivacyService.enforce_privacy_preview(&db, op("openai")).unwrap();
    assert!(!decision.allowed);
}

#[test]
fn test_enforce_blocks_provider_test_in_local_only() {
    let db = with_local_only(true);
    let decision = PrivacyService.enforce_privacy_preview(&db, op("provider_test")).unwrap();
    assert!(!decision.allowed);
}

#[test]
fn test_enforce_allows_local_transcription_in_local_only() {
    let db = with_local_only(true);
    let decision = PrivacyService.enforce_privacy_preview(&db, op("local_transcription")).unwrap();
    assert!(decision.allowed);
}

#[test]
fn test_enforce_blocks_unknown_op_in_local_only() {
    let db = with_local_only(true);
    let decision = PrivacyService.enforce_privacy_preview(&db, op("some_future_op")).unwrap();
    assert!(!decision.allowed);
    assert!(decision.reason.contains("unknown operation"));
}

#[test]
fn test_enforce_allows_unknown_op_when_not_local_only() {
    let db = with_local_only(false);
    let decision = PrivacyService.enforce_privacy_preview(&db, op("some_future_op")).unwrap();
    assert!(decision.allowed);
}

#[test]
fn test_history_retention_days_from_settings() {
    let mut db = setup();
    let mut s = db.settings.get().unwrap();
    s.active_mode = "smart".to_string();
    s.theme = "dark".to_string();
    s.retention_days = 90;
    db.settings.upsert(&s).unwrap();
    let status = PrivacyService.get_privacy_status(&db).unwrap();
    assert_eq!(status.history_retention_days, 90);
}

#[test]
fn privacy_reasons_are_exact() {
    let db = with_local_only(true);
    let d = PrivacyService.enforce_privacy_preview(&db, op("openai")).unwrap();
    assert_eq!(d.reason, "operation 'openai' is not allowed in local-only mode");
    let d = PrivacyService.enforce_privacy_preview(&db, op("read_history")).unwrap();
    assert!(d.allowed);
    assert_eq!(d.reason, "operation 'read_history' is permitted in local-only mode");
    let db = with_local_only(false);
    let d = PrivacyService.enforce_privacy_preview(&db, op("openai")).unwrap();
    assert_eq!(d.reason, "local-only mode is off; cloud operations are permitted");
}

// ── cleanup ─────────────────────────────────────────────────────────────────

fn insert_provider(db: &mut Database, id: &str, provider_type: &str, enabled: bool) {
    let p = AiProvider {
        id: id.to_string(),
        name: format!("{provider_type}-name"),
        provider_type: provider_type.to_string(),
        base_url: "http://localhost:1".to_string(),
        model: "model".to_string(),
        enabled,
        use_for_cleanup: true,
        use_for_transcription: false,
        api_key_set: false,
    };
    db.providers.insert(&p).unwrap();
}

const DEFAULT_SYSTEM_PROMPT: &str = "You are a text cleanup assistant. Fix grammar, punctuation, and formatting. \
     Return only the cleaned text with no explanation.";

#[test]
fn test_prompt_construction_default_when_mode_prompt_empty() {
    let db = setup();
    let prompt = CleanupService.load_system_prompt(&db);
    assert_eq!(prompt, DEFAULT_SYSTEM_PROMPT);
}

#[test]
fn test_prompt_construction_uses_active_mode_prompt_when_non_empty() {
    let mut db = setup();
    let mut rows = db.modes.rows();
    for m in rows.iter_mut() {
        if m.id == "smart" {
            m.system_prompt = "Custom prompt.".to_string();
        }
    }
    db.modes = transtypro::db::modes_repo::ModesRepository::from_rows(rows).unwrap();
    let prompt = CleanupService.load_system_prompt(&db);
    assert_eq!(prompt, "Custom prompt.");
}

#[test]
fn test_build_ollama_prompt_combines_system_and_raw() {
    let result = CleanupService::build_ollama_prompt("Fix grammar.", "hello world");
    assert_eq!(result, "Fix grammar.\n\nText to clean:\nhello world");
}

#[test]
fn test_cleanup_rejects_disabled_provider() {
    let mut db = setup();
    insert_provider(&mut db, "disabled-p", "ollama", false);
    let err = CleanupService.plan_cleanup(&db, "hello", "disabled-p").err().unwrap();
    assert!(matches!(err, AppError::CleanupError(_)), "expected CleanupError for disabled provider, got {err:?}");
}

#[test]
fn test_cleanup_unknown_provider_type_returns_cleanup_error() {
    let mut db = setup();
    insert_provider(&mut db, "custom-p", "custom_http", true);
    let err = CleanupService.plan_cleanup(&db, "hello", "custom-p").err().unwrap();
    assert!(matches!(err, AppError::CleanupError(_)), "expected CleanupError for unknown type, got {err:?}");
}

#[test]
fn test_privacy_cloud_cleanup_blocked_in_local_only_mode() {
    let mut db = with_local_only(true);
    insert_provider(&mut db, "oai-p", "openai_compatible", true);
    let err = CleanupService.plan_cleanup(&db, "hello", "oai-p").err().unwrap();
    assert!(
        matches!(err, AppError::PrivacyBlocked(_)),
        "expected PrivacyBlocked for cloud cleanup in local-only mode, got {err:?}"
    );
}

#[test]
fn test_privacy_local_cleanup_allowed_in_local_only_mode() {
    let mut db = with_local_only(true);
    insert_provider(&mut db, "ollama-p", "ollama", true);
    let planned = CleanupService.plan_cleanup(&db, "hello", "ollama-p");
    assert!(
        !matches!(planned, Err(AppError::PrivacyBlocked(_))),
        "Ollama must NOT be blocked by privacy in local-only mode"
    );
    // Nothing listens on port 1: the request fails.
    let err = CleanupService::complete(planned.ok().unwrap(), CleanupReply::RequestFailed("Connection refused".to_string()), 3)
        .err()
        .unwrap();
    assert!(matches!(err, AppError::CleanupError(_)), "Expected CleanupError from network failure on port 1, got {err:?}");
}

#[test]
fn cleanup_plans_are_exact() {
    let mut db = setup();
    insert_provider(&mut db, "ol", "ollama", true);
    let mut p = db.providers.get_by_id("ol").unwrap();
    p.base_url = "http://localhost:11434//".to_string();
    db.providers.update(&p).unwrap();
    insert_provider(&mut db, "oa", "openai_compatible", true);
    let plan = CleanupService.plan_cleanup(&db, "hi", "ol").ok().unwrap();
    assert_eq!(plan.provider_id, "ol");
    assert_eq!(plan.provider_name, "ollama-name");
    match &plan.request {
        CleanupRequest::Ollama { url, model, prompt } => {
            assert_eq!(url, "http://localhost:11434/api/generate");
            assert_eq!(model, "model");
            assert_eq!(prompt, &format!("{DEFAULT_SYSTEM_PROMPT}\n\nText to clean:\nhi"));
        }
        _ => panic!("expected Ollama"),
    }
    let plan = CleanupService.plan_cleanup(&db, "hi", "oa").ok().unwrap();
    match &plan.request {
        CleanupRequest::OpenAiCompatible { url, system_prompt, user_text, .. } => {
            assert_eq!(url, "http://localhost:1/chat/completions");
            assert_eq!(system_prompt, DEFAULT_SYSTEM_PROMPT);
            assert_eq!(user_text, "hi");
        }
        _ => panic!("expected OpenAiCompatible"),
    }
    let res = CleanupService::complete(plan, CleanupReply::Text("Hi.".to_string()), 12).ok().unwrap();
    assert_eq!(res.cleaned_text, "Hi.");
    assert_eq!(res.provider_id, "oa");
    assert_eq!(res.duration_ms, 12);
    match CleanupService.plan_cleanup(&db, "hi", "missing") {
        Err(AppError::NotFound(m)) => assert_eq!(m, "provider 'missing' not found"),
        _ => panic!("expected NotFound"),
    }
}

#[test]
fn cleanup_reply_errors_name_the_provider_kind() {
    let mut db = setup();
    insert_provider(&mut db, "oa", "openai_compatible", true);
    let plan = CleanupService.plan_cleanup(&db, "x", "oa").ok().unwrap();
    match CleanupService::complete(plan, CleanupReply::ParseFailed("bad json".to_string()), 0) {
        Err(AppError::CleanupError(m)) => assert_eq!(m, "OpenAI response parse failed: bad json"),
        _ => panic!("expected CleanupError"),
    }
    let plan = CleanupService.plan_cleanup(&db, "x", "oa").ok().unwrap();
    match CleanupService::complete(plan, CleanupReply::NoChoices, 0) {
        Err(AppError::CleanupError(m)) => assert_eq!(m, "Provider response had no choices"),
        _ => panic!("expected CleanupError"),
    }
    assert_eq!(CleanupService::first_choice(vec!["a".to_string(), "b".to_string()]).ok().unwrap(), "a");
    assert!(CleanupService::first_choice(Vec::new()).is_err());
}

// ── providers ───────────────────────────────────────────────────────────────

#[test]
fn test_set_api_key_missing_provider_returns_not_found() {
    let db = setup();
    let err = ProvidersService.set_api_key(&db, "nonexistent-provider-id", "sk-test").err().unwrap();
    assert!(matches!(err, AppError::NotFound(_)), "expected NotFound for unknown provider ID, got {err:?}");
}

#[test]
fn set_api_key_names_the_keychain_entry() {
    let mut db = setup();
    let svc = ProvidersService;
    let p = svc.create_provider(&mut db, "OpenAI", "openai_compatible", "https://api.example.com/v1", "gpt", true).unwrap();
    assert_eq!(p.id.len(), 36);
    let w = svc.set_api_key(&db, &p.id, "sk-123").ok().unwrap();
    assert_eq!(w.service, "transtypro");
    assert_eq!(w.account, format!("provider:{}", p.id));
    assert_eq!(w.secret, "sk-123");
    assert!(!svc.get_provider(&db, &p.id).unwrap().api_key_set);
    svc.mark_api_key_stored(&mut db, &p.id).unwrap();
    assert!(svc.get_provider(&db, &p.id).unwrap().api_key_set);
    let e = ProvidersService::keychain_error(KeychainStep::Store, "locked");
    assert!(matches!(&e, AppError::ProviderError(m) if m == "Cannot store API key: OS keychain unavailable. locked"));
}

#[test]
fn created_providers_get_distinct_ids_and_update_keeps_type() {
    let mut db = setup();
    let svc = ProvidersService;
    let a = svc.create_provider(&mut db, "A", "ollama", "http://a", "m", true).unwrap();
    let b = svc.create_provider(&mut db, "B", "ollama", "http://b", "m", false).unwrap();
    assert_ne!(a.id, b.id);
    assert!(a.enabled && !a.use_for_transcription && !a.api_key_set);
    let u = svc.update_provider(&mut db, &b.id, "B2", "http://b2", "m2", false, true).unwrap();
    assert_eq!(u.provider_type, "ollama");
    assert_eq!(u.name, "B2");
    assert!(!u.enabled);
    assert_eq!(svc.list_providers(&db).unwrap().len(), 2);
    assert_eq!(svc.list_enabled_cleanup_providers(&db).unwrap().len(), 1);
    svc.delete_provider(&mut db, &a.id).unwrap();
    assert!(matches!(svc.get_provider(&db, &a.id), Err(AppError::NotFound(_))));
}

#[test]
fn connection_probe_and_verdicts() {
    let mut db = setup();
    let svc = ProvidersService;
    svc.create_provider_with_id(&mut db, "o".to_string(), "O", "ollama", "http://localhost:11434/", "m", true).unwrap();
    svc.create_provider_with_id(&mut db, "x".to_string(), "X", "openai_compatible", "https://h/v1", "m", true).unwrap();
    svc.create_provider_with_id(&mut db, "l".to_string(), "L", "local", "", "m", true).unwrap();
    let probe = svc.connection_probe(&db, "o").ok().unwrap();
    assert!(matches!(&probe, ConnectionProbe::Ollama { url } if url == "http://localhost:11434/api/tags"));
    assert_eq!(
        ProvidersService::connection_outcome(&probe, "http://localhost:11434/", ProbeOutcome::Reached).ok().unwrap(),
        "Ollama reachable at http://localhost:11434/"
    );
    let probe = svc.connection_probe(&db, "x").ok().unwrap();
    assert!(matches!(&probe, ConnectionProbe::OpenAiCompatible { url } if url == "https://h/v1/models"));
    let ok401 = ProvidersService::connection_outcome(
        &probe,
        "https://h/v1",
        ProbeOutcome::HttpStatus { code: 401, text: "unauthorized".to_string() },
    );
    assert_eq!(ok401.ok().unwrap(), "Provider reachable");
    match ProvidersService::connection_outcome(&probe, "https://h/v1", ProbeOutcome::Transport("dns".to_string())) {
        Err(AppError::ProviderError(m)) => assert_eq!(m, "Cannot reach provider at https://h/v1: dns"),
        _ => panic!("expected ProviderError"),
    }
    match svc.connection_probe(&db, "l") {
        Err(AppError::ProviderError(m)) => assert_eq!(m, "Unknown provider type for connection test: local"),
        _ => panic!("expected ProviderError"),
    }
    assert_eq!(ProvidersService::api_key_account("abc"), "provider:abc");
}

// ── modes, vocabulary, history services ─────────────────────────────────────

#[test]
fn modes_service_round_trip() {
    let mut db = setup();
    let svc = ModesService;
    let m = DictationMode {
        id: "mine".to_string(),
        name: "Mine".to_string(),
        description: "d".to_string(),
        system_prompt: "p".to_string(),
        active: false,
        builtin: true,
    };
    let created = svc.create_mode(&mut db, m).unwrap();
    assert!(!created.builtin);
    let got = svc.get_mode(&db, "mine".to_string()).unwrap();
    assert_eq!(got.name, "Mine");
    assert_eq!(svc.list_modes(&db).unwrap().len(), 11);
    let mut edited = got.clone();
    edited.description = "changed".to_string();
    assert_eq!(svc.update_mode(&mut db, edited).unwrap().description, "changed");
    svc.delete_mode(&mut db, "mine".to_string()).unwrap();
    assert!(matches!(svc.get_mode(&db, "mine".to_string()), Err(AppError::NotFound(_))));
    assert!(matches!(svc.delete_mode(&mut db, "smart".to_string()), Err(AppError::ValidationError(_))));
}

#[test]
fn vocabulary_service_round_trip() {
    let mut db = setup();
    let svc = VocabularyService;
    let e = VocabularyEntry {
        id: "v".to_string(),
        term: "kubernetes".to_string(),
        replacement: "Kubernetes".to_string(),
        category: "tech".to_string(),
        enabled: true,
    };
    svc.add_entry(&mut db, e).unwrap();
    assert_eq!(svc.list_vocabulary(&db).unwrap().len(), 1);
    let mut e2 = svc.list_vocabulary(&db).unwrap()[0].clone();
    e2.enabled = false;
    assert!(!svc.update_entry(&mut db, e2).unwrap().enabled);
    svc.delete_entry(&mut db, "v".to_string()).unwrap();
    assert!(svc.list_vocabulary(&db).unwrap().is_empty());
    assert!(matches!(svc.delete_entry(&mut db, "v".to_string()), Err(AppError::NotFound(_))));
}

#[test]
fn history_service_keeps_given_id_and_fills_only_the_time() {
    let mut db = setup();
    let svc = HistoryService;
    let given = HistoryEntry { id: "given-id".to_string(), ..history_entry("a") };
    let e = svc.create_history_entry(&mut db, given.clone()).unwrap();
    assert_eq!(e.id, "given-id");
    assert!(!e.timestamp.is_empty());
    assert_eq!(e.raw_text, "a");
    let stamped = HistoryEntry { id: "other".to_string(), timestamp: "2024-05-01T00:00:00Z".to_string(), ..history_entry("b") };
    let e = svc.create_history_entry(&mut db, stamped).unwrap();
    assert_eq!(e.timestamp, "2024-05-01T00:00:00Z");
    assert!(matches!(svc.create_history_entry(&mut db, given), Err(AppError::StorageError(_))));
    assert_eq!(svc.list_history(&db).unwrap().len(), 2);
}

#[test]
fn history_service_fills_id_and_time() {
    let mut db = setup();
    let svc = HistoryService;
    let e = svc.create_history_entry(&mut db, history_entry("hello")).unwrap();
    assert_eq!(e.id.len(), 36);
    assert!(!e.timestamp.is_empty());
    let fixed = svc
        .create_history_entry_with(&mut db, history_entry("x"), "fixed-id".to_string(), "2025-01-01T00:00:00Z".to_string())
        .unwrap();
    assert_eq!(fixed.id, "fixed-id");
    assert_eq!(fixed.timestamp, "2025-01-01T00:00:00Z");
    assert!(matches!(
        svc.create_history_entry_with(&mut db, history_entry("y"), "fixed-id".to_string(), "t".to_string()),
        Err(AppError::StorageError(_))
    ));
    svc.mark_inserted(&mut db, "fixed-id".to_string()).unwrap();
    assert!(svc.get_entry(&db, "fixed-id".to_string()).unwrap().was_inserted);
    assert_eq!(svc.list_history(&db).unwrap().len(), 2);
    svc.delete_entry(&mut db, "fixed-id".to_string()).unwrap();
    svc.clear_history(&mut db).unwrap();
    assert!(svc.list_history(&db).unwrap().is_empty());
}

// ── retention ───────────────────────────────────────────────────────────────

fn insert_history(db: &mut Database, id: &str, timestamp: &str) {
    let e = HistoryEntry {
        id: id.to_string(),
        raw_text: "text".to_string(),
        cleaned_text: "text".to_string(),
        mode_used: "smart".to_string(),
        timestamp: timestamp.to_string(),
        was_inserted: false,
    };
    db.history.create(&e).unwrap();
}

fn wav_file() -> AudioFileFacts {
    AudioFileFacts { inside_audio_dir: true, is_file: true, is_symlink: false, is_wav: true, modified_nanos: Some(0) }
}

#[test]
fn test_history_retention_zero_days_keeps_all() {
    let mut db = setup();
    let mut s = db.settings.get().unwrap();
    s.retention_days = 0;
    db.settings.upsert(&s).unwrap();
    insert_history(&mut db, "h1", "2000-01-01T00:00:00Z");
    let deleted = RetentionService::apply_history_retention(&mut db).unwrap();
    assert_eq!(deleted, 0, "retention_days=0 must delete nothing");
    assert_eq!(db.history.count(), 1, "entry must still exist");
}

#[test]
fn test_history_retention_deletes_old_keeps_recent() {
    let mut db = setup();
    insert_history(&mut db, "old", "2000-06-15T12:00:00Z");
    insert_history(&mut db, "new", "2099-12-31T23:59:59Z");
    let deleted = RetentionService::apply_history_retention(&mut db).unwrap();
    assert_eq!(deleted, 1, "only the old entry should be deleted");
    assert_eq!(db.history.count(), 1, "the recent entry must survive");
}

#[test]
fn test_audio_retention_deletes_wav_when_history_disabled() {
    let db = setup();
    let policy = RetentionService::audio_policy(&db, 1_700_000_000_000_000_000);
    assert_eq!(policy, AudioRetention::DeleteAll);
    let deleted = [wav_file()].iter().filter(|f| RetentionService::should_delete(policy, f)).count();
    assert_eq!(deleted, 1);
}

#[test]
fn test_audio_retention_skips_non_wav_files() {
    let db = setup();
    let policy = RetentionService::audio_policy(&db, 1_700_000_000_000_000_000);
    let txt = AudioFileFacts { is_wav: false, ..wav_file() };
    let deleted = [txt].iter().filter(|f| RetentionService::should_delete(policy, f)).count();
    assert_eq!(deleted, 0, "non-wav file must not be deleted");
}

#[test]
fn test_audio_retention_keeps_forever_when_history_enabled_and_zero_days() {
    let mut db = setup();
    let mut s = db.settings.get().unwrap();
    s.audio_history_enabled = true;
    s.retention_days = 0;
    db.settings.upsert(&s).unwrap();
    let policy = RetentionService::audio_policy(&db, 1_700_000_000_000_000_000);
    assert_eq!(policy, AudioRetention::KeepAll);
    let deleted = [wav_file()].iter().filter(|f| RetentionService::should_delete(policy, f)).count();
    assert_eq!(deleted, 0, "retention_days=0 with audio history on must keep files");
}

#[test]
fn test_apply_all_returns_combined_result() {
    let mut db = setup();
    insert_history(&mut db, "old", "2000-01-01T00:00:00Z");
    let deleted_history = RetentionService::apply_history_retention(&mut db).unwrap();
    let policy = RetentionService::audio_policy(&db, 1_700_000_000_000_000_000);
    let deleted_wav = [wav_file()].iter().filter(|f| RetentionService::should_delete(policy, f)).count() as u32;
    let result = RetentionService::combine(deleted_history, deleted_wav);
    assert_eq!(result.deleted_history_count, 1);
    assert_eq!(result.deleted_wav_count, 1);
}

#[test]
fn audio_retention_window_uses_modification_time() {
    let mut db = setup();
    let mut s = db.settings.get().unwrap();
    s.audio_history_enabled = true;
    s.retention_days = 2;
    db.settings.upsert(&s).unwrap();
    let day: i128 = 86_400_000_000_000;
    let now: i128 = 100 * day;
    let policy = RetentionService::audio_policy(&db, now);
    assert_eq!(policy, AudioRetention::DeleteModifiedUpTo(98 * day));
    let old = AudioFileFacts { modified_nanos: Some(97 * day), ..wav_file() };
    let edge = AudioFileFacts { modified_nanos: Some(98 * day), ..wav_file() };
    let fresh = AudioFileFacts { modified_nanos: Some(99 * day), ..wav_file() };
    let unknown = AudioFileFacts { modified_nanos: None, ..wav_file() };
    let outside = AudioFileFacts { inside_audio_dir: false, modified_nanos: Some(0), ..wav_file() };
    let dir = AudioFileFacts { is_file: false, ..wav_file() };
    let link = AudioFileFacts { is_symlink: true, modified_nanos: Some(0), ..wav_file() };
    assert!(RetentionService::should_delete(policy, &old));
    assert!(!RetentionService::should_delete(policy, &link));
    assert!(RetentionService::should_delete(policy, &edge));
    assert!(!RetentionService::should_delete(policy, &fresh));
    assert!(!RetentionService::should_delete(policy, &unknown));
    assert!(!RetentionService::should_delete(policy, &outside));
    assert!(!RetentionService::should_delete(policy, &dir));
}

#[test]
fn audio_retention_leaves_symbolic_links_alone() {
    let db = setup();
    let policy = RetentionService::audio_policy(&db, 1_700_000_000_000_000_000);
    assert_eq!(policy, AudioRetention::DeleteAll);
    let link = AudioFileFacts { is_symlink: true, ..wav_file() };
    assert!(!RetentionService::should_delete(policy, &link));
    assert!(RetentionService::should_delete(policy, &wav_file()));
}

#[test]
fn history_retention_at_fixed_time() {
    let mut db = setup();
    insert_history(&mut db, "a", "2024-01-01T00:00:00Z");
    insert_history(&mut db, "b", "2024-01-30T00:00:00Z");
    // 2024-02-15T00:00:00Z; 30 days back is 2024-01-16.
    let deleted = RetentionService::apply_history_retention_at(&mut db, 1_707_955_200).unwrap();
    assert_eq!(deleted, 1);
    assert!(db.history.get("b").is_ok());
}

// ── transcription ───────────────────────────────────────────────────────────

fn facts(binary: bool, model: bool, wav: bool, location: WavLocation) -> PathFacts {
    PathFacts { binary_is_file: binary, model_is_file: model, wav_is_file: wav, wav_location: location }
}

fn err_text(r: Result<(), AppError>) -> (bool, String) {
    let e = r.err().unwrap();
    (matches!(e, AppError::TranscriptionError(_)), e.message().to_lowercase())
}

#[test]
fn test_transcribe_fails_empty_binary_path() {
    let f = facts(false, false, false, WavLocation::Inside);
    let (is_transcription, text) = err_text(TranscriptionService::check_inputs("/some/recording.wav", "", "/some/model.bin", &f));
    assert!(is_transcription, "expected TranscriptionError");
    assert!(text.contains("binary"), "error should mention 'binary': {text}");
}

#[test]
fn test_transcribe_fails_nonexistent_binary() {
    let f = facts(false, false, false, WavLocation::Inside);
    let (is_transcription, text) = err_text(TranscriptionService::check_inputs(
        "/some/recording.wav",
        "/nonexistent/path/whisper_phase4_bin",
        "/some/model.bin",
        &f,
    ));
    assert!(is_transcription, "expected TranscriptionError");
    assert!(text.contains("not found") || text.contains("binary"), "error should indicate binary not found: {text}");
}

#[test]
fn test_transcribe_fails_empty_model_path() {
    let f = facts(true, false, false, WavLocation::Inside);
    let (is_transcription, text) =
        err_text(TranscriptionService::check_inputs("/some/recording.wav", "/tmp/ts_test_bin_emptymodel_p4", "", &f));
    assert!(is_transcription, "expected TranscriptionError");
    assert!(text.contains("model"), "error should mention 'model': {text}");
}

#[test]
fn test_transcribe_fails_nonexistent_model() {
    let f = facts(true, false, false, WavLocation::Inside);
    let (is_transcription, text) = err_text(TranscriptionService::check_inputs(
        "/some/recording.wav",
        "/tmp/ts_test_bin_nomodel_p4",
        "/nonexistent/model_phase4.bin",
        &f,
    ));
    assert!(is_transcription, "expected TranscriptionError");
    assert!(text.contains("not found") || text.contains("model"), "error should indicate model not found: {text}");
}

#[test]
fn test_transcribe_fails_nonexistent_wav() {
    let f = facts(true, true, false, WavLocation::Unresolved("No such file".to_string()));
    let (is_transcription, text) = err_text(TranscriptionService::check_inputs(
        "/nonexistent/recording_phase4.wav",
        "/tmp/ts_test_bin_nowav_p4",
        "/tmp/ts_test_model_nowav_p4.bin",
        &f,
    ));
    assert!(is_transcription, "expected TranscriptionError");
    assert!(text.contains("not found") || text.contains("wav"), "error should indicate WAV not found: {text}");
}

#[test]
fn test_transcribe_fails_wav_outside_audio_dir() {
    let f = facts(true, true, true, WavLocation::Outside);
    let (is_transcription, text) = err_text(TranscriptionService::check_inputs(
        "/tmp/ts_test_wav_outside_p4.wav",
        "/tmp/ts_test_bin_outside_p4",
        "/tmp/ts_test_model_outside_p4.bin",
        &f,
    ));
    assert!(is_transcription, "expected TranscriptionError");
    assert!(text.contains("not inside") || text.contains("audio dir"), "error should mention audio dir containment: {text}");
}

#[test]
fn transcription_input_messages_are_exact() {
    let ok = facts(true, true, true, WavLocation::Inside);
    assert!(TranscriptionService::check_inputs("/a.wav", "/bin/w", "/m.bin", &ok).is_ok());
    let msg = |r: Result<(), AppError>| match r {
        Err(AppError::TranscriptionError(m)) => m,
        _ => panic!("expected TranscriptionError"),
    };
    assert_eq!(msg(TranscriptionService::check_inputs("", "/bin/w", "/m.bin", &ok)), "WAV file path is empty.");
    assert_eq!(
        msg(TranscriptionService::check_inputs("/a.wav", "/bin/w", "/m.bin", &facts(true, true, true, WavLocation::DirUnresolved("gone".to_string())))),
        "Cannot resolve audio dir: gone"
    );
    assert_eq!(
        msg(TranscriptionService::check_inputs("/a.wav", "/bin/w", "/m.bin", &facts(true, false, true, WavLocation::Inside))),
        "Whisper model not found at: /m.bin"
    );
}

#[test]
fn transcription_output_is_read_exactly() {
    let r = TranscriptionService::finish(
        "/m.bin",
        ProcessOutcome::Exited { success: true, code: Some(0), stdout: "  hello world \n".to_string(), stderr: String::new() },
        42,
    )
    .unwrap();
    assert_eq!(r.raw_text, "hello world");
    assert_eq!(r.duration_ms, 42);
    assert_eq!(r.model_path, "/m.bin");
    let msg = |r: Result<transtypro::models::TranscriptionResult, AppError>| match r {
        Err(AppError::TranscriptionError(m)) => m,
        _ => panic!("expected TranscriptionError"),
    };
    assert_eq!(
        msg(TranscriptionService::finish(
            "/m.bin",
            ProcessOutcome::Exited { success: false, code: Some(-3), stdout: String::new(), stderr: " bad model \n".to_string() },
            1
        )),
        "Whisper exited with code -3: bad model"
    );
    assert_eq!(
        msg(TranscriptionService::finish(
            "/m.bin",
            ProcessOutcome::Exited { success: false, code: None, stdout: String::new(), stderr: String::new() },
            1
        )),
        "Whisper exited with code -1: "
    );
    assert_eq!(
        msg(TranscriptionService::finish(
            "/m.bin",
            ProcessOutcome::Exited { success: true, code: Some(0), stdout: " \n ".to_string(), stderr: String::new() },
            1
        )),
        "Local transcription produced no stdout. Check whether your whisper binary prints text to stdout."
    );
    assert_eq!(
        msg(TranscriptionService::finish("/m.bin", ProcessOutcome::LaunchFailed("permission denied".to_string()), 1)),
        "Failed to launch whisper binary: permission denied"
    );
}

#[test]
fn transcription_prepare_reads_settings() {
    let mut db = setup();
    let setup0 = TranscriptionService::prepare(&db).ok().unwrap();
    assert_eq!(setup0.binary_path, "");
    assert_eq!(setup0.model_path, "");
    let mut s = db.settings.get().unwrap();
    s.whisper_binary_path = Some("/w".to_string());
    s.audio_history_enabled = true;
    s.local_only_mode = true;
    db.settings.upsert(&s).unwrap();
    let setup1 = TranscriptionService::prepare(&db).ok().unwrap();
    assert_eq!(setup1.binary_path, "/w");
    assert!(setup1.audio_history_enabled);
}

// ── diagnostics ─────────────────────────────────────────────────────────────

fn fresh_facts() -> DiagnosticFacts {
    DiagnosticFacts {
        microphones: Ok(true),
        binary_is_file: false,
        model_is_file: false,
        ollama_status: Err("not probed".to_string()),
        shortcut_error: None,
        audio_dir: "/tmp/tt_diag_test".to_string(),
        audio_dir_is_dir: true,
        audio_dir_size: Ok((0, 0)),
    }
}

fn find_check<'a>(report: &'a DiagnosticReport, name: &str) -> &'a DiagnosticCheck {
    report
        .checks
        .iter()
        .find(|c| c.name == name)
        .unwrap_or_else(|| panic!("check '{name}' not found in report"))
}

fn run(db: &Database) -> DiagnosticReport {
    DiagnosticsService::run_diagnostics(db, &fresh_facts()).ok().unwrap()
}

#[test]
fn test_backend_alive_always_passes() {
    let report = run(&setup());
    assert_eq!(find_check(&report, "backend_alive").status, "pass");
}

#[test]
fn test_database_reachable_passes_with_valid_db() {
    let report = run(&setup());
    assert_eq!(find_check(&report, "database_reachable").status, "pass");
}

#[test]
fn test_migrations_current_passes_after_run() {
    let report = run(&setup());
    assert_eq!(find_check(&report, "migrations_current").status, "pass");
}

#[test]
fn test_providers_configured_warns_with_empty_db() {
    let report = run(&setup());
    assert_eq!(find_check(&report, "providers_configured").status, "warn", "empty providers table should warn");
}

#[test]
fn test_ollama_reachable_skips_when_no_ollama_provider() {
    let report = run(&setup());
    assert_eq!(find_check(&report, "ollama_reachable").status, "skip", "no Ollama provider → must skip");
}

#[test]
fn test_shortcut_configured_passes() {
    let report = run(&setup());
    assert_eq!(find_check(&report, "shortcut_configured").status, "pass");
}

#[test]
fn test_whisper_checks_warn_when_unconfigured() {
    let report = run(&setup());
    assert_eq!(find_check(&report, "whisper_binary_configured").status, "warn");
    assert_eq!(find_check(&report, "whisper_binary_exists").status, "skip");
    assert_eq!(find_check(&report, "whisper_model_configured").status, "warn");
    assert_eq!(find_check(&report, "whisper_model_exists").status, "skip");
}

#[test]
fn test_report_has_all_14_checks() {
    let report = run(&setup());
    assert_eq!(report.checks.len(), 14, "report must contain exactly 14 checks");
}

#[test]
fn test_generated_at_is_non_empty() {
    let report = run(&setup());
    assert!(!report.generated_at.is_empty());
}

#[test]
fn test_diagnostics_migrations_version_5_passes() {
    let mut db = setup();
    db.schema_version = Some(5);
    let report = run(&db);
    let check = find_check(&report, "migrations_current");
    assert_eq!(check.status, "pass", "migrations_current must pass after migration 005 is applied");
}

#[test]
fn migrations_check_threshold_is_version_5() {
    let mut db = setup();
    db.schema_version = Some(4);
    let report = run(&db);
    let check = find_check(&report, "migrations_current");
    assert_eq!(check.status, "warn");
    assert_eq!(check.message, "Schema at version 4, expected 5");
    db.schema_version = Some(5);
    let report = run(&db);
    let check = find_check(&report, "migrations_current");
    assert_eq!(check.status, "pass");
    assert_eq!(check.message, "Schema is at version 5 (current)");
}

#[test]
fn whisper_arguments_name_model_then_recording() {
    assert_eq!(
        TranscriptionService::whisper_args("/m/ggml.bin", "/a/r.wav"),
        vec!["-m".to_string(), "/m/ggml.bin".to_string(), "-f".to_string(), "/a/r.wav".to_string()]
    );
}

#[test]
fn test_diagnostics_migrations_low_version_warns() {
    let mut db = setup();
    db.schema_version = Some(1);
    db.settings = transtypro::db::settings_repo::SettingsRepository::from_row(None);
    let report = run(&db);
    let check = find_check(&report, "migrations_current");
    assert_eq!(check.status, "warn", "migrations_current must warn when MAX(version) < 5");
}

#[test]
fn test_diagnostics_shortcut_default_passes() {
    let report = run(&setup());
    let check = find_check(&report, "shortcut_configured");
    assert_eq!(check.status, "pass");
    assert!(check.message.contains("CommandOrControl+Shift+Space"), "message must show the actual shortcut string");
}

#[test]
fn test_diagnostics_shortcut_reads_configured_value() {
    let mut db = setup();
    let mut s = db.settings.get().unwrap();
    s.shortcut = "CommandOrControl+Shift+D".to_string();
    db.settings.upsert(&s).unwrap();
    let report = run(&db);
    let check = find_check(&report, "shortcut_configured");
    assert_eq!(check.status, "pass");
    assert!(
        check.message.contains("CommandOrControl+Shift+D"),
        "message must show the custom shortcut, not the hardcoded default"
    );
}

#[test]
fn diagnostics_report_order_and_messages() {
    let mut db = setup();
    let mut s = db.settings.get().unwrap();
    s.whisper_binary_path = Some("/w/main".to_string());
    s.whisper_model_path = Some("/w/model.bin".to_string());
    db.settings.upsert(&s).unwrap();
    let mut p = AiProvider {
        id: "o".to_string(),
        name: "Local".to_string(),
        provider_type: "ollama".to_string(),
        base_url: "http://localhost:11434/".to_string(),
        model: "m".to_string(),
        enabled: true,
        use_for_cleanup: true,
        use_for_transcription: false,
        api_key_set: false,
    };
    db.providers.insert(&p).unwrap();
    p.id = "o2".to_string();
    p.enabled = false;
    db.providers.insert(&p).unwrap();
    HistoryService.create_history_entry(&mut db, history_entry("a")).unwrap();
    HistoryService.create_history_entry(&mut db, history_entry("b")).unwrap();

    let targets = DiagnosticsService::targets(&db);
    let o = targets.ollama.as_ref().unwrap();
    assert_eq!(o.url, "http://localhost:11434/api/tags");
    assert_eq!(targets.binary_path.as_deref(), Some("/w/main"));

    let f = DiagnosticFacts {
        microphones: Err("no host".to_string()),
        binary_is_file: true,
        model_is_file: false,
        ollama_status: Ok(204),
        shortcut_error: Some("bad key".to_string()),
        audio_dir: "/data/audio".to_string(),
        audio_dir_is_dir: false,
        audio_dir_size: Ok((3, 4096)),
    };
    let report = DiagnosticsService::run_diagnostics(&db, &f).ok().unwrap();
    let got: Vec<(&str, &str, &str)> =
        report.checks.iter().map(|c| (c.name.as_str(), c.status.as_str(), c.message.as_str())).collect();
    assert_eq!(
        got,
        vec![
            ("backend_alive", "pass", "Rust backend is running"),
            ("database_reachable", "pass", "SQLite database is reachable"),
            ("migrations_current", "pass", "Schema is at version 6 (current)"),
            ("microphone_available", "warn", "Could not enumerate input devices: no host"),
            ("whisper_binary_configured", "pass", "Whisper binary path is configured"),
            ("whisper_binary_exists", "pass", "Whisper binary file exists"),
            ("whisper_model_configured", "pass", "Whisper model path is configured"),
            ("whisper_model_exists", "fail", "Whisper model not found at: /w/model.bin"),
            ("providers_configured", "pass", "1 enabled provider(s) configured"),
            ("ollama_reachable", "warn", "Ollama responded with HTTP 204"),
            ("shortcut_configured", "warn", "Shortcut 'CommandOrControl+Shift+Space' is not parseable: bad key"),
            ("audio_dir_accessible", "warn", "Audio directory not found: /data/audio"),
            ("history_count", "pass", "2 history entries"),
            ("audio_dir_size", "pass", "3 files, 4096 bytes"),
        ]
    );
}

#[test]
fn diagnostics_database_without_settings_row_fails() {
    let mut db = setup();
    db.settings = transtypro::db::settings_repo::SettingsRepository::from_row(None);
    db.schema_version = None;
    let report = run(&db);
    let c = find_check(&report, "database_reachable");
    assert_eq!(c.status, "fail");
    assert_eq!(c.message, "Database query failed: Query returned no rows");
    assert_eq!(find_check(&report, "migrations_current").message, "No migrations have been applied");
}

// ── insertion ───────────────────────────────────────────────────────────────

#[test]
fn insertion_results() {
    let ok = InsertionService::paste_result(true);
    assert!(ok.success);
    assert_eq!(ok.method, "clipboard_paste");
    assert_eq!(ok.message, "Text inserted successfully.");
    let manual = InsertionService::paste_result(false);
    assert!(!manual.success);
    assert_eq!(manual.method, "clipboard_only");
    assert_eq!(
        manual.message,
        "Paste simulation failed. Text is in your clipboard \u{2014} press Ctrl+V or Cmd+V to paste manually."
    );
    assert!(InsertionService::write_failure(&ClipboardWrite::Written).is_none());
    let open = InsertionService::write_failure(&ClipboardWrite::OpenFailed("busy".to_string())).unwrap();
    assert_eq!(open.message, "Could not open clipboard: busy");
    let write = InsertionService::write_failure(&ClipboardWrite::WriteFailed("denied".to_string())).unwrap();
    assert_eq!(write.message, "Failed to write to clipboard: denied");
    assert!(!write.success);
    let err = InsertionService::error_result(&AppError::StorageError("x".to_string()));
    assert_eq!(err.message, "Insertion error: Storage error: x");
}

#[test]
fn insertion_restore_setting() {
    let mut db = setup();
    assert!(!InsertionService::restore_enabled(&db).unwrap());
    let mut s = db.settings.get().unwrap();
    s.clipboard_restore_enabled = true;
    db.settings.upsert(&s).unwrap();
    assert!(InsertionService::restore_enabled(&db).unwrap());
}

#[test]
fn early_insert_text_is_not_implemented() {
    match insert_text("hello") {
        Err(AppError::FeatureNotImplemented(m)) => assert_eq!(m, "text insertion starts in Phase 6"),
        _ => panic!("expected FeatureNotImplemented"),
    }
}

#[test]
fn error_messages_render_prefix_and_detail() {
    assert_eq!(AppError::NotFound("x".to_string()).message(), "Not found: x");
    assert_eq!(AppError::PrivacyBlocked("y".to_string()).message(), "Privacy blocked: y");
    assert_eq!(AppError::Io("z".to_string()).message(), "IO error: z");
}

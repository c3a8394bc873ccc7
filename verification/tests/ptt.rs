use transtypro::db::database::Database;
use transtypro::errors::AppError;
use transtypro::models::{AiProvider, AppSettings};
use transtypro::services::audio::AudioService;
use transtypro::services::ptt::{
    strip_whisper_timestamps, PipelineEvent, PipelineRequest, PttEffect, PttPhase, PttPipelineService, PttState,
    ToggleAction,
};

fn make_ptt_state() -> PttState {
    PttState::new()
}

#[test]
fn test_ptt_state_starts_idle() {
    let ptt = make_ptt_state();
    assert!(ptt.is_phase(&PttPhase::Idle));
}

#[test]
fn test_cancel_flag_is_clear_on_new_ptt_state() {
    let ptt = make_ptt_state();
    assert!(!ptt.cancel_flag);
}

#[test]
fn test_ptt_set_phase_transitions() {
    let mut ptt = make_ptt_state();
    let old = ptt.set_phase(PttPhase::Recording);
    assert_eq!(old, PttPhase::Idle);
    assert!(ptt.is_phase(&PttPhase::Recording));
}

#[test]
fn test_ptt_is_phase_correct() {
    let mut ptt = make_ptt_state();
    assert!(ptt.is_phase(&PttPhase::Idle));
    assert!(!ptt.is_phase(&PttPhase::Recording));
    ptt.set_phase(PttPhase::Recording);
    assert!(ptt.is_phase(&PttPhase::Recording));
    assert!(!ptt.is_phase(&PttPhase::Idle));
}

#[test]
fn test_ptt_phase_idle_allows_start() {
    let mut ptt = make_ptt_state();
    let should_start = ptt.try_start();
    assert!(should_start, "Idle phase should allow PTT start");
    assert!(ptt.is_phase(&PttPhase::Recording));
}

#[test]
fn test_ptt_phase_recording_blocks_double_start() {
    let mut ptt = make_ptt_state();
    ptt.set_phase(PttPhase::Recording);
    let would_start = ptt.is_phase(&PttPhase::Idle);
    assert!(!would_start, "Recording phase must block a second PTT start");
    assert!(!ptt.try_start());
    assert!(ptt.is_phase(&PttPhase::Recording));
}

#[test]
fn test_cancel_during_recording_discards_audio_and_goes_idle() {
    let mut ptt = make_ptt_state();
    ptt.set_phase(PttPhase::Recording);
    ptt.cancel_flag = true;

    if ptt.is_phase(&PttPhase::Recording) {
        // No active stream: stopping it is refused, and the refusal is ignored.
        let result = AudioService::check_recording(false);
        assert!(
            result.is_err(),
            "cancel_recording with no active stream should return an error"
        );
    }

    ptt.set_phase(PttPhase::Idle);
    assert!(ptt.is_phase(&PttPhase::Idle), "phase must be Idle after cancel");
    assert!(ptt.cancel_flag, "cancel flag remains set until pipeline thread sees it");
}

#[test]
fn test_strip_whisper_timestamps_single_line() {
    let input = "[00:00:00.000 --> 00:00:07.940]  Hello, this is a test.";
    assert_eq!(strip_whisper_timestamps(input), "Hello, this is a test.");
}

#[test]
fn test_strip_whisper_timestamps_multiple_lines() {
    let input = "[00:00:00.000 --> 00:00:05.000]  First sentence.\n\
                 [00:00:05.000 --> 00:00:10.000]  Second sentence.";
    assert_eq!(strip_whisper_timestamps(input), "First sentence. Second sentence.");
}

#[test]
fn test_strip_whisper_timestamps_plain_text_unchanged() {
    let input = "Hello, world!";
    assert_eq!(strip_whisper_timestamps(input), "Hello, world!");
}

#[test]
fn test_strip_whisper_timestamps_blank_audio_skipped() {
    let input = "[BLANK_AUDIO]";
    assert_eq!(strip_whisper_timestamps(input), "");
}

#[test]
fn test_strip_whisper_timestamps_mixed_blank_and_speech() {
    let input = "[00:00:00.000 --> 00:00:02.000]  [BLANK_AUDIO]\n\
                 [00:00:02.000 --> 00:00:06.000]  Actual words here.";
    assert_eq!(strip_whisper_timestamps(input), "[BLANK_AUDIO] Actual words here.");
}

#[test]
fn test_strip_whisper_timestamps_empty_input() {
    assert_eq!(strip_whisper_timestamps(""), "");
}

#[test]
fn strip_handles_crlf_blank_lines_and_plain_lines() {
    let input = "  plain start  \r\n\r\n[00:00:01.000 --> 00:00:02.000]   next  \r\n[MUSIC]\nlast";
    assert_eq!(strip_whisper_timestamps(input), "plain start next last");
    assert_eq!(strip_whisper_timestamps("[00:00:00.000 --> 00:00:01.000]"), "");
    assert_eq!(strip_whisper_timestamps("   padded   "), "padded");
}

#[test]
fn strip_keeps_text_after_a_leading_tag() {
    assert_eq!(strip_whisper_timestamps("[laughs] Hello there"), "[laughs] Hello there");
    assert_eq!(strip_whisper_timestamps("  [laughs] Hello there  \n[MUSIC]"), "[laughs] Hello there");
    assert_eq!(strip_whisper_timestamps("[unclosed tag"), "[unclosed tag");
}

#[test]
fn strip_output_is_one_trimmed_line() {
    let input = "[00:00:00.000 --> 00:00:01.000]   one  \r\n\n  two\t\n[00:00:01.000 --> 00:00:02.000]three";
    let out = strip_whisper_timestamps(input);
    assert_eq!(out, "one two three");
    assert!(!out.contains('\n'));
    assert_eq!(out.trim(), out);
    assert!(out.len() <= input.len());
}

#[test]
fn pipeline_insert_with_a_taken_id_leaves_history_alone() {
    let mut db = Database::new();
    let mut ptt = make_ptt_state();
    let svc = PttPipelineService;
    let first = PipelineEvent::Inserted {
        raw: "a".to_string(),
        text: "a".to_string(),
        success: true,
        id: "id-1".to_string(),
        timestamp: "2024-01-01T00:00:00Z".to_string(),
    };
    svc.advance(&mut ptt, &mut db, first);
    let again = PipelineEvent::Inserted {
        raw: "b".to_string(),
        text: "b".to_string(),
        success: false,
        id: "id-1".to_string(),
        timestamp: "2024-01-02T00:00:00Z".to_string(),
    };
    let step = svc.advance(&mut ptt, &mut db, again);
    assert_eq!(emitted(&step.effects), vec![("done".to_string(), "Done.".to_string())]);
    let rows = db.history.rows();
    assert_eq!(rows.len(), 1);
    assert_eq!(rows[0].raw_text, "a");
    assert!(rows[0].was_inserted);
}

#[test]
fn pipeline_statuses_do_not_depend_on_the_transcript() {
    let mut db = Database::new();
    db.providers.insert(&provider("p-a", "Alpha", true, true)).unwrap();
    let svc = PttPipelineService;
    let mut one = make_ptt_state();
    let mut two = make_ptt_state();
    let a = svc.advance(&mut one, &mut db, PipelineEvent::Transcribed(Ok("secret words".to_string())));
    let b = svc.advance(&mut two, &mut db, PipelineEvent::Transcribed(Ok("other things".to_string())));
    assert_eq!(emitted(&a.effects), emitted(&b.effects));
    assert!(emitted(&a.effects).iter().all(|(_, m)| !m.contains("secret")));
    assert_eq!(one.phase, two.phase);
}

#[test]
fn toggle_and_stop_follow_the_phase() {
    let mut ptt = make_ptt_state();
    assert_eq!(ptt.toggle_action(), ToggleAction::Start);
    assert!(!ptt.should_stop_and_run());
    ptt.set_phase(PttPhase::Recording);
    assert_eq!(ptt.toggle_action(), ToggleAction::StopAndRun);
    assert!(ptt.should_stop_and_run());
    ptt.set_phase(PttPhase::Transcribing);
    assert_eq!(ptt.toggle_action(), ToggleAction::Ignore);
    assert!(!ptt.should_stop_and_run());
}

#[test]
fn cancel_then_start_again() {
    let mut ptt = make_ptt_state();
    assert!(ptt.try_start());
    assert!(ptt.cancel());
    assert!(ptt.cancel_flag);
    assert!(ptt.is_phase(&PttPhase::Idle));
    assert!(ptt.try_start());
    assert!(!ptt.cancel_flag);
    ptt.set_phase(PttPhase::Cleaning);
    assert!(!ptt.cancel());
}

#[test]
fn error_phases_compare_by_text() {
    let mut ptt = make_ptt_state();
    ptt.set_phase(PttPhase::Error("boom".to_string()));
    assert!(ptt.is_phase(&PttPhase::Error("boom".to_string())));
    assert!(!ptt.is_phase(&PttPhase::Error("other".to_string())));
    assert!(!ptt.is_phase(&PttPhase::Done));
}

fn emitted(effects: &[PttEffect]) -> Vec<(String, String)> {
    effects
        .iter()
        .filter_map(|e| match e {
            PttEffect::Emit(ev) => Some((ev.phase.clone(), ev.message.clone())),
            _ => None,
        })
        .collect()
}

fn settings_with_paths(db: &mut Database) -> AppSettings {
    let mut s = db.settings.get().unwrap();
    s.whisper_binary_path = Some("/opt/whisper/main".to_string());
    s.whisper_model_path = Some("/opt/whisper/ggml-base.bin".to_string());
    db.settings.upsert(&s).unwrap();
    s
}

fn provider(id: &str, name: &str, enabled: bool, cleanup: bool) -> AiProvider {
    AiProvider {
        id: id.to_string(),
        name: name.to_string(),
        provider_type: "ollama".to_string(),
        base_url: "http://localhost:11434".to_string(),
        model: "llama3".to_string(),
        enabled,
        use_for_cleanup: cleanup,
        use_for_transcription: false,
        api_key_set: false,
    }
}

#[test]
fn pipeline_stop_failure_aborts() {
    let mut db = Database::new();
    let mut ptt = make_ptt_state();
    ptt.set_phase(PttPhase::Recording);
    let step = PttPipelineService.advance(
        &mut ptt,
        &mut db,
        PipelineEvent::Stopped(Err(AppError::AudioError("not currently recording".to_string()))),
    );
    assert!(matches!(step.next, PipelineRequest::Finish));
    assert!(ptt.is_phase(&PttPhase::Idle));
    assert_eq!(
        emitted(&step.effects),
        vec![("error".to_string(), "Could not stop recording: Audio error: not currently recording".to_string())]
    );
    assert!(matches!(step.effects[1], PttEffect::ShowMainWindow));
}

#[test]
fn pipeline_missing_whisper_binary_aborts() {
    let mut db = Database::new();
    let mut ptt = make_ptt_state();
    let step = PttPipelineService.advance(&mut ptt, &mut db, PipelineEvent::Stopped(Ok("/a/b.wav".to_string())));
    assert!(matches!(step.next, PipelineRequest::Finish));
    assert!(ptt.is_phase(&PttPhase::Idle));
    assert_eq!(
        emitted(&step.effects),
        vec![
            ("transcribing".to_string(), "Transcribing\u{2026}".to_string()),
            (
                "error".to_string(),
                "Transcription error: Whisper binary path is not configured. Set it in the Models page.".to_string()
            ),
        ]
    );
}

#[test]
fn pipeline_missing_whisper_model_aborts() {
    let mut db = Database::new();
    let mut s = db.settings.get().unwrap();
    s.whisper_binary_path = Some("/opt/whisper/main".to_string());
    db.settings.upsert(&s).unwrap();
    let mut ptt = make_ptt_state();
    let step = PttPipelineService.advance(&mut ptt, &mut db, PipelineEvent::Stopped(Ok("/a/b.wav".to_string())));
    assert!(matches!(step.next, PipelineRequest::Finish));
    assert_eq!(
        emitted(&step.effects)[1].1,
        "Transcription error: Whisper model path is not configured. Set it in the Models page."
    );
}

#[test]
fn pipeline_full_run_records_history() {
    let mut db = Database::new();
    settings_with_paths(&mut db);
    db.providers.insert(&provider("p-b", "Beta", true, true)).unwrap();
    db.providers.insert(&provider("p-a", "Alpha", true, true)).unwrap();
    db.providers.insert(&provider("p-0", "Aardvark", false, true)).unwrap();
    let svc = PttPipelineService;
    let mut ptt = make_ptt_state();
    assert!(ptt.try_start());

    let step = svc.advance(&mut ptt, &mut db, PipelineEvent::Stopped(Ok("/audio/r.wav".to_string())));
    assert!(ptt.is_phase(&PttPhase::Transcribing));
    match step.next {
        PipelineRequest::Transcribe { wav_path, binary_path, model_path } => {
            assert_eq!(wav_path, "/audio/r.wav");
            assert_eq!(binary_path, "/opt/whisper/main");
            assert_eq!(model_path, "/opt/whisper/ggml-base.bin");
        }
        _ => panic!("expected Transcribe"),
    }

    let raw = "[00:00:00.000 --> 00:00:02.000]  hello there".to_string();
    let step = svc.advance(&mut ptt, &mut db, PipelineEvent::Transcribed(Ok(raw.clone())));
    assert!(ptt.is_phase(&PttPhase::Cleaning));
    assert_eq!(emitted(&step.effects), vec![("cleaning".to_string(), "Cleaning text\u{2026}".to_string())]);
    let (provider_id, r, stripped) = match step.next {
        PipelineRequest::Cleanup { provider_id, raw, stripped } => (provider_id, raw, stripped),
        _ => panic!("expected Cleanup"),
    };
    assert_eq!(provider_id, "p-a");
    assert_eq!(stripped, "hello there");

    let step = svc.advance(
        &mut ptt,
        &mut db,
        PipelineEvent::Cleaned { raw: r, stripped, cleaned: Some("Hello there.".to_string()) },
    );
    assert!(ptt.is_phase(&PttPhase::Inserting));
    let (r, text, id, timestamp) = match step.next {
        PipelineRequest::Insert { raw, text, id, timestamp } => (raw, text, id, timestamp),
        _ => panic!("expected Insert"),
    };
    assert_eq!(text, "Hello there.");
    assert_eq!(id.len(), 36);
    assert!(!timestamp.is_empty());
    let (drawn_id, drawn_time) = (id.clone(), timestamp.clone());

    let step = svc.advance(&mut ptt, &mut db, PipelineEvent::Inserted { raw: r, text, success: true, id, timestamp });
    assert!(ptt.is_phase(&PttPhase::Idle));
    assert_eq!(emitted(&step.effects), vec![("done".to_string(), "Done.".to_string())]);
    assert!(matches!(step.effects[1], PttEffect::HideOverlayAfter(1500)));
    let rows = db.history.rows();
    assert_eq!(rows.len(), 1);
    assert_eq!(rows[0].raw_text, raw);
    assert_eq!(rows[0].cleaned_text, "Hello there.");
    assert_eq!(rows[0].mode_used, "smart");
    assert!(rows[0].was_inserted);
    assert_eq!(rows[0].id, drawn_id);
    assert_eq!(rows[0].timestamp, drawn_time);
}

#[test]
fn pipeline_insert_raw_skips_cleanup() {
    let mut db = Database::new();
    let mut s = settings_with_paths(&mut db);
    s.ptt_output_mode = "insert_raw".to_string();
    db.settings.upsert(&s).unwrap();
    db.providers.insert(&provider("p-a", "Alpha", true, true)).unwrap();
    let mut ptt = make_ptt_state();
    let step = PttPipelineService.advance(&mut ptt, &mut db, PipelineEvent::Transcribed(Ok(" plain words ".to_string())));
    assert!(ptt.is_phase(&PttPhase::Inserting));
    assert_eq!(emitted(&step.effects), vec![("inserting".to_string(), "Inserting\u{2026}".to_string())]);
    match step.next {
        PipelineRequest::Insert { text, .. } => assert_eq!(text, "plain words"),
        _ => panic!("expected Insert"),
    }
}

#[test]
fn pipeline_without_cleanup_provider_inserts_stripped_text() {
    let mut db = Database::new();
    let mut ptt = make_ptt_state();
    let step = PttPipelineService.advance(&mut ptt, &mut db, PipelineEvent::Transcribed(Ok("[BLANK_AUDIO]\nok".to_string())));
    match step.next {
        PipelineRequest::Insert { text, .. } => assert_eq!(text, "ok"),
        _ => panic!("expected Insert"),
    }
}

#[test]
fn pipeline_failed_cleanup_falls_back_and_failed_paste_is_recorded() {
    let mut db = Database::new();
    let mut ptt = make_ptt_state();
    let svc = PttPipelineService;
    let step = svc.advance(
        &mut ptt,
        &mut db,
        PipelineEvent::Cleaned { raw: "raw".to_string(), stripped: "stripped".to_string(), cleaned: None },
    );
    let (r, text, id, timestamp) = match step.next {
        PipelineRequest::Insert { raw, text, id, timestamp } => (raw, text, id, timestamp),
        _ => panic!("expected Insert"),
    };
    assert_eq!(text, "stripped");
    svc.advance(&mut ptt, &mut db, PipelineEvent::Inserted { raw: r, text, success: false, id, timestamp });
    let rows = db.history.rows();
    assert_eq!(rows.len(), 1);
    assert!(!rows[0].was_inserted);
    assert_eq!(rows[0].cleaned_text, "stripped");
}

#[test]
fn pipeline_transcription_failure_aborts() {
    let mut db = Database::new();
    let mut ptt = make_ptt_state();
    let step = PttPipelineService.advance(
        &mut ptt,
        &mut db,
        PipelineEvent::Transcribed(Err(AppError::TranscriptionError("binary not found".to_string()))),
    );
    assert_eq!(
        emitted(&step.effects),
        vec![("error".to_string(), "Transcription failed: Transcription error: binary not found".to_string())]
    );
    assert!(ptt.is_phase(&PttPhase::Idle));
}

#[test]
fn pipeline_honours_cancel_at_each_check() {
    let mut db = Database::new();
    settings_with_paths(&mut db);
    let svc = PttPipelineService;
    let events = vec![
        PipelineEvent::Stopped(Ok("/a.wav".to_string())),
        PipelineEvent::Transcribed(Ok("text".to_string())),
        PipelineEvent::Cleaned { raw: "text".to_string(), stripped: "text".to_string(), cleaned: None },
    ];
    for event in events {
        let mut ptt = make_ptt_state();
        ptt.set_phase(PttPhase::Transcribing);
        ptt.cancel_flag = true;
        let step = svc.advance(&mut ptt, &mut db, event);
        assert!(matches!(step.next, PipelineRequest::Finish));
        assert!(ptt.is_phase(&PttPhase::Idle));
        assert!(ptt.cancel_flag);
        assert_eq!(emitted(&step.effects), vec![("cancelled".to_string(), "Cancelled.".to_string())]);
        assert!(matches!(step.effects[1], PttEffect::HideOverlay));
    }
    assert_eq!(db.history.count(), 0);
}

#[test]
fn start_failure_reports_and_goes_idle() {
    let mut ptt = make_ptt_state();
    assert!(ptt.try_start());
    let effects = ptt.start_failed(&AppError::AudioError("no input device available".to_string()));
    assert!(ptt.is_phase(&PttPhase::Idle));
    assert_eq!(
        emitted(&effects),
        vec![("error".to_string(), "Could not start recording: Audio error: no input device available".to_string())]
    );
}

use transtypro::db::database::Database;
use transtypro::errors::AppError;
use transtypro::services::shortcut::{commit_shortcut, plan_shortcut_update, shortcut_action, validate_shortcut, ShortcutAction, ShortcutUpdate};

#[test]
fn test_shortcut_validation_empty() {
    assert!(validate_shortcut("").is_err());
    assert!(validate_shortcut("   ").is_err());
}

#[test]
fn test_shortcut_validation_too_long() {
    let long = "A".repeat(101);
    assert!(validate_shortcut(&long).is_err());
}

#[test]
fn test_shortcut_validation_accepts_default() {
    assert_eq!(
        validate_shortcut("CommandOrControl+Shift+Space").unwrap(),
        "CommandOrControl+Shift+Space"
    );
}

#[test]
fn test_shortcut_validation_trims_whitespace() {
    assert_eq!(
        validate_shortcut("  CommandOrControl+Shift+D  ").unwrap(),
        "CommandOrControl+Shift+D"
    );
}

#[test]
fn test_shortcut_validation_max_length_passes() {
    let exactly_100 = "A".repeat(100);
    assert!(validate_shortcut(&exactly_100).is_ok());
}

#[test]
fn shortcut_validation_errors_carry_messages() {
    match validate_shortcut(" \t ") {
        Err(AppError::ValidationError(m)) => assert_eq!(m, "shortcut cannot be empty"),
        other => panic!("unexpected {other:?}"),
    }
    match validate_shortcut(&"B".repeat(150)) {
        Err(AppError::ValidationError(m)) => assert_eq!(m, "shortcut string is too long (max 100 characters)"),
        other => panic!("unexpected {other:?}"),
    }
}

#[test]
fn shortcut_length_counts_utf8_bytes() {
    // 34 three-byte characters are 102 bytes: too long, though only 34 characters.
    let wide = "\u{20ac}".repeat(34);
    assert!(validate_shortcut(&wide).is_err());
    let ok = "\u{20ac}".repeat(33);
    assert_eq!(validate_shortcut(&ok).unwrap(), ok);
}

#[test]
fn shortcut_action_open_dictation_on_press() {
    let b = "open_dictation".to_string();
    assert_eq!(shortcut_action(&b, false, true), ShortcutAction::OpenDictation);
    assert_eq!(shortcut_action(&b, false, false), ShortcutAction::Nothing);
}

#[test]
fn shortcut_action_hold_starts_and_stops() {
    let b = "push_to_talk_hold".to_string();
    assert_eq!(shortcut_action(&b, false, true), ShortcutAction::PttStart);
    assert_eq!(shortcut_action(&b, false, false), ShortcutAction::PttStopAndRun);
}

#[test]
fn shortcut_action_hold_runs_as_toggle_on_windows() {
    let b = "push_to_talk_hold".to_string();
    assert_eq!(shortcut_action(&b, true, true), ShortcutAction::PttToggle);
    assert_eq!(shortcut_action(&b, true, false), ShortcutAction::Nothing);
}

#[test]
fn shortcut_action_toggle_and_unknown() {
    let t = "push_to_talk_toggle".to_string();
    assert_eq!(shortcut_action(&t, false, true), ShortcutAction::PttToggle);
    assert_eq!(shortcut_action(&t, false, false), ShortcutAction::Nothing);
    let u = "mystery".to_string();
    assert_eq!(shortcut_action(&u, false, true), ShortcutAction::UnknownBehavior);
    assert_eq!(shortcut_action(&u, true, false), ShortcutAction::Nothing);
}

#[test]
fn plan_shortcut_update_unchanged_and_rebind() {
    let db = Database::new();
    match plan_shortcut_update(&db, "CommandOrControl+Shift+Space".to_string(), None) {
        Ok(ShortcutUpdate::Unchanged(s)) => assert_eq!(s, "CommandOrControl+Shift+Space"),
        _ => panic!("expected Unchanged"),
    }
    match plan_shortcut_update(&db, "Alt+D".to_string(), None) {
        Ok(ShortcutUpdate::Rebind { new, old }) => {
            assert_eq!(new, "Alt+D");
            assert_eq!(old, "CommandOrControl+Shift+Space");
        }
        _ => panic!("expected Rebind"),
    }
}

#[test]
fn plan_shortcut_update_refuses_unparseable() {
    let db = Database::new();
    match plan_shortcut_update(&db, "Nope+Key".to_string(), Some("unknown key".to_string())) {
        Err(AppError::ValidationError(m)) => assert_eq!(m, "invalid shortcut 'Nope+Key': unknown key"),
        _ => panic!("expected ValidationError"),
    }
}

#[test]
fn commit_shortcut_stores_only_the_shortcut() {
    let mut db = Database::new();
    commit_shortcut(&mut db, "Alt+Shift+K".to_string()).unwrap();
    let s = db.settings.get().unwrap();
    assert_eq!(s.shortcut, "Alt+Shift+K");
    assert_eq!(s.theme, "dark");
    assert_eq!(s.retention_days, 30);
}

#[test]
fn configured_behavior_reads_settings() {
    let mut db = Database::new();
    assert_eq!(transtypro::services::shortcut::configured_behavior(&db), "open_dictation");
    let mut s = db.settings.get().unwrap();
    s.shortcut_behavior = "push_to_talk_toggle".to_string();
    db.settings.upsert(&s).unwrap();
    assert_eq!(transtypro::services::shortcut::configured_behavior(&db), "push_to_talk_toggle");
}

//! The global dictation shortcut: validating a new binding and what a press does.
use vstd::prelude::*;
use crate::db::database::Database;
use crate::db::settings_repo::defaults_apart_from_shortcut;
use crate::models::AppSettings;
use crate::errors::{AppError, fails_validation};
use crate::text::{chars_of, concat3, eq_lit, str_of, trim, trim_str};

verus! {

/// Bytes the UTF-8 encoding of `c` takes.
pub open spec fn utf8_width(c: char) -> int {
    let n = c as u32;
    if n < 0x80 { 1 } else if n < 0x800 { 2 } else if n < 0x10000 { 3 } else { 4 }
}

/// UTF-8 length in bytes of `s` (what `str::len` counts).
pub open spec fn byte_len(s: Seq<char>) -> int
    decreases s.len(),
{
    if s.len() == 0 { 0 } else { byte_len(s.drop_last()) + utf8_width(s.last()) }
}

proof fn lemma_byte_len_monotone(s: Seq<char>, i: int, j: int)
    requires
        0 <= i <= j <= s.len(),
    ensures
        byte_len(s.take(i)) <= byte_len(s.take(j)),
    decreases j - i,
{
    if i < j {
        lemma_byte_len_monotone(s, i, j - 1);
        assert(s.take(j).drop_last() =~= s.take(j - 1));
    }
}

/// Whether `s` takes more than `limit` bytes in UTF-8.
fn longer_than(s: &String, limit: u64) -> (r: bool)
    requires
        limit < u64::MAX - 8,
    ensures
        r == (byte_len(s@) > limit),
{
    let v = chars_of(s.as_str());
    let mut total: u64 = 0;
    let mut i: usize = 0;
    while i < v.len()
        invariant
            i <= v.len(),
            v@ == s@,
            limit < u64::MAX - 8,
            total == byte_len(v@.take(i as int)),
            total <= limit,
        decreases v.len() - i,
    {
        let n = v[i] as u32;
        let w: u64 = if n < 0x80 { 1 } else if n < 0x800 { 2 } else if n < 0x10000 { 3 } else { 4 };
        assert(v@.take(i + 1).drop_last() =~= v@.take(i as int));
        total = total + w;
        i = i + 1;
        if total > limit {
            proof { lemma_byte_len_monotone(v@, i as int, v@.len() as int); }
            assert(v@.take(v@.len() as int) =~= v@);
            return true;
        }
    }
    assert(v@.take(v@.len() as int) =~= v@);
    false
}

/// Validates a shortcut string: surrounding whitespace is dropped, the rest
/// must be non-empty and at most 100 bytes long.
pub fn validate_shortcut(shortcut: &str) -> (r: Result<String, AppError>)
    ensures
        trim(shortcut@).len() == 0 ==> fails_validation(r, "shortcut cannot be empty"@),
        trim(shortcut@).len() > 0 && byte_len(trim(shortcut@)) > 100 ==>
            fails_validation(r, "shortcut string is too long (max 100 characters)"@),
        trim(shortcut@).len() > 0 && byte_len(trim(shortcut@)) <= 100 ==> (r matches Ok(t) && t@ == trim(shortcut@)),
{
    let trimmed = trim_str(shortcut);
    if trimmed.as_str().is_empty() {
        return Err(AppError::ValidationError(str_of("shortcut cannot be empty")));
    }
    if longer_than(&trimmed, 100) {
        return Err(AppError::ValidationError(str_of("shortcut string is too long (max 100 characters)")));
    }
    Ok(trimmed)
}

/// What a shortcut event does.
#[derive(Debug, Clone, Copy, PartialEq, Eq)]
pub enum ShortcutAction {
    /// Bring the main window forward and announce the dictation shortcut.
    OpenDictation,
    /// The configured behavior is unknown: report it and open the dictation window.
    UnknownBehavior,
    /// Start push-to-talk recording.
    PttStart,
    /// Toggle push-to-talk (start, or stop and run).
    PttToggle,
    /// Stop push-to-talk recording and run the pipeline.
    PttStopAndRun,
    /// Nothing to do.
    Nothing,
}

/// The behavior in force: hold-to-talk runs as toggle on Windows, where key
/// releases are never reported.
pub open spec fn effective_behavior(behavior: Seq<char>, on_windows: bool) -> Seq<char> {
    if on_windows && behavior == "push_to_talk_hold"@ { "push_to_talk_toggle"@ } else { behavior }
}

/// What a press (`pressed`) or release of the shortcut does under `behavior`.
pub open spec fn action_for(behavior: Seq<char>, on_windows: bool, pressed: bool) -> ShortcutAction {
    let b = effective_behavior(behavior, on_windows);
    if pressed {
        if b == "open_dictation"@ {
            ShortcutAction::OpenDictation
        } else if b == "push_to_talk_hold"@ {
            ShortcutAction::PttStart
        } else if b == "push_to_talk_toggle"@ {
            ShortcutAction::PttToggle
        } else {
            ShortcutAction::UnknownBehavior
        }
    } else if b == "push_to_talk_hold"@ {
        ShortcutAction::PttStopAndRun
    } else {
        ShortcutAction::Nothing
    }
}

/// What the shortcut does on a press (`pressed`) or a release.
pub fn shortcut_action(behavior: &String, on_windows: bool, pressed: bool) -> (a: ShortcutAction)
    ensures
        a == action_for(behavior@, on_windows, pressed),
{
    proof {
        reveal_strlit("push_to_talk_hold");
        reveal_strlit("push_to_talk_toggle");
        reveal_strlit("open_dictation");
        assert("push_to_talk_hold"@.len() == 17);
        assert("push_to_talk_toggle"@.len() == 19);
        assert("open_dictation"@.len() == 14);
    }
    let hold = eq_lit(behavior, "push_to_talk_hold");
    let eff_hold = hold && !on_windows;
    let eff_toggle = (hold && on_windows) || eq_lit(behavior, "push_to_talk_toggle");
    let eff_open = eq_lit(behavior, "open_dictation");
    if pressed {
        if eff_open {
            ShortcutAction::OpenDictation
        } else if eff_hold {
            ShortcutAction::PttStart
        } else if eff_toggle {
            ShortcutAction::PttToggle
        } else {
            ShortcutAction::UnknownBehavior
        }
    } else if eff_hold {
        ShortcutAction::PttStopAndRun
    } else {
        ShortcutAction::Nothing
    }
}

/// The configured shortcut behavior (`open_dictation` without a settings row).
pub fn configured_behavior(db: &Database) -> (r: String)
    ensures
        r@ == match db.settings@ {
            Some(s) => s.shortcut_behavior@,
            None => "open_dictation"@,
        },
{
    match db.settings.get() {
        Ok(s) => s.shortcut_behavior,
        Err(_) => str_of("open_dictation"),
    }
}

/// How a validated shortcut changes the binding.
pub enum ShortcutUpdate {
    /// Same as the stored shortcut: nothing to register.
    Unchanged(String),
    /// Register `new`, then release `old`.
    Rebind { new: String, old: String },
}

/// Decides a shortcut change: `trimmed` is the validated shortcut and
/// `parse_error` the parser's complaint about it, if any. A shortcut that
/// does not parse is refused; one equal to the stored shortcut needs nothing.
pub fn plan_shortcut_update(db: &Database, trimmed: String, parse_error: Option<String>) -> (r: Result<ShortcutUpdate, AppError>)
    ensures
        parse_error matches Some(e) ==> fails_validation(r, "invalid shortcut '"@ + trimmed@ + "': "@ + e@),
        parse_error is None ==> ({
            let current = match db.settings@ { Some(s) => s.shortcut@, None => "CommandOrControl+Shift+Space"@ };
            &&& trimmed@ == current ==> (r matches Ok(ShortcutUpdate::Unchanged(t)) && t@ == trimmed@)
            &&& trimmed@ != current ==> (r matches Ok(ShortcutUpdate::Rebind { new, old }) && new@ == trimmed@ && old@ == current)
        }),
{
    if let Some(e) = parse_error {
        let mut m = concat3("invalid shortcut '", trimmed.as_str(), "': ");
        m.append(e.as_str());
        return Err(AppError::ValidationError(m));
    }
    let settings = db.settings.get()?;
    if trimmed == settings.shortcut {
        Ok(ShortcutUpdate::Unchanged(trimmed))
    } else {
        Ok(ShortcutUpdate::Rebind { new: trimmed, old: settings.shortcut })
    }
}

/// Stores `shortcut` as the dictation shortcut, all other settings unchanged.
pub fn commit_shortcut(db: &mut Database, shortcut: String) -> (r: Result<(), AppError>)
    ensures
        r is Ok,
        final(db).settings@ matches Some(s) && s.shortcut == shortcut && match old(db).settings@ {
            Some(o) => s == (AppSettings { shortcut: shortcut, ..o }),
            None => defaults_apart_from_shortcut(s),
        },
        final(db).schema_version == old(db).schema_version,
        final(db).modes == old(db).modes,
        final(db).history == old(db).history,
        final(db).providers == old(db).providers,
        final(db).vocabulary == old(db).vocabulary,
{
    let mut settings = db.settings.get()?;
    settings.shortcut = shortcut;
    db.settings.upsert(&settings)
}

/// What the shortcut does, behavior by behavior, on every platform:
/// toggle-to-talk toggles on a press and ignores releases everywhere;
/// hold-to-talk starts on a press and stops and runs on a release, except
/// on Windows, where releases never arrive and it toggles instead; the
/// dictation window opens on a press; any other behavior is reported on a
/// press. Only hold-to-talk depends on the platform.
pub proof fn law_shortcut_dispatch(behavior: Seq<char>, on_windows: bool, pressed: bool)
    ensures
        action_for("push_to_talk_toggle"@, on_windows, true) == ShortcutAction::PttToggle,
        action_for("push_to_talk_toggle"@, on_windows, false) == ShortcutAction::Nothing,
        action_for("push_to_talk_hold"@, false, true) == ShortcutAction::PttStart,
        action_for("push_to_talk_hold"@, false, false) == ShortcutAction::PttStopAndRun,
        action_for("push_to_talk_hold"@, true, true) == ShortcutAction::PttToggle,
        action_for("push_to_talk_hold"@, true, false) == ShortcutAction::Nothing,
        action_for("open_dictation"@, on_windows, true) == ShortcutAction::OpenDictation,
        action_for("open_dictation"@, on_windows, false) == ShortcutAction::Nothing,
        behavior != "push_to_talk_toggle"@ && behavior != "push_to_talk_hold"@ && behavior != "open_dictation"@
            ==> action_for(behavior, on_windows, true) == ShortcutAction::UnknownBehavior
                && action_for(behavior, on_windows, false) == ShortcutAction::Nothing,
        behavior != "push_to_talk_hold"@ ==> action_for(behavior, true, pressed) == action_for(behavior, false, pressed),
{
    reveal_strlit("push_to_talk_hold");
    reveal_strlit("push_to_talk_toggle");
    reveal_strlit("open_dictation");
    assert("push_to_talk_hold"@.len() == 17);
    assert("push_to_talk_toggle"@.len() == 19);
    assert("open_dictation"@.len() == 14);
}

} // verus!

//! Retention: dropping history and recordings older than the configured window.
use vstd::prelude::*;
use crate::clock::now_unix_seconds;
use crate::db::database::Database;
use crate::db::history_repo::unexpired;
use crate::errors::AppError;
use crate::models::{HistoryEntry, RetentionResult};

verus! {

/// How recordings in the audio directory are to be treated.
#[derive(Debug, Clone, Copy, PartialEq, Eq)]
pub enum AudioRetention {
    /// Keep every recording.
    KeepAll,
    /// Delete every `.wav` recording (audio history is off: only leftovers are there).
    DeleteAll,
    /// Delete the `.wav` recordings last modified at or before this instant,
    /// in nanoseconds since the Unix epoch.
    DeleteModifiedUpTo(i128),
}

/// What the directory listing says about one entry of the audio directory.
pub struct AudioFileFacts {
    /// Its path lies inside the audio directory.
    pub inside_audio_dir: bool,
    /// Its metadata could be read and it is a regular file.
    pub is_file: bool,
    /// It is a symbolic link itself (whatever it points to).
    pub is_symlink: bool,
    /// Its extension is exactly `wav`.
    pub is_wav: bool,
    /// Its modification time in nanoseconds since the Unix epoch, if readable.
    pub modified_nanos: Option<i128>,
}

/// Nanoseconds in a day.
pub open spec fn day_nanos() -> int {
    86_400_000_000_000
}

/// The policy for recordings under these settings, at `now_nanos`.
pub open spec fn audio_policy(audio_history_enabled: bool, retention_days: u32, now_nanos: i128) -> AudioRetention {
    if !audio_history_enabled {
        AudioRetention::DeleteAll
    } else if retention_days == 0 {
        AudioRetention::KeepAll
    } else {
        AudioRetention::DeleteModifiedUpTo((now_nanos - retention_days * day_nanos()) as i128)
    }
}

/// Whether the policy deletes the directory entry described by `f`.
pub open spec fn deletes(policy: AudioRetention, f: AudioFileFacts) -> bool {
    &&& !(policy is KeepAll)
    &&& f.inside_audio_dir
    &&& f.is_file
    &&& !f.is_symlink
    &&& f.is_wav
    &&& policy matches AudioRetention::DeleteModifiedUpTo(cutoff) ==> (f.modified_nanos matches Some(m) && m <= cutoff)
}

/// The history entries of `s` that `days` days of retention keep at `now`
/// (seconds since the epoch).
pub open spec fn retained_at(s: Seq<HistoryEntry>, days: u32, now: i64) -> Seq<HistoryEntry> {
    unexpired(s, now - days * 86400)
}

/// The configured retention window in days (30 without a settings row).
pub open spec fn retention_days(db: Database) -> u32 {
    match db.settings@ {
        Some(s) => s.retention_days,
        None => 30,
    }
}

/// The retention window, when one applies to the recordings, reaches back no
/// further than the earliest instant an `i128` of nanoseconds can hold.
pub open spec fn cutoff_in_range(db: Database, now_nanos: i128) -> bool {
    match db.settings@ {
        Some(s) => s.audio_history_enabled ==> i128::MIN + s.retention_days * day_nanos() <= now_nanos,
        None => true,
    }
}

/// Retention of history entries and recordings.
pub struct RetentionService;

impl RetentionService {
    /// Deletes the history entries older than the retention window at `now`
    /// (seconds since the epoch) and returns how many went; zero days keeps all.
    pub fn apply_history_retention_at(db: &mut Database, now: i64) -> (r: Result<u32, AppError>)
        requires
            old(db).wf(),
        ensures
            final(db).wf(),
            final(db).settings == old(db).settings,
            final(db).modes == old(db).modes,
            final(db).vocabulary == old(db).vocabulary,
            final(db).providers == old(db).providers,
            ({
                let days = match old(db).settings@ { Some(s) => s.retention_days, None => 30 };
                &&& days == 0 ==> final(db).history@ == old(db).history@ && r == Ok::<u32, AppError>(0)
                &&& days > 0 ==> final(db).history@ == unexpired(old(db).history@, now - days * 86400)
                    && r == Ok::<u32, AppError>((old(db).history@.len() - final(db).history@.len()) as u32)
            }),
    {
        let settings = db.settings.get()?;
        db.history.delete_older_than(settings.retention_days, now)
    }

    /// Deletes the history entries older than the retention window, as of now.
    pub fn apply_history_retention(db: &mut Database) -> (r: Result<u32, AppError>)
        requires
            old(db).wf(),
        ensures
            final(db).wf(),
            final(db).settings == old(db).settings,
            final(db).modes == old(db).modes,
            final(db).vocabulary == old(db).vocabulary,
            final(db).providers == old(db).providers,
            retention_days(*old(db)) == 0 ==> final(db).history@ == old(db).history@ && r == Ok::<u32, AppError>(0),
            retention_days(*old(db)) > 0 ==> r == Ok::<u32, AppError>((old(db).history@.len() - final(db).history@.len()) as u32),
            retention_days(*old(db)) > 0 ==> exists|now: i64| 0 <= now
                && final(db).history@ == #[trigger] retained_at(old(db).history@, retention_days(*old(db)), now),
    {
        let now = now_unix_seconds();
        let ghost before = db.history@;
        let ghost days = retention_days(*db);
        let r = Self::apply_history_retention_at(db, now);
        proof {
            if days > 0 {
                assert(db.history@ == retained_at(before, days, now));
            }
        }
        r
    }

    /// The policy for the recordings under the stored settings at `now_nanos`
    /// (nanoseconds since the epoch): without audio history every recording is
    /// a leftover and goes; with it, zero days keeps all and otherwise the
    /// recordings older than the window go.
    pub fn audio_policy(db: &Database, now_nanos: i128) -> (p: AudioRetention)
        requires
            cutoff_in_range(*db, now_nanos),
        ensures
            p == match db.settings@ {
                Some(s) => audio_policy(s.audio_history_enabled, s.retention_days, now_nanos),
                None => AudioRetention::DeleteAll,
            },
    {
        let (enabled, days) = match db.settings.get() {
            Ok(s) => (s.audio_history_enabled, s.retention_days),
            Err(_) => (false, 30),
        };
        if !enabled {
            AudioRetention::DeleteAll
        } else if days == 0 {
            AudioRetention::KeepAll
        } else {
            let span: i128 = (days as i128) * 86_400_000_000_000;
            AudioRetention::DeleteModifiedUpTo(now_nanos - span)
        }
    }

    /// Whether `policy` deletes the directory entry `f`: only regular `.wav`
    /// files inside the audio directory, never a symbolic link, and under a cutoff only those whose
    /// modification time is known and not after it.
    pub fn should_delete(policy: AudioRetention, f: &AudioFileFacts) -> (d: bool)
        ensures
            d == deletes(policy, *f),
    {
        match policy {
            AudioRetention::KeepAll => false,
            AudioRetention::DeleteAll => f.inside_audio_dir && f.is_file && !f.is_symlink && f.is_wav,
            AudioRetention::DeleteModifiedUpTo(cutoff) => {
                f.inside_audio_dir && f.is_file && !f.is_symlink && f.is_wav && match f.modified_nanos {
                    Some(m) => m <= cutoff,
                    None => false,
                }
            },
        }
    }

    /// Both counts of a retention pass.
    pub fn combine(deleted_history_count: u32, deleted_wav_count: u32) -> (r: RetentionResult)
        ensures
            r.deleted_history_count == deleted_history_count,
            r.deleted_wav_count == deleted_wav_count,
    {
        RetentionResult { deleted_history_count, deleted_wav_count }
    }
}

/// Which recordings a retention pass deletes. Only regular `.wav` files
/// inside the audio directory that are not symbolic links are ever deleted.
/// Without audio history every such file goes (they are leftovers); with
/// audio history and zero days none goes; with audio history and a window
/// of `days` days exactly those last modified at or before `days` days ago go.
pub proof fn law_audio_retention_rules(enabled: bool, days: u32, now_nanos: i128, f: AudioFileFacts)
    requires
        enabled ==> i128::MIN + days * day_nanos() <= now_nanos,
    ensures
        deletes(audio_policy(enabled, days, now_nanos), f) ==> f.inside_audio_dir && f.is_file && !f.is_symlink && f.is_wav,
        !enabled ==> (deletes(audio_policy(enabled, days, now_nanos), f)
            <==> (f.inside_audio_dir && f.is_file && !f.is_symlink && f.is_wav)),
        enabled && days == 0 ==> !deletes(audio_policy(enabled, days, now_nanos), f),
        enabled && days > 0 ==> (deletes(audio_policy(enabled, days, now_nanos), f)
            <==> (f.inside_audio_dir && f.is_file && !f.is_symlink && f.is_wav
                && f.modified_nanos is Some && f.modified_nanos->0 <= now_nanos - days * day_nanos())),
{
}

} // verus!

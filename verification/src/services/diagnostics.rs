//! Diagnostics: the fourteen health checks of the installation.
use vstd::prelude::*;
use crate::clock::now_rfc3339;
use crate::db::database::Database;
use crate::db::providers_repo::{enabled_count, first_enabled_ollama};
use crate::errors::AppError;
use crate::models::{AppSettings, DiagnosticCheck, DiagnosticReport};
use crate::services::ptt::{whisper_binary, whisper_model, rendered};
use crate::text::{append_decimal, append_signed, concat3, decimal, signed_decimal, str_of, strip_trailing, trim_end_char};

verus! {

/// A check as (name, status, message).
pub open spec fn check_view(c: DiagnosticCheck) -> (Seq<char>, Seq<char>, Seq<char>) {
    (c.name@, c.status@, c.message@)
}

/// Where the Ollama reachability probe goes.
pub struct OllamaTarget {
    /// The provider's base URL as configured.
    pub base_url: String,
    /// The URL that is fetched: the base URL without trailing slashes, then `/api/tags`.
    pub url: String,
}

/// What the checks that need the outside world should look at.
pub struct DiagnosticTargets {
    pub binary_path: Option<String>,
    pub model_path: Option<String>,
    pub ollama: Option<OllamaTarget>,
    /// The shortcut string that must parse.
    pub shortcut: String,
}

/// What the shell measured for the checks it alone can run.
pub struct DiagnosticFacts {
    /// Whether an input device was found, or why devices could not be listed.
    pub microphones: Result<bool, String>,
    /// The configured binary path names a regular file.
    pub binary_is_file: bool,
    /// The configured model path names a regular file.
    pub model_is_file: bool,
    /// The HTTP status of the Ollama probe, or the client's failure text.
    pub ollama_status: Result<u16, String>,
    /// Why the shortcut does not parse, if it does not.
    pub shortcut_error: Option<String>,
    /// The audio directory as displayed.
    pub audio_dir: String,
    /// The audio directory exists and is a directory.
    pub audio_dir_is_dir: bool,
    /// Count and total size in bytes of the regular files in the audio
    /// directory, or why it could not be read.
    pub audio_dir_size: Result<(u64, u64), String>,
}

/// The base URL the Ollama probe checks: the first enabled Ollama provider's, when not empty.
pub open spec fn ollama_base(db: Database) -> Option<Seq<char>> {
    match first_enabled_ollama(db.providers@) {
        Some(p) => if p.base_url@.len() > 0 { Some(p.base_url@) } else { None },
        None => None,
    }
}

/// The shortcut in the settings (the default without a settings row).
pub open spec fn configured_shortcut(db: Database) -> Seq<char> {
    match db.settings@ {
        Some(s) => s.shortcut@,
        None => "CommandOrControl+Shift+Space"@,
    }
}

pub open spec fn database_check(db: Database) -> (Seq<char>, Seq<char>, Seq<char>) {
    if db.settings@ is Some {
        ("database_reachable"@, "pass"@, "SQLite database is reachable"@)
    } else {
        ("database_reachable"@, "fail"@, "Database query failed: "@ + "Query returned no rows"@)
    }
}

/// The migrations check: the schema passes once migration 005 is applied.
pub open spec fn migrations_check(version: Option<i64>) -> (Seq<char>, Seq<char>, Seq<char>) {
    match version {
        Some(v) => if v >= 5 {
            ("migrations_current"@, "pass"@, "Schema is at version "@ + signed_decimal(v as int) + " (current)"@)
        } else {
            ("migrations_current"@, "warn"@, "Schema at version "@ + signed_decimal(v as int) + ", expected "@ + "5"@)
        },
        None => ("migrations_current"@, "warn"@, "No migrations have been applied"@),
    }
}

pub open spec fn microphone_check(devices: Result<bool, String>) -> (Seq<char>, Seq<char>, Seq<char>) {
    match devices {
        Ok(true) => ("microphone_available"@, "pass"@, "At least one input device found"@),
        Ok(false) => ("microphone_available"@, "warn"@, "No input devices found"@),
        Err(e) => ("microphone_available"@, "warn"@, "Could not enumerate input devices: "@ + e@),
    }
}

pub open spec fn path_checks(configured: Option<String>, is_file: bool, what: Seq<char>, label: Seq<char>) -> Seq<(Seq<char>, Seq<char>, Seq<char>)> {
    match configured {
        Some(p) => seq![
            ("whisper_"@ + what + "_configured"@, "pass"@, "Whisper "@ + what + " path is configured"@),
            if is_file {
                ("whisper_"@ + what + "_exists"@, "pass"@, "Whisper "@ + what + " file exists"@)
            } else {
                ("whisper_"@ + what + "_exists"@, "fail"@, "Whisper "@ + what + " not found at: "@ + p@)
            },
        ],
        None => seq![
            ("whisper_"@ + what + "_configured"@, "warn"@, "Whisper "@ + what + " path is not configured"@),
            ("whisper_"@ + what + "_exists"@, "skip"@, "Skipped \u{2014} no "@ + label + " path configured"@),
        ],
    }
}

pub open spec fn providers_check(n: nat) -> (Seq<char>, Seq<char>, Seq<char>) {
    if n > 0 {
        ("providers_configured"@, "pass"@, decimal(n) + " enabled provider(s) configured"@)
    } else {
        ("providers_configured"@, "warn"@, "No enabled providers configured"@)
    }
}

pub open spec fn ollama_check(base: Option<Seq<char>>, status: Result<u16, String>) -> (Seq<char>, Seq<char>, Seq<char>) {
    match base {
        None => ("ollama_reachable"@, "skip"@, "No enabled Ollama provider configured"@),
        Some(b) => match status {
            Ok(code) => if code == 200 {
                ("ollama_reachable"@, "pass"@, "Ollama is reachable at "@ + b)
            } else {
                ("ollama_reachable"@, "warn"@, "Ollama responded with HTTP "@ + decimal(code as nat))
            },
            Err(e) => ("ollama_reachable"@, "warn"@, "Ollama not reachable: "@ + e@),
        },
    }
}

pub open spec fn shortcut_check(shortcut: Seq<char>, error: Option<String>) -> (Seq<char>, Seq<char>, Seq<char>) {
    match error {
        None => ("shortcut_configured"@, "pass"@, "Global shortcut '"@ + shortcut + "' is valid"@),
        Some(e) => ("shortcut_configured"@, "warn"@, "Shortcut '"@ + shortcut + "' is not parseable: "@ + e@),
    }
}

pub open spec fn audio_dir_check(dir: Seq<char>, is_dir: bool) -> (Seq<char>, Seq<char>, Seq<char>) {
    if is_dir {
        ("audio_dir_accessible"@, "pass"@, "Audio directory exists: "@ + dir)
    } else {
        ("audio_dir_accessible"@, "warn"@, "Audio directory not found: "@ + dir)
    }
}

pub open spec fn audio_size_check(size: Result<(u64, u64), String>) -> (Seq<char>, Seq<char>, Seq<char>) {
    match size {
        Ok((files, bytes)) => ("audio_dir_size"@, "pass"@, decimal(files as nat) + " files, "@ + decimal(bytes as nat) + " bytes"@),
        Err(e) => ("audio_dir_size"@, "warn"@, "Could not read audio directory: "@ + e@),
    }
}

/// The fourteen checks, in report order, for the stored data `db` and the measured `facts`.
pub open spec fn expected_checks(db: Database, f: DiagnosticFacts) -> Seq<(Seq<char>, Seq<char>, Seq<char>)> {
    seq![
        ("backend_alive"@, "pass"@, "Rust backend is running"@),
        database_check(db),
        migrations_check(db.schema_version),
        microphone_check(f.microphones),
    ]
    + path_checks(whisper_binary(db), f.binary_is_file, "binary"@, "binary"@)
    + path_checks(whisper_model(db), f.model_is_file, "model"@, "model"@)
    + seq![
        providers_check(enabled_count(db.providers@)),
        ollama_check(ollama_base(db), f.ollama_status),
        shortcut_check(configured_shortcut(db), f.shortcut_error),
        audio_dir_check(f.audio_dir@, f.audio_dir_is_dir),
        ("history_count"@, "pass"@, decimal(db.history@.len()) + " history entries"@),
        audio_size_check(f.audio_dir_size),
    ]
}

fn check(name: &str, status: &str, message: String) -> (c: DiagnosticCheck)
    ensures
        check_view(c) == (name@, status@, message@),
{
    DiagnosticCheck { name: str_of(name), status: str_of(status), message }
}

fn append_check(checks: &mut Vec<DiagnosticCheck>, c: DiagnosticCheck)
    ensures
        final(checks)@.map_values(|x: DiagnosticCheck| check_view(x))
            == old(checks)@.map_values(|x: DiagnosticCheck| check_view(x)).push(check_view(c)),
{
    let ghost v = check_view(c);
    checks.push(c);
    assert(checks@.map_values(|x: DiagnosticCheck| check_view(x))
        =~= old(checks)@.map_values(|x: DiagnosticCheck| check_view(x)).push(v));
}

/// Health checks of the installation.
pub struct DiagnosticsService;

impl DiagnosticsService {
    /// What the outside checks must look at: the whisper paths, the first
    /// enabled Ollama provider with a base URL, and the configured shortcut.
    pub fn targets(db: &Database) -> (t: DiagnosticTargets)
        ensures
            t.binary_path == whisper_binary(*db),
            t.model_path == whisper_model(*db),
            t.shortcut@ == configured_shortcut(*db),
            ollama_base(*db) is None ==> t.ollama is None,
            ollama_base(*db) matches Some(b) ==> (t.ollama matches Some(o) && o.base_url@ == b
                && o.url@ == strip_trailing(b, '/') + "/api/tags"@),
    {
        let (binary_path, model_path, shortcut) = match db.settings.get() {
            Ok(s) => (s.whisper_binary_path, s.whisper_model_path, s.shortcut),
            Err(_) => (None, None, str_of("CommandOrControl+Shift+Space")),
        };
        let ollama = match db.providers.first_enabled_ollama() {
            Some(p) => {
                if p.base_url.as_str().is_empty() {
                    None
                } else {
                    let mut url = trim_end_char(p.base_url.as_str(), '/');
                    url.append("/api/tags");
                    Some(OllamaTarget { base_url: p.base_url, url })
                }
            },
            None => None,
        };
        DiagnosticTargets { binary_path, model_path, ollama, shortcut }
    }

    /// Runs the fourteen checks on the stored data and the measured facts,
    /// stamped with the current time. Each check stands alone: a failing one
    /// does not stop the others.
    pub fn run_diagnostics(db: &Database, facts: &DiagnosticFacts) -> (r: Result<DiagnosticReport, AppError>)
        ensures
            r matches Ok(report) && report.checks@.len() == 14
                && report.checks@.map_values(|c: DiagnosticCheck| check_view(c)) == expected_checks(*db, *facts)
                && report.generated_at@.len() > 0,
    {
        let mut checks: Vec<DiagnosticCheck> = Vec::new();
        append_check(&mut checks, check("backend_alive", "pass", str_of("Rust backend is running")));
        append_check(&mut checks, Self::database_reachable(db));
        append_check(&mut checks, Self::migrations_current(db.schema_version));
        append_check(&mut checks, Self::microphone_available(&facts.microphones));
        let ghost head = checks@.map_values(|c: DiagnosticCheck| check_view(c));
        let settings = db.settings.get();
        let mut whisper = Self::whisper_checks(&settings, facts.binary_is_file, facts.model_is_file);
        let ghost w = whisper@;
        checks.append(&mut whisper);
        assert(checks@.map_values(|c: DiagnosticCheck| check_view(c))
            =~= head + w.map_values(|c: DiagnosticCheck| check_view(c)));
        append_check(&mut checks, Self::providers_configured(db));
        append_check(&mut checks, Self::ollama_reachable(db, &facts.ollama_status));
        append_check(&mut checks, Self::shortcut_configured(db, &facts.shortcut_error));
        append_check(&mut checks, Self::audio_dir_accessible(&facts.audio_dir, facts.audio_dir_is_dir));
        append_check(&mut checks, Self::history_count(db));
        append_check(&mut checks, Self::audio_dir_size(&facts.audio_dir_size));
        let generated_at = now_rfc3339();
        assert(checks@.map_values(|c: DiagnosticCheck| check_view(c)) =~= expected_checks(*db, *facts));
        Ok(DiagnosticReport { checks, generated_at })
    }

    fn database_reachable(db: &Database) -> (c: DiagnosticCheck)
        ensures
            check_view(c) == database_check(*db),
    {
        if db.settings.is_stored() {
            check("database_reachable", "pass", str_of("SQLite database is reachable"))
        } else {
            let mut m = str_of("Database query failed: ");
            m.append("Query returned no rows");
            check("database_reachable", "fail", m)
        }
    }

    fn migrations_current(version: Option<i64>) -> (c: DiagnosticCheck)
        ensures
            check_view(c) == migrations_check(version),
    {
        match version {
            Some(v) => {
                if v >= 5 {
                    let mut m = str_of("Schema is at version ");
                    append_signed(&mut m, v);
                    m.append(" (current)");
                    check("migrations_current", "pass", m)
                } else {
                    let mut m = str_of("Schema at version ");
                    append_signed(&mut m, v);
                    m.append(", expected ");
                    m.append("5");
                    check("migrations_current", "warn", m)
                }
            },
            None => check("migrations_current", "warn", str_of("No migrations have been applied")),
        }
    }

    fn microphone_available(devices: &Result<bool, String>) -> (c: DiagnosticCheck)
        ensures
            check_view(c) == microphone_check(*devices),
    {
        match devices {
            Ok(true) => check("microphone_available", "pass", str_of("At least one input device found")),
            Ok(false) => check("microphone_available", "warn", str_of("No input devices found")),
            Err(e) => {
                let mut m = str_of("Could not enumerate input devices: ");
                m.append(e.as_str());
                check("microphone_available", "warn", m)
            },
        }
    }

    fn path_pair(configured: &Option<String>, is_file: bool, what: &str, out: &mut Vec<DiagnosticCheck>)
        ensures
            final(out)@.map_values(|c: DiagnosticCheck| check_view(c))
                == old(out)@.map_values(|c: DiagnosticCheck| check_view(c)) + path_checks(*configured, is_file, what@, what@),
    {
        let ghost before = out@;
        let configured_name = concat3("whisper_", what, "_configured");
        let exists_name = concat3("whisper_", what, "_exists");
        match configured {
            Some(p) => {
                out.push(DiagnosticCheck { name: configured_name, status: str_of("pass"),
                    message: concat3("Whisper ", what, " path is configured") });
                if is_file {
                    out.push(DiagnosticCheck { name: exists_name, status: str_of("pass"),
                        message: concat3("Whisper ", what, " file exists") });
                } else {
                    let mut m = concat3("Whisper ", what, " not found at: ");
                    m.append(p.as_str());
                    out.push(DiagnosticCheck { name: exists_name, status: str_of("fail"), message: m });
                }
            },
            None => {
                out.push(DiagnosticCheck { name: configured_name, status: str_of("warn"),
                    message: concat3("Whisper ", what, " path is not configured") });
                out.push(DiagnosticCheck { name: exists_name, status: str_of("skip"),
                    message: concat3("Skipped \u{2014} no ", what, " path configured") });
            },
        }
        assert(out@.map_values(|c: DiagnosticCheck| check_view(c))
            =~= before.map_values(|c: DiagnosticCheck| check_view(c)) + path_checks(*configured, is_file, what@, what@));
    }

    fn whisper_checks(settings: &Result<AppSettings, AppError>, binary_is_file: bool, model_is_file: bool) -> (v: Vec<DiagnosticCheck>)
        ensures
            settings matches Ok(s) ==> v@.map_values(|c: DiagnosticCheck| check_view(c))
                == path_checks(s.whisper_binary_path, binary_is_file, "binary"@, "binary"@)
                + path_checks(s.whisper_model_path, model_is_file, "model"@, "model"@),
            settings matches Err(e) ==> v@.len() == 4 && forall|i: int| 0 <= i < 4 ==>
                (#[trigger] v@[i]).status@ == "fail"@ && v@[i].message@ == "Could not read settings: "@ + rendered(*e),
    {
        let mut v: Vec<DiagnosticCheck> = Vec::new();
        match settings {
            Ok(s) => {
                Self::path_pair(&s.whisper_binary_path, binary_is_file, "binary", &mut v);
                Self::path_pair(&s.whisper_model_path, model_is_file, "model", &mut v);
                assert(v@.map_values(|c: DiagnosticCheck| check_view(c))
                    =~= path_checks(s.whisper_binary_path, binary_is_file, "binary"@, "binary"@)
                    + path_checks(s.whisper_model_path, model_is_file, "model"@, "model"@));
            },
            Err(e) => {
                let names = ["whisper_binary_configured", "whisper_binary_exists",
                    "whisper_model_configured", "whisper_model_exists"];
                let mut i: usize = 0;
                while i < 4
                    invariant
                        i <= 4,
                        v@.len() == i,
                        forall|j: int| 0 <= j < i ==>
                            (#[trigger] v@[j]).status@ == "fail"@ && v@[j].message@ == "Could not read settings: "@ + rendered(*e),
                    decreases 4 - i,
                {
                    let mut m = str_of("Could not read settings: ");
                    m.append(e.message().as_str());
                    v.push(check(names[i], "fail", m));
                    i = i + 1;
                }
            },
        }
        v
    }

    fn providers_configured(db: &Database) -> (c: DiagnosticCheck)
        ensures
            check_view(c) == providers_check(enabled_count(db.providers@)),
    {
        let n = db.providers.count_enabled();
        if n > 0 {
            let mut m = String::new();
            append_decimal(&mut m, n as u64);
            m.append(" enabled provider(s) configured");
            assert(m@ =~= decimal(n as nat) + " enabled provider(s) configured"@);
            check("providers_configured", "pass", m)
        } else {
            check("providers_configured", "warn", str_of("No enabled providers configured"))
        }
    }

    fn ollama_reachable(db: &Database, status: &Result<u16, String>) -> (c: DiagnosticCheck)
        ensures
            check_view(c) == ollama_check(ollama_base(*db), *status),
    {
        let base = match db.providers.first_enabled_ollama() {
            Some(p) => {
                if p.base_url.as_str().is_empty() { None } else { Some(p.base_url) }
            },
            None => None,
        };
        match base {
            None => check("ollama_reachable", "skip", str_of("No enabled Ollama provider configured")),
            Some(b) => match status {
                Ok(code) => {
                    if *code == 200 {
                        let mut m = str_of("Ollama is reachable at ");
                        m.append(b.as_str());
                        check("ollama_reachable", "pass", m)
                    } else {
                        let mut m = str_of("Ollama responded with HTTP ");
                        append_decimal(&mut m, *code as u64);
                        check("ollama_reachable", "warn", m)
                    }
                },
                Err(e) => {
                    let mut m = str_of("Ollama not reachable: ");
                    m.append(e.as_str());
                    check("ollama_reachable", "warn", m)
                },
            },
        }
    }

    fn shortcut_configured(db: &Database, error: &Option<String>) -> (c: DiagnosticCheck)
        ensures
            check_view(c) == shortcut_check(configured_shortcut(*db), *error),
    {
        let shortcut = match db.settings.get() {
            Ok(s) => s.shortcut,
            Err(_) => str_of("CommandOrControl+Shift+Space"),
        };
        match error {
            None => check("shortcut_configured", "pass", concat3("Global shortcut '", shortcut.as_str(), "' is valid")),
            Some(e) => {
                let mut m = concat3("Shortcut '", shortcut.as_str(), "' is not parseable: ");
                m.append(e.as_str());
                check("shortcut_configured", "warn", m)
            },
        }
    }

    fn audio_dir_accessible(dir: &String, is_dir: bool) -> (c: DiagnosticCheck)
        ensures
            check_view(c) == audio_dir_check(dir@, is_dir),
    {
        if is_dir {
            let mut m = str_of("Audio directory exists: ");
            m.append(dir.as_str());
            check("audio_dir_accessible", "pass", m)
        } else {
            let mut m = str_of("Audio directory not found: ");
            m.append(dir.as_str());
            check("audio_dir_accessible", "warn", m)
        }
    }

    fn history_count(db: &Database) -> (c: DiagnosticCheck)
        ensures
            check_view(c) == ("history_count"@, "pass"@, decimal(db.history@.len()) + " history entries"@),
    {
        let n = db.history.count();
        let mut m = String::new();
        append_decimal(&mut m, n as u64);
        m.append(" history entries");
        assert(m@ =~= decimal(db.history@.len()) + " history entries"@);
        check("history_count", "pass", m)
    }

    fn audio_dir_size(size: &Result<(u64, u64), String>) -> (c: DiagnosticCheck)
        ensures
            check_view(c) == audio_size_check(*size),
    {
        match size {
            Ok((files, bytes)) => {
                let mut m = String::new();
                append_decimal(&mut m, *files);
                m.append(" files, ");
                append_decimal(&mut m, *bytes);
                m.append(" bytes");
                assert(m@ =~= decimal(*files as nat) + " files, "@ + decimal(*bytes as nat) + " bytes"@);
                check("audio_dir_size", "pass", m)
            },
            Err(e) => {
                let mut m = str_of("Could not read audio directory: ");
                m.append(e.as_str());
                check("audio_dir_size", "warn", m)
            },
        }
    }
}

/// The Ollama check passes only when an enabled Ollama provider is
/// configured and its probe answered HTTP 200; a failed probe warns with the
/// failure, another status warns with that status, and without a provider
/// the check is skipped.
pub proof fn law_ollama_passes_only_on_http_200(base: Option<Seq<char>>, status: Result<u16, String>)
    ensures
        ollama_check(base, status).0 == "ollama_reachable"@,
        ollama_check(base, status).1 == "pass"@ <==> (base is Some && status == Ok::<u16, String>(200)),
        base is Some && status is Err ==> ollama_check(base, status).1 == "warn"@
            && ollama_check(base, status).2 == "Ollama not reachable: "@ + status->Err_0@,
        base is Some && status is Ok && status != Ok::<u16, String>(200) ==> ollama_check(base, status).1 == "warn"@,
        base is None ==> ollama_check(base, status).1 == "skip"@,
{
    reveal_strlit("pass");
    reveal_strlit("warn");
    reveal_strlit("skip");
    assert("pass"@[0] != "warn"@[0]);
    assert("pass"@[0] != "skip"@[0]);
}

/// Each health check passes exactly when what it checks holds: the settings
/// row can be read; the schema is at version 5 or later; an input device was
/// found; a whisper path is configured, and its file exists; some provider
/// is enabled; the shortcut parses; the audio directory exists; its size
/// could be read. A missing file fails, a missing path is skipped.
pub proof fn law_checks_pass_exactly_when_they_hold(db: Database, version: Option<i64>,
    devices: Result<bool, String>, configured: Option<String>, is_file: bool, what: Seq<char>, label: Seq<char>,
    n: nat, shortcut: Seq<char>, error: Option<String>, dir: Seq<char>, is_dir: bool,
    size: Result<(u64, u64), String>)
    ensures
        database_check(db).1 == "pass"@ <==> db.settings@ is Some,
        migrations_check(version).1 == "pass"@ <==> (version is Some && version->0 >= 5),
        microphone_check(devices).1 == "pass"@ <==> devices == Ok::<bool, String>(true),
        path_checks(configured, is_file, what, label)[0].1 == "pass"@ <==> configured is Some,
        path_checks(configured, is_file, what, label)[1].1 == "pass"@ <==> (configured is Some && is_file),
        path_checks(configured, is_file, what, label)[1].1 == "fail"@ <==> (configured is Some && !is_file),
        path_checks(configured, is_file, what, label)[1].1 == "skip"@ <==> configured is None,
        providers_check(n).1 == "pass"@ <==> n > 0,
        shortcut_check(shortcut, error).1 == "pass"@ <==> error is None,
        audio_dir_check(dir, is_dir).1 == "pass"@ <==> is_dir,
        audio_size_check(size).1 == "pass"@ <==> size is Ok,
{
    reveal_strlit("pass");
    reveal_strlit("warn");
    reveal_strlit("skip");
    reveal_strlit("fail");
    assert("pass"@[0] != "warn"@[0]);
    assert("pass"@[0] != "skip"@[0]);
    assert("pass"@[0] != "fail"@[0]);
    assert("fail"@[0] != "skip"@[0]);
    assert("fail"@[0] != "warn"@[0]);
    assert("skip"@[0] != "warn"@[0]);
}

} // verus!

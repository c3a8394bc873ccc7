//! Local transcription with a whisper.cpp binary: which runs are allowed and
//! what their output means.
use vstd::prelude::*;
use crate::db::database::Database;
use crate::errors::{AppError, fails_transcription};
use crate::models::TranscriptionResult;
use crate::services::privacy::{decide, decision_reason, op_allowed};
use crate::text::{append_signed, signed_decimal, str_of, trim, trim_str};

verus! {

/// Where the WAV file lies, as the filesystem resolves it.
pub enum WavLocation {
    /// Its resolved path is inside the resolved audio directory.
    Inside,
    /// Its resolved path is outside the audio directory.
    Outside,
    /// The WAV path could not be resolved, for this reason.
    Unresolved(String),
    /// The WAV path resolved but the audio directory did not, for this reason.
    DirUnresolved(String),
}

/// What the filesystem says about the paths a transcription uses.
pub struct PathFacts {
    /// The binary path names a regular file.
    pub binary_is_file: bool,
    /// The model path names a regular file.
    pub model_is_file: bool,
    /// The WAV path names a regular file.
    pub wav_is_file: bool,
    pub wav_location: WavLocation,
}

/// What running the whisper binary gave.
pub enum ProcessOutcome {
    /// It could not be launched, for this reason.
    LaunchFailed(String),
    /// It ran: whether it exited successfully, its exit code if it has one,
    /// and its standard output and error as text.
    Exited { success: bool, code: Option<i32>, stdout: String, stderr: String },
}

/// The error a transcription with these paths and facts is refused with, if any.
pub open spec fn input_error(wav: Seq<char>, binary: Seq<char>, model: Seq<char>, facts: PathFacts) -> Option<Seq<char>> {
    if binary.len() == 0 {
        Some("Whisper binary path is not configured. Set it in the Models page."@)
    } else if !facts.binary_is_file {
        Some("Whisper binary not found at: "@ + binary)
    } else if model.len() == 0 {
        Some("Whisper model path is not configured. Set it in the Models page."@)
    } else if !facts.model_is_file {
        Some("Whisper model not found at: "@ + model)
    } else if wav.len() == 0 {
        Some("WAV file path is empty."@)
    } else if !facts.wav_is_file {
        Some("WAV file not found at: "@ + wav)
    } else {
        match facts.wav_location {
            WavLocation::Inside => None,
            WavLocation::Outside => Some("WAV file is not inside the app audio directory."@),
            WavLocation::Unresolved(e) => Some("Cannot resolve WAV path: "@ + e@),
            WavLocation::DirUnresolved(e) => Some("Cannot resolve audio dir: "@ + e@),
        }
    }
}

/// What the binary's run is read as: the trimmed transcript, or the error.
pub open spec fn outcome_result(outcome: ProcessOutcome) -> Result<Seq<char>, Seq<char>> {
    match outcome {
        ProcessOutcome::LaunchFailed(e) => Err("Failed to launch whisper binary: "@ + e@),
        ProcessOutcome::Exited { success, code, stdout, stderr } => if !success {
            Err("Whisper exited with code "@ + signed_decimal(match code {
                Some(c) => c as int,
                None => -1,
            }) + ": "@ + trim(stderr@))
        } else if trim(stdout@).len() == 0 {
            Err("Local transcription produced no stdout. Check whether your whisper binary prints text to stdout."@)
        } else {
            Ok(trim(stdout@))
        },
    }
}

/// What a transcription needs from the stored settings.
pub struct TranscriptionSetup {
    /// The whisper binary, empty when not configured.
    pub binary_path: String,
    /// The whisper model, empty when not configured.
    pub model_path: String,
    /// Whether recordings are kept after a successful transcription.
    pub audio_history_enabled: bool,
}

/// Local transcription through a whisper.cpp-compatible binary.
pub struct TranscriptionService;

impl TranscriptionService {
    /// The whisper.cpp arguments, passed one by one with no shell:
    /// `-m <model_path> -f <wav_path>`.
    pub fn whisper_args(model_path: &str, wav_path: &str) -> (r: Vec<String>)
        ensures
            r@.len() == 4,
            r@[0]@ == "-m"@,
            r@[1]@ == model_path@,
            r@[2]@ == "-f"@,
            r@[3]@ == wav_path@,
    {
        let mut args: Vec<String> = Vec::new();
        args.push(str_of("-m"));
        args.push(str_of(model_path));
        args.push(str_of("-f"));
        args.push(str_of(wav_path));
        args
    }

    /// Checks, in order, that the binary and the model are configured and are
    /// files, that the WAV path is given and is a file, and that it lies
    /// inside the app's audio directory.
    pub fn check_inputs(wav_path: &str, binary_path: &str, model_path: &str, facts: &PathFacts) -> (r: Result<(), AppError>)
        ensures
            input_error(wav_path@, binary_path@, model_path@, *facts) is None ==> r is Ok,
            input_error(wav_path@, binary_path@, model_path@, *facts) matches Some(m) ==> fails_transcription(r, m),
    {
        if binary_path.is_empty() {
            return Err(AppError::TranscriptionError(str_of(
                "Whisper binary path is not configured. Set it in the Models page.")));
        }
        if !facts.binary_is_file {
            let mut m = str_of("Whisper binary not found at: ");
            m.append(binary_path);
            return Err(AppError::TranscriptionError(m));
        }
        if model_path.is_empty() {
            return Err(AppError::TranscriptionError(str_of(
                "Whisper model path is not configured. Set it in the Models page.")));
        }
        if !facts.model_is_file {
            let mut m = str_of("Whisper model not found at: ");
            m.append(model_path);
            return Err(AppError::TranscriptionError(m));
        }
        if wav_path.is_empty() {
            return Err(AppError::TranscriptionError(str_of("WAV file path is empty.")));
        }
        if !facts.wav_is_file {
            let mut m = str_of("WAV file not found at: ");
            m.append(wav_path);
            return Err(AppError::TranscriptionError(m));
        }
        match &facts.wav_location {
            WavLocation::Inside => Ok(()),
            WavLocation::Outside => Err(AppError::TranscriptionError(str_of(
                "WAV file is not inside the app audio directory."))),
            WavLocation::Unresolved(e) => {
                let mut m = str_of("Cannot resolve WAV path: ");
                m.append(e.as_str());
                Err(AppError::TranscriptionError(m))
            },
            WavLocation::DirUnresolved(e) => {
                let mut m = str_of("Cannot resolve audio dir: ");
                m.append(e.as_str());
                Err(AppError::TranscriptionError(m))
            },
        }
    }

    /// Reads the binary's run: a launch failure or a failing exit is an
    /// error, and so is a successful run that printed nothing; otherwise the
    /// trimmed standard output is the transcript.
    pub fn finish(model_path: &str, outcome: ProcessOutcome, duration_ms: u64) -> (r: Result<TranscriptionResult, AppError>)
        ensures
            outcome_result(outcome) matches Err(m) ==> fails_transcription(r, m),
            outcome_result(outcome) matches Ok(t) ==> (r matches Ok(res) && res.raw_text@ == t
                && res.duration_ms == duration_ms && res.model_path@ == model_path@),
    {
        match outcome {
            ProcessOutcome::LaunchFailed(e) => {
                let mut m = str_of("Failed to launch whisper binary: ");
                m.append(e.as_str());
                Err(AppError::TranscriptionError(m))
            },
            ProcessOutcome::Exited { success, code, stdout, stderr } => {
                if !success {
                    let c: i32 = match code {
                        Some(c) => c,
                        None => -1,
                    };
                    let mut m = str_of("Whisper exited with code ");
                    append_signed(&mut m, c as i64);
                    m.append(": ");
                    let err_text = trim_str(stderr.as_str());
                    m.append(err_text.as_str());
                    return Err(AppError::TranscriptionError(m));
                }
                let raw_text = trim_str(stdout.as_str());
                if raw_text.as_str().is_empty() {
                    return Err(AppError::TranscriptionError(str_of(
                        "Local transcription produced no stdout. Check whether your whisper binary prints text to stdout.")));
                }
                Ok(TranscriptionResult { raw_text, duration_ms, model_path: str_of(model_path) })
            },
        }
    }

    /// What a transcription needs from the settings, once the privacy policy
    /// has allowed `local_transcription`.
    pub fn prepare(db: &Database) -> (r: Result<TranscriptionSetup, AppError>)
        ensures
            ({
                let local_only = match db.settings@ { Some(s) => s.local_only_mode, None => false };
                &&& !op_allowed(local_only, "local_transcription"@) ==> fails_transcription(r,
                    "Privacy check blocked transcription: "@ + decision_reason(local_only, "local_transcription"@))
                &&& op_allowed(local_only, "local_transcription"@) ==> (r matches Ok(setup) && match db.settings@ {
                    Some(s) => {
                        &&& setup.binary_path@ == match s.whisper_binary_path { Some(b) => b@, None => Seq::empty() }
                        &&& setup.model_path@ == match s.whisper_model_path { Some(m) => m@, None => Seq::empty() }
                        &&& setup.audio_history_enabled == s.audio_history_enabled
                    },
                    None => setup.binary_path@.len() == 0 && setup.model_path@.len() == 0 && !setup.audio_history_enabled,
                })
            }),
    {
        let settings = db.settings.get()?;
        let op = str_of("local_transcription");
        let decision = decide(settings.local_only_mode, &op);
        if !decision.allowed {
            let mut m = str_of("Privacy check blocked transcription: ");
            m.append(decision.reason.as_str());
            return Err(AppError::TranscriptionError(m));
        }
        let binary_path = match settings.whisper_binary_path {
            Some(b) => b,
            None => String::new(),
        };
        let model_path = match settings.whisper_model_path {
            Some(m) => m,
            None => String::new(),
        };
        Ok(TranscriptionSetup { binary_path, model_path, audio_history_enabled: settings.audio_history_enabled })
    }
}

/// A run is read as a transcript only when the binary launched and exited
/// successfully: a failed launch and an unsuccessful exit are errors whatever
/// the standard output holds, and the transcript is the standard output,
/// trimmed, never empty.
pub proof fn law_only_a_successful_run_transcribes(outcome: ProcessOutcome)
    ensures
        outcome_result(outcome) is Ok ==> outcome matches ProcessOutcome::Exited { success: true, .. },
        outcome matches ProcessOutcome::Exited { success: false, .. } ==> outcome_result(outcome) is Err,
        outcome is LaunchFailed ==> outcome_result(outcome) is Err,
        outcome_result(outcome) matches Ok(t) ==> t.len() > 0 && (outcome matches ProcessOutcome::Exited { stdout, .. }
            && t == trim(stdout@)),
{
}

/// An unsuccessful exit is reported from the exit code and the error output
/// alone: two failed runs that differ only in their standard output give
/// the same error.
pub proof fn law_failed_run_ignores_stdout(code: Option<i32>, stderr: String, out1: String, out2: String)
    ensures
        outcome_result(ProcessOutcome::Exited { success: false, code, stdout: out1, stderr })
            == outcome_result(ProcessOutcome::Exited { success: false, code, stdout: out2, stderr }),
{
}

} // verus!

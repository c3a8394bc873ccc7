//! Push-to-talk: transcript clean-up of whisper.cpp output and the pipeline's decisions.
use vstd::prelude::*;
use crate::db::database::Database;
use crate::db::providers_repo::enabled_cleanup;
use crate::db::settings_repo::{default_settings, is_default_settings};
use crate::db::table::{find_key, has_key, law_insert_then_find, lemma_pushed_key_fresh};
use crate::clock::{new_uuid_string, now_rfc3339};
use crate::errors::AppError;
use crate::models::{AiProvider, AppSettings, HistoryEntry, PttStatusEvent};
use crate::services::cleanup::active_mode_id;
use crate::services::history::HistoryService;
use crate::services::status::lemma_first_of_listing;
use crate::text::{append_chars, chars_of, contains3, contains_seq, eq_lit, find_char, index_of, lemma_index_of_bounds, lex_le, push_char, str_of, trim, trim_bounds};

verus! {

/// Current phase of the push-to-talk pipeline lifecycle.
#[derive(Debug, Clone, PartialEq, Eq)]
pub enum PttPhase {
    Idle,
    Recording,
    Transcribing,
    Cleaning,
    Inserting,
    Done,
    Error(String),
    Cancelled,
}

/// Two phases are the same phase (errors with the same text).
pub open spec fn same_phase(a: PttPhase, b: PttPhase) -> bool {
    match (a, b) {
        (PttPhase::Error(x), PttPhase::Error(y)) => x@ == y@,
        (PttPhase::Error(_), _) => false,
        (_, PttPhase::Error(_)) => false,
        _ => a == b,
    }
}

impl PttPhase {
    /// A copy of the phase.
    pub fn duplicate(&self) -> (r: PttPhase)
        ensures
            r == *self,
    {
        match self {
            PttPhase::Idle => PttPhase::Idle,
            PttPhase::Recording => PttPhase::Recording,
            PttPhase::Transcribing => PttPhase::Transcribing,
            PttPhase::Cleaning => PttPhase::Cleaning,
            PttPhase::Inserting => PttPhase::Inserting,
            PttPhase::Done => PttPhase::Done,
            PttPhase::Error(m) => PttPhase::Error(m.clone()),
            PttPhase::Cancelled => PttPhase::Cancelled,
        }
    }

    /// Whether `self` and `other` are the same phase.
    pub fn same_as(&self, other: &PttPhase) -> (r: bool)
        ensures
            r == same_phase(*self, *other),
    {
        match (self, other) {
            (PttPhase::Idle, PttPhase::Idle) => true,
            (PttPhase::Recording, PttPhase::Recording) => true,
            (PttPhase::Transcribing, PttPhase::Transcribing) => true,
            (PttPhase::Cleaning, PttPhase::Cleaning) => true,
            (PttPhase::Inserting, PttPhase::Inserting) => true,
            (PttPhase::Done, PttPhase::Done) => true,
            (PttPhase::Cancelled, PttPhase::Cancelled) => true,
            (PttPhase::Error(x), PttPhase::Error(y)) => *x == *y,
            _ => false,
        }
    }
}

/// What a press of the push-to-talk toggle does in the current phase.
#[derive(Debug, Clone, Copy, PartialEq, Eq)]
pub enum ToggleAction {
    /// Idle: start recording.
    Start,
    /// Recording: stop and run the pipeline.
    StopAndRun,
    /// The pipeline is busy: the press is ignored.
    Ignore,
}

/// Push-to-talk lifecycle state: the pipeline phase and the cancel request.
pub struct PttState {
    pub phase: PttPhase,
    pub cancel_flag: bool,
}

impl PttState {
    /// Idle, with no cancel requested.
    pub fn new() -> (r: PttState)
        ensures
            r.phase == PttPhase::Idle,
            !r.cancel_flag,
    {
        PttState { phase: PttPhase::Idle, cancel_flag: false }
    }

    /// Whether the current phase is `expected`.
    pub fn is_phase(&self, expected: &PttPhase) -> (r: bool)
        ensures
            r == same_phase(self.phase, *expected),
    {
        self.phase.same_as(expected)
    }

    /// Sets the phase to `next` and returns the previous phase.
    pub fn set_phase(&mut self, next: PttPhase) -> (prev: PttPhase)
        ensures
            prev == old(self).phase,
            final(self).phase == next,
            final(self).cancel_flag == old(self).cancel_flag,
    {
        let prev = self.phase.duplicate();
        self.phase = next;
        prev
    }

    /// Starts push-to-talk only from Idle: moves to Recording and clears any
    /// cancel request; in any other phase nothing changes. Says whether it started.
    pub fn try_start(&mut self) -> (started: bool)
        ensures
            started == (old(self).phase == PttPhase::Idle),
            started ==> final(self).phase == PttPhase::Recording && !final(self).cancel_flag,
            !started ==> final(self).phase == old(self).phase && final(self).cancel_flag == old(self).cancel_flag,
    {
        if self.is_phase(&PttPhase::Idle) {
            self.phase = PttPhase::Recording;
            self.cancel_flag = false;
            true
        } else {
            false
        }
    }

    /// Whether a stop request should run the pipeline: only while recording.
    pub fn should_stop_and_run(&self) -> (r: bool)
        ensures
            r == (self.phase == PttPhase::Recording),
    {
        self.is_phase(&PttPhase::Recording)
    }

    /// The effect of a toggle press: start when Idle, stop and run when
    /// Recording, otherwise ignore the press.
    pub fn toggle_action(&self) -> (a: ToggleAction)
        ensures
            self.phase == PttPhase::Idle ==> a == ToggleAction::Start,
            self.phase == PttPhase::Recording ==> a == ToggleAction::StopAndRun,
            self.phase != PttPhase::Idle && self.phase != PttPhase::Recording ==> a == ToggleAction::Ignore,
    {
        if self.is_phase(&PttPhase::Idle) {
            ToggleAction::Start
        } else if self.is_phase(&PttPhase::Recording) {
            ToggleAction::StopAndRun
        } else {
            ToggleAction::Ignore
        }
    }

    /// Returns to Idle after a failure; the effects report `message` and
    /// bring the main window forward.
    pub fn abort(&mut self, message: String) -> (effects: Vec<PttEffect>)
        ensures
            final(self).phase == PttPhase::Idle,
            final(self).cancel_flag == old(self).cancel_flag,
            abort_effects(effects@, message@),
    {
        self.phase = PttPhase::Idle;
        let mut effects: Vec<PttEffect> = Vec::new();
        effects.push(PttEffect::Emit(PttStatusEvent { phase: str_of("error"), message }));
        effects.push(PttEffect::ShowMainWindow);
        effects
    }

    /// The recording could not start: back to Idle, reporting
    /// `Could not start recording: {e}`.
    pub fn start_failed(&mut self, e: &AppError) -> (effects: Vec<PttEffect>)
        ensures
            final(self).phase == PttPhase::Idle,
            final(self).cancel_flag == old(self).cancel_flag,
            abort_effects(effects@, "Could not start recording: "@ + rendered(*e)),
    {
        let mut m = str_of("Could not start recording: ");
        m.append(e.message().as_str());
        self.abort(m)
    }

    /// The pipeline saw the cancel request: back to Idle; the effects report
    /// the cancellation and hide the overlay.
    fn cancelled(&mut self) -> (effects: Vec<PttEffect>)
        ensures
            final(self).phase == PttPhase::Idle,
            final(self).cancel_flag == old(self).cancel_flag,
            cancelled_effects(effects@),
    {
        self.phase = PttPhase::Idle;
        let mut effects: Vec<PttEffect> = Vec::new();
        effects.push(emit("cancelled", "Cancelled."));
        effects.push(PttEffect::HideOverlay);
        effects
    }

    /// Cancels the pipeline: raises the cancel flag (it stays raised until the
    /// pipeline sees it) and returns to Idle. Says whether audio was being
    /// recorded and must be discarded.
    pub fn cancel(&mut self) -> (was_recording: bool)
        ensures
            was_recording == (old(self).phase == PttPhase::Recording),
            final(self).cancel_flag,
            final(self).phase == PttPhase::Idle,
    {
        self.cancel_flag = true;
        let was_recording = self.is_phase(&PttPhase::Recording);
        self.phase = PttPhase::Idle;
        was_recording
    }
}

/// Whether the trimmed line `t` is a lone bracketed marker such as
/// `[BLANK_AUDIO]`: it opens with `[` and its first `]` is its last character.
pub open spec fn is_bracket_marker(t: Seq<char>) -> bool {
    t.len() > 0 && t[0] == '[' && index_of(t, ']', 0) == t.len() - 1
}

/// What one trimmed output line of whisper.cpp contributes to the transcript.
///
/// A `[start --> end]  text` line contributes its text after the first `]`
/// (trimmed, when non-empty); a lone bracketed marker (`[BLANK_AUDIO]`) is
/// noise; any other non-empty line, `[laughs] Hello` among them, is kept as
/// it is.
pub open spec fn line_fragment(t: Seq<char>) -> Option<Seq<char>> {
    if t.len() > 0 && t[0] == '[' && contains_seq(t, seq!['-', '-', '>']) {
        let e = index_of(t, ']', 0);
        if e < t.len() {
            let rest = trim(t.subrange(e + 1, t.len() as int));
            if rest.len() > 0 {
                Some(rest)
            } else {
                None
            }
        } else {
            None
        }
    } else if is_bracket_marker(t) {
        None
    } else if t.len() > 0 {
        Some(t)
    } else {
        None
    }
}

/// The fragments contributed by the `'\n'`-separated lines of `s`, in order.
pub open spec fn transcript_fragments(s: Seq<char>) -> Seq<Seq<char>>
    decreases s.len(),
{
    let j = index_of(s, '\n', 0);
    let head = line_fragment(trim(s.subrange(0, j)));
    let rest = if 0 <= j < s.len() {
        transcript_fragments(s.subrange(j + 1, s.len() as int))
    } else {
        Seq::empty()
    };
    match head {
        Some(p) => seq![p] + rest,
        None => rest,
    }
}

/// The fragments joined by single spaces.
pub open spec fn join_with_space(parts: Seq<Seq<char>>) -> Seq<char>
    decreases parts.len(),
{
    if parts.len() == 0 {
        Seq::empty()
    } else if parts.len() == 1 {
        parts[0]
    } else {
        join_with_space(parts.drop_last()) + seq![' '] + parts.last()
    }
}

/// The transcript with whisper.cpp timestamp markers removed.
pub open spec fn stripped_transcript(s: Seq<char>) -> Seq<char> {
    join_with_space(transcript_fragments(s))
}

/// The fragment of the trimmed line `v[a..b]`, appended to `out` after a
/// separating space when `out` already holds a fragment.
fn push_line_fragment(out: &mut String, v: &Vec<char>, a: usize, b: usize, first: bool, Ghost(parts): Ghost<Seq<Seq<char>>>) -> (pushed: bool)
    requires
        first == (parts.len() == 0),
        a <= b <= v.len(),
        old(out)@ == join_with_space(parts),
    ensures
        pushed == line_fragment(v@.subrange(a as int, b as int)) is Some,
        final(out)@ == if pushed {
            join_with_space(parts.push(line_fragment(v@.subrange(a as int, b as int))->0))
        } else {
            join_with_space(parts)
        },
{
    let ghost t = v@.subrange(a as int, b as int);
    if b > a && v[a] == '[' && contains3(v, a, b, '-', '-', '>') {
        let e = find_char(v, ']', a, b);
        proof { lemma_index_of_bounds(t, ']', 0); }
        if e < b {
            let (c, d) = trim_bounds(v, e + 1, b);
            assert(v@.subrange(e + 1, b as int) =~= t.subrange(e - a + 1, t.len() as int));
            if d > c {
                append_part(out, v, c, d, first, Ghost(parts));
                return true;
            }
        }
        false
    } else if b > a && v[a] == '[' && find_char(v, ']', a, b) == b - 1 {
        false
    } else if b > a {
        append_part(out, v, a, b, first, Ghost(parts));
        true
    } else {
        false
    }
}

fn append_part(out: &mut String, v: &Vec<char>, c: usize, d: usize, first: bool, Ghost(parts): Ghost<Seq<Seq<char>>>)
    requires
        first == (parts.len() == 0),
        c <= d <= v.len(),
        old(out)@ == join_with_space(parts),
    ensures
        final(out)@ == join_with_space(parts.push(v@.subrange(c as int, d as int))),
{
    let ghost p = v@.subrange(c as int, d as int);
    assert(parts.push(p).drop_last() =~= parts);
    if !first {
        push_char(out, ' ');
    }
    append_chars(out, v, c, d);
    if first {
        assert(old(out)@ =~= Seq::<char>::empty());
        assert(final(out)@ =~= p);
    } else {
        assert(final(out)@ =~= join_with_space(parts) + seq![' '] + p);
    }
}

/// Strip whisper.cpp timestamp markers from raw transcription output.
///
/// Each `[HH:MM:SS.mmm --> HH:MM:SS.mmm]  text` line contributes its text,
/// other bracketed markers such as `[BLANK_AUDIO]` are dropped, plain lines are
/// kept, empty lines are skipped, and the fragments are joined with one space.
/// Text without markers comes back trimmed.
pub fn strip_whisper_timestamps(text: &str) -> (r: String)
    ensures
        r@ == stripped_transcript(text@),
{
    let v = chars_of(text);
    let n = v.len();
    let mut out = String::new();
    let mut i: usize = 0;
    let ghost mut parts: Seq<Seq<char>> = Seq::empty();
    let mut first = true;
    assert(v@.subrange(0, n as int) =~= v@);
    loop
        invariant_except_break
            parts + transcript_fragments(v@.subrange(i as int, n as int)) == transcript_fragments(v@),
        invariant
            i <= n == v.len(),
            v@ == text@,
            out@ == join_with_space(parts),
            first == (parts.len() == 0),
        ensures
            out@ == join_with_space(transcript_fragments(text@)),
        decreases n - i,
    {
        let ghost rest = v@.subrange(i as int, n as int);
        let j = find_char(&v, '\n', i, n);
        proof { lemma_index_of_bounds(rest, '\n', 0); }
        let (a, b) = trim_bounds(&v, i, j);
        assert(v@.subrange(i as int, j as int) =~= rest.subrange(0, j - i));
        let pushed = push_line_fragment(&mut out, &v, a, b, first, Ghost(parts));
        let ghost frag = line_fragment(v@.subrange(a as int, b as int));
        if pushed {
            first = false;
        }
        proof {
            let tail = if j < n { transcript_fragments(rest.subrange(j - i + 1, rest.len() as int)) } else { Seq::empty() };
            assert(transcript_fragments(rest) == match frag {
                Some(p) => seq![p] + tail,
                None => tail,
            });
            match frag {
                Some(p) => {
                    assert(parts.push(p) + tail =~= parts + (seq![p] + tail));
                    parts = parts.push(p);
                }
                None => {}
            }
            if j < n {
                assert(rest.subrange(j - i + 1, rest.len() as int) =~= v@.subrange(j + 1, n as int));
            } else {
                assert(parts + Seq::<Seq<char>>::empty() =~= parts);
            }
        }
        if j == n {
            assert(parts == transcript_fragments(v@));
            break;
        }
        i = j + 1;
    }
    out
}

/// A side effect the pipeline asks the application shell to perform, in order.
pub enum PttEffect {
    /// Send this status to the main window and to the overlay.
    Emit(PttStatusEvent),
    /// Hide the overlay now.
    HideOverlay,
    /// Hide the overlay after this many milliseconds.
    HideOverlayAfter(u64),
    /// Bring the main window forward: unminimize, show and focus it.
    ShowMainWindow,
}

/// `e` sends the status `phase` with `message`.
pub open spec fn emits(e: PttEffect, phase: Seq<char>, message: Seq<char>) -> bool {
    e matches PttEffect::Emit(ev) && ev.phase@ == phase && ev.message@ == message
}

/// Report the cancellation, then hide the overlay.
pub open spec fn cancelled_effects(effs: Seq<PttEffect>) -> bool {
    &&& effs.len() == 2
    &&& emits(effs[0], "cancelled"@, "Cancelled."@)
    &&& effs[1] is HideOverlay
}

/// Report the failure `message`, then bring the main window forward.
pub open spec fn abort_effects(effs: Seq<PttEffect>, message: Seq<char>) -> bool {
    &&& effs.len() == 2
    &&& emits(effs[0], "error"@, message)
    &&& effs[1] is ShowMainWindow
}

/// An error as the status messages render it.
pub open spec fn rendered(e: AppError) -> Seq<char> {
    e.prefix() + e.detail()
}

fn emit(phase: &str, message: &str) -> (e: PttEffect)
    ensures
        emits(e, phase@, message@),
{
    PttEffect::Emit(PttStatusEvent { phase: str_of(phase), message: str_of(message) })
}

/// What the outside work of a pipeline stage reported.
pub enum PipelineEvent {
    /// The recording stopped: the WAV file's path, or why it could not stop.
    Stopped(Result<String, AppError>),
    /// The transcriber ran on the recording: the raw transcript, or why it failed.
    Transcribed(Result<String, AppError>),
    /// The AI clean-up of `stripped` (from transcript `raw`) ran: the cleaned
    /// text, or `None` when it failed.
    Cleaned { raw: String, stripped: String, cleaned: Option<String> },
    /// `text` (from transcript `raw`) went to the insertion: whether it was
    /// pasted, and the history id and timestamp that the insert request drew.
    Inserted { raw: String, text: String, success: bool, id: String, timestamp: String },
}

/// The outside work the pipeline needs next.
pub enum PipelineRequest {
    /// Run the whisper binary on the recording.
    Transcribe { wav_path: String, binary_path: String, model_path: String },
    /// Clean `stripped` up with the provider `provider_id`.
    Cleanup { provider_id: String, raw: String, stripped: String },
    /// Restore the target window's focus and paste `text`; the dictation will
    /// be recorded under the fresh history id `id` at `timestamp`.
    Insert { raw: String, text: String, id: String, timestamp: String },
    /// The pipeline is over.
    Finish,
}

/// One step of the pipeline: the effects to perform now, then the next request.
pub struct PipelineStep {
    pub effects: Vec<PttEffect>,
    pub next: PipelineRequest,
}

/// The configured whisper binary (none without a settings row).
pub open spec fn whisper_binary(db: Database) -> Option<String> {
    match db.settings@ {
        Some(s) => s.whisper_binary_path,
        None => None,
    }
}

/// The configured whisper model (none without a settings row).
pub open spec fn whisper_model(db: Database) -> Option<String> {
    match db.settings@ {
        Some(s) => s.whisper_model_path,
        None => None,
    }
}

/// The push-to-talk output mode (clean-up before insert without a settings row).
pub open spec fn output_mode(db: Database) -> Seq<char> {
    match db.settings@ {
        Some(s) => s.ptt_output_mode@,
        None => "clean_before_insert"@,
    }
}

/// `p` is an enabled clean-up provider whose name comes first.
pub open spec fn first_cleanup(providers: Seq<AiProvider>, p: AiProvider) -> bool {
    let ec = enabled_cleanup(providers);
    &&& ec.contains(p)
    &&& forall|i: int| 0 <= i < ec.len() ==> lex_le(p.name@, #[trigger] ec[i].name@)
}

/// The step hands `text` (from transcript `raw`) to the insertion, with a
/// UUID-shaped history id and a non-empty timestamp for the record to come.
pub open spec fn inserting_step(step: PipelineStep, raw: Seq<char>, text: Seq<char>) -> bool {
    &&& step.effects@.len() == 1
    &&& emits(step.effects@[0], "inserting"@, "Inserting\u{2026}"@)
    &&& step.next matches PipelineRequest::Insert { raw: r, text: t, id, timestamp }
    &&& r@ == raw
    &&& t@ == text
    &&& id@.len() == 36
    &&& timestamp@.len() > 0
}

/// The step the pipeline takes on `event`, with the cancel flag `cancel` and
/// the stored data `db`, leaving the phase at `phase`.
pub open spec fn step_follows(cancel: bool, db: Database, event: PipelineEvent, phase: PttPhase, step: PipelineStep) -> bool {
    match event {
        PipelineEvent::Stopped(Err(e)) => {
            &&& phase == PttPhase::Idle
            &&& abort_effects(step.effects@, "Could not stop recording: "@ + rendered(e))
            &&& step.next is Finish
        },
        PipelineEvent::Stopped(Ok(wav)) => if cancel {
            phase == PttPhase::Idle && cancelled_effects(step.effects@) && step.next is Finish
        } else {
            &&& step.effects@.len() >= 1
            &&& emits(step.effects@[0], "transcribing"@, "Transcribing\u{2026}"@)
            &&& whisper_binary(db) is None ==> phase == PttPhase::Idle && step.next is Finish
                && abort_effects(step.effects@.skip(1),
                    "Transcription error: "@ + "Whisper binary path is not configured. Set it in the Models page."@)
            &&& whisper_binary(db) is Some && whisper_model(db) is None ==> phase == PttPhase::Idle
                && step.next is Finish && abort_effects(step.effects@.skip(1),
                    "Transcription error: "@ + "Whisper model path is not configured. Set it in the Models page."@)
            &&& whisper_binary(db) is Some && whisper_model(db) is Some ==> phase == PttPhase::Transcribing
                && step.effects@.len() == 1
                && (step.next matches PipelineRequest::Transcribe { wav_path, binary_path, model_path }
                    && wav_path == wav && binary_path == whisper_binary(db)->0
                    && model_path == whisper_model(db)->0)
        },
        PipelineEvent::Transcribed(Err(e)) => {
            &&& phase == PttPhase::Idle
            &&& abort_effects(step.effects@, "Transcription failed: "@ + rendered(e))
            &&& step.next is Finish
        },
        PipelineEvent::Transcribed(Ok(raw)) => if cancel {
            phase == PttPhase::Idle && cancelled_effects(step.effects@) && step.next is Finish
        } else if output_mode(db) == "insert_raw"@ || enabled_cleanup(db.providers@).len() == 0 {
            phase == PttPhase::Inserting && inserting_step(step, raw@, stripped_transcript(raw@))
        } else {
            &&& phase == PttPhase::Cleaning
            &&& step.effects@.len() == 1
            &&& emits(step.effects@[0], "cleaning"@, "Cleaning text\u{2026}"@)
            &&& step.next matches PipelineRequest::Cleanup { provider_id, raw: r, stripped }
            &&& r@ == raw@
            &&& stripped@ == stripped_transcript(raw@)
            &&& exists|p: AiProvider| #[trigger] first_cleanup(db.providers@, p) && p.id == provider_id
        },
        PipelineEvent::Cleaned { raw, stripped, cleaned } => if cancel {
            phase == PttPhase::Idle && cancelled_effects(step.effects@) && step.next is Finish
        } else {
            phase == PttPhase::Inserting && inserting_step(step, raw@, match cleaned {
                Some(c) => c@,
                None => stripped@,
            })
        },
        PipelineEvent::Inserted { .. } => {
            &&& phase == PttPhase::Idle
            &&& step.effects@.len() == 2
            &&& emits(step.effects@[0], "done"@, "Done."@)
            &&& step.effects@[1] == PttEffect::HideOverlayAfter(1500)
            &&& step.next is Finish
        },
    }
}

/// `e` is a new history row in `after` that `before` did not have, holding
/// the transcript `raw`, the inserted `text`, the dictation `mode` and
/// whether the paste succeeded; every other row stays as it was.
pub open spec fn records(before: Seq<HistoryEntry>, after: Seq<HistoryEntry>, e: HistoryEntry,
    raw: Seq<char>, text: Seq<char>, mode: Seq<char>, inserted: bool) -> bool {
    &&& !has_key(before, e.id@)
    &&& after.len() == before.len() + 1
    &&& find_key(after, e.id@) == Some(e)
    &&& e.raw_text@ == raw
    &&& e.cleaned_text@ == text
    &&& e.mode_used@ == mode
    &&& e.was_inserted == inserted
    &&& forall|k: Seq<char>| k != e.id@ ==> #[trigger] find_key(after, k) == find_key(before, k)
}

/// The settings row, or the defaults without one.
fn current_settings(db: &Database) -> (s: AppSettings)
    ensures
        db.settings@ matches Some(t) ==> s == t,
        db.settings@ is None ==> is_default_settings(s),
{
    match db.settings.get() {
        Ok(s) => s,
        Err(_) => default_settings(),
    }
}

/// Moves to Inserting and asks for the paste of `text`, drawing now the
/// history id and timestamp under which the dictation will be recorded.
fn go_insert(ptt: &mut PttState, raw: String, text: String) -> (step: PipelineStep)
    ensures
        final(ptt).phase == PttPhase::Inserting,
        final(ptt).cancel_flag == old(ptt).cancel_flag,
        inserting_step(step, raw@, text@),
{
    ptt.phase = PttPhase::Inserting;
    let mut effects: Vec<PttEffect> = Vec::new();
    effects.push(emit("inserting", "Inserting\u{2026}"));
    let id = new_uuid_string();
    let timestamp = now_rfc3339();
    PipelineStep { effects, next: PipelineRequest::Insert { raw, text, id, timestamp } }
}

/// The push-to-talk pipeline: stop recording, transcribe, optionally clean
/// up, insert, record the dictation in the history.
pub struct PttPipelineService;

impl PttPipelineService {
    /// Takes the pipeline one step further on what the last outside work
    /// reported. A failure to stop or to transcribe, and missing whisper
    /// paths, abort the run; a raised cancel flag ends it after the recording,
    /// the transcription and the clean-up. The transcript loses its whisper
    /// timestamps; clean-up is skipped in `insert_raw` mode or without an
    /// enabled clean-up provider, and a failed clean-up inserts the stripped
    /// transcript. After the insertion the dictation goes to the history,
    /// marked inserted when the paste succeeded.
    pub fn advance(&self, ptt: &mut PttState, db: &mut Database, event: PipelineEvent) -> (step: PipelineStep)
        requires
            old(db).wf(),
        ensures
            final(db).wf(),
            final(ptt).cancel_flag == old(ptt).cancel_flag,
            final(db).settings == old(db).settings,
            final(db).modes == old(db).modes,
            final(db).vocabulary == old(db).vocabulary,
            final(db).providers == old(db).providers,
            final(db).schema_version == old(db).schema_version,
            step_follows(old(ptt).cancel_flag, *old(db), event, final(ptt).phase, step),
            !(event is Inserted) ==> final(db).history == old(db).history,
            event matches PipelineEvent::Inserted { raw, text, success, id, timestamp } ==> {
                &&& has_key(old(db).history@, id@) ==> final(db).history@ == old(db).history@
                &&& !has_key(old(db).history@, id@) ==> exists|e: HistoryEntry| #[trigger] records(old(db).history@,
                    final(db).history@, e, raw@, text@, active_mode_id(old(db).settings@), success)
                    && e.id@ == id@ && e.timestamp@ == timestamp@
            },
    {
        match event {
            PipelineEvent::Stopped(Err(e)) => {
                let mut m = str_of("Could not stop recording: ");
                m.append(e.message().as_str());
                PipelineStep { effects: ptt.abort(m), next: PipelineRequest::Finish }
            },
            PipelineEvent::Stopped(Ok(wav)) => {
                if ptt.cancel_flag {
                    return PipelineStep { effects: ptt.cancelled(), next: PipelineRequest::Finish };
                }
                ptt.phase = PttPhase::Transcribing;
                let mut effects: Vec<PttEffect> = Vec::new();
                effects.push(emit("transcribing", "Transcribing\u{2026}"));
                let settings = current_settings(db);
                match (settings.whisper_binary_path, settings.whisper_model_path) {
                    (None, _) => {
                        let e = AppError::TranscriptionError(str_of(
                            "Whisper binary path is not configured. Set it in the Models page."));
                        let mut tail = ptt.abort(e.message());
                        let ghost t = tail@;
                        effects.append(&mut tail);
                        assert(effects@.skip(1) =~= t);
                        PipelineStep { effects, next: PipelineRequest::Finish }
                    },
                    (Some(_), None) => {
                        let e = AppError::TranscriptionError(str_of(
                            "Whisper model path is not configured. Set it in the Models page."));
                        let mut tail = ptt.abort(e.message());
                        let ghost t = tail@;
                        effects.append(&mut tail);
                        assert(effects@.skip(1) =~= t);
                        PipelineStep { effects, next: PipelineRequest::Finish }
                    },
                    (Some(binary_path), Some(model_path)) => {
                        PipelineStep {
                            effects,
                            next: PipelineRequest::Transcribe { wav_path: wav, binary_path, model_path },
                        }
                    },
                }
            },
            PipelineEvent::Transcribed(Err(e)) => {
                let mut m = str_of("Transcription failed: ");
                m.append(e.message().as_str());
                PipelineStep { effects: ptt.abort(m), next: PipelineRequest::Finish }
            },
            PipelineEvent::Transcribed(Ok(raw)) => {
                if ptt.cancel_flag {
                    return PipelineStep { effects: ptt.cancelled(), next: PipelineRequest::Finish };
                }
                let stripped = strip_whisper_timestamps(raw.as_str());
                let settings = current_settings(db);
                proof {
                    reveal_strlit("clean_before_insert");
                    reveal_strlit("insert_raw");
                    assert("clean_before_insert"@.len() != "insert_raw"@.len());
                }
                if eq_lit(&settings.ptt_output_mode, "insert_raw") {
                    return go_insert(ptt, raw, stripped);
                }
                let providers = match db.providers.list_enabled_cleanup() {
                    Ok(v) => v,
                    Err(_) => Vec::new(),
                };
                proof {
                    broadcast use vstd::seq_lib::group_to_multiset_ensures;
                    assert(providers@.to_multiset().len() == providers@.len());
                }
                if providers.len() == 0 {
                    assert(enabled_cleanup(db.providers@).to_multiset().len() == 0);
                    return go_insert(ptt, raw, stripped);
                }
                proof { lemma_first_of_listing(providers@, enabled_cleanup(db.providers@)); }
                let provider_id = providers[0].id.clone();
                assert(first_cleanup(db.providers@, providers@[0]));
                ptt.phase = PttPhase::Cleaning;
                let mut effects: Vec<PttEffect> = Vec::new();
                effects.push(emit("cleaning", "Cleaning text\u{2026}"));
                PipelineStep { effects, next: PipelineRequest::Cleanup { provider_id, raw, stripped } }
            },
            PipelineEvent::Cleaned { raw, stripped, cleaned } => {
                if ptt.cancel_flag {
                    return PipelineStep { effects: ptt.cancelled(), next: PipelineRequest::Finish };
                }
                let text = match cleaned {
                    Some(c) => c,
                    None => stripped,
                };
                go_insert(ptt, raw, text)
            },
            PipelineEvent::Inserted { raw, text, success, id, timestamp } => {
                let ghost raw_v = raw@;
                let ghost text_v = text@;
                let ghost mode_v = active_mode_id(db.settings@);
                let settings = current_settings(db);
                let entry = HistoryEntry {
                    id: String::new(),
                    raw_text: raw,
                    cleaned_text: text,
                    mode_used: settings.active_mode,
                    timestamp: String::new(),
                    was_inserted: false,
                };
                let ghost before = db.history@;
                let history = HistoryService;
                let saved = history.create_history_entry_with(db, entry, id, timestamp);
                if let Ok(e) = saved {
                    proof {
                        lemma_pushed_key_fresh(before, e);
                        law_insert_then_find(before, e);
                    }
                    if success {
                        let _ = history.mark_inserted(db, e.id.clone());
                        let ghost marked = HistoryEntry { was_inserted: true, ..e };
                        assert(records(before, db.history@, marked, raw_v, text_v, mode_v, success));
                    } else {
                        assert(records(before, db.history@, e, raw_v, text_v, mode_v, success));
                    }
                }
                ptt.phase = PttPhase::Idle;
                let mut effects: Vec<PttEffect> = Vec::new();
                effects.push(emit("done", "Done."));
                effects.push(PttEffect::HideOverlayAfter(1500));
                PipelineStep { effects, next: PipelineRequest::Finish }
            },
        }
    }
}

/// Whenever the pipeline stops, whether it finished, failed or was
/// cancelled, it is back in Idle, ready for the next dictation.
pub proof fn law_pipeline_ends_idle(cancel: bool, db: Database, event: PipelineEvent, phase: PttPhase, step: PipelineStep)
    requires
        step_follows(cancel, db, event, phase, step),
        step.next is Finish,
    ensures
        phase == PttPhase::Idle,
{
}

/// While the pipeline waits for outside work, its phase names that work.
pub proof fn law_phase_names_pending_work(cancel: bool, db: Database, event: PipelineEvent, phase: PttPhase, step: PipelineStep)
    requires
        step_follows(cancel, db, event, phase, step),
    ensures
        step.next is Transcribe ==> phase == PttPhase::Transcribing,
        step.next is Cleanup ==> phase == PttPhase::Cleaning,
        step.next is Insert ==> phase == PttPhase::Inserting,
{
}

/// A raised cancel flag ends the run at the next check, after the recording,
/// the transcription or the clean-up, with nothing inserted.
pub proof fn law_cancel_is_honoured(db: Database, event: PipelineEvent, phase: PttPhase, step: PipelineStep)
    requires
        step_follows(true, db, event, phase, step),
        event matches PipelineEvent::Stopped(Ok(_)) || event matches PipelineEvent::Transcribed(Ok(_))
            || event is Cleaned,
    ensures
        step.next is Finish,
        phase == PttPhase::Idle,
        cancelled_effects(step.effects@),
{
}

/// A single line without a timestamp marker comes back trimmed and otherwise
/// unchanged, a leading bracketed tag included, unless the line is nothing but
/// a lone bracketed marker such as `[BLANK_AUDIO]`.
pub proof fn law_plain_line_comes_back_trimmed(s: Seq<char>)
    requires
        forall|i: int| 0 <= i < s.len() ==> s[i] != '\n',
        trim(s).len() > 0,
        !(trim(s)[0] == '[' && contains_seq(trim(s), seq!['-', '-', '>'])),
        !is_bracket_marker(trim(s)),
    ensures
        stripped_transcript(s) == trim(s),
{
    lemma_index_of_bounds(s, '\n', 0);
    assert(index_of(s, '\n', 0) == s.len());
    assert(s.subrange(0, s.len() as int) =~= s);
    assert(transcript_fragments(s) =~= seq![trim(s)]);
}

/// Two effects do the same thing: the same status phase and message, or
/// the same window action.
pub open spec fn same_effect(a: PttEffect, b: PttEffect) -> bool {
    match (a, b) {
        (PttEffect::Emit(x), PttEffect::Emit(y)) => x.phase@ == y.phase@ && x.message@ == y.message@,
        (PttEffect::HideOverlay, PttEffect::HideOverlay) => true,
        (PttEffect::HideOverlayAfter(m), PttEffect::HideOverlayAfter(n)) => m == n,
        (PttEffect::ShowMainWindow, PttEffect::ShowMainWindow) => true,
        _ => false,
    }
}

/// Two effect lists do the same things in the same order.
pub open spec fn same_effects(a: Seq<PttEffect>, b: Seq<PttEffect>) -> bool {
    a.len() == b.len() && forall|i: int| 0 <= i < a.len() ==> #[trigger] same_effect(a[i], b[i])
}

/// Two reports of outside work agree in everything but the text of the
/// transcript, of its stripped form and of the clean-up's answer (whether
/// the clean-up answered at all is part of the agreement).
pub open spec fn differ_in_text_only(a: PipelineEvent, b: PipelineEvent) -> bool {
    match (a, b) {
        (PipelineEvent::Stopped(x), PipelineEvent::Stopped(y)) => x == y,
        (PipelineEvent::Transcribed(Ok(_)), PipelineEvent::Transcribed(Ok(_))) => true,
        (PipelineEvent::Transcribed(Err(x)), PipelineEvent::Transcribed(Err(y))) => x == y,
        (PipelineEvent::Cleaned { cleaned: x, .. }, PipelineEvent::Cleaned { cleaned: y, .. }) => x is Some == y is Some,
        (PipelineEvent::Inserted { success: x, .. }, PipelineEvent::Inserted { success: y, .. }) => x == y,
        _ => false,
    }
}

/// `m` is one of the fixed status messages of a run in progress.
pub open spec fn fixed_status_message(m: Seq<char>) -> bool {
    ||| m == "Transcribing\u{2026}"@
    ||| m == "Cleaning text\u{2026}"@
    ||| m == "Inserting\u{2026}"@
    ||| m == "Done."@
    ||| m == "Cancelled."@
}

/// The status events do not depend on what was said: two runs whose outside
/// work differs only in the transcript and clean-up texts move to the same
/// phase, emit the same statuses and window actions and ask for the same
/// kind of work next; and after a transcript or clean-up result every
/// emitted message is one of the fixed status messages.
pub proof fn law_status_independent_of_transcript(cancel: bool, db: Database,
    e1: PipelineEvent, phase1: PttPhase, step1: PipelineStep,
    e2: PipelineEvent, phase2: PttPhase, step2: PipelineStep)
    requires
        differ_in_text_only(e1, e2),
        step_follows(cancel, db, e1, phase1, step1),
        step_follows(cancel, db, e2, phase2, step2),
    ensures
        phase1 == phase2,
        same_effects(step1.effects@, step2.effects@),
        step1.next is Transcribe <==> step2.next is Transcribe,
        step1.next is Cleanup <==> step2.next is Cleanup,
        step1.next is Insert <==> step2.next is Insert,
        step1.next is Finish <==> step2.next is Finish,
        e1 matches PipelineEvent::Transcribed(Ok(_)) || e1 is Cleaned || e1 is Inserted ==>
            forall|i: int| 0 <= i < step1.effects@.len() ==> (#[trigger] step1.effects@[i] matches PttEffect::Emit(ev)
                ==> fixed_status_message(ev.message@)),
{
    let a = step1.effects@;
    let b = step2.effects@;
    assert forall|i: int| 0 <= i < a.len() implies #[trigger] same_effect(a[i], b[i]) by {
        match e1 {
            PipelineEvent::Stopped(Ok(_)) => {
                if !cancel && i >= 1 {
                    assert(a[i] == a.skip(1)[i - 1]);
                    assert(b[i] == b.skip(1)[i - 1]);
                }
            },
            _ => {},
        }
    }
}

/// After the clean-up, the pipeline pastes the clean-up's answer when it gave
/// one, and the stripped transcript when it failed; the raw whisper output
/// is never pasted in their place.
pub proof fn law_cleanup_answer_or_stripped_is_inserted(db: Database, raw: String, stripped: String,
    cleaned: Option<String>, phase: PttPhase, step: PipelineStep)
    requires
        step_follows(false, db, PipelineEvent::Cleaned { raw, stripped, cleaned }, phase, step),
    ensures
        phase == PttPhase::Inserting,
        step.next matches PipelineRequest::Insert { raw: r, text, .. } && r@ == raw@
            && (cleaned matches Some(c) ==> text@ == c@)
            && (cleaned is None ==> text@ == stripped@),
{
}

/// After a transcript, the clean-up is asked for exactly when the output
/// mode is not `insert_raw` and an enabled clean-up provider exists;
/// otherwise the pipeline goes straight to the insertion.
pub proof fn law_cleanup_runs_only_when_wanted(db: Database, raw: String, phase: PttPhase, step: PipelineStep)
    requires
        step_follows(false, db, PipelineEvent::Transcribed(Ok(raw)), phase, step),
    ensures
        step.next is Cleanup <==> (output_mode(db) != "insert_raw"@ && enabled_cleanup(db.providers@).len() > 0),
        step.next is Insert <==> (output_mode(db) == "insert_raw"@ || enabled_cleanup(db.providers@).len() == 0),
        step.next is Cleanup ==> phase == PttPhase::Cleaning,
        step.next is Insert ==> phase == PttPhase::Inserting,
{
}

} // verus!

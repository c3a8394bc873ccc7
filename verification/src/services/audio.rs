//! Audio recording: the bookkeeping around a capture that the shell runs.
use vstd::prelude::*;
use crate::errors::{AppError, fails_audio};
use crate::models::{MicrophoneInfo, RecordingResult};
use crate::clock::new_uuid_string;
use crate::text::str_of;

verus! {

/// Recording length in milliseconds of `sample_count` mono frames at `sample_rate` Hz,
/// rounded down; zero when the rate is zero.
pub open spec fn spec_duration_ms(sample_count: nat, sample_rate: nat) -> nat {
    if sample_rate == 0 {
        0
    } else {
        (sample_count * 1000) / sample_rate
    }
}

/// Compute recording duration in milliseconds from mono frame count and rate.
pub fn duration_ms(sample_count: usize, sample_rate: u32) -> (ms: u64)
    requires
        sample_count * 1000 <= u64::MAX,
    ensures
        ms == spec_duration_ms(sample_count as nat, sample_rate as nat),
{
    if sample_rate == 0 {
        return 0;
    }
    (sample_count as u64 * 1000) / sample_rate as u64
}

/// The number of mono frames `raw` interleaved samples of `channels` channels
/// make: one per started group of `channels` samples.
pub open spec fn mono_frames(raw: nat, channels: nat) -> nat {
    if channels <= 1 {
        raw
    } else {
        raw / channels + if raw % channels == 0 { 0nat } else { 1nat }
    }
}

/// The name a device is listed under.
pub open spec fn listed_name(name: Option<String>) -> Seq<char> {
    match name {
        Some(n) => n@,
        None => "Unknown Device"@,
    }
}

/// Microphone recording.
pub struct AudioService;

/// How many of `incoming` new samples a capture buffer holding `buffered`
/// samples takes under the limit `max`: as many as there is room for.
pub open spec fn capture_taken(buffered: int, incoming: int, max: int) -> int {
    if buffered >= max {
        0
    } else if incoming <= max - buffered {
        incoming
    } else {
        max - buffered
    }
}

/// The samples a recording holds after the chunks of `chunks` were offered
/// in turn to its buffer, empty at the start, under the limit `max`.
pub open spec fn captured(chunks: Seq<nat>, max: int) -> int
    decreases chunks.len(),
{
    if chunks.len() == 0 {
        0
    } else {
        let held = captured(chunks.drop_last(), max);
        held + capture_taken(held, chunks.last() as int, max)
    }
}

/// The samples offered by the chunks of `chunks` in all.
pub open spec fn offered(chunks: Seq<nat>) -> int
    decreases chunks.len(),
{
    if chunks.len() == 0 {
        0
    } else {
        offered(chunks.drop_last()) + chunks.last()
    }
}

/// Over a whole recording the buffer holds everything offered up to the
/// cap and never more than the cap: the samples kept are the smaller of
/// the samples offered and the cap.
pub proof fn law_capture_is_capped(chunks: Seq<nat>, max: nat)
    ensures
        captured(chunks, max as int) == if offered(chunks) <= max { offered(chunks) } else { max as int },
        0 <= captured(chunks, max as int) <= max,
    decreases chunks.len(),
{
    if chunks.len() > 0 {
        law_capture_is_capped(chunks.drop_last(), max);
    }
}

impl AudioService {
    /// The input devices as listed: each under its name ("Unknown Device"
    /// when it has none), marked default when it bears the default device's name.
    pub fn microphones(names: Vec<Option<String>>, default_name: Option<String>) -> (r: Vec<MicrophoneInfo>)
        ensures
            r@.len() == names@.len(),
            forall|i: int| 0 <= i < r@.len() ==> (#[trigger] r@[i]).name@ == listed_name(names@[i])
                && r@[i].is_default == (default_name matches Some(d) && d@ == listed_name(names@[i])),
    {
        let mut r: Vec<MicrophoneInfo> = Vec::new();
        let mut i: usize = 0;
        while i < names.len()
            invariant
                i <= names.len(),
                r@.len() == i,
                forall|j: int| 0 <= j < i ==> (#[trigger] r@[j]).name@ == listed_name(names@[j])
                    && r@[j].is_default == (default_name matches Some(d) && d@ == listed_name(names@[j])),
            decreases names.len() - i,
        {
            let name = match &names[i] {
                Some(n) => n.clone(),
                None => str_of("Unknown Device"),
            };
            let is_default = match &default_name {
                Some(d) => *d == name,
                None => false,
            };
            r.push(MicrophoneInfo { name, is_default });
            i = i + 1;
        }
        r
    }

    /// A new recording may start only when none is running.
    pub fn check_idle(is_recording: bool) -> (r: Result<(), AppError>)
        ensures
            !is_recording ==> r is Ok,
            is_recording ==> fails_audio(r, "already recording \u{2014} call cancel_recording first"@),
    {
        if is_recording {
            Err(AppError::AudioError(str_of("already recording \u{2014} call cancel_recording first")))
        } else {
            Ok(())
        }
    }

    /// Stopping or cancelling needs a running recording.
    pub fn check_recording(is_recording: bool) -> (r: Result<(), AppError>)
        ensures
            is_recording ==> r is Ok,
            !is_recording ==> fails_audio(r, "not currently recording"@),
    {
        if is_recording {
            Ok(())
        } else {
            Err(AppError::AudioError(str_of("not currently recording")))
        }
    }

    /// A stopped recording must have captured something.
    pub fn check_captured(raw_sample_count: usize) -> (r: Result<(), AppError>)
        ensures
            raw_sample_count > 0 ==> r is Ok,
            raw_sample_count == 0 ==> fails_audio(r, "no audio was captured \u{2014} check microphone permissions"@),
    {
        if raw_sample_count == 0 {
            Err(AppError::AudioError(str_of("no audio was captured \u{2014} check microphone permissions")))
        } else {
            Ok(())
        }
    }

    /// The capture limit: five minutes of interleaved samples at
    /// `sample_rate` with `channels` channels.
    pub fn max_capture_samples(sample_rate: u32, channels: u16) -> (r: u64)
        ensures
            r == 5 * 60 * sample_rate * channels,
    {
        assert(300 * (sample_rate as int) * (channels as int) <= 300 * 0xffff_ffff * 0xffff) by (nonlinear_arith)
            requires
                sample_rate <= 0xffff_ffff,
                channels <= 0xffff,
        ;
        assert(300 * (sample_rate as int) * (channels as int) == 300 * ((sample_rate as u64) * (channels as u64))) by (nonlinear_arith);
        300 * ((sample_rate as u64) * (channels as u64))
    }

    /// How many of `incoming` new samples fit in a capture buffer that holds
    /// `buffered` samples under the limit `max`: as many as there is room for.
    pub fn capture_take(buffered: usize, incoming: usize, max: u64) -> (n: usize)
        ensures
            n == capture_taken(buffered as int, incoming as int, max as int),
    {
        if (buffered as u64) >= max {
            0
        } else {
            let room = max - buffered as u64;
            if (incoming as u64) <= room {
                incoming
            } else {
                room as usize
            }
        }
    }

    /// How many mono frames the mix-down of `raw_sample_count` samples of
    /// `channels` channels yields.
    pub fn mono_frame_count(raw_sample_count: usize, channels: u16) -> (n: usize)
        ensures
            n == mono_frames(raw_sample_count as nat, channels as nat),
    {
        if channels <= 1 {
            raw_sample_count
        } else {
            let ch = channels as usize;
            let q = raw_sample_count / ch;
            assert(q <= raw_sample_count / 2) by (nonlinear_arith)
                requires
                    ch >= 2,
                    q == raw_sample_count / ch,
            ;
            q + if raw_sample_count % ch == 0 { 0 } else { 1 }
        }
    }

    /// The device a recording names: the requested one, or "default".
    pub fn selected_microphone(device_name: Option<String>) -> (r: String)
        ensures
            r@ == match device_name {
                Some(n) => n@,
                None => "default"@,
            },
    {
        match device_name {
            Some(n) => n,
            None => str_of("default"),
        }
    }

    /// The recording file name for the identifier `uuid`: `uuid` followed by `.wav`.
    pub fn wav_file_name_for(uuid: &str) -> (r: String)
        ensures
            r@ == uuid@ + ".wav"@,
    {
        let mut name = str_of(uuid);
        name.append(".wav");
        name
    }

    /// A fresh file name for a recording: a newly drawn random UUID followed
    /// by `.wav`, forty characters in all.
    pub fn wav_file_name() -> (r: String)
        ensures
            r@.len() == 40,
            r@.subrange(36, 40) == ".wav"@,
    {
        let uuid = new_uuid_string();
        let name = Self::wav_file_name_for(uuid.as_str());
        proof { reveal_strlit(".wav"); }
        assert(name@.subrange(36, 40) =~= ".wav"@);
        name
    }

    /// The result of a recording written to `file_path` as mono WAV:
    /// `mono_frame_count` frames at `sample_rate` Hz.
    pub fn recording_result(file_path: String, mono_frame_count: usize, sample_rate: u32) -> (r: RecordingResult)
        requires
            mono_frame_count * 1000 <= u64::MAX,
        ensures
            r.file_path == file_path,
            r.duration_ms == spec_duration_ms(mono_frame_count as nat, sample_rate as nat),
            r.sample_rate == sample_rate,
            r.channels == 1,
    {
        RecordingResult {
            file_path,
            duration_ms: duration_ms(mono_frame_count, sample_rate),
            sample_rate,
            channels: 1,
        }
    }
}

/// A recording's duration is its length in whole milliseconds, rounded
/// down: `ms` milliseconds hold at most the recorded frames, `ms + 1` more
/// than them.
pub proof fn law_duration_rounds_down(count: nat, rate: nat)
    ensures
        rate == 0 ==> spec_duration_ms(count, rate) == 0,
        rate > 0 ==> spec_duration_ms(count, rate) * rate <= count * 1000
            < (spec_duration_ms(count, rate) + 1) * rate,
{
    if rate > 0 {
        let q = (count * 1000) / rate;
        assert(q * rate <= count * 1000 < (q + 1) * rate) by (nonlinear_arith)
            requires
                rate > 0,
                q == (count * 1000) / rate,
        ;
    }
}

/// The mix-down yields one frame per started group of `channels` samples:
/// the frames cover every sample, and one frame fewer would not.
pub proof fn law_mono_frames_cover_the_samples(raw: nat, channels: nat)
    ensures
        channels <= 1 ==> mono_frames(raw, channels) == raw,
        channels >= 2 ==> raw <= mono_frames(raw, channels) * channels,
        channels >= 2 && raw > 0 ==> (mono_frames(raw, channels) - 1) * channels < raw,
        raw == 0 ==> mono_frames(raw, channels) == 0,
{
    if channels >= 2 {
        let q = raw / channels;
        let m = raw % channels;
        assert(raw == q * channels + m && 0 <= m < channels) by (nonlinear_arith)
            requires
                channels >= 2,
                q == raw / channels,
                m == raw % channels,
        ;
        if m == 0 {
            assert(raw <= q * channels);
            if raw > 0 {
                assert((q - 1) * channels < raw) by (nonlinear_arith)
                    requires
                        raw == q * channels,
                        channels >= 2,
                        raw > 0,
                ;
            }
        } else {
            assert(raw <= (q + 1) * channels) by (nonlinear_arith)
                requires
                    raw == q * channels + m,
                    m < channels,
            ;
            assert(q * channels < raw) by (nonlinear_arith)
                requires
                    raw == q * channels + m,
                    m > 0,
            ;
        }
    }
}

} // verus!

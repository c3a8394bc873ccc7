//! Laws of the whisper.cpp transcript clean-up (`strip_whisper_timestamps`):
//! what its result looks like, how lines combine, and what timestamped
//! output gives back.
use vstd::prelude::*;
use crate::db::database::Database;
use crate::services::ptt::{join_with_space, line_fragment, step_follows, stripped_transcript, transcript_fragments,
    PipelineEvent, PipelineRequest, PipelineStep, PttPhase};
use crate::text::{contains_seq, index_of, is_ws, lemma_first_non_ws_at, lemma_index_of_at,
    lemma_index_of_bounds, lemma_last_non_ws_end_at, lemma_trim_of_trimmed, lemma_trim_shape, trim};

verus! {

/// No character of `s` is a line break.
pub open spec fn single_line(s: Seq<char>) -> bool {
    forall|i: int| 0 <= i < s.len() ==> s[i] != '\n'
}

/// Neither end of `s` is whitespace.
pub open spec fn has_trimmed_ends(s: Seq<char>) -> bool {
    s.len() > 0 ==> !is_ws(s[0]) && !is_ws(s[s.len() - 1])
}

/// A fragment as the clean-up keeps it: one non-empty, trimmed line.
pub open spec fn good_fragment(p: Seq<char>) -> bool {
    p.len() > 0 && has_trimmed_ends(p) && single_line(p)
}

/// A whisper.cpp output line: the timestamp `stamp` in brackets, then `body`.
pub open spec fn timestamped_line(stamp: Seq<char>, body: Seq<char>) -> Seq<char> {
    seq!['['] + stamp + seq![']'] + body
}

/// `stamp` reads `start --> end` without brackets or line breaks, and `body`
/// is one line holding some text.
pub open spec fn well_stamped(stamp: Seq<char>, body: Seq<char>) -> bool {
    &&& contains_seq(stamp, seq!['-', '-', '>'])
    &&& forall|i: int| 0 <= i < stamp.len() ==> stamp[i] != ']' && stamp[i] != '\n'
    &&& single_line(body)
    &&& trim(body).len() > 0
}

/// The timestamped lines `(stamp, body)` of `lines`, separated by line breaks.
pub open spec fn whisper_output(lines: Seq<(Seq<char>, Seq<char>)>) -> Seq<char>
    decreases lines.len(),
{
    if lines.len() == 0 {
        Seq::empty()
    } else if lines.len() == 1 {
        timestamped_line(lines[0].0, lines[0].1)
    } else {
        timestamped_line(lines[0].0, lines[0].1) + seq!['\n'] + whisper_output(lines.drop_first())
    }
}

/// Joining `p` in front of `rest` puts one space between them.
pub proof fn lemma_join_prepend(p: Seq<char>, rest: Seq<Seq<char>>)
    ensures
        join_with_space(seq![p] + rest) == if rest.len() == 0 {
            p
        } else {
            p + seq![' '] + join_with_space(rest)
        },
    decreases rest.len(),
{
    let all = seq![p] + rest;
    if rest.len() == 0 {
        assert(all =~= seq![p]);
    } else if rest.len() == 1 {
        assert(all.drop_last() =~= seq![p]);
        assert(join_with_space(seq![p]) == p);
        assert(join_with_space(all.drop_last()) == p);
        assert(all.last() == rest[0]);
        assert(join_with_space(all) == p + seq![' '] + rest[0]);
    } else {
        assert(all.drop_last() =~= seq![p] + rest.drop_last());
        lemma_join_prepend(p, rest.drop_last());
        assert(all.last() == rest.last());
        assert(join_with_space(all) =~= p + seq![' '] + join_with_space(rest));
    }
}

/// Joined good fragments form one trimmed line, starting with the first
/// fragment's first character.
proof fn lemma_join_of_good(parts: Seq<Seq<char>>)
    requires
        forall|i: int| 0 <= i < parts.len() ==> good_fragment(#[trigger] parts[i]),
    ensures
        single_line(join_with_space(parts)),
        has_trimmed_ends(join_with_space(parts)),
        parts.len() > 0 ==> join_with_space(parts).len() > 0 && join_with_space(parts)[0] == parts[0][0],
    decreases parts.len(),
{
    if parts.len() >= 2 {
        let init = parts.drop_last();
        assert forall|i: int| 0 <= i < init.len() implies good_fragment(#[trigger] init[i]) by {
            assert(init[i] == parts[i]);
        }
        lemma_join_of_good(init);
        let last = parts.last();
        assert(good_fragment(parts[parts.len() - 1]));
        let j = join_with_space(parts);
        assert(j =~= join_with_space(init) + seq![' '] + last);
        assert(j[j.len() - 1] == last[last.len() - 1]);
        assert(j[0] == join_with_space(init)[0]);
    } else if parts.len() == 1 {
        assert(good_fragment(parts[0]));
    }
}

/// What one line contributes is a good fragment no longer than the line.
proof fn lemma_fragment_of_line(line: Seq<char>)
    requires
        single_line(line),
    ensures
        line_fragment(trim(line)) matches Some(p) ==> good_fragment(p) && p.len() <= line.len(),
{
    lemma_trim_shape(line);
    let t = trim(line);
    let a = crate::text::first_non_ws(line, 0);
    assert(single_line(t)) by {
        assert forall|i: int| 0 <= i < t.len() implies t[i] != '\n' by {
            assert(t[i] == line[a + i]);
        }
    }
    if t.len() > 0 && t[0] == '[' && contains_seq(t, seq!['-', '-', '>']) {
        let e = index_of(t, ']', 0);
        lemma_index_of_bounds(t, ']', 0);
        if e < t.len() {
            let x = t.subrange(e + 1, t.len() as int);
            lemma_trim_shape(x);
            let r = trim(x);
            let b = crate::text::first_non_ws(x, 0);
            assert forall|i: int| 0 <= i < r.len() implies r[i] != '\n' by {
                assert(r[i] == x[b + i]);
                assert(x[b + i] == t[e + 1 + b + i]);
            }
        }
    }
}

/// Every fragment of a transcript is good, and the joined fragments are no
/// longer than the transcript.
proof fn lemma_fragments(s: Seq<char>)
    ensures
        forall|i: int| 0 <= i < transcript_fragments(s).len() ==> good_fragment(#[trigger] transcript_fragments(s)[i]),
        join_with_space(transcript_fragments(s)).len() <= s.len(),
    decreases s.len(),
{
    let j = index_of(s, '\n', 0);
    lemma_index_of_bounds(s, '\n', 0);
    let line = s.subrange(0, j);
    lemma_fragment_of_line(line);
    let rest = if 0 <= j < s.len() {
        transcript_fragments(s.subrange(j + 1, s.len() as int))
    } else {
        Seq::empty()
    };
    if j < s.len() {
        lemma_fragments(s.subrange(j + 1, s.len() as int));
    }
    assert(join_with_space(rest).len() + j + 1 <= s.len() || rest.len() == 0);
    match line_fragment(trim(line)) {
        Some(p) => {
            lemma_join_prepend(p, rest);
            let all = transcript_fragments(s);
            assert(all == seq![p] + rest);
            assert forall|i: int| 0 <= i < all.len() implies good_fragment(#[trigger] all[i]) by {
                if i > 0 {
                    assert(all[i] == rest[i - 1]);
                }
            }
        },
        None => {},
    }
}

/// The cleaned transcript is a single line without surrounding whitespace,
/// never longer than the raw output.
pub proof fn law_stripped_is_one_trimmed_line(s: Seq<char>)
    ensures
        single_line(stripped_transcript(s)),
        trim(stripped_transcript(s)) == stripped_transcript(s),
        stripped_transcript(s).len() <= s.len(),
{
    lemma_fragments(s);
    lemma_join_of_good(transcript_fragments(s));
    lemma_trim_of_trimmed(stripped_transcript(s));
}

/// The fragments of a single line followed by more text are the line's
/// fragments followed by those of the rest: lines are cleaned one by one.
pub proof fn law_lines_split(a: Seq<char>, b: Seq<char>)
    requires
        single_line(a),
    ensures
        transcript_fragments(a + seq!['\n'] + b) == transcript_fragments(a) + transcript_fragments(b),
{
    let s = a + seq!['\n'] + b;
    lemma_index_of_at(s, '\n', 0, a.len() as int);
    assert(s.subrange(0, a.len() as int) =~= a);
    assert(s.subrange(a.len() + 1 as int, s.len() as int) =~= b);
    lemma_index_of_bounds(a, '\n', 0);
    assert(a.subrange(0, a.len() as int) =~= a);
    match line_fragment(trim(a)) {
        Some(p) => {
            assert(transcript_fragments(a) =~= seq![p]);
        },
        None => {
            assert(transcript_fragments(a) =~= Seq::<Seq<char>>::empty());
        },
    }
    assert(transcript_fragments(s) =~= transcript_fragments(a) + transcript_fragments(b));
}

/// A single timestamped line contributes exactly its trimmed text.
pub proof fn law_timestamped_line(stamp: Seq<char>, body: Seq<char>)
    requires
        well_stamped(stamp, body),
    ensures
        single_line(timestamped_line(stamp, body)),
        transcript_fragments(timestamped_line(stamp, body)) == seq![trim(body)],
{
    let t = timestamped_line(stamp, body);
    let q: int = stamp.len() as int + 2;
    assert(t.len() == q + body.len());
    assert forall|i: int| 0 <= i < t.len() implies t[i] != '\n' by {
        if q <= i {
            assert(t[i] == body[i - q]);
        } else if 1 <= i < q - 1 {
            assert(t[i] == stamp[i - 1]);
        }
    }
    // The body's text sits at `ab..bb`, with only whitespace after it.
    lemma_trim_shape(body);
    let ab = crate::text::first_non_ws(body, 0);
    let bb = crate::text::last_non_ws_end(body, ab, body.len() as int);
    assert(!is_ws(t[0]));
    assert(t[q + bb - 1] == body[bb - 1]);
    assert forall|k: int| q + bb <= k < t.len() implies is_ws(#[trigger] t[k]) by {
        assert(t[k] == body[k - q]);
    }
    lemma_first_non_ws_at(t, 0, 0);
    lemma_last_non_ws_end_at(t, 0, q + bb, t.len() as int);
    let tt = trim(t);
    assert(tt == t.subrange(0, q + bb));
    // The first `]` closes the timestamp.
    assert forall|m: int| 0 <= m < q - 1 implies tt[m] != ']' by {
        if m >= 1 {
            assert(tt[m] == stamp[m - 1]);
        }
    }
    lemma_index_of_at(tt, ']', 0, q - 1);
    // The timestamp's arrow survives in the trimmed line.
    let k = choose|k: int| 0 <= k && k + 3 <= stamp.len() && #[trigger] stamp.subrange(k, k + 3) == seq!['-', '-', '>'];
    assert(stamp.subrange(k, k + 3) == seq!['-', '-', '>']);
    assert(tt.subrange(k + 1, k + 1 + 3) =~= stamp.subrange(k, k + 3));
    assert(contains_seq(tt, seq!['-', '-', '>']));
    // What follows the `]` trims to the body's text.
    let x = tt.subrange(q, tt.len() as int);
    assert(x =~= body.subrange(0, bb));
    assert forall|m: int| 0 <= m < ab implies is_ws(#[trigger] x[m]) by {
        assert(x[m] == body[m]);
    }
    lemma_first_non_ws_at(x, 0, ab);
    lemma_last_non_ws_end_at(x, ab, bb, bb);
    assert(trim(x) =~= trim(body));
    assert(line_fragment(tt) == Some(trim(body)));
    lemma_index_of_bounds(t, '\n', 0);
    assert(index_of(t, '\n', 0) == t.len());
    assert(t.subrange(0, t.len() as int) =~= t);
    assert(transcript_fragments(t) =~= seq![trim(body)]);
}

/// Output made of timestamped lines cleans up to the lines' trimmed texts,
/// in order, joined by single spaces.
pub proof fn law_timestamped_lines(lines: Seq<(Seq<char>, Seq<char>)>)
    requires
        forall|i: int| 0 <= i < lines.len() ==> well_stamped(#[trigger] lines[i].0, lines[i].1),
    ensures
        transcript_fragments(whisper_output(lines)) == lines.map_values(|l: (Seq<char>, Seq<char>)| trim(l.1)),
        stripped_transcript(whisper_output(lines)) == join_with_space(
            lines.map_values(|l: (Seq<char>, Seq<char>)| trim(l.1))),
    decreases lines.len(),
{
    let f = |l: (Seq<char>, Seq<char>)| trim(l.1);
    if lines.len() == 0 {
        let e = Seq::<char>::empty();
        lemma_trim_shape(e);
        assert(transcript_fragments(e) =~= Seq::<Seq<char>>::empty());
        assert(lines.map_values(f) =~= Seq::<Seq<char>>::empty());
    } else {
        assert(well_stamped(lines[0].0, lines[0].1));
        law_timestamped_line(lines[0].0, lines[0].1);
        if lines.len() == 1 {
            assert(lines.map_values(f) =~= seq![trim(lines[0].1)]);
        } else {
            let tail = lines.drop_first();
            assert forall|i: int| 0 <= i < tail.len() implies well_stamped(#[trigger] tail[i].0, tail[i].1) by {
                assert(tail[i] == lines[i + 1]);
            }
            law_timestamped_lines(tail);
            law_lines_split(timestamped_line(lines[0].0, lines[0].1), whisper_output(tail));
            assert(lines.map_values(f) =~= seq![trim(lines[0].1)] + tail.map_values(f));
        }
    }
}

/// Whenever the pipeline goes straight from a transcript to the insertion
/// (output mode `insert_raw`, or no clean-up provider), what it pastes is
/// the cleaned transcript: one line, trimmed, no longer than the raw output,
/// whatever the output mode.
pub proof fn law_inserted_transcript_is_one_clean_line(db: Database, raw: String, phase: PttPhase, step: PipelineStep)
    requires
        step_follows(false, db, PipelineEvent::Transcribed(Ok(raw)), phase, step),
        step.next is Insert,
    ensures
        step.next matches PipelineRequest::Insert { text, .. } && single_line(text@) && trim(text@) == text@
            && text@.len() <= raw@.len(),
{
    law_stripped_is_one_trimmed_line(raw@);
}

/// When the raw output is made of timestamped lines and the pipeline goes
/// straight to the insertion, it pastes the lines' trimmed texts, in order,
/// joined by single spaces: no timestamp reaches the target application.
pub proof fn law_inserted_timestamped_lines(db: Database, lines: Seq<(Seq<char>, Seq<char>)>, raw: String,
    phase: PttPhase, step: PipelineStep)
    requires
        raw@ == whisper_output(lines),
        forall|i: int| 0 <= i < lines.len() ==> well_stamped(#[trigger] lines[i].0, lines[i].1),
        step_follows(false, db, PipelineEvent::Transcribed(Ok(raw)), phase, step),
        step.next is Insert,
    ensures
        step.next matches PipelineRequest::Insert { text, .. }
            && text@ == join_with_space(lines.map_values(|l: (Seq<char>, Seq<char>)| trim(l.1))),
{
    law_timestamped_lines(lines);
}

} // verus!

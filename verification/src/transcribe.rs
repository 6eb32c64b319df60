//! Turning a transcription request into text: the noise filter's verdict, the choice
//! of recogniser, its settings, and the cleaning of what it returns.
//!
//! The recognisers themselves (Whisper, and SenseVoice / Paraformer through ONNX)
//! run in the application's transcription worker; it asks these functions what to
//! run with which settings, and hands back the raw output to be cleaned.

use crate::sensevoice::OnnxOptions;
use crate::speech_quality::{finalize_transcript, finalized, is_silence_marker, silence_marker};
use crate::text::{chars_of, concat, starts_with, starts_with_chars, str_eq, string_of, trim, trim_str};
use vstd::prelude::*;

verus! {

/// A transcript sent back to the coordinator (empty when nothing was recognised).
#[derive(Clone, Debug)]
pub struct TranscriptSeg {
    pub text: String,
}

/// Whether `backend` runs on the ONNX runtime (SenseVoice variants, Paraformer)
/// rather than Whisper.
pub open spec fn onnx_backend(backend: Seq<char>) -> bool {
    starts_with(backend, "sensevoice"@) || backend == "paraformer"@
}

/// Whether `backend` is one of the ONNX recognisers.
pub fn is_onnx_backend(backend: &str) -> (r: bool)
    ensures
        r == onnx_backend(backend@),
{
    starts_with_chars(&chars_of(backend), &chars_of("sensevoice")) || str_eq(backend, "paraformer")
}

/// What the noise filter decides for a request.
#[derive(Clone, Copy, Debug, PartialEq, Eq, Structural)]
pub enum FilterDecision {
    /// No audio: nothing is sent back.
    Nothing,
    /// Noise, silence, or too little speech: an empty transcript is sent back.
    EmptyTranscript,
    /// Run the recogniser on the denoised audio.
    Transcribe,
}

/// What the noise filter decides for `n_samples` samples; `speech_len` is how long
/// the cleaned audio is when the samples look like speech, `None` otherwise.
pub open spec fn filter_spec(n_samples: nat, speech_len: Option<nat>) -> FilterDecision {
    if n_samples == 0 {
        FilterDecision::Nothing
    } else {
        match speech_len {
            None => FilterDecision::EmptyTranscript,
            Some(n) => if n < crate::state::MIN_TRANSCRIBE_SAMPLES {
                FilterDecision::EmptyTranscript
            } else {
                FilterDecision::Transcribe
            },
        }
    }
}

/// The noise filter, run before any recogniser: every model hallucinates on
/// near-silence, so such audio yields an empty transcript.
pub fn noise_filter(n_samples: usize, speech_len: Option<usize>) -> (r: FilterDecision)
    ensures
        r == filter_spec(n_samples as nat, match speech_len { Some(n) => Some(n as nat), None => None }),
{
    if n_samples == 0 {
        return FilterDecision::Nothing;
    }
    match speech_len {
        None => FilterDecision::EmptyTranscript,
        Some(n) => if n < crate::state::MIN_TRANSCRIBE_SAMPLES {
            FilterDecision::EmptyTranscript
        } else {
            FilterDecision::Transcribe
        },
    }
}

/// The language Whisper is told: none (detect) for `auto` or an empty setting.
pub fn whisper_language(language: &str) -> (r: Option<String>)
    ensures
        (language@ == "auto"@ || language@.len() == 0) ==> r is None,
        !(language@ == "auto"@ || language@.len() == 0) ==> (r matches Some(l) && l@ == language@),
{
    if str_eq(language, "auto") || chars_of(language).len() == 0 {
        None
    } else {
        Some(string_of(&chars_of(language)))
    }
}

/// The priming prompt that steers Whisper toward Simplified Chinese, for `zh` only.
pub fn whisper_initial_prompt(language: &str) -> (r: Option<&'static str>)
    ensures
        language@ == "zh"@ ==> (r matches Some(p) && p@ == "以下是普通话的简体中文内容。"@),
        language@ != "zh"@ ==> r is None,
{
    if str_eq(language, "zh") {
        Some("以下是普通话的简体中文内容。")
    } else {
        None
    }
}

/// The thread count handed to a recogniser: at least one.
pub fn recogniser_threads(n_threads: i32) -> (r: i32)
    ensures
        r == (if n_threads < 1 { 1 } else { n_threads }),
{
    if n_threads < 1 { 1 } else { n_threads }
}

/// The ONNX options for a request: its language and thread count (at least one),
/// inverse text normalisation on, on the GPU when built for CUDA.
pub fn onnx_options(language: &str, n_threads: i32, cuda: bool) -> (r: OnnxOptions)
    ensures
        r.language@ == language@,
        r.use_itn,
        r.provider@ == (if cuda { "cuda"@ } else { "cpu"@ }),
        r.num_threads == (if n_threads < 1 { 1 } else { n_threads }),
{
    OnnxOptions {
        language: string_of(&chars_of(language)),
        use_itn: true,
        provider: if cuda { String::from_str("cuda") } else { String::from_str("cpu") },
        num_threads: recogniser_threads(n_threads),
    }
}

/// The options used to warm an ONNX recogniser up at start: language detection,
/// four threads.
pub fn warmup_options(cuda: bool) -> (r: OnnxOptions)
    ensures
        r.language@ == "auto"@,
        r.use_itn,
        r.provider@ == (if cuda { "cuda"@ } else { "cpu"@ }),
        r.num_threads == 4,
{
    onnx_options("auto", 4, cuda)
}

/// `s` without SenseVoice's `<|...|>` markers, read left to right: what is kept so
/// far, and whether the scan is inside a marker.
pub open spec fn strip_scan(s: Seq<char>) -> (Seq<char>, bool)
    decreases s.len(),
{
    if s.len() == 0 {
        (Seq::empty(), false)
    } else {
        let (out, in_tag) = strip_scan(s.drop_last());
        let c = s.last();
        if c == '<' {
            (out, true)
        } else if c == '>' {
            (out, false)
        } else if !in_tag {
            (out.push(c), in_tag)
        } else {
            (out, in_tag)
        }
    }
}

/// Drops everything from each `<` to the next `>` (both included).
pub fn strip_markers(s: &str) -> (r: String)
    ensures
        r@ == strip_scan(s@).0,
{
    let v = chars_of(s);
    let mut out: Vec<char> = Vec::new();
    let mut in_tag = false;
    let mut i: usize = 0;
    while i < v.len()
        invariant
            i <= v.len(),
            v@ == s@,
            (out@, in_tag) == strip_scan(v@.take(i as int)),
        decreases v.len() - i,
    {
        let c = v[i];
        assert(v@.take(i + 1).drop_last() =~= v@.take(i as int));
        if c == '<' {
            in_tag = true;
        } else if c == '>' {
            in_tag = false;
        } else if !in_tag {
            out.push(c);
        }
        i = i + 1;
    }
    assert(v@.take(v.len() as int) =~= v@);
    string_of(&out)
}

/// Whisper's segments joined: each trimmed segment that is neither empty nor a
/// silence marker, followed by a space.
pub open spec fn joined_segments(segs: Seq<Seq<char>>, language: Seq<char>) -> Seq<char>
    decreases segs.len(),
{
    if segs.len() == 0 {
        Seq::empty()
    } else {
        let t = trim(segs.last());
        joined_segments(segs.drop_last(), language) + if t.len() > 0 && !silence_marker(t, language) {
            t.push(' ')
        } else {
            Seq::empty()
        }
    }
}

/// Joins Whisper's segments, dropping empty ones and silence markers.
pub fn join_segments(segs: &Vec<String>, language: &str) -> (r: String)
    ensures
        r@ == joined_segments(segs@.map_values(|s: String| s@), language@),
{
    let ghost all = segs@.map_values(|s: String| s@);
    let mut text = String::new();
    let mut i: usize = 0;
    while i < segs.len()
        invariant
            i <= segs.len(),
            all == segs@.map_values(|s: String| s@),
            text@ == joined_segments(all.take(i as int), language@),
        decreases segs.len() - i,
    {
        let trimmed = string_of(&trim_str(segs[i].as_str()));
        proof {
            assert(all.take(i + 1).drop_last() =~= all.take(i as int));
            assert(all.take(i + 1).last() == segs@[i as int]@);
        }
        if chars_of(trimmed.as_str()).len() > 0 && !is_silence_marker(trimmed.as_str(), language) {
            let with_space = concat(trimmed.as_str(), " ");
            text = concat(text.as_str(), with_space.as_str());
            assert(" "@ == seq![' ']) by { reveal_strlit(" "); }
            assert(trimmed@ + " "@ =~= trimmed@.push(' '));
        } else {
            assert(text@ + Seq::<char>::empty() =~= text@);
        }
        i = i + 1;
    }
    assert(all.take(segs.len() as int) =~= all);
    text
}

/// The transcript of a Whisper run: the joined segments, filtered, or empty.
pub fn whisper_transcript(segs: &Vec<String>, language: &str) -> (r: String)
    ensures
        ({
            let j = joined_segments(segs@.map_values(|s: String| s@), language@);
            r@ == match finalized(j, language@) {
                Some(t) => t,
                None => Seq::empty(),
            }
        }),
{
    let joined = join_segments(segs, language);
    match finalize_transcript(joined.as_str(), language) {
        Some(t) => t,
        None => String::new(),
    }
}

/// The transcript of an ONNX run: the raw text without markers, filtered, or empty.
pub fn onnx_transcript(raw: &str, language: &str) -> (r: String)
    ensures
        r@ == match finalized(strip_scan(raw@).0, language@) {
            Some(t) => t,
            None => Seq::empty(),
        },
{
    let cleaned = strip_markers(raw);
    match finalize_transcript(cleaned.as_str(), language) {
        Some(t) => t,
        None => String::new(),
    }
}

// ---------------------------------------------------------------- laws

/// Stripping markers never adds a character: the result is no longer than the
/// input, and text without `<` or `>` comes out unchanged.
pub proof fn law_strip_markers_shrinks(s: Seq<char>)
    ensures
        strip_scan(s).0.len() <= s.len(),
        (forall|i: int| 0 <= i < s.len() ==> s[i] != '<' && s[i] != '>') ==> strip_scan(s) == (s, false),
    decreases s.len(),
{
    if s.len() > 0 {
        law_strip_markers_shrinks(s.drop_last());
        if forall|i: int| 0 <= i < s.len() ==> s[i] != '<' && s[i] != '>' {
            assert(forall|i: int| 0 <= i < s.drop_last().len() ==> s.drop_last()[i] != '<' && s.drop_last()[i] != '>');
            assert(s.drop_last().push(s.last()) =~= s);
        }
    }
}

/// Audio that does not look like speech never reaches a recogniser: it always
/// yields an empty transcript.
pub proof fn law_noise_never_transcribed(n_samples: nat)
    requires
        n_samples > 0,
    ensures
        filter_spec(n_samples, None) == FilterDecision::EmptyTranscript,
{
}

} // verus!

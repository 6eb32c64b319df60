//! The session state machine and the coordinator's decisions.
//!
//! One dictation session goes Idle → Recording → Transcribing → Injecting → Idle;
//! Escape returns to Idle from anywhere. The coordinator thread (in the
//! application) receives hotkey events, audio chunks, transcripts and
//! "injection done" signals, asks the functions here what to do, and performs the
//! answer (sending commands to the audio, transcription and injection workers).

use crate::audio::AudioCmd;
use crate::hotkey::AppEvent;
use crate::text::{string_of, trim, trim_str};
use std::time::Instant;
use vstd::prelude::*;

verus! {

/// `std::time::Instant`, a moment on the monotonic clock, carried through as is.
#[verifier::external_type_specification]
#[verifier::external_body]
pub struct ExInstant(Instant);

/// `Instant::now`: the current moment. Nothing is stated of it: it depends on
/// the clock.
#[verifier::external_body]
fn instant_now() -> (r: Instant) {
    Instant::now()
}

/// Where the current dictation session stands.
#[derive(Clone, Copy, Debug, PartialEq)]
pub enum AppState {
    Idle,
    Recording { started_at: Instant },
    Transcribing,
    Injecting,
}

/// The state a fresh daemon starts in.
pub fn new_shared_state() -> (r: AppState)
    ensures
        r is Idle,
{
    AppState::Idle
}

/// Whether the session is idle.
pub fn is_idle(state: &AppState) -> (r: bool)
    ensures
        r == (*state is Idle),
{
    match state {
        AppState::Idle => true,
        _ => false,
    }
}

/// The fewest samples (half a second at 16 kHz) worth sending to the recogniser.
pub const MIN_TRANSCRIBE_SAMPLES: usize = 8000;

/// What the coordinator does with an audio chunk.
#[derive(Clone, Copy, Debug, PartialEq, Eq, Structural)]
pub enum ChunkDecision {
    /// Not wanted in this state: nothing happens.
    Ignore,
    /// Send the samples to the recogniser with the current transcription settings.
    Transcribe,
    /// A pause chunk while earlier requests still wait: dropped.
    DropBackedUp,
    /// Too short (or empty) to recognise: dropped (a pending transcription ends the
    /// session).
    TooShort,
}

/// The state after a chunk was decided on: a too-short final chunk ends a pending
/// transcription; nothing else changes the state.
pub open spec fn after_chunk(state: AppState, d: ChunkDecision) -> AppState {
    if d == ChunkDecision::TooShort && state is Transcribing {
        AppState::Idle
    } else {
        state
    }
}

/// The decision for a chunk of `n_samples` samples, with the session in `state`.
pub open spec fn chunk_decision(
    state: AppState,
    n_samples: nat,
    is_final: bool,
    triggered_by_pause: bool,
    requests_pending: bool,
) -> ChunkDecision {
    let wanted = match state {
        AppState::Transcribing => is_final,
        AppState::Recording { .. } => triggered_by_pause,
        _ => false,
    };
    if !wanted {
        ChunkDecision::Ignore
    } else if n_samples < MIN_TRANSCRIBE_SAMPLES {
        ChunkDecision::TooShort
    } else if triggered_by_pause && requests_pending {
        ChunkDecision::DropBackedUp
    } else {
        ChunkDecision::Transcribe
    }
}

/// The audio command answering a hotkey event in `state`, if any.
pub open spec fn hotkey_command(state: AppState, ev: AppEvent) -> Option<AudioCmd> {
    match ev {
        AppEvent::HotkeyPressed => if state is Idle { Some(AudioCmd::StartRecording) } else { None },
        AppEvent::HotkeyReleased => if state is Recording { Some(AudioCmd::StopRecording) } else { None },
        AppEvent::EscapePressed => if state is Idle { None } else { Some(AudioCmd::Abort) },
    }
}

/// The state after a hotkey event: a press starts recording from Idle, a release
/// stops it, Escape always returns to Idle; otherwise nothing changes.
pub open spec fn after_hotkey(before: AppState, after: AppState, ev: AppEvent) -> bool {
    match ev {
        AppEvent::HotkeyPressed => if before is Idle { after is Recording } else { after == before },
        AppEvent::HotkeyReleased => if before is Recording { after is Transcribing } else { after == before },
        AppEvent::EscapePressed => after is Idle,
    }
}

/// Applies a hotkey event to the session and returns the command for the audio
/// worker.
pub fn handle_hotkey_event(state: &mut AppState, ev: AppEvent) -> (r: Option<AudioCmd>)
    ensures
        after_hotkey(*old(state), *final(state), ev),
        r == hotkey_command(*old(state), ev),
{
    match ev {
        AppEvent::HotkeyPressed => {
            if let AppState::Idle = *state {
                *state = AppState::Recording { started_at: instant_now() };
                Some(AudioCmd::StartRecording)
            } else {
                None
            }
        },
        AppEvent::HotkeyReleased => {
            if let AppState::Recording { .. } = *state {
                *state = AppState::Transcribing;
                Some(AudioCmd::StopRecording)
            } else {
                None
            }
        },
        AppEvent::EscapePressed => {
            let was_active = !is_idle(state);
            *state = AppState::Idle;
            if was_active {
                Some(AudioCmd::Abort)
            } else {
                None
            }
        },
    }
}

/// Decides what happens to an audio chunk of `n_samples` samples: the final chunk
/// of a stopped recording and the pause chunks of a running one are transcribed,
/// unless too short; pause chunks are dropped while earlier requests are pending.
/// A too-short (or empty) final chunk ends the session.
pub fn handle_audio_chunk(
    state: &mut AppState,
    n_samples: usize,
    is_final: bool,
    triggered_by_pause: bool,
    requests_pending: bool,
) -> (r: ChunkDecision)
    ensures
        r == chunk_decision(*old(state), n_samples as nat, is_final, triggered_by_pause, requests_pending),
        *final(state) == after_chunk(*old(state), r),
{
    let wanted = match *state {
        AppState::Transcribing => is_final,
        AppState::Recording { .. } => triggered_by_pause,
        _ => false,
    };
    if !wanted {
        return ChunkDecision::Ignore;
    }
    if n_samples < MIN_TRANSCRIBE_SAMPLES {
        if let AppState::Transcribing = *state {
            *state = AppState::Idle;
        }
        return ChunkDecision::TooShort;
    }
    if triggered_by_pause && requests_pending {
        return ChunkDecision::DropBackedUp;
    }
    ChunkDecision::Transcribe
}

/// The text to inject for a transcript: `None` when the user cancelled (Idle) or
/// the trimmed text is empty.
pub open spec fn transcript_text(state: AppState, text: Seq<char>) -> Option<Seq<char>> {
    if state is Idle || trim(text).len() == 0 {
        None
    } else {
        Some(trim(text))
    }
}

/// The state after a transcript: unchanged after a cancel; an empty transcript ends
/// a pending transcription; a non-empty one moves a finished session on to
/// Injecting, while a running recording (a pause chunk's transcript) stays
/// Recording.
pub open spec fn after_transcript(state: AppState, text: Seq<char>) -> AppState {
    if state is Idle {
        state
    } else if trim(text).len() == 0 {
        if state is Transcribing { AppState::Idle } else { state }
    } else if state is Recording {
        state
    } else {
        AppState::Injecting
    }
}

/// Handles a transcript: after a cancel (Idle) it is dropped; an empty one ends a
/// pending transcription; otherwise the trimmed text is returned for the history
/// and the injector, and the session is Injecting unless still Recording.
pub fn handle_transcript(state: &mut AppState, text: &str) -> (r: Option<String>)
    ensures
        r matches Some(t) ==> transcript_text(*old(state), text@) == Some(t@),
        r is None ==> transcript_text(*old(state), text@) is None,
        *final(state) == after_transcript(*old(state), text@),
{
    if is_idle(state) {
        return None;
    }
    let trimmed = trim_str(text);
    if trimmed.len() == 0 {
        if let AppState::Transcribing = *state {
            *state = AppState::Idle;
        }
        return None;
    }
    if let AppState::Recording { .. } = *state {
    } else {
        *state = AppState::Injecting;
    }
    Some(string_of(&trimmed))
}

/// The state after the injector reports it is done.
pub open spec fn after_inject_done(state: AppState) -> AppState {
    if state is Injecting { AppState::Idle } else { state }
}

/// The injector finished: an Injecting session is over.
pub fn handle_inject_done(state: &mut AppState)
    ensures
        *final(state) == after_inject_done(*old(state)),
{
    if let AppState::Injecting = *state {
        *state = AppState::Idle;
    }
}

// ---------------------------------------------------------------- laws

/// Escape cancels from every state: the session is Idle afterwards, and the audio
/// worker is told to abort exactly when something was in flight.
pub proof fn law_escape_always_idles(state: AppState)
    ensures
        hotkey_command(state, AppEvent::EscapePressed) == (if state is Idle {
            None
        } else {
            Some(AudioCmd::Abort)
        }),
        forall|after: AppState| after_hotkey(state, after, AppEvent::EscapePressed) ==> after is Idle,
{
}

/// A transcript that arrives after a cancel (Idle) is never injected and leaves the
/// session Idle.
pub proof fn law_cancelled_transcript_dropped(state: AppState, text: Seq<char>)
    requires
        state is Idle,
    ensures
        transcript_text(state, text) is None,
        after_transcript(state, text) == state,
{
}

/// A pause chunk never moves the session out of Recording, whatever is decided
/// about it ("speak and see text appear").
pub proof fn law_pause_chunk_keeps_recording(
    state: AppState,
    n_samples: nat,
    is_final: bool,
    requests_pending: bool,
)
    requires
        state is Recording,
    ensures
        after_chunk(state, chunk_decision(state, n_samples, is_final, true, requests_pending)) == state,
{
}

/// One full session: a press starts recording, a release stops it, the final chunk
/// (at least half a second) is transcribed, a non-empty transcript is injected and
/// the injector's "done" returns the session to Idle.
pub proof fn law_session_round_trip(
    recording: AppState,
    stopped: AppState,
    n_samples: nat,
    requests_pending: bool,
    text: Seq<char>,
)
    requires
        after_hotkey(AppState::Idle, recording, AppEvent::HotkeyPressed),
        after_hotkey(recording, stopped, AppEvent::HotkeyReleased),
        n_samples >= MIN_TRANSCRIBE_SAMPLES,
        trim(text).len() > 0,
    ensures
        recording is Recording,
        hotkey_command(AppState::Idle, AppEvent::HotkeyPressed) == Some(AudioCmd::StartRecording),
        hotkey_command(recording, AppEvent::HotkeyReleased) == Some(AudioCmd::StopRecording),
        stopped is Transcribing,
        chunk_decision(stopped, n_samples, true, false, requests_pending) == ChunkDecision::Transcribe,
        after_chunk(stopped, ChunkDecision::Transcribe) == stopped,
        transcript_text(stopped, text) == Some(trim(text)),
        after_transcript(stopped, text) is Injecting,
        after_inject_done(after_transcript(stopped, text)) is Idle,
{
}

/// A transcript that arrives while the key is still held (from a pause chunk) is
/// injected, and the recording goes on.
pub proof fn law_pause_transcript_keeps_recording(state: AppState, text: Seq<char>)
    requires
        state is Recording,
        trim(text).len() > 0,
    ensures
        transcript_text(state, text) == Some(trim(text)),
        after_transcript(state, text) == state,
{
}

/// A final chunk under half a second, an empty one included, is not sent to the
/// recogniser and ends the session.
pub proof fn law_short_final_chunk_ends_session(n_samples: nat, requests_pending: bool)
    requires
        n_samples < MIN_TRANSCRIBE_SAMPLES,
    ensures
        chunk_decision(AppState::Transcribing, n_samples, true, false, requests_pending)
            == ChunkDecision::TooShort,
        after_chunk(
            AppState::Transcribing,
            chunk_decision(AppState::Transcribing, n_samples, true, false, requests_pending),
        ) is Idle,
{
}

/// Recording starts only by a hotkey press from Idle: no chunk, transcript or
/// "injection done" leads into Recording from another state, and a press does so
/// only from Idle.
pub proof fn law_recording_starts_only_by_press(
    before: AppState,
    after: AppState,
    ev: AppEvent,
    d: ChunkDecision,
    text: Seq<char>,
)
    requires
        !(before is Recording),
    ensures
        !(after_chunk(before, d) is Recording),
        !(after_transcript(before, text) is Recording),
        !(after_inject_done(before) is Recording),
        after_hotkey(before, after, ev) && after is Recording ==> before is Idle && ev == AppEvent::HotkeyPressed,
{
}

/// The final chunk of a stopped recording is always transcribed when it holds at
/// least half a second of audio, however many requests are pending.
pub proof fn law_final_chunk_transcribed(n_samples: nat, requests_pending: bool)
    requires
        n_samples >= MIN_TRANSCRIBE_SAMPLES,
    ensures
        chunk_decision(AppState::Transcribing, n_samples, true, false, requests_pending)
            == ChunkDecision::Transcribe,
{
}

/// A transcript never ends a running recording: whatever its text, empty included,
/// a Recording session is still the same Recording session afterwards.
pub proof fn law_transcript_never_ends_recording(state: AppState, text: Seq<char>)
    requires
        state is Recording,
    ensures
        after_transcript(state, text) == state,
        trim(text).len() == 0 ==> transcript_text(state, text) is None,
        trim(text).len() > 0 ==> transcript_text(state, text) == Some(trim(text)),
{
}

} // verus!

//! The recorder's bookkeeping: when to start, stop, cut a chunk at a pause, or
//! give up at the length limit.
//!
//! The audio worker (in the application) owns the input stream and the sample
//! buffer; for each command, timer tick and block of resampled samples it asks a
//! [`Recorder`] what to do, counting samples rather than holding them.

use vstd::prelude::*;

verus! {

/// Commands from the coordinator to the audio worker.
#[derive(Clone, Copy, Debug, PartialEq, Eq, Structural)]
pub enum AudioCmd {
    StartRecording,
    StopRecording,
    Abort,
}

/// Samples per second of the audio handed to the recogniser.
pub const SAMPLE_RATE: usize = 16000;

/// A pause chunk is cut only from more than this many samples (one second).
pub const MIN_PAUSE_CHUNK_SAMPLES: usize = 16000;

/// A stopped recording of at least this many samples (0.4 s) whose loudest block
/// was near zero triggers the "microphone silent" notification.
pub const MIN_SILENT_WARNING_SAMPLES: usize = 6400;

/// What the audio worker does after a command or a timer tick.
#[derive(Clone, Copy, Debug, PartialEq, Eq, Structural)]
pub enum RecorderAction {
    /// Nothing.
    Nothing,
    /// Clear the buffer and start the input stream.
    Play,
    /// Pause the stream and send the whole buffer as the final chunk; warn that the
    /// microphone seems silent when `warn_silent`.
    SendFinal { warn_silent: bool },
    /// Pause the stream and throw the buffer away.
    Discard,
}

/// The recorder's state: whether it records, how many samples are buffered, and
/// how many blocks in a row were below the silence threshold.
#[derive(Clone, Copy, Debug, PartialEq, Eq, Structural)]
pub struct Recorder {
    pub recording: bool,
    pub buffered: usize,
    pub silent_chunks: u32,
}

/// The recorder and action after a command. `peak_quiet` tells whether the loudest
/// block of the recording stayed below the "no signal" level.
pub open spec fn command_step(r: Recorder, cmd: AudioCmd, peak_quiet: bool) -> (Recorder, RecorderAction) {
    match cmd {
        AudioCmd::StartRecording => (
            Recorder { recording: true, buffered: 0, silent_chunks: 0 },
            RecorderAction::Play,
        ),
        AudioCmd::StopRecording => (
            Recorder { recording: false, buffered: 0, silent_chunks: 0 },
            RecorderAction::SendFinal {
                warn_silent: r.buffered >= MIN_SILENT_WARNING_SAMPLES && peak_quiet,
            },
        ),
        AudioCmd::Abort => (
            Recorder { recording: false, buffered: 0, silent_chunks: 0 },
            RecorderAction::Discard,
        ),
    }
}

/// The recorder and action on a timer tick, `elapsed_secs` after recording started:
/// at the length limit the recording stops and its buffer is sent.
pub open spec fn tick_step(r: Recorder, elapsed_secs: u64, max_record_seconds: u32) -> (Recorder, RecorderAction) {
    if r.recording && elapsed_secs >= max_record_seconds {
        (
            Recorder { recording: false, buffered: 0, silent_chunks: 0 },
            RecorderAction::SendFinal { warn_silent: false },
        )
    } else {
        (r, RecorderAction::Nothing)
    }
}

/// The silence counter after one more block.
pub open spec fn next_silent(count: u32, silent: bool) -> u32 {
    if !silent {
        0
    } else if count < u32::MAX {
        (count + 1) as u32
    } else {
        count
    }
}

/// The recorder after a block of `n` samples, and whether a pause chunk is cut: once
/// `silence_frames` blocks in a row were silent and more than a second is buffered,
/// the buffer goes to the recogniser and recording goes on.
pub open spec fn samples_step(r: Recorder, n: nat, silent: bool, silence_frames: u32) -> (Recorder, bool) {
    if !r.recording {
        (r, false)
    } else {
        let buffered = r.buffered + n;
        let count = next_silent(r.silent_chunks, silent);
        if count >= silence_frames && buffered > MIN_PAUSE_CHUNK_SAMPLES {
            (Recorder { recording: true, buffered: 0, silent_chunks: 0 }, true)
        } else {
            (Recorder { recording: true, buffered: buffered as usize, silent_chunks: count }, false)
        }
    }
}

impl Recorder {
    /// The recorder a worker starts with.
    pub open spec fn new_spec() -> Recorder {
        Recorder { recording: false, buffered: 0, silent_chunks: 0 }
    }

    /// Not recording, nothing buffered.
    pub fn new() -> (r: Self)
        ensures
            r == Recorder::new_spec(),
    {
        Recorder { recording: false, buffered: 0, silent_chunks: 0 }
    }

    /// Applies a command from the coordinator.
    pub fn on_command(&mut self, cmd: AudioCmd, peak_quiet: bool) -> (a: RecorderAction)
        ensures
            (*final(self), a) == command_step(*old(self), cmd, peak_quiet),
    {
        match cmd {
            AudioCmd::StartRecording => {
                *self = Recorder { recording: true, buffered: 0, silent_chunks: 0 };
                RecorderAction::Play
            },
            AudioCmd::StopRecording => {
                let warn_silent = self.buffered >= MIN_SILENT_WARNING_SAMPLES && peak_quiet;
                *self = Recorder { recording: false, buffered: 0, silent_chunks: 0 };
                RecorderAction::SendFinal { warn_silent }
            },
            AudioCmd::Abort => {
                *self = Recorder { recording: false, buffered: 0, silent_chunks: 0 };
                RecorderAction::Discard
            },
        }
    }

    /// Checks the length limit on a timer tick.
    pub fn on_tick(&mut self, elapsed_secs: u64, max_record_seconds: u32) -> (a: RecorderAction)
        ensures
            (*final(self), a) == tick_step(*old(self), elapsed_secs, max_record_seconds),
    {
        if self.recording && elapsed_secs >= max_record_seconds as u64 {
            *self = Recorder { recording: false, buffered: 0, silent_chunks: 0 };
            RecorderAction::SendFinal { warn_silent: false }
        } else {
            RecorderAction::Nothing
        }
    }

    /// Counts a block of `n` resampled samples (`silent` when its RMS is below the
    /// threshold) and says whether the buffer is to be sent as a pause chunk.
    pub fn on_samples(&mut self, n: usize, silent: bool, silence_frames: u32) -> (cut: bool)
        requires
            old(self).buffered + n <= usize::MAX,
        ensures
            (*final(self), cut) == samples_step(*old(self), n as nat, silent, silence_frames),
    {
        if !self.recording {
            return false;
        }
        let buffered = self.buffered + n;
        let count = if !silent {
            0
        } else if self.silent_chunks < u32::MAX {
            self.silent_chunks + 1
        } else {
            self.silent_chunks
        };
        if count >= silence_frames && buffered > MIN_PAUSE_CHUNK_SAMPLES {
            *self = Recorder { recording: true, buffered: 0, silent_chunks: 0 };
            true
        } else {
            *self = Recorder { recording: true, buffered, silent_chunks: count };
            false
        }
    }
}

// ---------------------------------------------------------------- laws

/// No sample is lost while recording: after a block, the samples buffered plus
/// those just sent as a pause chunk are those buffered before plus the block.
pub proof fn law_samples_conserved(r: Recorder, n: nat, silent: bool, silence_frames: u32)
    requires
        r.recording,
        r.buffered + n <= usize::MAX,
    ensures
        ({
            let (r2, cut) = samples_step(r, n, silent, silence_frames);
            r2.buffered + (if cut { r.buffered + n } else { 0 }) == r.buffered + n
        }),
{
}

/// A pause chunk always holds more than one second of audio, is cut only after
/// `silence_frames` silent blocks in a row, and never ends the recording.
pub proof fn law_pause_chunk_shape(r: Recorder, n: nat, silent: bool, silence_frames: u32)
    requires
        samples_step(r, n, silent, silence_frames).1,
    ensures
        r.recording,
        r.buffered + n > MIN_PAUSE_CHUNK_SAMPLES,
        next_silent(r.silent_chunks, silent) >= silence_frames,
        samples_step(r, n, silent, silence_frames).0.recording,
{
}

/// Whatever state it is in, Abort leaves the recorder stopped and empty, and Start
/// leaves it recording from an empty buffer.
pub proof fn law_abort_and_start_reset(r: Recorder, peak_quiet: bool)
    ensures
        command_step(r, AudioCmd::Abort, peak_quiet).0 == (Recorder { recording: false, buffered: 0, silent_chunks: 0 }),
        command_step(r, AudioCmd::StartRecording, peak_quiet).0 == (Recorder { recording: true, buffered: 0, silent_chunks: 0 }),
{
}

/// Whether a stopped recorder holds nothing: the state every operation keeps.
pub open spec fn recorder_ok(r: Recorder) -> bool {
    !r.recording ==> r.buffered == 0 && r.silent_chunks == 0
}

/// Every operation keeps a stopped recorder empty: commands, ticks and blocks of
/// samples all lead from a state where a stopped recorder holds nothing to another.
pub proof fn law_stopped_recorder_empty(
    r: Recorder,
    cmd: AudioCmd,
    peak_quiet: bool,
    elapsed_secs: u64,
    max_record_seconds: u32,
    n: nat,
    silent: bool,
    silence_frames: u32,
)
    requires
        recorder_ok(r),
        r.buffered + n <= usize::MAX,
    ensures
        recorder_ok(Recorder::new_spec()),
        recorder_ok(command_step(r, cmd, peak_quiet).0),
        recorder_ok(tick_step(r, elapsed_secs, max_record_seconds).0),
        recorder_ok(samples_step(r, n, silent, silence_frames).0),
{
}

/// A stopped recorder ignores samples and ticks.
pub proof fn law_idle_recorder_inert(
    r: Recorder,
    n: nat,
    silent: bool,
    silence_frames: u32,
    elapsed_secs: u64,
    max_record_seconds: u32,
)
    requires
        !r.recording,
    ensures
        samples_step(r, n, silent, silence_frames) == (r, false),
        tick_step(r, elapsed_secs, max_record_seconds) == (r, RecorderAction::Nothing),
{
}

/// The samples in a run of blocks (each a sample count and whether it was silent).
pub open spec fn block_total(blocks: Seq<(nat, bool)>) -> nat
    decreases blocks.len(),
{
    if blocks.len() == 0 {
        0
    } else {
        block_total(blocks.drop_last()) + blocks.last().0
    }
}

/// The recorder after a run of blocks, and how many samples it sent in pause chunks
/// on the way.
pub open spec fn run_blocks(r: Recorder, blocks: Seq<(nat, bool)>, silence_frames: u32) -> (Recorder, nat)
    decreases blocks.len(),
{
    if blocks.len() == 0 {
        (r, 0)
    } else {
        let (r1, sent) = run_blocks(r, blocks.drop_last(), silence_frames);
        let (r2, cut) = samples_step(r1, blocks.last().0, blocks.last().1, silence_frames);
        (r2, sent + if cut { (r1.buffered + blocks.last().0) as nat } else { 0nat })
    }
}

/// Over a whole recording no sample is lost or counted twice: the samples sent in
/// pause chunks plus those still buffered (sent as the final chunk when recording
/// stops) are all the samples captured, and the recorder is still recording.
pub proof fn law_run_conserves_samples(r: Recorder, blocks: Seq<(nat, bool)>, silence_frames: u32)
    requires
        r.recording,
        r.buffered + block_total(blocks) <= usize::MAX,
    ensures
        run_blocks(r, blocks, silence_frames).0.recording,
        run_blocks(r, blocks, silence_frames).0.buffered + run_blocks(r, blocks, silence_frames).1
            == r.buffered + block_total(blocks),
    decreases blocks.len(),
{
    if blocks.len() > 0 {
        law_run_conserves_samples(r, blocks.drop_last(), silence_frames);
        let (r1, sent) = run_blocks(r, blocks.drop_last(), silence_frames);
        law_samples_conserved(r1, blocks.last().0, blocks.last().1, silence_frames);
    }
}

} // verus!

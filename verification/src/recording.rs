//! Microphone recording bookkeeping: the one session that may run, the
//! first failure it reports, and the WAV writer's sample accounting.

use vstd::prelude::*;
use crate::error::AppError;
use crate::text::concat;

verus! {

/// A recording's identity, the 128 bits of its UUID.
pub type RecordingId = u128;

/// Whether `requested` names the recording that is running.
pub open spec fn recording_id_verdict(active: Option<RecordingId>, requested: RecordingId) -> Option<Seq<char>> {
    match active {
        Some(id) => if id == requested {
            None
        } else {
            Some("RECORDING_ID_MISMATCH"@)
        },
        None => Some("RECORDING_NOT_ACTIVE"@),
    }
}

/// Only the running recording can be stopped or cancelled.
pub fn verify_recording_id(active: Option<RecordingId>, requested: RecordingId) -> (verified: Result<(), AppError>)
    ensures
        match recording_id_verdict(active, requested) {
            None => verified is Ok,
            Some(code) => verified matches Err(e) && e.code@ == code,
        },
{
    match active {
        Some(id) => if id == requested {
            Ok(())
        } else {
            Err(AppError::new("RECORDING_ID_MISMATCH", "다른 녹음 세션은 정지하거나 취소할 수 없습니다."))
        },
        None => Err(AppError::new("RECORDING_NOT_ACTIVE", "진행 중인 마이크 녹음이 없습니다.")),
    }
}

/// The microphone session slot: at most one recording runs.
#[derive(Debug, Clone, Copy, PartialEq, Eq, Structural)]
pub struct RecordingSession {
    pub active: Option<RecordingId>,
}

impl RecordingSession {
    pub fn new() -> (session: Self)
        ensures
            session.active.is_none(),
    {
        RecordingSession { active: None }
    }

    /// Whether a new recording may start.
    pub fn check_idle(&self) -> (idle: Result<(), AppError>)
        ensures
            idle is Ok <==> self.active.is_none(),
            idle matches Err(e) ==> e.code@ == "RECORDING_BUSY"@,
    {
        if self.active.is_some() {
            Err(AppError::new("RECORDING_BUSY", "이미 마이크 녹음이 진행 중입니다."))
        } else {
            Ok(())
        }
    }

    /// A recording started; it holds the slot until it is stopped or cancelled.
    pub fn started(&mut self, id: RecordingId)
        requires
            old(self).active.is_none(),
        ensures
            final(self).active == Some(id),
    {
        self.active = Some(id);
    }

    /// End the running recording: refused for any other id, and the slot is
    /// free afterwards however the device answers.
    pub fn end(&mut self, id: RecordingId) -> (ended: Result<(), AppError>)
        ensures
            match recording_id_verdict(old(self).active, id) {
                None => ended is Ok && final(self).active.is_none(),
                Some(code) => (ended matches Err(e) && e.code@ == code) && *final(self) == *old(self),
            },
    {
        let verified = verify_recording_id(self.active, id);
        if verified.is_ok() {
            self.active = None;
        }
        verified
    }
}

/// Only the recording that runs can be stopped or cancelled: its own id ends
/// it, any other id is refused as a mismatch, and with nothing running every
/// id is refused as not active.
pub proof fn law_only_the_running_recording_ends(id: RecordingId, other: RecordingId)
    requires
        other != id,
    ensures
        recording_id_verdict(Some(id), id).is_none(),
        recording_id_verdict(Some(id), other) == Some("RECORDING_ID_MISMATCH"@),
        recording_id_verdict(None, id) == Some("RECORDING_NOT_ACTIVE"@),
{
}

/// The first failure a recording ran into. Later failures are consequences
/// of the first and do not replace it.
#[derive(Debug, Clone, PartialEq, Eq)]
pub struct FailureSlot {
    pub value: Option<(String, String)>,
}

impl FailureSlot {
    pub fn new() -> (slot: Self)
        ensures
            slot.value.is_none(),
    {
        FailureSlot { value: None }
    }

    /// Record a failure unless one is already recorded; whether it was.
    pub fn store(&mut self, code: &str, message: &str) -> (stored: bool)
        ensures
            stored == old(self).value.is_none(),
            stored ==> (final(self).value matches Some(v) && v.0@ == code@ && v.1@ == message@),
            !stored ==> *final(self) == *old(self),
    {
        if self.value.is_some() {
            return false;
        }
        self.value = Some((code.to_owned(), message.to_owned()));
        true
    }

    pub fn has_failure(&self) -> (failed: bool)
        ensures
            failed == self.value.is_some(),
    {
        self.value.is_some()
    }

    /// Hand the failure over, leaving the slot empty.
    pub fn take(&mut self) -> (taken: Option<(String, String)>)
        ensures
            taken == old(self).value,
            final(self).value.is_none(),
    {
        self.value.take()
    }
}

/// Frames the capture callback hands over per chunk.
pub const FRAMES_PER_CHUNK: usize = 4096;

/// Seconds of audio the queue to the writer can hold.
pub const QUEUE_SECONDS: usize = 30;

/// Largest RIFF data chunk a PCM WAV can describe, in bytes.
pub const RIFF_DATA_LIMIT: u64 = 4294967251;

/// Chunks the writer queue holds: thirty seconds of frames, rounded up.
pub fn queue_capacity(sample_rate: u32) -> (capacity: usize)
    ensures
        capacity as int == (sample_rate as int * QUEUE_SECONDS as int + FRAMES_PER_CHUNK as int - 1)
            / FRAMES_PER_CHUNK as int,
{
    let frames: u64 = sample_rate as u64 * 30;
    let chunks: u64 = (frames + 4095) / 4096;
    assert(chunks <= 31457281) by (nonlinear_arith)
        requires
            frames <= 4294967295 * 30,
            chunks == (frames + 4095) / 4096,
    ;
    chunks as usize
}

/// What the writer does with a chunk of captured samples.
#[derive(Debug, Clone, Copy, PartialEq, Eq, Structural)]
pub enum ChunkPlan {
    /// Write `silence` zero samples for the audio dropped before this chunk,
    /// then the chunk itself.
    Write { silence: u64 },
    /// The file would outgrow a WAV header: record the failure, write nothing.
    TooLarge,
}

/// The WAV writer's accounting. Dropped audio is written as silence so the
/// timeline stays intact, and the file never outgrows what its header can say.
#[derive(Debug, Clone, Copy, PartialEq, Eq, Structural)]
pub struct WriterState {
    /// Samples in the file, silence included.
    pub samples: u64,
    /// Samples written as silence for dropped audio.
    pub dropped_samples: u64,
    /// Sample count at which the writer flushes next.
    pub next_flush: u64,
    /// Samples between flushes: five seconds of audio.
    pub flush_every: u64,
}

/// The 16-bit data of `samples` samples fits in a WAV data chunk.
pub open spec fn fits_riff(samples: int) -> bool {
    samples * 2 <= RIFF_DATA_LIMIT
}

impl WriterState {
    pub open spec fn wf(self) -> bool {
        &&& fits_riff(self.samples as int)
        &&& self.dropped_samples <= self.samples
    }

    pub fn new(sample_rate: u32, channels: u16) -> (state: Self)
        ensures
            state.wf(),
            state.samples == 0,
            state.dropped_samples == 0,
            state.flush_every == sample_rate as int * channels as int * 5,
            state.next_flush == state.flush_every,
    {
        let rate = sample_rate as u64;
        let ch = channels as u64;
        assert(rate * ch <= 4294967295 * 65535) by (nonlinear_arith)
            requires
                rate <= 4294967295,
                ch <= 65535,
        ;
        let every = rate * ch * 5;
        WriterState { samples: 0, dropped_samples: 0, next_flush: every, flush_every: every }
    }

    /// Decide what to do with a chunk of `chunk_len` samples that follows
    /// `dropped_before` dropped ones.
    pub fn plan_chunk(&self, chunk_len: u64, dropped_before: u64) -> (plan: ChunkPlan)
        requires
            self.wf(),
        ensures
            fits_riff(self.samples + dropped_before + chunk_len) ==> plan == (ChunkPlan::Write { silence: dropped_before }),
            !fits_riff(self.samples + dropped_before + chunk_len) ==> plan == ChunkPlan::TooLarge,
    {
        let limit: u64 = RIFF_DATA_LIMIT / 2;
        if dropped_before > limit || chunk_len > limit || self.samples + dropped_before + chunk_len > limit {
            ChunkPlan::TooLarge
        } else {
            ChunkPlan::Write { silence: dropped_before }
        }
    }

    /// Account for `silence` zero samples and `chunk_len` captured ones that
    /// were written; whether the writer should flush now.
    pub fn wrote_chunk(&mut self, silence: u64, chunk_len: u64) -> (flush: bool)
        requires
            old(self).wf(),
            fits_riff(old(self).samples + silence + chunk_len),
        ensures
            final(self).wf(),
            final(self).samples == old(self).samples + silence + chunk_len,
            final(self).dropped_samples == old(self).dropped_samples + silence,
            final(self).flush_every == old(self).flush_every,
            flush == (final(self).samples >= old(self).next_flush),
            flush ==> final(self).next_flush == if final(self).samples + old(self).flush_every > u64::MAX {
                u64::MAX as int
            } else {
                final(self).samples + old(self).flush_every
            },
            !flush ==> final(self).next_flush == old(self).next_flush,
    {
        self.samples = self.samples + silence + chunk_len;
        self.dropped_samples = self.dropped_samples + silence;
        if self.samples >= self.next_flush {
            self.next_flush = self.samples.saturating_add(self.flush_every);
            true
        } else {
            false
        }
    }

    /// Decide how to close the file: the audio dropped after the last chunk
    /// is written as silence when it still fits.
    pub fn plan_finish(&self, trailing_dropped: u64) -> (plan: ChunkPlan)
        requires
            self.wf(),
        ensures
            fits_riff(self.samples + trailing_dropped) ==> plan == (ChunkPlan::Write { silence: trailing_dropped }),
            !fits_riff(self.samples + trailing_dropped) ==> plan == ChunkPlan::TooLarge,
    {
        self.plan_chunk(0, trailing_dropped)
    }
}

/// Whole frames in a recording of `samples` interleaved samples; a count a
/// PCM WAV cannot describe is refused.
pub fn recording_frames(samples: u64, channels: u16) -> (frames: Result<u64, AppError>)
    requires
        channels > 0,
    ensures
        match frames {
            Ok(f) => f == (samples as int) / (channels as int) && f <= u32::MAX,
            Err(e) => (samples as int) / (channels as int) > u32::MAX && e.code@ == "WAV_TOO_LARGE"@,
        },
{
    let frames = samples / (channels as u64);
    if frames > 4294967295u64 {
        Err(AppError::new("WAV_TOO_LARGE", "녹음 길이가 지원 가능한 PCM WAV 범위를 초과했습니다."))
    } else {
        Ok(frames)
    }
}

/// The error to report when cleaning up after `error` may itself have failed.
pub fn with_cleanup(error: AppError, cleanup: Result<(), AppError>) -> (reported: AppError)
    ensures
        match cleanup {
            Ok(()) => reported == error,
            Err(c) => reported.code@ == "RECORDING_CLEANUP_FAILED"@ && reported.message@
                == error.message@ + "; cleanup: "@ + c.message@,
        },
{
    match cleanup {
        Ok(()) => error,
        Err(cleanup_error) => {
            let mut message = concat(error.message.as_str(), "; cleanup: ");
            message.append(cleanup_error.message.as_str());
            AppError { code: "RECORDING_CLEANUP_FAILED".to_owned(), message }
        },
    }
}

/// How a microphone or its stream failed, as the audio host reports it.
#[derive(Debug, Clone, Copy, PartialEq, Eq, Structural)]
pub enum MicrophoneFault {
    PermissionDenied,
    DeviceNotAvailable,
    DeviceBusy,
    UnsupportedConfig,
    Xrun,
    Other,
}

pub open spec fn microphone_code(fault: MicrophoneFault) -> Seq<char> {
    match fault {
        MicrophoneFault::PermissionDenied => "MICROPHONE_PERMISSION_DENIED"@,
        MicrophoneFault::DeviceNotAvailable => "MICROPHONE_UNAVAILABLE"@,
        MicrophoneFault::DeviceBusy => "MICROPHONE_BUSY"@,
        MicrophoneFault::UnsupportedConfig => "UNSUPPORTED_AUDIO_CONFIG"@,
        _ => "MICROPHONE_ERROR"@,
    }
}

/// The error code a microphone fault is reported under.
pub fn microphone_error_code(fault: MicrophoneFault) -> (code: &'static str)
    ensures
        code@ == microphone_code(fault),
{
    match fault {
        MicrophoneFault::PermissionDenied => "MICROPHONE_PERMISSION_DENIED",
        MicrophoneFault::DeviceNotAvailable => "MICROPHONE_UNAVAILABLE",
        MicrophoneFault::DeviceBusy => "MICROPHONE_BUSY",
        MicrophoneFault::UnsupportedConfig => "UNSUPPORTED_AUDIO_CONFIG",
        _ => "MICROPHONE_ERROR",
    }
}

/// An overrun loses a few samples and the stream goes on; anything else ends
/// the recording.
pub fn is_recoverable_stream_error(fault: MicrophoneFault) -> (recoverable: bool)
    ensures
        recoverable == (fault == MicrophoneFault::Xrun),
{
    match fault {
        MicrophoneFault::Xrun => true,
        _ => false,
    }
}

/// Samples the capture callback hands the writer per chunk: a fixed number
/// of frames of every channel.
pub fn capture_chunk_samples(channels: u16) -> (samples: usize)
    ensures
        samples == FRAMES_PER_CHUNK * channels,
{
    4096usize * (channels as usize)
}

/// What became of a chunk offered to the writer's queue.
#[derive(Debug, Clone, Copy, PartialEq, Eq, Structural)]
pub enum SendOutcome {
    /// The writer took it.
    Sent,
    /// The writer is behind and the queue is full.
    Full,
    /// The writer is gone.
    Disconnected,
}

/// The audio a chunk leaves unrecorded once it was offered with the
/// `dropped_before` samples lost ahead of it: nothing when the writer took
/// both, the gap and the chunk when the queue was full (so the writer can
/// fill them with silence later), and `None` when the writer is gone and
/// capture must stop.
pub fn dropped_after_send(outcome: SendOutcome, dropped_before: u64, chunk_len: u64) -> (dropped: Option<u64>)
    ensures
        outcome == SendOutcome::Sent ==> dropped == Some(0u64),
        outcome == SendOutcome::Full ==> dropped == Some(
            if dropped_before + chunk_len > u64::MAX { u64::MAX } else { (dropped_before + chunk_len) as u64 },
        ),
        outcome == SendOutcome::Disconnected ==> dropped.is_none(),
{
    match outcome {
        SendOutcome::Sent => Some(0),
        SendOutcome::Full => Some(dropped_before.saturating_add(chunk_len)),
        SendOutcome::Disconnected => None,
    }
}

} // verus!

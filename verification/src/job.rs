use vstd::prelude::*;
use crate::jobs::JobId;

verus! {

/// How many speakers diarization should look for.
#[derive(Debug, Clone, Copy, PartialEq, Eq, Structural)]
pub enum SpeakerHint {
    Auto,
    Exact { count: u8 },
    Range { min: u8, max: u8 },
}

/// Why a speaker hint is refused.
#[derive(Debug, Clone, Copy, PartialEq, Eq, Structural)]
pub enum RequestError {
    InvalidSpeakerCount,
    InvalidSpeakerRange,
}

/// The verdict on a hint: a zero count anywhere is a count error, checked
/// before the order of a range.
pub open spec fn hint_verdict(hint: SpeakerHint) -> Result<(), RequestError> {
    match hint {
        SpeakerHint::Auto => Ok(()),
        SpeakerHint::Exact { count } => if count == 0 {
            Err(RequestError::InvalidSpeakerCount)
        } else {
            Ok(())
        },
        SpeakerHint::Range { min, max } => if min == 0 || max == 0 {
            Err(RequestError::InvalidSpeakerCount)
        } else if min > max {
            Err(RequestError::InvalidSpeakerRange)
        } else {
            Ok(())
        },
    }
}

pub fn validate_speaker_hint(hint: &SpeakerHint) -> (result: Result<(), RequestError>)
    ensures
        result == hint_verdict(*hint),
{
    match hint {
        SpeakerHint::Exact { count } => if *count == 0 {
            Err(RequestError::InvalidSpeakerCount)
        } else {
            Ok(())
        },
        SpeakerHint::Range { min, max } => if *min == 0 || *max == 0 {
            Err(RequestError::InvalidSpeakerCount)
        } else if *min > *max {
            Err(RequestError::InvalidSpeakerRange)
        } else {
            Ok(())
        },
        SpeakerHint::Auto => Ok(()),
    }
}

impl RequestError {
    /// What the refusal says to a person.
    pub fn message(&self) -> (message: &'static str)
        ensures
            message@ == match self {
                RequestError::InvalidSpeakerCount => "speaker count must be greater than zero"@,
                RequestError::InvalidSpeakerRange => "speaker range minimum must not exceed maximum"@,
            },
    {
        match self {
            RequestError::InvalidSpeakerCount => "speaker count must be greater than zero",
            RequestError::InvalidSpeakerRange => "speaker range minimum must not exceed maximum",
        }
    }
}

/// A request to prepare the local engine, with a Hugging Face token when the
/// user typed one for this run.
#[derive(Debug, Clone, PartialEq, Eq)]
pub struct SetupRequest {
    pub job_id: JobId,
    pub hugging_face_token: Option<String>,
}

/// A request to transcribe an audio file into a meeting folder.
#[derive(Debug, Clone, PartialEq, Eq)]
pub struct TranscriptionRequest {
    pub job_id: JobId,
    pub input_path: String,
    pub output_root: String,
    pub speaker_hint: SpeakerHint,
}

/// A request to register an existing transcript as a finished meeting.
#[derive(Debug, Clone, PartialEq, Eq)]
pub struct TranscriptImportRequest {
    pub job_id: JobId,
    pub input_path: String,
    pub output_root: String,
}

} // verus!

//! The contract with the transcription worker: the ASR biasing context it
//! reads, the protocol version it speaks, and the terminal events that carry
//! a job's result.

use vstd::prelude::*;
use crate::error::AppError;
use crate::roster::texts;
use crate::text::{concat, decimal, decimal_spec};

verus! {

pub const PROTOCOL_VERSION: u8 = 1;

/// ASR biasing lists handed to the worker as one JSON object on disk.
#[derive(Debug, Clone, PartialEq, Eq)]
pub struct AsrContext {
    pub terms: Vec<String>,
    pub names: Vec<String>,
    pub aliases: Vec<String>,
}

/// What `serde_json` writes for a list of strings: a JSON array of JSON
/// string literals, escaped as serde_json escapes.
pub uninterp spec fn json_string_array(values: Seq<Seq<char>>) -> Seq<char>;

/// A list of strings as a JSON array, through `serde_json::Value`.
#[verifier::external_body]
fn json_array(values: &Vec<String>) -> (json: String)
    ensures
        json@ == json_string_array(texts(values@)),
{
    serde_json::Value::from(values.clone()).to_string()
}

/// The wire form the worker's context parser reads: glossary terms first,
/// then participant names, then spoken aliases.
pub open spec fn asr_wire(terms: Seq<Seq<char>>, names: Seq<Seq<char>>, aliases: Seq<Seq<char>>) -> Seq<char> {
    "{\"terms\":"@ + json_string_array(terms) + ",\"names\":"@ + json_string_array(names)
        + ",\"aliases\":"@ + json_string_array(aliases) + "}"@
}

impl AsrContext {
    /// Build the biasing lists; `None` when nothing can bias recognition.
    pub fn new(terms: Vec<String>, names: Vec<String>, aliases: Vec<String>) -> (context: Option<Self>)
        ensures
            context.is_none() == (terms@.len() == 0 && names@.len() == 0 && aliases@.len() == 0),
            context matches Some(c) ==> c.terms == terms && c.names == names && c.aliases == aliases,
    {
        if terms.len() == 0 && names.len() == 0 && aliases.len() == 0 {
            return None;
        }
        Some(AsrContext { terms, names, aliases })
    }

    /// Serialize in the wire format the worker reads.
    pub fn into_wire_json(self) -> (json: String)
        ensures
            json@ == asr_wire(texts(self.terms@), texts(self.names@), texts(self.aliases@)),
    {
        let mut out = concat("{\"terms\":", json_array(&self.terms).as_str());
        out.append(",\"names\":");
        out.append(json_array(&self.names).as_str());
        out.append(",\"aliases\":");
        out.append(json_array(&self.aliases).as_str());
        out.append("}");
        out
    }
}

/// Why a worker line was refused.
#[derive(Debug, Clone, PartialEq, Eq)]
pub enum ProtocolError {
    InvalidJson(String),
    UnsupportedVersion(u8),
}

/// Accept an envelope only in the protocol version this host speaks.
pub fn check_protocol_version(v: u8) -> (checked: Result<(), ProtocolError>)
    ensures
        checked is Ok <==> v == PROTOCOL_VERSION,
        checked matches Err(e) ==> e == ProtocolError::UnsupportedVersion(v),
{
    if v != PROTOCOL_VERSION {
        Err(ProtocolError::UnsupportedVersion(v))
    } else {
        Ok(())
    }
}

/// What a worker event means to the job that runs it: the result of a
/// transcription, the result of a refinement, or anything on the way there.
#[derive(Debug, Clone, PartialEq, Eq)]
pub enum WorkerOutcome {
    Completed { srt: String, txt: String, checkpoint: String, segments: usize, filtered: usize },
    Refined { minutes: String },
    Progress,
}

/// The result a worker run has produced so far.
#[derive(Debug, Clone, PartialEq, Eq)]
pub struct ProcessResult {
    pub completed: Option<WorkerOutcome>,
}

impl ProcessResult {
    pub fn new() -> (result: Self)
        ensures
            result.completed.is_none(),
    {
        ProcessResult { completed: None }
    }

    /// Take in one event. A run reports its result once: a second result is a
    /// protocol error and leaves the first in place.
    pub fn record(&mut self, outcome: WorkerOutcome) -> (recorded: Result<(), AppError>)
        ensures
            outcome is Progress ==> recorded is Ok && *final(self) == *old(self),
            !(outcome is Progress) && old(self).completed.is_none() ==> recorded is Ok
                && final(self).completed == Some(outcome),
            !(outcome is Progress) && old(self).completed.is_some() ==> (recorded matches Err(e)
                && e.code@ == "WORKER_PROTOCOL_ERROR"@) && *final(self) == *old(self),
    {
        match outcome {
            WorkerOutcome::Progress => Ok(()),
            _ => {
                if self.completed.is_some() {
                    Err(AppError::new("WORKER_PROTOCOL_ERROR", "완료 이벤트가 두 번 전달되었습니다."))
                } else {
                    self.completed = Some(outcome);
                    Ok(())
                }
            },
        }
    }

    /// Take in one event a worker printed: an envelope in any protocol
    /// version but this host's is refused, and otherwise it is recorded.
    pub fn accept(&mut self, version: u8, outcome: WorkerOutcome) -> (accepted: Result<(), AppError>)
        ensures
            version != PROTOCOL_VERSION ==> (accepted matches Err(e) && e.code@ == "WORKER_PROTOCOL_ERROR"@
                && e.message@ == "unsupported worker protocol version "@ + decimal_spec(version as nat))
                && *final(self) == *old(self),
            version == PROTOCOL_VERSION && outcome is Progress ==> accepted is Ok && *final(self) == *old(self),
            version == PROTOCOL_VERSION && !(outcome is Progress) && old(self).completed.is_none() ==> accepted is Ok
                && final(self).completed == Some(outcome),
            version == PROTOCOL_VERSION && !(outcome is Progress) && old(self).completed.is_some() ==> (accepted matches Err(e)
                && e.code@ == "WORKER_PROTOCOL_ERROR"@) && *final(self) == *old(self),
    {
        match check_protocol_version(version) {
            Ok(()) => self.record(outcome),
            Err(_) => {
                let message = concat("unsupported worker protocol version ", decimal(version as u64).as_str());
                Err(AppError { code: "WORKER_PROTOCOL_ERROR".to_owned(), message })
            },
        }
    }
}

} // verus!

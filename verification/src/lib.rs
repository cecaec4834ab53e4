//! Decision logic of the Galpi meeting transcriber: request validation, the
//! job registry, artifact naming, roster normalisation, worker protocol
//! framing and the recording/WAV bookkeeping, each with its contract.

pub mod job;
pub mod text;
pub mod error;
pub mod engine;
pub mod artifact;
pub mod roster;
pub mod worker;
pub mod process;
pub mod jobs;
pub mod recording;
pub mod paths;
pub mod environment;
pub mod application;
pub mod settings;
pub mod commands;

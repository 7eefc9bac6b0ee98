//! Checkpoint file management for tracking the current running version.
//!
//! The checkpoint file allows the rollup manager to resume from the correct
//! version on restart, rather than starting from version 0.
use vstd::prelude::*;

use crate::config::FileRead;

verus! {

/// Checkpoint data stored in the checkpoint file.
#[derive(Debug)]
pub struct Checkpoint {
    /// Index of the version that is/was running (0-indexed).
    pub version_index: usize,
    /// Binary path of the version, used to validate config compatibility.
    pub binary_path: String,
}

impl Clone for Checkpoint {
    fn clone(&self) -> (r: Self)
        ensures
            r == *self,
    {
        Checkpoint { version_index: self.version_index, binary_path: self.binary_path.clone() }
    }
}

/// Configuration for checkpoint file usage.
#[derive(Debug)]
pub enum CheckpointConfig {
    /// Checkpoint file is enabled at the given path.
    Enabled { path: String },
    /// Checkpoint file is explicitly disabled.
    Disabled,
}

impl Clone for CheckpointConfig {
    fn clone(&self) -> (r: Self)
        ensures
            r == *self,
    {
        match self {
            CheckpointConfig::Enabled { path } => CheckpointConfig::Enabled { path: path.clone() },
            CheckpointConfig::Disabled => CheckpointConfig::Disabled,
        }
    }
}

/// Why a checkpoint could not be read or written.
#[derive(Debug)]
pub enum CheckpointError {
    Read(String),
    Write(String),
    Parse(String),
    Serialize(String),
}

/// What came of writing a checkpoint file.
#[derive(Debug)]
pub enum CheckpointWrite {
    /// The checkpoint could not be encoded; the encoder's message.
    NotSerialized(String),
    /// The file could not be written; the system's message.
    NotWritten(String),
    Written,
}

/// What a checkpoint file means to the manager; `None` is a file that does not exist.
pub open spec fn loaded(file: Option<FileRead<Checkpoint>>) -> Result<
    Option<Checkpoint>,
    CheckpointError,
> {
    match file {
        None => Ok(None),
        Some(FileRead::Parsed(c)) => Ok(Some(c)),
        Some(FileRead::Unreadable(m)) => Err(CheckpointError::Read(m)),
        Some(FileRead::Malformed(m)) => Err(CheckpointError::Parse(m)),
    }
}

/// What came of writing, as the manager reports it.
pub open spec fn written(outcome: CheckpointWrite) -> Result<(), CheckpointError> {
    match outcome {
        CheckpointWrite::NotSerialized(m) => Err(CheckpointError::Serialize(m)),
        CheckpointWrite::NotWritten(m) => Err(CheckpointError::Write(m)),
        CheckpointWrite::Written => Ok(()),
    }
}

/// Load a checkpoint from what was found at its path.
///
/// Returns `Ok(None)` if the file doesn't exist (first run).
pub fn load_checkpoint(file: Option<FileRead<Checkpoint>>) -> (r: Result<
    Option<Checkpoint>,
    CheckpointError,
>)
    ensures
        r == loaded(file),
{
    match file {
        None => Ok(None),
        Some(FileRead::Parsed(checkpoint)) => Ok(Some(checkpoint)),
        Some(FileRead::Unreadable(m)) => Err(CheckpointError::Read(m)),
        Some(FileRead::Malformed(m)) => Err(CheckpointError::Parse(m)),
    }
}

/// Judge what came of writing a checkpoint to its file.
pub fn write_checkpoint(outcome: CheckpointWrite) -> (r: Result<(), CheckpointError>)
    ensures
        r == written(outcome),
{
    match outcome {
        CheckpointWrite::NotSerialized(m) => Err(CheckpointError::Serialize(m)),
        CheckpointWrite::NotWritten(m) => Err(CheckpointError::Write(m)),
        CheckpointWrite::Written => Ok(()),
    }
}

} // verus!

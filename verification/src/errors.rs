//! Error taxonomy: every failure is recovered locally, so these types only
//! describe a single task's failure, never the batch's.

use vstd::prelude::*;

verus! {

/// A source image could not be decoded: the content was not a recognizable
/// image encoding, or its layout is not supported.
#[derive(Debug)]
pub struct DecodeError {
    /// Human-readable description of the failure.
    pub message: String,
}

/// An encoder rejected the pixel layout or could not produce output bytes.
#[derive(Debug)]
pub struct EncodeError {
    /// Human-readable description of the failure.
    pub message: String,
}

/// The failure of one task's in-memory pipeline, by stage.
#[derive(Debug)]
pub enum TaskError {
    /// The source bytes could not be decoded.
    Decode(DecodeError),
    /// The decoded image could not be encoded for the target format.
    Encode(EncodeError),
}

impl TaskError {
    /// The description carried by the underlying failure.
    pub fn message(&self) -> (r: &String)
        ensures
            r@ == self.message_spec(),
    {
        match self {
            TaskError::Decode(e) => &e.message,
            TaskError::Encode(e) => &e.message,
        }
    }

    /// The description carried by the underlying failure.
    pub open spec fn message_spec(&self) -> Seq<char> {
        match self {
            TaskError::Decode(e) => e.message@,
            TaskError::Encode(e) => e.message@,
        }
    }
}

/// The stage of the per-task pipeline at which a task failed.
#[derive(Clone, Copy, Debug, PartialEq, Eq, Structural)]
pub enum Stage {
    /// Reading the source file.
    Load,
    /// Decoding the source bytes.
    Decode,
    /// Encoding for the target format.
    Encode,
    /// Writing the output file.
    Write,
}

/// One failed task, kept for observability: the task's name, the stage that
/// failed, and the reported message.
#[derive(Debug)]
pub struct TaskFailure {
    /// The `name` of the failing task.
    pub name: String,
    /// The stage that failed.
    pub stage: Stage,
    /// The failure description.
    pub message: String,
}

} // verus!

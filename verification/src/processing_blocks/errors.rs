//! Errors that can occur when handling processing blocks.

use crate::error::{classify_spec, starts_with, ErrorKind};
use crate::foreign::Rs2Failure;
use crate::kind::Rs2Exception;
use vstd::prelude::*;

verus! {

/// The errors that can occur when creating a processing block, one for each
/// step of the creation.
#[derive(Debug, Clone, PartialEq, Eq)]
pub enum ProcessingBlockConstructionError {
    /// Could not create the processing block.
    CouldNotCreateProcessingBlock(Rs2Exception, String),
    /// Could not create the processing queue.
    CouldNotCreateProcessingQueue(Rs2Exception, String),
    /// Could not start processing the queue.
    CouldNotStartProcessingQueue(Rs2Exception, String),
}

/// The error that can occur when a processing block processes a frame.
#[derive(Debug, Clone, PartialEq, Eq)]
pub struct ProcessFrameError {
    /// The kind of native failure that occurred.
    pub kind: Rs2Exception,
    /// The context in which the error occurred.
    pub context: String,
}

impl ProcessFrameError {
    /// The error that stands for a native failure.
    pub open spec fn of(failure: Rs2Failure) -> ProcessFrameError {
        ProcessFrameError { kind: failure.kind, context: failure.message }
    }

    /// The error that stands for a native failure.
    pub fn from_failure(failure: Rs2Failure) -> (error: ProcessFrameError)
        ensures
            error == Self::of(failure),
    {
        ProcessFrameError { kind: failure.kind, context: failure.message }
    }

    /// Whether the error says that no frame arrived in time.
    pub fn is_timeout(&self) -> (timeout: bool)
        ensures
            timeout == (classify_spec(self.context@) == ErrorKind::Timeout),
    {
        starts_with(self.context.as_str(), "Frame didn't arrive within ")
    }
}

} // verus!

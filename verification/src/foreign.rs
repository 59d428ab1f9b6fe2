//! The calls this library asks of the native runtime, and what comes back.
//!
//! The library never reaches the native runtime itself. Each operation names
//! the call it needs next as a [`ForeignCall`]; whoever drives the operation
//! performs the call and hands back a [`ForeignReply`].

use crate::frame::FrameCategory;
use crate::handle::Handle;
use crate::kind::{Extension, Rs2Exception, Rs2Option, Rs2StreamKind};
use crate::logging::Rs2LogSeverity;
use vstd::prelude::*;

verus! {

/// What a native error says of itself: its kind and its message.
#[derive(Debug, Clone, PartialEq, Eq)]
pub struct Rs2Failure {
    /// The kind of failure.
    pub kind: Rs2Exception,
    /// The message of the native error.
    pub message: String,
}

/// One call into the native runtime.
#[derive(Debug, Clone, Copy, PartialEq, Eq, Structural)]
pub enum ForeignCall {
    /// Give up one reference to a frame.
    ReleaseFrame { frame: Handle },
    /// Ask the runtime to keep a frame beyond its pool's turnover.
    KeepFrame { frame: Handle },
    /// Count the frames in a bundle.
    EmbeddedFramesCount { composite: Handle },
    /// Take the frame at `index` out of a bundle.
    ExtractFrame { composite: Handle, index: usize },
    /// Ask whether a frame can be taken for what `extension` names.
    IsFrameExtendableTo { frame: Handle, extension: Extension },
    /// Get the stream profile of a frame.
    GetFrameStreamProfile { frame: Handle },
    /// Read the stream kind out of a stream profile.
    GetStreamProfileData { profile: Handle },
    /// Read the decoded data that a category keeps of its frame.
    GetFrameData { frame: Handle, category: FrameCategory },
    /// Create an alignment stage.
    CreateAlign { align_to: Rs2StreamKind },
    /// Create a decimation stage.
    CreateDecimationFilterBlock,
    /// Create a spatial filter stage.
    CreateSpatialFilterBlock,
    /// Create a threshold stage.
    CreateThreshold,
    /// Create a bounded frame queue.
    CreateFrameQueue { capacity: i32 },
    /// Bind a queue to a stage, so that the stage's output lands in it.
    StartProcessingQueue { block: Handle, queue: Handle },
    /// Submit a frame to a stage.
    ProcessFrame { block: Handle, frame: Handle },
    /// Block until a frame is in the queue, or the time is up.
    WaitForFrame { queue: Handle, timeout_ms: u32 },
    /// Look once whether a frame is in the queue.
    PollForFrame { queue: Handle },
    /// Ask whether a stage has an option.
    SupportsOption { block: Handle, option: Rs2Option },
    /// Ask whether an option of a stage can only be read.
    IsOptionReadOnly { block: Handle, option: Rs2Option },
    /// Set an option of a stage to the value the caller holds.
    SetOption { block: Handle, option: Rs2Option },
    /// Destroy a frame queue.
    DeleteFrameQueue { queue: Handle },
    /// Destroy a stage.
    DeleteProcessingBlock { block: Handle },
    /// Read the message of a native error.
    GetErrorMessage { error: Handle },
    /// Free a native error.
    FreeError { error: Handle },
    /// Count the devices in a list.
    GetDeviceCount { list: Handle },
    /// Create the device at `index` of a list.
    CreateDevice { list: Handle, index: usize },
    /// Destroy a device list.
    DeleteDeviceList { list: Handle },
    /// Forward the runtime's log messages to a callback.
    LogToCallback { min_severity: Rs2LogSeverity },
    /// Write the runtime's log messages to the console.
    LogToConsole { min_severity: Rs2LogSeverity },
    /// Write the runtime's log messages to the file the caller names.
    LogToFile { min_severity: Rs2LogSeverity },
    /// Stop all logging.
    ResetLogger,
    /// Roll the log file over once it reaches half of `max_size` bytes.
    EnableRollingLogFile { max_size: u32 },
}

/// What a call into the native runtime gave back.
#[derive(Debug, Clone, PartialEq, Eq)]
pub enum ForeignReply {
    /// The call set its error slot.
    Failed(Rs2Failure),
    /// The call succeeded and returns nothing.
    Done,
    /// The call succeeded and returned a flag or an ordinal.
    Value(i32),
    /// The call succeeded and returned a count.
    Count(usize),
    /// The call succeeded and returned a non-null handle.
    Object(Handle),
    /// The call succeeded and returned the kind of a stream.
    Stream(Rs2StreamKind),
    /// The call succeeded and returned a text.
    Text(String),
    /// A poll succeeded: its flag, and the frame it deposited, if any.
    Polled { ready: i32, frame: Option<Handle> },
}

/// The shape of what a call returns when it succeeds.
#[derive(Debug, Clone, Copy, PartialEq, Eq, Structural)]
pub enum ReplyShape {
    /// Nothing.
    Done,
    /// A flag or an ordinal.
    Value,
    /// A count.
    Count,
    /// A non-null handle.
    Object,
    /// The kind of a stream.
    Stream,
    /// A text.
    Text,
    /// A poll's flag and frame.
    Polled,
}

impl ForeignCall {
    /// The shape of what this call returns when it succeeds.
    pub open spec fn shape_spec(self) -> ReplyShape {
        match self {
            ForeignCall::EmbeddedFramesCount { .. } | ForeignCall::GetDeviceCount { .. } => {
                ReplyShape::Count
            },
            ForeignCall::ExtractFrame { .. }
            | ForeignCall::GetFrameStreamProfile { .. }
            | ForeignCall::CreateAlign { .. }
            | ForeignCall::CreateDecimationFilterBlock
            | ForeignCall::CreateSpatialFilterBlock
            | ForeignCall::CreateThreshold
            | ForeignCall::CreateFrameQueue { .. }
            | ForeignCall::WaitForFrame { .. }
            | ForeignCall::CreateDevice { .. } => ReplyShape::Object,
            ForeignCall::IsFrameExtendableTo { .. }
            | ForeignCall::SupportsOption { .. }
            | ForeignCall::IsOptionReadOnly { .. } => ReplyShape::Value,
            ForeignCall::GetStreamProfileData { .. } => ReplyShape::Stream,
            ForeignCall::GetErrorMessage { .. } => ReplyShape::Text,
            ForeignCall::PollForFrame { .. } => ReplyShape::Polled,
            _ => ReplyShape::Done,
        }
    }

    /// Whether `reply` can answer this call: it is a failure, or it has the
    /// shape of this call's result. A poll that says a frame is ready brings
    /// the frame.
    pub open spec fn admits_spec(self, reply: ForeignReply) -> bool {
        match reply {
            ForeignReply::Failed(_) => true,
            ForeignReply::Done => self.shape_spec() == ReplyShape::Done,
            ForeignReply::Value(_) => self.shape_spec() == ReplyShape::Value,
            ForeignReply::Count(_) => self.shape_spec() == ReplyShape::Count,
            ForeignReply::Object(_) => self.shape_spec() == ReplyShape::Object,
            ForeignReply::Stream(_) => self.shape_spec() == ReplyShape::Stream,
            ForeignReply::Text(_) => self.shape_spec() == ReplyShape::Text,
            ForeignReply::Polled { ready, frame } => self.shape_spec() == ReplyShape::Polled && (
            ready != 0 ==> frame is Some),
        }
    }

    /// The shape of what this call returns when it succeeds.
    pub fn shape(&self) -> (shape: ReplyShape)
        ensures
            shape == self.shape_spec(),
    {
        match self {
            ForeignCall::EmbeddedFramesCount { .. } | ForeignCall::GetDeviceCount { .. } => {
                ReplyShape::Count
            },
            ForeignCall::ExtractFrame { .. }
            | ForeignCall::GetFrameStreamProfile { .. }
            | ForeignCall::CreateAlign { .. }
            | ForeignCall::CreateDecimationFilterBlock
            | ForeignCall::CreateSpatialFilterBlock
            | ForeignCall::CreateThreshold
            | ForeignCall::CreateFrameQueue { .. }
            | ForeignCall::WaitForFrame { .. }
            | ForeignCall::CreateDevice { .. } => ReplyShape::Object,
            ForeignCall::IsFrameExtendableTo { .. }
            | ForeignCall::SupportsOption { .. }
            | ForeignCall::IsOptionReadOnly { .. } => ReplyShape::Value,
            ForeignCall::GetStreamProfileData { .. } => ReplyShape::Stream,
            ForeignCall::GetErrorMessage { .. } => ReplyShape::Text,
            ForeignCall::PollForFrame { .. } => ReplyShape::Polled,
            _ => ReplyShape::Done,
        }
    }

    /// Whether `reply` can answer this call.
    pub fn admits(&self, reply: &ForeignReply) -> (admitted: bool)
        ensures
            admitted == self.admits_spec(*reply),
    {
        let shape = self.shape();
        match reply {
            ForeignReply::Failed(_) => true,
            ForeignReply::Done => shape == ReplyShape::Done,
            ForeignReply::Value(_) => shape == ReplyShape::Value,
            ForeignReply::Count(_) => shape == ReplyShape::Count,
            ForeignReply::Object(_) => shape == ReplyShape::Object,
            ForeignReply::Stream(_) => shape == ReplyShape::Stream,
            ForeignReply::Text(_) => shape == ReplyShape::Text,
            ForeignReply::Polled { ready, frame } => shape == ReplyShape::Polled && (*ready == 0
                || frame.is_some()),
        }
    }
}

impl ForeignReply {
    /// Whether the reply can answer a wait: it is a failure, or brings the
    /// frame that arrived.
    pub open spec fn answers_wait(&self) -> bool {
        self is Failed || self is Object
    }

    /// Whether the reply can answer a poll: it is a failure, or brings the
    /// poll's flag, and with a set flag the frame that was ready.
    pub open spec fn answers_poll(&self) -> bool {
        match self {
            ForeignReply::Failed(_) => true,
            ForeignReply::Polled { ready, frame } => *ready != 0 ==> frame is Some,
            _ => false,
        }
    }

    /// The failure of a `Failed` reply.
    pub open spec fn failure_spec(&self) -> Option<Rs2Failure> {
        match self {
            ForeignReply::Failed(failure) => Some(*failure),
            _ => None,
        }
    }

    /// Whether the reply says yes: it brings a flag, and the flag is set. A
    /// failed call says no.
    pub open spec fn is_yes_spec(&self) -> bool {
        match self {
            ForeignReply::Value(flag) => *flag != 0,
            _ => false,
        }
    }

    /// Whether the reply says yes: it brings a flag, and the flag is set.
    pub fn is_yes(&self) -> (yes: bool)
        ensures
            yes == self.is_yes_spec(),
    {
        match self {
            ForeignReply::Value(flag) => *flag != 0,
            _ => false,
        }
    }

    /// The failure of a `Failed` reply; `None` for every other reply.
    pub fn into_failure(self) -> (failure: Option<Rs2Failure>)
        ensures
            failure == self.failure_spec(),
    {
        match self {
            ForeignReply::Failed(failure) => Some(failure),
            _ => None,
        }
    }
}

} // verus!

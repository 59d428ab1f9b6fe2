//! The processing block that smooths depth frames while it keeps their edges.

use crate::foreign::{ForeignCall, ForeignReply};
use crate::frame::{Frame, FrameCategory, FrameConstruction};
use crate::kind::Rs2Option;
use crate::processing_blocks::errors::ProcessFrameError;
use crate::processing_blocks::options::{
    OptionSetting, QueryStage, ReadOnlyQuery, SettingStage,
};
use crate::processing_blocks::processing_block::{
    duration_millis, saturated_millis, BlockConstruction, BlockKind, ProcessingBlock,
};
use std::task::Poll;
use std::time::Duration;
use vstd::prelude::*;

verus! {

/// A spatial filter: its stage, and the queue that the filtered depth frames
/// land in.
#[derive(Debug, PartialEq, Eq)]
pub struct Spatial {
    block: ProcessingBlock,
}

impl Spatial {
    /// The stage and queue that this block is made of.
    pub closed spec fn inner(&self) -> ProcessingBlock {
        self.block
    }

    /// Starts the creation of a spatial filter whose queue holds up to
    /// `processing_queue_size` frames.
    pub fn new(processing_queue_size: i32) -> (construction: BlockConstruction)
        ensures
            construction == BlockConstruction::start(BlockKind::Spatial, processing_queue_size),
    {
        ProcessingBlock::new(BlockKind::Spatial, processing_queue_size)
    }

    /// Takes a block that was built as a spatial filter; a block of another
    /// kind is handed back.
    pub fn from_block(block: ProcessingBlock) -> (result: Result<Spatial, ProcessingBlock>)
        ensures
            (match result {
                Ok(typed) => block.kind_spec() is Spatial && typed.inner() == block,
                Err(other) => !(block.kind_spec() is Spatial) && other == block,
            }),
    {
        match block.kind() {
            BlockKind::Spatial => Ok(Spatial { block }),
            _ => Err(block),
        }
    }

    /// The outcome of a submission, from the reply to it.
    pub fn queue_reply(reply: ForeignReply) -> (result: Result<(), ProcessFrameError>)
        ensures
            result == ProcessingBlock::queue_spec(reply),
    {
        ProcessingBlock::queue_reply(reply)
    }

    /// The call that blocks until the block has put a frame into its queue,
    /// for `timeout` at most.
    pub fn wait(&mut self, timeout: Duration) -> (call: ForeignCall)
        ensures
            final(self).inner() == old(self).inner(),
            call == (ForeignCall::WaitForFrame {
                queue: old(self).inner().queue_handle(),
                timeout_ms: saturated_millis(duration_millis(timeout)),
            }),
    {
        self.block.wait(timeout)
    }

    /// The call that looks once whether a frame is in the block's queue.
    pub fn poll(&mut self) -> (call: ForeignCall)
        ensures
            final(self).inner() == old(self).inner(),
            call == (ForeignCall::PollForFrame { queue: old(self).inner().queue_handle() }),
    {
        self.block.poll()
    }

    /// Destroys the block: first its queue, then its stage.
    pub fn release(self) -> (calls: (ForeignCall, ForeignCall))
        ensures
            calls.0 == (ForeignCall::DeleteFrameQueue { queue: self.inner().queue_handle() }),
            calls.1 == (ForeignCall::DeleteProcessingBlock { block: self.inner().block() }),
    {
        self.block.release()
    }

    /// The call that submits `frame` to the block. The frame gives up its
    /// handle to the block: no release is owed for it any more.
    pub fn queue(&mut self, frame: Frame) -> (call: ForeignCall)
        requires
            frame.frame.handle() is Some,
            frame.category == FrameCategory::Depth,
        ensures
            final(self).inner() == old(self).inner(),
            call == (ForeignCall::ProcessFrame {
                block: old(self).inner().block(),
                frame: frame.frame.handle().unwrap(),
            }),
    {
        let handle = frame.get_owned_raw();
        self.block.queue(handle)
    }

    /// What a wait brought: the construction of a depth frame from the handle
    /// that was taken out of the queue, or the error that ended the wait.
    pub fn wait_reply(reply: ForeignReply) -> (result: Result<
        FrameConstruction,
        ProcessFrameError,
    >)
        requires
            reply.answers_wait(),
        ensures
            result == (match ProcessingBlock::wait_spec(reply) {
                Ok(frame) => Ok(FrameConstruction::start(frame, FrameCategory::Depth)),
                Err(error) => Err(error),
            }),
    {
        match ProcessingBlock::wait_reply(reply) {
            Ok(frame) => Ok(Frame::try_from_handle(frame, FrameCategory::Depth)),
            Err(error) => Err(error),
        }
    }

    /// What a look into the queue found: nothing yet, or the construction of
    /// a depth frame from the one handle that was taken out of the queue.
    pub fn poll_reply(reply: ForeignReply) -> (result: Result<
        Poll<FrameConstruction>,
        ProcessFrameError,
    >)
        requires
            reply.answers_poll(),
        ensures
            result == (match ProcessingBlock::poll_spec(reply) {
                Ok(Poll::Ready(frame)) => Ok(
                    Poll::Ready(FrameConstruction::start(frame, FrameCategory::Depth)),
                ),
                Ok(Poll::Pending) => Ok(Poll::Pending),
                Err(error) => Err(error),
            }),
    {
        match ProcessingBlock::poll_reply(reply) {
            Ok(Poll::Ready(frame)) => Ok(Poll::Ready(Frame::try_from_handle(frame, FrameCategory::Depth))),
            Ok(Poll::Pending) => Ok(Poll::Pending),
            Err(error) => Err(error),
        }
    }

    /// The call that asks whether the block has `option`.
    pub fn supports_option(&self, option: Rs2Option) -> (call: ForeignCall)
        ensures
            call == (ForeignCall::SupportsOption { block: self.inner().block(), option }),
    {
        ForeignCall::SupportsOption { block: self.block.stage(), option }
    }

    /// Whether the block has the option, from the reply to `supports_option`:
    /// it has it if the call succeeded and said so.
    pub fn supports_option_reply(reply: &ForeignReply) -> (supported: bool)
        ensures
            supported == reply.is_yes_spec(),
    {
        reply.is_yes()
    }

    /// Starts to ask whether `option` can only be read. An option that the
    /// block does not have is not read-only.
    pub fn is_option_read_only(&self, option: Rs2Option) -> (query: ReadOnlyQuery)
        ensures
            query == ReadOnlyQuery::start(self.inner().block(), option),
    {
        ReadOnlyQuery { block: self.block.stage(), option, stage: QueryStage::Supports }
    }

    /// Starts to set `option` to the value that the caller holds. An option
    /// that the block does not have, or that is read-only, is refused before
    /// any setting call is made.
    pub fn set_option(&mut self, option: Rs2Option) -> (setting: OptionSetting)
        ensures
            final(self).inner() == old(self).inner(),
            setting == OptionSetting::start(old(self).inner().block(), option),
    {
        OptionSetting { block: self.block.stage(), option, stage: SettingStage::Supports }
    }
}

} // verus!

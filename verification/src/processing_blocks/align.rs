//! The processing block that aligns the frames of a bundle to one stream.

use crate::foreign::{ForeignCall, ForeignReply};
use crate::frame::CompositeFrame;
use crate::kind::Rs2StreamKind;
use crate::processing_blocks::errors::ProcessFrameError;
use crate::processing_blocks::processing_block::{
    duration_millis, saturated_millis, BlockConstruction, BlockKind, ProcessingBlock,
};
use std::task::Poll;
use std::time::Duration;
use vstd::prelude::*;

verus! {

/// An alignment block: its stage, and the queue that the aligned bundles land
/// in.
#[derive(Debug, PartialEq, Eq)]
pub struct Align {
    block: ProcessingBlock,
}

impl Align {
    /// The stage and queue that this block is made of.
    pub closed spec fn inner(&self) -> ProcessingBlock {
        self.block
    }

    /// Starts the creation of a block that aligns to the stream `align_to`,
    /// whose queue holds up to `processing_queue_size` bundles.
    pub fn new(align_to: Rs2StreamKind, processing_queue_size: i32) -> (construction: BlockConstruction)
        ensures
            construction == BlockConstruction::start(BlockKind::Align { align_to }, processing_queue_size),
    {
        ProcessingBlock::new(BlockKind::Align { align_to }, processing_queue_size)
    }

    /// Takes a block that was built as an alignment block; a block of another
    /// kind is handed back.
    pub fn from_block(block: ProcessingBlock) -> (result: Result<Align, ProcessingBlock>)
        ensures
            (match result {
                Ok(typed) => block.kind_spec() is Align && typed.inner() == block,
                Err(other) => !(block.kind_spec() is Align) && other == block,
            }),
    {
        match block.kind() {
            BlockKind::Align { .. } => Ok(Align { block }),
            _ => Err(block),
        }
    }

    /// The outcome of a submission, from the reply to it.
    pub fn queue_reply(reply: ForeignReply) -> (result: Result<(), ProcessFrameError>)
        ensures
            result == ProcessingBlock::queue_spec(reply),
    {
        ProcessingBlock::queue_reply(reply)
    }

    /// The call that blocks until the block has put a frame into its queue,
    /// for `timeout` at most.
    pub fn wait(&mut self, timeout: Duration) -> (call: ForeignCall)
        ensures
            final(self).inner() == old(self).inner(),
            call == (ForeignCall::WaitForFrame {
                queue: old(self).inner().queue_handle(),
                timeout_ms: saturated_millis(duration_millis(timeout)),
            }),
    {
        self.block.wait(timeout)
    }

    /// The call that looks once whether a frame is in the block's queue.
    pub fn poll(&mut self) -> (call: ForeignCall)
        ensures
            final(self).inner() == old(self).inner(),
            call == (ForeignCall::PollForFrame { queue: old(self).inner().queue_handle() }),
    {
        self.block.poll()
    }

    /// Destroys the block: first its queue, then its stage.
    pub fn release(self) -> (calls: (ForeignCall, ForeignCall))
        ensures
            calls.0 == (ForeignCall::DeleteFrameQueue { queue: self.inner().queue_handle() }),
            calls.1 == (ForeignCall::DeleteProcessingBlock { block: self.inner().block() }),
    {
        self.block.release()
    }

    /// The call that submits the bundle `frames` to the block. The bundle
    /// gives up its handle to the block: no release is owed for it any more.
    pub fn queue(&mut self, frames: CompositeFrame) -> (call: ForeignCall)
        requires
            frames.handle() is Some,
        ensures
            final(self).inner() == old(self).inner(),
            call == (ForeignCall::ProcessFrame {
                block: old(self).inner().block(),
                frame: frames.handle().unwrap(),
            }),
    {
        let handle = frames.get_owned_raw();
        self.block.queue(handle)
    }

    /// What a wait brought: the aligned bundle, which owns the handle that was
    /// taken out of the queue, or the error that ended the wait.
    pub fn wait_reply(reply: ForeignReply) -> (result: Result<CompositeFrame, ProcessFrameError>)
        requires
            reply.answers_wait(),
        ensures
            (match ProcessingBlock::wait_spec(reply) {
                Ok(frame) => result == Ok::<CompositeFrame, ProcessFrameError>(
                    CompositeFrame::owning(frame),
                ),
                Err(error) => result == Err::<CompositeFrame, ProcessFrameError>(error),
            }),
    {
        match ProcessingBlock::wait_reply(reply) {
            Ok(frame) => Ok(CompositeFrame::from(frame)),
            Err(error) => Err(error),
        }
    }

    /// What a look into the queue found: nothing yet, or the aligned bundle,
    /// which owns the one handle that was taken out of the queue.
    pub fn poll_reply(reply: ForeignReply) -> (result: Result<
        Poll<CompositeFrame>,
        ProcessFrameError,
    >)
        requires
            reply.answers_poll(),
        ensures
            (match ProcessingBlock::poll_spec(reply) {
                Ok(Poll::Ready(frame)) => result == Ok::<Poll<CompositeFrame>, ProcessFrameError>(
                    Poll::Ready(CompositeFrame::owning(frame)),
                ),
                Ok(Poll::Pending) => result == Ok::<Poll<CompositeFrame>, ProcessFrameError>(
                    Poll::Pending,
                ),
                Err(error) => result == Err::<Poll<CompositeFrame>, ProcessFrameError>(error),
            }),
    {
        match ProcessingBlock::poll_reply(reply) {
            Ok(Poll::Ready(frame)) => Ok(Poll::Ready(CompositeFrame::from(frame))),
            Ok(Poll::Pending) => Ok(Poll::Pending),
            Err(error) => Err(error),
        }
    }
}

} // verus!

//! The stage and queue that every processing block is made of.

use crate::foreign::{ForeignCall, ForeignReply};
use crate::handle::Handle;
use crate::kind::Rs2StreamKind;
use crate::processing_blocks::errors::{ProcessFrameError, ProcessingBlockConstructionError};
use std::task::Poll;
use std::time::Duration;
use vstd::prelude::*;

verus! {

/// The kinds of processing block, each with what its creation needs.
#[derive(Debug, Clone, Copy, PartialEq, Eq, Structural)]
pub enum BlockKind {
    /// Aligns the frames of a bundle to one stream.
    Align { align_to: Rs2StreamKind },
    /// Reduces the resolution of depth frames.
    Decimate,
    /// Smooths depth frames while keeping edges.
    Spatial,
    /// Removes depth values outside a range.
    Threshold,
}

impl BlockKind {
    /// The call that creates the stage of a block of this kind.
    pub open spec fn create_call_spec(self) -> ForeignCall {
        match self {
            BlockKind::Align { align_to } => ForeignCall::CreateAlign { align_to },
            BlockKind::Decimate => ForeignCall::CreateDecimationFilterBlock,
            BlockKind::Spatial => ForeignCall::CreateSpatialFilterBlock,
            BlockKind::Threshold => ForeignCall::CreateThreshold,
        }
    }

    /// The call that creates the stage of a block of this kind.
    pub fn create_block(&self) -> (call: ForeignCall)
        ensures
            call == self.create_call_spec(),
    {
        match self {
            BlockKind::Align { align_to } => ForeignCall::CreateAlign { align_to: *align_to },
            BlockKind::Decimate => ForeignCall::CreateDecimationFilterBlock,
            BlockKind::Spatial => ForeignCall::CreateSpatialFilterBlock,
            BlockKind::Threshold => ForeignCall::CreateThreshold,
        }
    }
}

/// `std::task::Poll`, declared with its two variants: `Ready`, which holds a
/// value, and `Pending`. Nothing more is claimed of it.
#[verifier::external_type_specification]
#[verifier::reject_recursive_types(T)]
pub struct ExPoll<T>(Poll<T>);

/// The whole milliseconds in a duration: what `Duration::as_millis` returns.
pub uninterp spec fn duration_millis(timeout: Duration) -> u128;

/// `Duration::as_millis` returns the total number of whole milliseconds that
/// the duration holds. The number is a function of the duration alone, and is
/// named here, not written out.
pub assume_specification[ Duration::as_millis ](timeout: &Duration) -> (millis: u128)
    ensures
        millis == duration_millis(*timeout),
;

/// A processing stage with the queue that its output lands in. The block owns
/// both, and the queue is bound to the stage.
#[derive(Debug, PartialEq, Eq)]
pub struct ProcessingBlock {
    processing_block: Handle,
    processing_queue: Handle,
    kind: BlockKind,
}

/// How far the creation of a block has come.
#[derive(Debug, Clone, Copy, PartialEq, Eq, Structural)]
pub enum ConstructionStage {
    /// The stage has to be created.
    CreateBlock,
    /// The queue has to be created.
    CreateQueue { block: Handle },
    /// The queue has to be bound to the stage.
    StartQueue { block: Handle, queue: Handle },
}

/// The creation of a processing block, between two calls.
#[derive(Debug, Clone, Copy, PartialEq, Eq, Structural)]
pub struct BlockConstruction {
    /// The kind of block that is created.
    pub kind: BlockKind,
    /// The capacity of the block's queue.
    pub queue_size: i32,
    /// How far the creation has come.
    pub stage: ConstructionStage,
}

/// What a reply makes of the creation of a block.
#[derive(Debug, PartialEq, Eq)]
pub enum BlockProgress {
    /// Another call is needed.
    Pending(BlockConstruction),
    /// The block is running: its queue is bound to its stage.
    Built(ProcessingBlock),
    /// A step failed. What earlier steps created is not destroyed.
    Failed(ProcessingBlockConstructionError),
}

impl BlockConstruction {
    /// The creation of a block of `kind` with a queue of `queue_size`, before
    /// its first call.
    pub open spec fn start(kind: BlockKind, queue_size: i32) -> BlockConstruction {
        BlockConstruction { kind, queue_size, stage: ConstructionStage::CreateBlock }
    }

    /// The creation at another stage.
    pub open spec fn at_stage(self, stage: ConstructionStage) -> BlockConstruction {
        BlockConstruction { kind: self.kind, queue_size: self.queue_size, stage }
    }

    /// The call that the creation needs next.
    pub open spec fn next_call_spec(self) -> ForeignCall {
        match self.stage {
            ConstructionStage::CreateBlock => self.kind.create_call_spec(),
            ConstructionStage::CreateQueue { .. } => ForeignCall::CreateFrameQueue {
                capacity: self.queue_size,
            },
            ConstructionStage::StartQueue { block, queue } => ForeignCall::StartProcessingQueue {
                block,
                queue,
            },
        }
    }

    /// What the creation becomes when its call is answered by `reply`: the
    /// stage is created, then the queue, then the queue is bound to the stage,
    /// and the failure of a step ends the creation with the error of that
    /// step. A reply that does not answer the call leaves the creation where
    /// it is.
    pub open spec fn step(self, reply: ForeignReply) -> BlockProgress {
        match self.stage {
            ConstructionStage::CreateBlock => match reply {
                ForeignReply::Failed(failure) => BlockProgress::Failed(
                    ProcessingBlockConstructionError::CouldNotCreateProcessingBlock(
                        failure.kind,
                        failure.message,
                    ),
                ),
                ForeignReply::Object(block) => BlockProgress::Pending(
                    self.at_stage(ConstructionStage::CreateQueue { block }),
                ),
                _ => BlockProgress::Pending(self),
            },
            ConstructionStage::CreateQueue { block } => match reply {
                ForeignReply::Failed(failure) => BlockProgress::Failed(
                    ProcessingBlockConstructionError::CouldNotCreateProcessingQueue(
                        failure.kind,
                        failure.message,
                    ),
                ),
                ForeignReply::Object(queue) => BlockProgress::Pending(
                    self.at_stage(ConstructionStage::StartQueue { block, queue }),
                ),
                _ => BlockProgress::Pending(self),
            },
            ConstructionStage::StartQueue { block, queue } => match reply {
                ForeignReply::Failed(failure) => BlockProgress::Failed(
                    ProcessingBlockConstructionError::CouldNotStartProcessingQueue(
                        failure.kind,
                        failure.message,
                    ),
                ),
                ForeignReply::Done => BlockProgress::Built(
                    ProcessingBlock::running(block, queue, self.kind),
                ),
                _ => BlockProgress::Pending(self),
            },
        }
    }

    /// The call that the creation needs next.
    pub fn next_call(&self) -> (call: ForeignCall)
        ensures
            call == self.next_call_spec(),
    {
        match self.stage {
            ConstructionStage::CreateBlock => self.kind.create_block(),
            ConstructionStage::CreateQueue { .. } => ForeignCall::CreateFrameQueue {
                capacity: self.queue_size,
            },
            ConstructionStage::StartQueue { block, queue } => ForeignCall::StartProcessingQueue {
                block,
                queue,
            },
        }
    }

    /// Takes the reply to the call that `next_call` gave.
    pub fn advance(self, reply: ForeignReply) -> (progress: BlockProgress)
        ensures
            progress == self.step(reply),
    {
        match self.stage {
            ConstructionStage::CreateBlock => match reply {
                ForeignReply::Failed(failure) => BlockProgress::Failed(
                    ProcessingBlockConstructionError::CouldNotCreateProcessingBlock(
                        failure.kind,
                        failure.message,
                    ),
                ),
                ForeignReply::Object(block) => BlockProgress::Pending(
                    BlockConstruction {
                        kind: self.kind,
                        queue_size: self.queue_size,
                        stage: ConstructionStage::CreateQueue { block },
                    },
                ),
                _ => BlockProgress::Pending(self),
            },
            ConstructionStage::CreateQueue { block } => match reply {
                ForeignReply::Failed(failure) => BlockProgress::Failed(
                    ProcessingBlockConstructionError::CouldNotCreateProcessingQueue(
                        failure.kind,
                        failure.message,
                    ),
                ),
                ForeignReply::Object(queue) => BlockProgress::Pending(
                    BlockConstruction {
                        kind: self.kind,
                        queue_size: self.queue_size,
                        stage: ConstructionStage::StartQueue { block, queue },
                    },
                ),
                _ => BlockProgress::Pending(self),
            },
            ConstructionStage::StartQueue { block, queue } => match reply {
                ForeignReply::Failed(failure) => BlockProgress::Failed(
                    ProcessingBlockConstructionError::CouldNotStartProcessingQueue(
                        failure.kind,
                        failure.message,
                    ),
                ),
                ForeignReply::Done => BlockProgress::Built(
                    ProcessingBlock { processing_block: block, processing_queue: queue, kind: self.kind },
                ),
                _ => BlockProgress::Pending(self),
            },
        }
    }
}

/// The time to wait in milliseconds, as the native runtime takes it: what
/// does not fit is the longest time it can take.
pub open spec fn saturated_millis(timeout_millis: u128) -> u32 {
    if timeout_millis > u32::MAX {
        u32::MAX
    } else {
        timeout_millis as u32
    }
}

impl ProcessingBlock {
    /// The stage.
    pub closed spec fn block(&self) -> Handle {
        self.processing_block
    }

    /// The queue that the stage's output lands in.
    pub closed spec fn queue_handle(&self) -> Handle {
        self.processing_queue
    }

    /// The kind of the block.
    pub closed spec fn kind_spec(&self) -> BlockKind {
        self.kind
    }

    /// The running block of `kind` made of `block` and `queue`.
    pub closed spec fn running(block: Handle, queue: Handle, kind: BlockKind) -> ProcessingBlock {
        ProcessingBlock { processing_block: block, processing_queue: queue, kind }
    }

    /// What `running` holds.
    pub broadcast proof fn lemma_running(block: Handle, queue: Handle, kind: BlockKind)
        ensures
            (#[trigger] Self::running(block, queue, kind)).block() == block,
            Self::running(block, queue, kind).queue_handle() == queue,
            Self::running(block, queue, kind).kind_spec() == kind,
    {
    }

    /// What `wait_reply` makes of a reply.
    pub open spec fn wait_spec(reply: ForeignReply) -> Result<Handle, ProcessFrameError> {
        match reply {
            ForeignReply::Failed(failure) => Err(ProcessFrameError::of(failure)),
            ForeignReply::Object(frame) => Ok(frame),
            _ => arbitrary(),
        }
    }

    /// What `poll_reply` makes of a reply.
    pub open spec fn poll_spec(reply: ForeignReply) -> Result<Poll<Handle>, ProcessFrameError> {
        match reply {
            ForeignReply::Failed(failure) => Err(ProcessFrameError::of(failure)),
            ForeignReply::Polled { ready, frame } => if ready == 0 {
                Ok(Poll::Pending)
            } else {
                Ok(Poll::Ready(frame.unwrap()))
            },
            _ => arbitrary(),
        }
    }

    /// What `queue_reply` makes of a reply.
    pub open spec fn queue_spec(reply: ForeignReply) -> Result<(), ProcessFrameError> {
        match reply {
            ForeignReply::Failed(failure) => Err(ProcessFrameError::of(failure)),
            _ => Ok(()),
        }
    }

    /// Starts the creation of a block of `kind` whose queue holds up to
    /// `processing_queue_size` frames.
    pub fn new(kind: BlockKind, processing_queue_size: i32) -> (construction: BlockConstruction)
        ensures
            construction == BlockConstruction::start(kind, processing_queue_size),
    {
        BlockConstruction {
            kind,
            queue_size: processing_queue_size,
            stage: ConstructionStage::CreateBlock,
        }
    }

    /// The kind of the block.
    pub fn kind(&self) -> (kind: BlockKind)
        ensures
            kind == self.kind_spec(),
    {
        self.kind
    }

    /// The stage, for the calls that read or set its options.
    pub fn stage(&self) -> (block: Handle)
        ensures
            block == self.block(),
    {
        self.processing_block
    }

    /// The call that submits `frame` to the stage. The frame is the stage's
    /// from now on, whether the call succeeds or not.
    pub fn queue(&mut self, frame: Handle) -> (call: ForeignCall)
        ensures
            *final(self) == *old(self),
            call == (ForeignCall::ProcessFrame { block: old(self).block(), frame }),
    {
        ForeignCall::ProcessFrame { block: self.processing_block, frame }
    }

    /// The outcome of a submission, from the reply to it.
    pub fn queue_reply(reply: ForeignReply) -> (result: Result<(), ProcessFrameError>)
        ensures
            result == Self::queue_spec(reply),
    {
        match reply {
            ForeignReply::Failed(failure) => Err(ProcessFrameError::from_failure(failure)),
            _ => Ok(()),
        }
    }

    /// The call that blocks until the stage has put a frame into the queue,
    /// for `timeout` at most.
    pub fn wait(&mut self, timeout: Duration) -> (call: ForeignCall)
        ensures
            *final(self) == *old(self),
            call == (ForeignCall::WaitForFrame {
                queue: old(self).queue_handle(),
                timeout_ms: saturated_millis(duration_millis(timeout)),
            }),
    {
        self.wait_millis(timeout.as_millis())
    }

    /// The call that blocks until the stage has put a frame into the queue,
    /// for `timeout_millis` milliseconds at most.
    pub fn wait_millis(&mut self, timeout_millis: u128) -> (call: ForeignCall)
        ensures
            *final(self) == *old(self),
            call == (ForeignCall::WaitForFrame {
                queue: old(self).queue_handle(),
                timeout_ms: saturated_millis(timeout_millis),
            }),
    {
        let timeout_ms: u32 = if timeout_millis > 0xffff_ffff {
            u32::MAX
        } else {
            timeout_millis as u32
        };
        ForeignCall::WaitForFrame { queue: self.processing_queue, timeout_ms }
    }

    /// The frame that a wait brought, or the error that ended it.
    pub fn wait_reply(reply: ForeignReply) -> (result: Result<Handle, ProcessFrameError>)
        requires
            reply.answers_wait(),
        ensures
            result == Self::wait_spec(reply),
    {
        match reply {
            ForeignReply::Failed(failure) => Err(ProcessFrameError::from_failure(failure)),
            ForeignReply::Object(frame) => Ok(frame),
            _ => vstd::pervasive::unreached(),
        }
    }

    /// The call that looks once whether a frame is in the queue.
    pub fn poll(&mut self) -> (call: ForeignCall)
        ensures
            *final(self) == *old(self),
            call == (ForeignCall::PollForFrame { queue: old(self).queue_handle() }),
    {
        ForeignCall::PollForFrame { queue: self.processing_queue }
    }

    /// What a look into the queue found: nothing yet, or exactly the one
    /// frame that the call took out of the queue.
    pub fn poll_reply(reply: ForeignReply) -> (result: Result<Poll<Handle>, ProcessFrameError>)
        requires
            reply.answers_poll(),
        ensures
            result == Self::poll_spec(reply),
    {
        match reply {
            ForeignReply::Failed(failure) => Err(ProcessFrameError::from_failure(failure)),
            ForeignReply::Polled { ready, frame } => {
                if ready == 0 {
                    Ok(Poll::Pending)
                } else {
                    Ok(Poll::Ready(frame.unwrap()))
                }
            },
            _ => vstd::pervasive::unreached(),
        }
    }

    /// Destroys the block: the calls that are owed, in their order. The queue
    /// goes first, because it depends on the stage.
    pub fn release(self) -> (calls: (ForeignCall, ForeignCall))
        ensures
            calls.0 == (ForeignCall::DeleteFrameQueue { queue: self.queue_handle() }),
            calls.1 == (ForeignCall::DeleteProcessingBlock { block: self.block() }),
    {
        (
            ForeignCall::DeleteFrameQueue { queue: self.processing_queue },
            ForeignCall::DeleteProcessingBlock { block: self.processing_block },
        )
    }
}

impl BlockProgress {
    /// What becomes of a creation when its next call is answered by `reply`.
    /// A creation that has ended stays as it ended.
    pub open spec fn after(self, reply: ForeignReply) -> BlockProgress {
        match self {
            BlockProgress::Pending(construction) => construction.step(reply),
            _ => self,
        }
    }
}

/// The creation of a block, from end to end. It asks for the stage of its
/// kind, then for a queue of the given capacity, then for the queue to be
/// bound to the stage. Where all three calls succeed, the block is the one
/// made of that stage and that queue. Where one fails, the creation ends with
/// the error of the first call that failed, and makes no further call.
pub proof fn lemma_block_creation(
    kind: BlockKind,
    queue_size: i32,
    created: ForeignReply,
    queued: ForeignReply,
    started: ForeignReply,
)
    requires
        created is Failed || created is Object,
        queued is Failed || queued is Object,
        started is Failed || started is Done,
    ensures
        BlockConstruction::start(kind, queue_size).next_call_spec() == kind.create_call_spec(),
        ({
            let first = BlockConstruction::start(kind, queue_size).step(created);
            let second = first.after(queued);
            let third = second.after(started);
            match (created, queued, started) {
                (ForeignReply::Failed(failure), _, _) => third == BlockProgress::Failed(
                    ProcessingBlockConstructionError::CouldNotCreateProcessingBlock(
                        failure.kind,
                        failure.message,
                    ),
                ) && first == third,
                (ForeignReply::Object(block), ForeignReply::Failed(failure), _) => third
                    == BlockProgress::Failed(
                    ProcessingBlockConstructionError::CouldNotCreateProcessingQueue(
                        failure.kind,
                        failure.message,
                    ),
                ) && second == third,
                (
                    ForeignReply::Object(block),
                    ForeignReply::Object(queue),
                    ForeignReply::Failed(failure),
                ) => third == BlockProgress::Failed(
                    ProcessingBlockConstructionError::CouldNotStartProcessingQueue(
                        failure.kind,
                        failure.message,
                    ),
                ),
                (ForeignReply::Object(block), ForeignReply::Object(queue), _) => {
                    &&& first matches BlockProgress::Pending(at_queue)
                    &&& at_queue.next_call_spec() == (ForeignCall::CreateFrameQueue {
                        capacity: queue_size,
                    })
                    &&& second matches BlockProgress::Pending(at_start)
                    &&& at_start.next_call_spec() == (ForeignCall::StartProcessingQueue {
                        block,
                        queue,
                    })
                    &&& third == BlockProgress::Built(ProcessingBlock::running(block, queue, kind))
                },
                _ => true,
            }
        }),
{
}

/// A block is built only once its stage was created, then its queue, and the
/// queue was bound to the stage: it is made of exactly those two, and is of
/// the kind that was asked for.
pub proof fn lemma_block_is_built_of_what_was_created(
    construction: BlockConstruction,
    reply: ForeignReply,
)
    ensures
        construction.step(reply) matches BlockProgress::Built(built) ==> ({
            &&& construction.stage matches ConstructionStage::StartQueue { block, queue }
            &&& reply is Done
            &&& built.block() == block
            &&& built.queue_handle() == queue
            &&& built.kind_spec() == construction.kind
        }),
{
    broadcast use ProcessingBlock::lemma_running;

}

} // verus!

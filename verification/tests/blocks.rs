use realsense_rust::foreign::{ForeignCall, ForeignReply, Rs2Failure};
use realsense_rust::frame::{
    CompositeFrame, ConstructionProgress, Frame, FrameCategory, FrameConstruction,
};
use realsense_rust::handle::Handle;
use realsense_rust::kind::{OptionSetError, Rs2Exception, Rs2Option, Rs2StreamKind};
use realsense_rust::processing_blocks::align::Align;
use realsense_rust::processing_blocks::decimation::Decimate;
use realsense_rust::processing_blocks::errors::{
    ProcessFrameError, ProcessingBlockConstructionError,
};
use realsense_rust::processing_blocks::options::{QueryProgress, SettingProgress};
use realsense_rust::processing_blocks::processing_block::{
    BlockConstruction, BlockKind, BlockProgress, ProcessingBlock,
};
use realsense_rust::processing_blocks::spatial::Spatial;
use realsense_rust::processing_blocks::threshold::Threshold;
use std::collections::VecDeque;
use std::task::Poll;
use std::time::Duration;

fn handle(addr: usize) -> Handle {
    Handle::new(addr).unwrap()
}

fn failed(kind: Rs2Exception, message: &str) -> ForeignReply {
    ForeignReply::Failed(Rs2Failure { kind, message: String::from(message) })
}

fn pending(progress: BlockProgress) -> BlockConstruction {
    match progress {
        BlockProgress::Pending(next) => next,
        other => panic!("unexpected {:?}", other),
    }
}

fn build(construction: BlockConstruction, block: usize, queue: usize) -> ProcessingBlock {
    let construction = pending(construction.advance(ForeignReply::Object(handle(block))));
    let construction = pending(construction.advance(ForeignReply::Object(handle(queue))));
    match construction.advance(ForeignReply::Done) {
        BlockProgress::Built(built) => built,
        other => panic!("unexpected {:?}", other),
    }
}

fn depth_frame(addr: usize) -> Frame {
    let construction = Frame::try_from_handle(handle(addr), FrameCategory::Depth);
    let construction = match construction.advance(ForeignReply::Object(handle(addr + 1))) {
        ConstructionProgress::Pending(next) => next,
        other => panic!("unexpected {:?}", other),
    };
    let construction = match construction.advance(ForeignReply::Stream(Rs2StreamKind::Depth)) {
        ConstructionProgress::Pending(next) => next,
        other => panic!("unexpected {:?}", other),
    };
    match construction.advance(ForeignReply::Done) {
        ConstructionProgress::Built(frame) => frame,
        other => panic!("unexpected {:?}", other),
    }
}

/// A mock frame queue of the native runtime: first in, first out.
struct MockQueue {
    frames: VecDeque<usize>,
    timeout_ms: Option<u32>,
}

impl MockQueue {
    fn perform(&mut self, call: ForeignCall) -> ForeignReply {
        match call {
            ForeignCall::PollForFrame { .. } => match self.frames.pop_front() {
                Some(frame) => ForeignReply::Polled { ready: 1, frame: Handle::new(frame) },
                None => ForeignReply::Polled { ready: 0, frame: None },
            },
            ForeignCall::WaitForFrame { timeout_ms, .. } => match self.frames.pop_front() {
                Some(frame) => ForeignReply::Object(handle(frame)),
                None => {
                    self.timeout_ms = Some(timeout_ms);
                    failed(
                        Rs2Exception::Unknown,
                        &format!("Frame didn't arrive within {}", timeout_ms),
                    )
                }
            },
            other => panic!("unexpected call {:?}", other),
        }
    }
}

#[test]
fn block_is_created_in_three_steps() {
    let construction = Align::new(Rs2StreamKind::Color, 1);
    assert_eq!(
        construction,
        ProcessingBlock::new(BlockKind::Align { align_to: Rs2StreamKind::Color }, 1)
    );
    assert_eq!(construction.next_call(), ForeignCall::CreateAlign { align_to: Rs2StreamKind::Color });
    let construction = pending(construction.advance(ForeignReply::Object(handle(10))));
    assert_eq!(construction.next_call(), ForeignCall::CreateFrameQueue { capacity: 1 });
    let construction = pending(construction.advance(ForeignReply::Object(handle(20))));
    assert_eq!(
        construction.next_call(),
        ForeignCall::StartProcessingQueue { block: handle(10), queue: handle(20) }
    );
    let built = match construction.advance(ForeignReply::Done) {
        BlockProgress::Built(built) => built,
        other => panic!("unexpected {:?}", other),
    };
    assert_eq!(built.kind(), BlockKind::Align { align_to: Rs2StreamKind::Color });
    assert_eq!(built.stage(), handle(10));
    assert_eq!(
        built.release(),
        (
            ForeignCall::DeleteFrameQueue { queue: handle(20) },
            ForeignCall::DeleteProcessingBlock { block: handle(10) }
        )
    );
}

#[test]
fn each_kind_of_block_has_its_creation_call() {
    assert_eq!(Spatial::new(4).next_call(), ForeignCall::CreateSpatialFilterBlock);
    assert_eq!(Threshold::new(4).next_call(), ForeignCall::CreateThreshold);
    assert_eq!(Decimate::new(4).next_call(), ForeignCall::CreateDecimationFilterBlock);
    assert_eq!(
        Align::new(Rs2StreamKind::Depth, 4).next_call(),
        ForeignCall::CreateAlign { align_to: Rs2StreamKind::Depth }
    );
    assert_eq!(BlockKind::Spatial.create_block(), ForeignCall::CreateSpatialFilterBlock);
}

#[test]
fn block_creation_fails_with_the_error_of_its_step() {
    let start = Spatial::new(2);
    assert_eq!(
        start.advance(failed(Rs2Exception::Backend, "no block")),
        BlockProgress::Failed(ProcessingBlockConstructionError::CouldNotCreateProcessingBlock(
            Rs2Exception::Backend,
            String::from("no block")
        ))
    );
    let second = pending(start.advance(ForeignReply::Object(handle(10))));
    assert_eq!(
        second.advance(failed(Rs2Exception::InvalidValue, "no queue")),
        BlockProgress::Failed(ProcessingBlockConstructionError::CouldNotCreateProcessingQueue(
            Rs2Exception::InvalidValue,
            String::from("no queue")
        ))
    );
    let third = pending(second.advance(ForeignReply::Object(handle(20))));
    assert_eq!(
        third.advance(failed(Rs2Exception::WrongApiCallSequence, "no start")),
        BlockProgress::Failed(ProcessingBlockConstructionError::CouldNotStartProcessingQueue(
            Rs2Exception::WrongApiCallSequence,
            String::from("no start")
        ))
    );
    // A reply that does not answer the call changes nothing.
    assert_eq!(third.advance(ForeignReply::Value(1)), BlockProgress::Pending(third));
}

#[test]
fn typed_block_takes_only_its_own_kind() {
    let spatial = build(Spatial::new(1), 10, 20);
    assert!(Align::from_block(spatial).is_err());
    let spatial = build(Spatial::new(1), 10, 20);
    assert!(Threshold::from_block(spatial).is_err());
    let spatial = build(Spatial::new(1), 10, 20);
    assert!(Spatial::from_block(spatial).is_ok());
    let align = build(Align::new(Rs2StreamKind::Color, 1), 10, 20);
    assert!(Align::from_block(align).is_ok());
    let decimate = build(Decimate::new(1), 10, 20);
    assert!(Decimate::from_block(decimate).is_ok());
    let threshold = build(Threshold::new(1), 10, 20);
    assert_eq!(Spatial::from_block(threshold).unwrap_err().kind(), BlockKind::Threshold);
}

#[test]
fn queue_hands_the_frame_to_the_block() {
    let mut align = Align::from_block(build(Align::new(Rs2StreamKind::Color, 1), 10, 20)).unwrap();
    let bundle = CompositeFrame::from(handle(7));
    assert_eq!(
        align.queue(bundle),
        ForeignCall::ProcessFrame { block: handle(10), frame: handle(7) }
    );
    assert_eq!(Align::queue_reply(ForeignReply::Done), Ok(()));
    assert_eq!(
        Align::queue_reply(failed(Rs2Exception::InvalidValue, "bad frame")),
        Err(ProcessFrameError {
            kind: Rs2Exception::InvalidValue,
            context: String::from("bad frame")
        })
    );

    let mut spatial = Spatial::from_block(build(Spatial::new(1), 11, 21)).unwrap();
    assert_eq!(
        spatial.queue(depth_frame(30)),
        ForeignCall::ProcessFrame { block: handle(11), frame: handle(30) }
    );
    let mut threshold = Threshold::from_block(build(Threshold::new(1), 12, 22)).unwrap();
    assert_eq!(
        threshold.queue(depth_frame(31)),
        ForeignCall::ProcessFrame { block: handle(12), frame: handle(31) }
    );
    let mut decimate = Decimate::from_block(build(Decimate::new(1), 13, 23)).unwrap();
    assert_eq!(
        decimate.queue(depth_frame(32)),
        ForeignCall::ProcessFrame { block: handle(13), frame: handle(32) }
    );
}

#[test]
fn wait_saturates_its_timeout() {
    let mut align = Align::from_block(build(Align::new(Rs2StreamKind::Color, 1), 10, 20)).unwrap();
    assert_eq!(
        align.wait(Duration::from_millis(50)),
        ForeignCall::WaitForFrame { queue: handle(20), timeout_ms: 50 }
    );
    assert_eq!(
        align.wait(Duration::from_micros(1999)),
        ForeignCall::WaitForFrame { queue: handle(20), timeout_ms: 1 }
    );
    assert_eq!(
        align.wait(Duration::ZERO),
        ForeignCall::WaitForFrame { queue: handle(20), timeout_ms: 0 }
    );
    assert_eq!(
        align.wait(Duration::from_millis(4294967295)),
        ForeignCall::WaitForFrame { queue: handle(20), timeout_ms: 4294967295 }
    );
    assert_eq!(
        align.wait(Duration::from_millis(4294967296)),
        ForeignCall::WaitForFrame { queue: handle(20), timeout_ms: 4294967295 }
    );
    assert_eq!(
        align.wait(Duration::MAX),
        ForeignCall::WaitForFrame { queue: handle(20), timeout_ms: u32::MAX }
    );
    let mut block = build(Spatial::new(1), 11, 21);
    assert_eq!(
        block.wait_millis(u128::MAX),
        ForeignCall::WaitForFrame { queue: handle(21), timeout_ms: u32::MAX }
    );
    assert_eq!(
        block.wait_millis(15000),
        ForeignCall::WaitForFrame { queue: handle(21), timeout_ms: 15000 }
    );
}

#[test]
fn wait_on_an_empty_queue_times_out() {
    let mut queue = MockQueue { frames: VecDeque::new(), timeout_ms: None };
    let mut align = Align::from_block(build(Align::new(Rs2StreamKind::Color, 1), 10, 20)).unwrap();
    let reply = queue.perform(align.wait(Duration::from_millis(50)));
    assert_eq!(queue.timeout_ms, Some(50));
    let error = Align::wait_reply(reply).unwrap_err();
    assert!(error.is_timeout());
    assert_eq!(error.context, "Frame didn't arrive within 50");

    let other = ProcessFrameError { kind: Rs2Exception::Io, context: String::from("broken pipe") };
    assert!(!other.is_timeout());
}

#[test]
fn wait_wraps_the_frame_that_arrived() {
    let mut queue = MockQueue { frames: VecDeque::from(vec![77]), timeout_ms: None };
    let mut align = Align::from_block(build(Align::new(Rs2StreamKind::Color, 1), 10, 20)).unwrap();
    let mut aligned = Align::wait_reply(queue.perform(align.wait(Duration::from_millis(50)))).unwrap();
    assert_eq!(aligned.release(), Some(ForeignCall::ReleaseFrame { frame: handle(77) }));

    assert_eq!(
        Spatial::wait_reply(ForeignReply::Object(handle(78))),
        Ok(FrameConstruction {
            frame: handle(78),
            category: FrameCategory::Depth,
            stage: realsense_rust::frame::ConstructionStage::Profile
        })
    );
    assert_eq!(
        Threshold::wait_reply(ForeignReply::Object(handle(79))),
        Ok(Frame::try_from_handle(handle(79), FrameCategory::Depth))
    );
    assert_eq!(
        Decimate::wait_reply(ForeignReply::Object(handle(80)), FrameCategory::Color),
        Ok(Frame::try_from_handle(handle(80), FrameCategory::Color))
    );
    assert_eq!(
        ProcessingBlock::wait_reply(failed(Rs2Exception::Io, "gone")),
        Err(ProcessFrameError { kind: Rs2Exception::Io, context: String::from("gone") })
    );
}

#[test]
fn poll_is_pending_then_ready_then_pending() {
    let mut queue = MockQueue { frames: VecDeque::new(), timeout_ms: None };
    let mut block = build(Threshold::new(1), 10, 20);
    assert_eq!(block.poll(), ForeignCall::PollForFrame { queue: handle(20) });

    let reply = queue.perform(block.poll());
    assert_eq!(ProcessingBlock::poll_reply(reply), Ok(Poll::Pending));

    queue.frames.push_back(55);
    let reply = queue.perform(block.poll());
    assert_eq!(ProcessingBlock::poll_reply(reply), Ok(Poll::Ready(handle(55))));

    let reply = queue.perform(block.poll());
    assert_eq!(ProcessingBlock::poll_reply(reply), Ok(Poll::Pending));
}

#[test]
fn poll_wraps_the_frame_in_the_type_of_the_block() {
    let ready = |frame: usize| ForeignReply::Polled { ready: 1, frame: Handle::new(frame) };
    let empty = || ForeignReply::Polled { ready: 0, frame: None };

    match Align::poll_reply(ready(55)) {
        Ok(Poll::Ready(mut aligned)) => {
            assert_eq!(aligned.release(), Some(ForeignCall::ReleaseFrame { frame: handle(55) }))
        }
        other => panic!("unexpected {:?}", other),
    }
    assert_eq!(Align::poll_reply(empty()), Ok(Poll::Pending));
    assert_eq!(
        Spatial::poll_reply(ready(56)),
        Ok(Poll::Ready(Frame::try_from_handle(handle(56), FrameCategory::Depth)))
    );
    assert_eq!(Spatial::poll_reply(empty()), Ok(Poll::Pending));
    assert_eq!(
        Threshold::poll_reply(ready(57)),
        Ok(Poll::Ready(Frame::try_from_handle(handle(57), FrameCategory::Depth)))
    );
    assert_eq!(
        Decimate::poll_reply(ready(58), FrameCategory::Depth),
        Ok(Poll::Ready(Frame::try_from_handle(handle(58), FrameCategory::Depth)))
    );
    // A pending poll does not look at the frame slot.
    assert_eq!(
        Threshold::poll_reply(ForeignReply::Polled { ready: 0, frame: Handle::new(9) }),
        Ok(Poll::Pending)
    );
    assert_eq!(
        Threshold::poll_reply(failed(Rs2Exception::Io, "gone")),
        Err(ProcessFrameError { kind: Rs2Exception::Io, context: String::from("gone") })
    );
}

/// A mock stage that answers for one option and counts the calls it gets.
struct MockOptions {
    supported: bool,
    read_only: bool,
    set_fails: bool,
    calls: Vec<ForeignCall>,
}

impl MockOptions {
    fn perform(&mut self, call: ForeignCall) -> ForeignReply {
        self.calls.push(call);
        match call {
            ForeignCall::SupportsOption { .. } => ForeignReply::Value(self.supported as i32),
            ForeignCall::IsOptionReadOnly { .. } => ForeignReply::Value(self.read_only as i32),
            ForeignCall::SetOption { .. } => {
                if self.set_fails {
                    failed(Rs2Exception::InvalidValue, "out of range value for argument \"value\"")
                } else {
                    ForeignReply::Done
                }
            }
            other => panic!("unexpected call {:?}", other),
        }
    }

    fn set_calls(&self) -> usize {
        self.calls.iter().filter(|call| matches!(call, ForeignCall::SetOption { .. })).count()
    }
}

fn set_option(stage: &mut MockOptions, option: Rs2Option) -> Result<(), OptionSetError> {
    let mut spatial = Spatial::from_block(build(Spatial::new(1), 10, 20)).unwrap();
    let mut setting = spatial.set_option(option);
    loop {
        let reply = stage.perform(setting.next_call());
        match setting.advance(reply) {
            SettingProgress::Pending(next) => setting = next,
            SettingProgress::Finished(result) => return result,
        }
    }
}

#[test]
fn set_option_refuses_an_unsupported_option_without_a_set_call() {
    let mut stage = MockOptions { supported: false, read_only: false, set_fails: false, calls: vec![] };
    assert_eq!(
        set_option(&mut stage, Rs2Option::HolesFill),
        Err(OptionSetError::OptionNotSupported)
    );
    assert_eq!(stage.set_calls(), 0);
    assert_eq!(
        stage.calls,
        vec![ForeignCall::SupportsOption { block: handle(10), option: Rs2Option::HolesFill }]
    );
}

#[test]
fn set_option_refuses_a_read_only_option_without_a_set_call() {
    let mut stage = MockOptions { supported: true, read_only: true, set_fails: false, calls: vec![] };
    assert_eq!(
        set_option(&mut stage, Rs2Option::FilterMagnitude),
        Err(OptionSetError::OptionIsReadOnly)
    );
    assert_eq!(stage.set_calls(), 0);
    assert_eq!(
        stage.calls,
        vec![
            ForeignCall::SupportsOption { block: handle(10), option: Rs2Option::FilterMagnitude },
            ForeignCall::SupportsOption { block: handle(10), option: Rs2Option::FilterMagnitude },
            ForeignCall::IsOptionReadOnly { block: handle(10), option: Rs2Option::FilterMagnitude },
        ]
    );
}

#[test]
fn set_option_sets_a_writable_option_once() {
    let mut stage = MockOptions { supported: true, read_only: false, set_fails: false, calls: vec![] };
    assert_eq!(set_option(&mut stage, Rs2Option::FilterSmoothAlpha), Ok(()));
    assert_eq!(stage.set_calls(), 1);
    assert_eq!(
        stage.calls.last(),
        Some(&ForeignCall::SetOption { block: handle(10), option: Rs2Option::FilterSmoothAlpha })
    );
    assert_eq!(stage.calls.len(), 4);

    let mut stage = MockOptions { supported: true, read_only: false, set_fails: true, calls: vec![] };
    assert_eq!(
        set_option(&mut stage, Rs2Option::FilterSmoothAlpha),
        Err(OptionSetError::CouldNotSetOption(
            Rs2Exception::InvalidValue,
            String::from("out of range value for argument \"value\"")
        ))
    );
    assert_eq!(stage.set_calls(), 1);
}

#[test]
fn option_questions_take_a_failure_for_a_no() {
    let spatial = Spatial::from_block(build(Spatial::new(1), 10, 20)).unwrap();
    assert_eq!(
        spatial.supports_option(Rs2Option::HolesFill),
        ForeignCall::SupportsOption { block: handle(10), option: Rs2Option::HolesFill }
    );
    assert!(Spatial::supports_option_reply(&ForeignReply::Value(1)));
    assert!(Spatial::supports_option_reply(&ForeignReply::Value(-1)));
    assert!(!Spatial::supports_option_reply(&ForeignReply::Value(0)));
    assert!(!Spatial::supports_option_reply(&failed(Rs2Exception::Unknown, "no")));

    let query = spatial.is_option_read_only(Rs2Option::HolesFill);
    assert_eq!(
        query.next_call(),
        ForeignCall::SupportsOption { block: handle(10), option: Rs2Option::HolesFill }
    );
    assert_eq!(query.advance(&ForeignReply::Value(0)), QueryProgress::Answer(false));
    assert_eq!(
        query.advance(&failed(Rs2Exception::Unknown, "no")),
        QueryProgress::Answer(false)
    );
    let second = match query.advance(&ForeignReply::Value(1)) {
        QueryProgress::Pending(next) => next,
        other => panic!("unexpected {:?}", other),
    };
    assert_eq!(
        second.next_call(),
        ForeignCall::IsOptionReadOnly { block: handle(10), option: Rs2Option::HolesFill }
    );
    assert_eq!(second.advance(&ForeignReply::Value(1)), QueryProgress::Answer(true));
    assert_eq!(second.advance(&ForeignReply::Value(0)), QueryProgress::Answer(false));
    assert_eq!(
        second.advance(&failed(Rs2Exception::Unknown, "no")),
        QueryProgress::Answer(false)
    );
}

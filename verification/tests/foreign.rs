use realsense_rust::foreign::{ForeignCall, ForeignReply, ReplyShape, Rs2Failure};
use realsense_rust::frame::FrameCategory;
use realsense_rust::handle::Handle;
use realsense_rust::kind::{Extension, Rs2Exception, Rs2Option, Rs2StreamKind};
use realsense_rust::logging::Rs2LogSeverity;

fn handle(addr: usize) -> Handle {
    Handle::new(addr).unwrap()
}

fn failed() -> ForeignReply {
    ForeignReply::Failed(Rs2Failure { kind: Rs2Exception::Io, message: String::from("gone") })
}

fn replies() -> Vec<(ReplyShape, ForeignReply)> {
    vec![
        (ReplyShape::Done, ForeignReply::Done),
        (ReplyShape::Value, ForeignReply::Value(1)),
        (ReplyShape::Count, ForeignReply::Count(3)),
        (ReplyShape::Object, ForeignReply::Object(handle(9))),
        (ReplyShape::Stream, ForeignReply::Stream(Rs2StreamKind::Depth)),
        (ReplyShape::Text, ForeignReply::Text(String::from("text"))),
        (ReplyShape::Polled, ForeignReply::Polled { ready: 0, frame: None }),
    ]
}

#[test]
fn each_call_has_the_shape_of_its_result() {
    let h = handle(1);
    let shaped = vec![
        (ForeignCall::ReleaseFrame { frame: h }, ReplyShape::Done),
        (ForeignCall::KeepFrame { frame: h }, ReplyShape::Done),
        (ForeignCall::EmbeddedFramesCount { composite: h }, ReplyShape::Count),
        (ForeignCall::ExtractFrame { composite: h, index: 0 }, ReplyShape::Object),
        (
            ForeignCall::IsFrameExtendableTo { frame: h, extension: Extension::DepthFrame },
            ReplyShape::Value,
        ),
        (ForeignCall::GetFrameStreamProfile { frame: h }, ReplyShape::Object),
        (ForeignCall::GetStreamProfileData { profile: h }, ReplyShape::Stream),
        (ForeignCall::GetFrameData { frame: h, category: FrameCategory::Depth }, ReplyShape::Done),
        (ForeignCall::CreateAlign { align_to: Rs2StreamKind::Color }, ReplyShape::Object),
        (ForeignCall::CreateDecimationFilterBlock, ReplyShape::Object),
        (ForeignCall::CreateSpatialFilterBlock, ReplyShape::Object),
        (ForeignCall::CreateThreshold, ReplyShape::Object),
        (ForeignCall::CreateFrameQueue { capacity: 1 }, ReplyShape::Object),
        (ForeignCall::StartProcessingQueue { block: h, queue: h }, ReplyShape::Done),
        (ForeignCall::ProcessFrame { block: h, frame: h }, ReplyShape::Done),
        (ForeignCall::WaitForFrame { queue: h, timeout_ms: 5 }, ReplyShape::Object),
        (ForeignCall::PollForFrame { queue: h }, ReplyShape::Polled),
        (ForeignCall::SupportsOption { block: h, option: Rs2Option::HolesFill }, ReplyShape::Value),
        (ForeignCall::IsOptionReadOnly { block: h, option: Rs2Option::HolesFill }, ReplyShape::Value),
        (ForeignCall::SetOption { block: h, option: Rs2Option::HolesFill }, ReplyShape::Done),
        (ForeignCall::DeleteFrameQueue { queue: h }, ReplyShape::Done),
        (ForeignCall::DeleteProcessingBlock { block: h }, ReplyShape::Done),
        (ForeignCall::GetErrorMessage { error: h }, ReplyShape::Text),
        (ForeignCall::FreeError { error: h }, ReplyShape::Done),
        (ForeignCall::GetDeviceCount { list: h }, ReplyShape::Count),
        (ForeignCall::CreateDevice { list: h, index: 0 }, ReplyShape::Object),
        (ForeignCall::DeleteDeviceList { list: h }, ReplyShape::Done),
        (ForeignCall::LogToCallback { min_severity: Rs2LogSeverity::Debug }, ReplyShape::Done),
        (ForeignCall::LogToConsole { min_severity: Rs2LogSeverity::Debug }, ReplyShape::Done),
        (ForeignCall::LogToFile { min_severity: Rs2LogSeverity::Debug }, ReplyShape::Done),
        (ForeignCall::ResetLogger, ReplyShape::Done),
        (ForeignCall::EnableRollingLogFile { max_size: 10 }, ReplyShape::Done),
    ];
    for (call, shape) in shaped {
        assert_eq!(call.shape(), shape, "{:?}", call);
        assert!(call.admits(&failed()), "{:?}", call);
        for (reply_shape, reply) in replies() {
            assert_eq!(call.admits(&reply), reply_shape == shape, "{:?} {:?}", call, reply);
        }
    }
}

#[test]
fn a_ready_poll_brings_its_frame() {
    let poll = ForeignCall::PollForFrame { queue: handle(1) };
    assert!(poll.admits(&ForeignReply::Polled { ready: 1, frame: Handle::new(5) }));
    assert!(poll.admits(&ForeignReply::Polled { ready: 0, frame: Handle::new(5) }));
    assert!(poll.admits(&ForeignReply::Polled { ready: 0, frame: None }));
    assert!(!poll.admits(&ForeignReply::Polled { ready: 1, frame: None }));
    assert!(!poll.admits(&ForeignReply::Polled { ready: -1, frame: None }));
}

#[test]
fn a_reply_says_yes_with_a_set_flag_only() {
    assert!(ForeignReply::Value(1).is_yes());
    assert!(ForeignReply::Value(i32::MIN).is_yes());
    assert!(!ForeignReply::Value(0).is_yes());
    assert!(!ForeignReply::Done.is_yes());
    assert!(!failed().is_yes());
    assert_eq!(
        failed().into_failure(),
        Some(Rs2Failure { kind: Rs2Exception::Io, message: String::from("gone") })
    );
    assert_eq!(ForeignReply::Done.into_failure(), None);
}

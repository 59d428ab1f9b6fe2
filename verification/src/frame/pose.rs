//! Pose frames, taken from a pose sensor.

use crate::foreign::ForeignCall;
use crate::frame::category::FrameCategory;
use crate::frame::owned::OwnedFrame;
use crate::frame::typed::{Frame, FrameConstruction};
use crate::handle::Handle;
use crate::kind::Extension;
use vstd::prelude::*;

verus! {

/// How far the pose sensor trusts what it reports.
#[derive(Debug, Clone, Copy, PartialEq, Eq, Structural)]
pub enum Confidence {
    /// Tracking has failed.
    Failed,
    /// Low confidence.
    Low,
    /// Medium confidence.
    Medium,
    /// High confidence.
    High,
}

impl Confidence {
    /// The confidence that a raw value of the pose data stands for; there is
    /// none for a value above 3.
    pub open spec fn of_raw(raw: u32) -> Option<Confidence> {
        match raw {
            0 => Some(Confidence::Failed),
            1 => Some(Confidence::Low),
            2 => Some(Confidence::Medium),
            3 => Some(Confidence::High),
            _ => None,
        }
    }

    /// The confidence that a raw value of the pose data stands for.
    pub fn from_raw(raw: u32) -> (confidence: Option<Confidence>)
        ensures
            confidence == Self::of_raw(raw),
    {
        match raw {
            0 => Some(Confidence::Failed),
            1 => Some(Confidence::Low),
            2 => Some(Confidence::Medium),
            3 => Some(Confidence::High),
            _ => None,
        }
    }
}

/// A frame of pose data. It owns its handle. Of the pose itself the frame
/// keeps the tracker's confidence; the vectors stay with the caller.
#[derive(Debug, PartialEq, Eq)]
pub struct PoseFrame {
    frame: Frame,
    tracker_confidence: u32,
}

impl PoseFrame {
    /// The frame behind the pose.
    pub closed spec fn frame(&self) -> Frame {
        self.frame
    }

    /// The tracker's confidence, as the pose data holds it.
    pub closed spec fn tracker_raw(&self) -> u32 {
        self.tracker_confidence
    }

    /// The capability tag that admits a handle as a pose frame.
    pub fn extension() -> (tag: Extension)
        ensures
            tag == Extension::PoseFrame,
            tag == FrameCategory::Pose.extension_spec(),
    {
        Extension::PoseFrame
    }

    /// Starts to build a pose frame from `frame_ptr`. The handle stays the
    /// caller's until the frame is built.
    pub fn try_from(frame_ptr: Handle) -> (construction: FrameConstruction)
        ensures
            construction == FrameConstruction::start(frame_ptr, FrameCategory::Pose),
    {
        Frame::try_from_handle(frame_ptr, FrameCategory::Pose)
    }

    /// The pose frame made of a frame that was built as one, and of the
    /// tracker's confidence read from its pose data.
    pub fn new(frame: Frame, tracker_confidence: u32) -> (pose: PoseFrame)
        requires
            frame.category == FrameCategory::Pose,
        ensures
            pose.frame() == frame,
            pose.tracker_raw() == tracker_confidence,
    {
        PoseFrame { frame, tracker_confidence }
    }

    /// The stream profile of the frame.
    pub fn profile(&self) -> (profile: Handle)
        ensures
            profile == self.frame().profile,
    {
        self.frame.profile()
    }

    /// How far the tracker trusts this pose.
    pub fn tracker_confidence(&self) -> (confidence: Confidence)
        requires
            self.tracker_raw() <= 3,
        ensures
            Some(confidence) == Confidence::of_raw(self.tracker_raw()),
    {
        match self.tracker_confidence {
            0 => Confidence::Failed,
            1 => Confidence::Low,
            2 => Confidence::Medium,
            _ => Confidence::High,
        }
    }

    /// How far the mapper trusts this pose. It is read from the tracker's
    /// confidence, as the tracker's own is.
    pub fn mapper_confidence(&self) -> (confidence: Confidence)
        requires
            self.tracker_raw() <= 3,
        ensures
            Some(confidence) == Confidence::of_raw(self.tracker_raw()),
    {
        self.tracker_confidence()
    }

    /// Destroys the frame: gives the release call that is owed for its handle
    /// and leaves the frame owning nothing.
    pub fn release(&mut self) -> (call: Option<ForeignCall>)
        ensures
            final(self).frame().frame == OwnedFrame::disowned(),
            final(self).tracker_raw() == old(self).tracker_raw(),
            call == (match old(self).frame().frame.handle() {
                Some(frame) => Some(ForeignCall::ReleaseFrame { frame }),
                None => None,
            }),
    {
        self.frame.release()
    }
}

} // verus!

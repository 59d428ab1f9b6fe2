//! The categories a frame handle can be taken for.

use crate::kind::{Extension, Rs2StreamKind};
use vstd::prelude::*;

verus! {

/// A category of typed frame. Each category is admitted by one capability
/// tag, and expects one kind of stream (or any).
#[derive(Debug, Clone, Copy, PartialEq, Eq, Structural, Hash)]
pub enum FrameCategory {
    /// A color image.
    Color,
    /// A depth image.
    Depth,
    /// A disparity image.
    Disparity,
    /// A pose sample.
    Pose,
    /// A point cloud.
    Points,
    /// A motion sample.
    Motion,
}

impl FrameCategory {
    /// The capability tag that admits a handle to this category.
    pub open spec fn extension_spec(self) -> Extension {
        match self {
            FrameCategory::Color => Extension::VideoFrame,
            FrameCategory::Depth => Extension::DepthFrame,
            FrameCategory::Disparity => Extension::DisparityFrame,
            FrameCategory::Pose => Extension::PoseFrame,
            FrameCategory::Points => Extension::Points,
            FrameCategory::Motion => Extension::MotionFrame,
        }
    }

    /// The stream kind this category expects; `Any` accepts every stream.
    pub open spec fn kind_spec(self) -> Rs2StreamKind {
        match self {
            FrameCategory::Color => Rs2StreamKind::Color,
            FrameCategory::Depth => Rs2StreamKind::Depth,
            FrameCategory::Disparity => Rs2StreamKind::Any,
            FrameCategory::Pose => Rs2StreamKind::Pose,
            FrameCategory::Points => Rs2StreamKind::Any,
            FrameCategory::Motion => Rs2StreamKind::Any,
        }
    }

    /// Whether a frame of stream kind `actual` has the kind this category
    /// expects.
    pub open spec fn accepts(self, actual: Rs2StreamKind) -> bool {
        self.kind_spec() == Rs2StreamKind::Any || actual == self.kind_spec()
    }

    /// The capability tag that admits a handle to this category.
    pub fn extension(&self) -> (tag: Extension)
        ensures
            tag == self.extension_spec(),
    {
        match self {
            FrameCategory::Color => Extension::VideoFrame,
            FrameCategory::Depth => Extension::DepthFrame,
            FrameCategory::Disparity => Extension::DisparityFrame,
            FrameCategory::Pose => Extension::PoseFrame,
            FrameCategory::Points => Extension::Points,
            FrameCategory::Motion => Extension::MotionFrame,
        }
    }

    /// The stream kind this category expects.
    pub fn kind(&self) -> (kind: Rs2StreamKind)
        ensures
            kind == self.kind_spec(),
    {
        match self {
            FrameCategory::Color => Rs2StreamKind::Color,
            FrameCategory::Depth => Rs2StreamKind::Depth,
            FrameCategory::Disparity => Rs2StreamKind::Any,
            FrameCategory::Pose => Rs2StreamKind::Pose,
            FrameCategory::Points => Rs2StreamKind::Any,
            FrameCategory::Motion => Rs2StreamKind::Any,
        }
    }

    /// Whether a frame of stream kind `actual` has the kind this category
    /// expects.
    pub fn has_correct_kind(&self, actual: Rs2StreamKind) -> (correct: bool)
        ensures
            correct == self.accepts(actual),
    {
        let expected = self.kind();
        expected == Rs2StreamKind::Any || actual == expected
    }
}

} // verus!

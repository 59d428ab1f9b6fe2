//! Frames: owned handles, typed categories and bundles.

pub mod category;
pub mod composite;
pub mod extraction;
pub mod owned;
pub mod pose;
pub mod typed;

pub use category::FrameCategory;
pub use composite::{CompositeFrame, FrameExtraction};
pub use extraction::{ElementReplies, ExtractionStage, ExtractionState, Ledger};
pub use owned::OwnedFrame;
pub use pose::{Confidence, PoseFrame};
pub use typed::{
    ConstructionProgress, ConstructionStage, Frame, FrameConstruction, FrameConstructionError,
};

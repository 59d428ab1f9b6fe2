//! Typed frames, and how one is built from a raw handle.

use crate::foreign::{ForeignCall, ForeignReply};
use crate::frame::category::FrameCategory;
use crate::frame::owned::OwnedFrame;
use crate::handle::Handle;
use crate::kind::{Rs2Exception, Rs2StreamKind};
use vstd::prelude::*;

verus! {

/// Why a typed frame could not be built from a handle.
#[derive(Debug, Clone, PartialEq, Eq)]
pub enum FrameConstructionError {
    /// The stream profile of the frame could not be had.
    CouldNotGetFrameStreamProfile(Rs2Exception, String),
    /// The data that the category keeps of its frame could not be had.
    CouldNotGetData(Rs2Exception, String),
    /// The frame belongs to a stream of another kind than the category
    /// expects.
    IncorrectStreamKind { expected: Rs2StreamKind, actual: Rs2StreamKind },
}

/// A frame of a known category. It owns its handle.
#[derive(Debug, PartialEq, Eq)]
pub struct Frame {
    /// The owner of the frame's handle.
    pub frame: OwnedFrame,
    /// The category the handle was admitted to.
    pub category: FrameCategory,
    /// The stream profile of the frame.
    pub profile: Handle,
    /// The kind of stream the frame belongs to.
    pub kind: Rs2StreamKind,
}

impl Frame {
    /// A frame owns its handle and has a stream kind that its category
    /// accepts.
    pub open spec fn wf(&self) -> bool {
        &&& self.frame.handle() is Some
        &&& self.category.accepts(self.kind)
    }

    /// Starts to build a frame of `category` from `handle`. The handle stays
    /// the caller's until the frame is built: a failed attempt releases
    /// nothing.
    pub fn try_from_handle(handle: Handle, category: FrameCategory) -> (construction:
        FrameConstruction)
        ensures
            construction == FrameConstruction::start(handle, category),
    {
        FrameConstruction { frame: handle, category, stage: ConstructionStage::Profile }
    }

    /// The stream profile of the frame.
    pub fn profile(&self) -> (profile: Handle)
        ensures
            profile == self.profile,
    {
        self.profile
    }

    /// Whether the frame's stream kind is the one its category expects.
    pub fn has_correct_kind(&self) -> (correct: bool)
        ensures
            correct == self.category.accepts(self.kind),
    {
        self.category.has_correct_kind(self.kind)
    }

    /// Hands the handle to a new owner, which from now on owes its release.
    pub fn get_owned_raw(self) -> (handle: Handle)
        requires
            self.frame.handle() is Some,
        ensures
            Some(handle) == self.frame.handle(),
    {
        self.frame.get_owned_raw()
    }

    /// Destroys the frame: gives the release call that is owed for its handle
    /// and leaves the frame owning nothing.
    pub fn release(&mut self) -> (call: Option<ForeignCall>)
        ensures
            final(self).frame == OwnedFrame::disowned(),
            final(self).category == old(self).category,
            final(self).profile == old(self).profile,
            final(self).kind == old(self).kind,
            call == (match old(self).frame.handle() {
                Some(frame) => Some(ForeignCall::ReleaseFrame { frame }),
                None => None,
            }),
    {
        self.frame.release()
    }
}

/// How far the construction of a frame has come.
#[derive(Debug, Clone, Copy, PartialEq, Eq, Structural)]
pub enum ConstructionStage {
    /// The stream profile has to be asked for.
    Profile,
    /// The stream kind has to be read from the profile.
    ProfileData { profile: Handle },
    /// The category's data has to be read from the frame.
    Data { profile: Handle, kind: Rs2StreamKind },
}

/// The construction of a typed frame from a handle, between two calls.
#[derive(Debug, Clone, Copy, PartialEq, Eq, Structural)]
pub struct FrameConstruction {
    /// The handle the frame is built from.
    pub frame: Handle,
    /// The category the frame is built for.
    pub category: FrameCategory,
    /// How far the construction has come.
    pub stage: ConstructionStage,
}

/// What a reply makes of a construction.
#[derive(Debug, PartialEq, Eq)]
pub enum ConstructionProgress {
    /// Another call is needed.
    Pending(FrameConstruction),
    /// The frame is built and owns the handle.
    Built(Frame),
    /// The construction failed; the handle is still the caller's.
    Failed(FrameConstructionError),
}

impl FrameConstruction {
    /// The construction of a frame of `category` from `frame`, before its
    /// first call.
    pub open spec fn start(frame: Handle, category: FrameCategory) -> FrameConstruction {
        FrameConstruction { frame, category, stage: ConstructionStage::Profile }
    }

    /// The call that the construction needs next.
    pub open spec fn next_call_spec(self) -> ForeignCall {
        match self.stage {
            ConstructionStage::Profile => ForeignCall::GetFrameStreamProfile { frame: self.frame },
            ConstructionStage::ProfileData { profile } => ForeignCall::GetStreamProfileData {
                profile,
            },
            ConstructionStage::Data { .. } => ForeignCall::GetFrameData {
                frame: self.frame,
                category: self.category,
            },
        }
    }

    /// What the construction becomes when its call is answered by `reply`.
    /// A failed call fails the construction, with the error of the step it
    /// failed in. Once profile, stream kind and data are had, the frame is
    /// built if its stream kind is one the category accepts. A reply that does
    /// not answer the call leaves the construction where it is.
    pub open spec fn step(self, reply: ForeignReply) -> ConstructionProgress {
        match self.stage {
            ConstructionStage::Profile => match reply {
                ForeignReply::Failed(failure) => ConstructionProgress::Failed(
                    FrameConstructionError::CouldNotGetFrameStreamProfile(
                        failure.kind,
                        failure.message,
                    ),
                ),
                ForeignReply::Object(profile) => ConstructionProgress::Pending(
                    FrameConstruction {
                        frame: self.frame,
                        category: self.category,
                        stage: ConstructionStage::ProfileData { profile },
                    },
                ),
                _ => ConstructionProgress::Pending(self),
            },
            ConstructionStage::ProfileData { profile } => match reply {
                ForeignReply::Failed(failure) => ConstructionProgress::Failed(
                    FrameConstructionError::CouldNotGetFrameStreamProfile(
                        failure.kind,
                        failure.message,
                    ),
                ),
                ForeignReply::Stream(kind) => ConstructionProgress::Pending(
                    FrameConstruction {
                        frame: self.frame,
                        category: self.category,
                        stage: ConstructionStage::Data { profile, kind },
                    },
                ),
                _ => ConstructionProgress::Pending(self),
            },
            ConstructionStage::Data { profile, kind } => match reply {
                ForeignReply::Failed(failure) => ConstructionProgress::Failed(
                    FrameConstructionError::CouldNotGetData(failure.kind, failure.message),
                ),
                ForeignReply::Done => if self.category.accepts(kind) {
                    ConstructionProgress::Built(
                        Frame {
                            frame: OwnedFrame::owning(self.frame),
                            category: self.category,
                            profile,
                            kind,
                        },
                    )
                } else {
                    ConstructionProgress::Failed(
                        FrameConstructionError::IncorrectStreamKind {
                            expected: self.category.kind_spec(),
                            actual: kind,
                        },
                    )
                },
                _ => ConstructionProgress::Pending(self),
            },
        }
    }

    /// The call that the construction needs next.
    pub fn next_call(&self) -> (call: ForeignCall)
        ensures
            call == self.next_call_spec(),
    {
        match self.stage {
            ConstructionStage::Profile => ForeignCall::GetFrameStreamProfile { frame: self.frame },
            ConstructionStage::ProfileData { profile } => ForeignCall::GetStreamProfileData {
                profile,
            },
            ConstructionStage::Data { .. } => ForeignCall::GetFrameData {
                frame: self.frame,
                category: self.category,
            },
        }
    }

    /// Takes the reply to the call that `next_call` gave.
    pub fn advance(self, reply: ForeignReply) -> (progress: ConstructionProgress)
        ensures
            progress == self.step(reply),
    {
        match self.stage {
            ConstructionStage::Profile => match reply {
                ForeignReply::Failed(failure) => ConstructionProgress::Failed(
                    FrameConstructionError::CouldNotGetFrameStreamProfile(
                        failure.kind,
                        failure.message,
                    ),
                ),
                ForeignReply::Object(profile) => ConstructionProgress::Pending(
                    FrameConstruction {
                        frame: self.frame,
                        category: self.category,
                        stage: ConstructionStage::ProfileData { profile },
                    },
                ),
                _ => ConstructionProgress::Pending(self),
            },
            ConstructionStage::ProfileData { profile } => match reply {
                ForeignReply::Failed(failure) => ConstructionProgress::Failed(
                    FrameConstructionError::CouldNotGetFrameStreamProfile(
                        failure.kind,
                        failure.message,
                    ),
                ),
                ForeignReply::Stream(kind) => ConstructionProgress::Pending(
                    FrameConstruction {
                        frame: self.frame,
                        category: self.category,
                        stage: ConstructionStage::Data { profile, kind },
                    },
                ),
                _ => ConstructionProgress::Pending(self),
            },
            ConstructionStage::Data { profile, kind } => match reply {
                ForeignReply::Failed(failure) => ConstructionProgress::Failed(
                    FrameConstructionError::CouldNotGetData(failure.kind, failure.message),
                ),
                ForeignReply::Done => if self.category.has_correct_kind(kind) {
                    ConstructionProgress::Built(
                        Frame {
                            frame: OwnedFrame::from_raw(self.frame),
                            category: self.category,
                            profile,
                            kind,
                        },
                    )
                } else {
                    ConstructionProgress::Failed(
                        FrameConstructionError::IncorrectStreamKind {
                            expected: self.category.kind(),
                            actual: kind,
                        },
                    )
                },
                _ => ConstructionProgress::Pending(self),
            },
        }
    }
}

impl ConstructionProgress {
    /// What becomes of a construction when its next call is answered by
    /// `reply`. A construction that has ended stays as it ended.
    pub open spec fn after(self, reply: ForeignReply) -> ConstructionProgress {
        match self {
            ConstructionProgress::Pending(construction) => construction.step(reply),
            _ => self,
        }
    }
}

/// The construction of a typed frame, from end to end. It asks for the
/// frame's stream profile, then for the stream kind, then for the category's
/// data. Where all three calls succeed and the category accepts the stream
/// kind, the frame is built and owns the handle. Where one fails, the
/// construction ends with the error of the first call that failed; where the
/// stream kind is not accepted, with that error.
pub proof fn lemma_frame_construction(
    frame: Handle,
    category: FrameCategory,
    profile: ForeignReply,
    stream: ForeignReply,
    data: ForeignReply,
)
    requires
        profile is Failed || profile is Object,
        stream is Failed || stream is Stream,
        data is Failed || data is Done,
    ensures
        ({
            let first = FrameConstruction::start(frame, category).step(profile);
            let second = first.after(stream);
            let third = second.after(data);
            match (profile, stream, data) {
                (ForeignReply::Failed(failure), _, _) => third == ConstructionProgress::Failed(
                    FrameConstructionError::CouldNotGetFrameStreamProfile(
                        failure.kind,
                        failure.message,
                    ),
                ),
                (ForeignReply::Object(_), ForeignReply::Failed(failure), _) => third
                    == ConstructionProgress::Failed(
                    FrameConstructionError::CouldNotGetFrameStreamProfile(
                        failure.kind,
                        failure.message,
                    ),
                ),
                (
                    ForeignReply::Object(_),
                    ForeignReply::Stream(_),
                    ForeignReply::Failed(failure),
                ) => third == ConstructionProgress::Failed(
                    FrameConstructionError::CouldNotGetData(failure.kind, failure.message),
                ),
                (ForeignReply::Object(handle), ForeignReply::Stream(kind), _) => third == (
                if category.accepts(kind) {
                    ConstructionProgress::Built(
                        Frame { frame: OwnedFrame::owning(frame), category, profile: handle, kind },
                    )
                } else {
                    ConstructionProgress::Failed(
                        FrameConstructionError::IncorrectStreamKind {
                            expected: category.kind_spec(),
                            actual: kind,
                        },
                    )
                }),
                _ => true,
            }
        }),
{
}

/// A frame is built only of the handle it was asked for, in the category it
/// was asked for, with a stream kind that the category accepts; and it owns
/// the handle. A construction that goes on keeps its handle and category.
pub proof fn lemma_construction_step(construction: FrameConstruction, reply: ForeignReply)
    ensures
        (match construction.step(reply) {
            ConstructionProgress::Built(frame) => {
                &&& frame.wf()
                &&& frame.frame.handle() == Some(construction.frame)
                &&& frame.category == construction.category
                &&& construction.stage is Data
                &&& reply is Done
            },
            ConstructionProgress::Pending(next) => {
                &&& next.frame == construction.frame
                &&& next.category == construction.category
            },
            ConstructionProgress::Failed(_) => true,
        }),
{
    broadcast use OwnedFrame::lemma_handle;

}

} // verus!

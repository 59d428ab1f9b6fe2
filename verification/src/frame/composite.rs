//! Bundles of frames, and the extraction of their elements by category.

use crate::foreign::{ForeignCall, ForeignReply};
use crate::frame::category::FrameCategory;
use crate::frame::extraction::{
    lemma_start_inv, lemma_step_inv, ExtractionStage, ExtractionState, Ledger,
};
use crate::frame::owned::OwnedFrame;
use crate::frame::typed::{ConstructionProgress, Frame};
use crate::handle::Handle;
use vstd::prelude::*;

verus! {

/// A frame known to be a bundle of frames. It owns the bundle's handle, and
/// none of the elements until they are extracted.
#[derive(Debug, PartialEq, Eq)]
pub struct CompositeFrame {
    frame: OwnedFrame,
}

impl From<Handle> for CompositeFrame {
    /// Takes ownership of the bundle behind `frame`.
    fn from(frame: Handle) -> (composite: CompositeFrame) {
        CompositeFrame { frame: OwnedFrame::from_raw(frame) }
    }
}

impl vstd::std_specs::convert::FromSpecImpl<Handle> for CompositeFrame {
    open spec fn obeys_from_spec() -> bool {
        true
    }

    open spec fn from_spec(frame: Handle) -> CompositeFrame {
        CompositeFrame::owning(frame)
    }
}

impl CompositeFrame {
    /// The owner of the bundle's handle.
    pub closed spec fn owner(&self) -> OwnedFrame {
        self.frame
    }

    /// The bundle's handle, while the bundle owns it.
    pub open spec fn handle(&self) -> Option<Handle> {
        self.owner().handle()
    }

    /// What `count_reply` makes of the reply to the counting call: the count
    /// it brings, and zero where the call failed.
    pub open spec fn count_spec(reply: ForeignReply) -> usize {
        match reply {
            ForeignReply::Count(count) => count,
            _ => 0,
        }
    }

    /// The bundle that owns `frame`.
    pub closed spec fn owning(frame: Handle) -> CompositeFrame {
        CompositeFrame { frame: OwnedFrame::owning(frame) }
    }

    /// What `owning` holds.
    pub broadcast proof fn lemma_owning(frame: Handle)
        ensures
            (#[trigger] Self::owning(frame)).owner() == OwnedFrame::owning(frame),
            Self::owning(frame).handle() == Some(frame),
    {
        broadcast use OwnedFrame::lemma_handle;

    }

    /// The call that asks the runtime to keep the bundle; none if the bundle
    /// was handed on.
    pub fn keep(&self) -> (call: Option<ForeignCall>)
        ensures
            call == (match self.handle() {
                Some(frame) => Some(ForeignCall::KeepFrame { frame }),
                None => None,
            }),
    {
        match self.frame.peek() {
            Some(frame) => Some(ForeignCall::KeepFrame { frame }),
            None => None,
        }
    }

    /// The call that counts the frames in the bundle.
    pub fn count(&self) -> (call: ForeignCall)
        requires
            self.handle() is Some,
        ensures
            call == (ForeignCall::EmbeddedFramesCount { composite: self.handle().unwrap() }),
    {
        ForeignCall::EmbeddedFramesCount { composite: self.frame.peek().unwrap() }
    }

    /// The number of frames in the bundle, from the reply to `count`: zero
    /// where the call failed.
    pub fn count_reply(reply: &ForeignReply) -> (count: usize)
        ensures
            count == Self::count_spec(*reply),
    {
        match reply {
            ForeignReply::Count(count) => *count,
            _ => 0,
        }
    }

    /// The call that finds out whether the bundle is empty: it counts the
    /// frames in the bundle.
    pub fn is_empty(&self) -> (call: ForeignCall)
        requires
            self.handle() is Some,
        ensures
            call == (ForeignCall::EmbeddedFramesCount { composite: self.handle().unwrap() }),
    {
        self.count()
    }

    /// Whether the bundle is empty, from the reply to `is_empty`.
    pub fn is_empty_reply(reply: &ForeignReply) -> (empty: bool)
        ensures
            empty == (Self::count_spec(*reply) == 0),
    {
        Self::count_reply(reply) == 0
    }

    /// Starts the extraction of the bundle's frames of `category`, over the
    /// `count` elements that the bundle was found to hold.
    pub fn frames_of_type(&self, category: FrameCategory, count: usize) -> (extraction:
        FrameExtraction)
        requires
            self.handle() is Some,
        ensures
            extraction@ == ExtractionState::start(self.handle().unwrap(), category, count),
            extraction.wf(),
    {
        let extraction = FrameExtraction {
            composite: self.frame.peek().unwrap(),
            category,
            count,
            index: 0,
            stage: ExtractionStage::Extract,
            frames: Vec::new(),
            ledger: Ghost(
                Ledger { extracted: Seq::empty(), admitted: Set::empty(), released: Seq::empty() },
            ),
        };
        proof {
            lemma_start_inv(self.handle().unwrap(), category, count);
        }
        extraction
    }

    /// Whether the bundle still owns its handle.
    pub fn is_owning(&self) -> (owning: bool)
        ensures
            owning == self.handle().is_some(),
    {
        self.frame.is_owning()
    }

    /// Hands the bundle's handle to a new owner, which from now on owes its
    /// release.
    pub fn get_owned_raw(self) -> (handle: Handle)
        requires
            self.handle() is Some,
        ensures
            Some(handle) == self.handle(),
    {
        self.frame.get_owned_raw()
    }

    /// Destroys the bundle: gives the release call that is owed for its
    /// handle, none if the handle was handed on, and leaves the bundle owning
    /// nothing.
    pub fn release(&mut self) -> (call: Option<ForeignCall>)
        ensures
            final(self).owner() == OwnedFrame::disowned(),
            call == (match old(self).handle() {
                Some(frame) => Some(ForeignCall::ReleaseFrame { frame }),
                None => None,
            }),
    {
        self.frame.release()
    }
}

/// The extraction of the frames of one category from a bundle, between two
/// calls.
pub struct FrameExtraction {
    composite: Handle,
    category: FrameCategory,
    count: usize,
    index: usize,
    stage: ExtractionStage,
    frames: Vec<Frame>,
    ledger: Ghost<Ledger>,
}

impl View for FrameExtraction {
    type V = ExtractionState;

    closed spec fn view(&self) -> ExtractionState {
        ExtractionState {
            composite: self.composite,
            category: self.category,
            count: self.count,
            index: self.index,
            stage: self.stage,
            frames: self.frames@,
            ledger: self.ledger@,
        }
    }
}

impl FrameExtraction {
    /// Whether the extraction is well-formed.
    pub open spec fn wf(&self) -> bool {
        self@.inv()
    }

    /// The call that the extraction needs next; `None` once every element has
    /// been dealt with.
    pub fn next_call(&self) -> (call: Option<ForeignCall>)
        ensures
            call == self@.next_call(),
            call is None <==> self@.finished(),
    {
        match self.stage {
            ExtractionStage::Extract => if self.index < self.count {
                Some(ForeignCall::ExtractFrame { composite: self.composite, index: self.index })
            } else {
                None
            },
            ExtractionStage::Extendable { frame } => Some(
                ForeignCall::IsFrameExtendableTo { frame, extension: self.category.extension() },
            ),
            ExtractionStage::Construct { construction } => Some(construction.next_call()),
            ExtractionStage::Release { frame } => Some(ForeignCall::ReleaseFrame { frame }),
        }
    }

    /// Whether every element has been dealt with.
    pub fn is_finished(&self) -> (finished: bool)
        ensures
            finished == self@.finished(),
    {
        match self.stage {
            ExtractionStage::Extract => self.index >= self.count,
            _ => false,
        }
    }

    /// Takes the reply to the call that `next_call` gave.
    pub fn advance(&mut self, reply: ForeignReply)
        requires
            old(self).wf(),
        ensures
            final(self).wf(),
            final(self)@ == old(self)@.step(reply),
    {
        proof {
            lemma_step_inv(self@, reply);
        }
        match self.stage {
            ExtractionStage::Extract => {
                if self.index < self.count {
                    match reply {
                        ForeignReply::Object(frame) => {
                            self.stage = ExtractionStage::Extendable { frame };
                            self.ledger = Ghost(
                                Ledger {
                                    extracted: self.ledger@.extracted.push(frame),
                                    ..self.ledger@
                                },
                            );
                        },
                        ForeignReply::Failed(_) => {
                            self.index = self.index + 1;
                        },
                        _ => {},
                    }
                }
            },
            ExtractionStage::Extendable { frame } => {
                match reply {
                    ForeignReply::Value(flag) => {
                        if flag != 0 {
                            self.stage = ExtractionStage::Construct {
                                construction: Frame::try_from_handle(frame, self.category),
                            };
                            self.ledger = Ghost(
                                Ledger {
                                    admitted: self.ledger@.admitted.insert(frame),
                                    ..self.ledger@
                                },
                            );
                        } else {
                            self.stage = ExtractionStage::Release { frame };
                        }
                    },
                    ForeignReply::Failed(_) => {
                        self.stage = ExtractionStage::Release { frame };
                    },
                    _ => {},
                }
            },
            ExtractionStage::Construct { construction } => {
                match construction.advance(reply) {
                    ConstructionProgress::Pending(next) => {
                        self.stage = ExtractionStage::Construct { construction: next };
                    },
                    ConstructionProgress::Built(frame) => {
                        self.frames.push(frame);
                        self.index = self.index + 1;
                        self.stage = ExtractionStage::Extract;
                    },
                    ConstructionProgress::Failed(_) => {
                        self.stage = ExtractionStage::Release { frame: construction.frame };
                    },
                }
            },
            ExtractionStage::Release { frame } => {
                self.index = self.index + 1;
                self.stage = ExtractionStage::Extract;
                self.ledger = Ghost(
                    Ledger { released: self.ledger@.released.push(frame), ..self.ledger@ },
                );
            },
        }
    }

    /// The frames of the category, in the bundle's order. Each owns its
    /// handle; every other element that was taken out has been released.
    pub fn into_frames(self) -> (frames: Vec<Frame>)
        requires
            self.wf(),
            self@.finished(),
        ensures
            frames@ == self@.frames,
            forall|i: int|
                0 <= i < frames.len() ==> (#[trigger] frames[i]).wf() && frames[i].category
                    == self@.category,
    {
        self.frames
    }
}

} // verus!

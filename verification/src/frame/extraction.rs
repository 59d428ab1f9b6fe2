//! The extraction of a bundle's frames, as a state machine over the replies
//! of the native runtime, and what holds of it.

use crate::foreign::{ForeignCall, ForeignReply};
use crate::frame::category::FrameCategory;
use crate::frame::owned::OwnedFrame;
use crate::frame::typed::{lemma_construction_step, ConstructionProgress, Frame, FrameConstruction};
use crate::handle::Handle;
use vstd::multiset::*;
use vstd::prelude::*;
use vstd::seq_lib::*;

verus! {

/// Where the extraction stands with the element at its index.
#[derive(Debug, Clone, Copy, PartialEq, Eq, Structural)]
pub enum ExtractionStage {
    /// The element has to be taken out of the bundle.
    Extract,
    /// The element has to be asked whether it can be taken for the category.
    Extendable { frame: Handle },
    /// The typed frame is being built from the element.
    Construct { construction: FrameConstruction },
    /// The element is not returned and has to be released.
    Release { frame: Handle },
}

/// What an extraction has done to the native runtime so far.
pub struct Ledger {
    /// The handles that were taken out of the bundle, in order.
    pub extracted: Seq<Handle>,
    /// The handles that can be taken for the category.
    pub admitted: Set<Handle>,
    /// The handles for which a release was issued, in order.
    pub released: Seq<Handle>,
}

/// An extraction between two calls, as a mathematical value.
pub struct ExtractionState {
    /// The bundle.
    pub composite: Handle,
    /// The category that is extracted.
    pub category: FrameCategory,
    /// The number of elements in the bundle.
    pub count: usize,
    /// The index of the element in work.
    pub index: usize,
    /// Where the extraction stands with that element.
    pub stage: ExtractionStage,
    /// The frames that will be returned, in the bundle's order.
    pub frames: Seq<Frame>,
    /// What has been done to the native runtime.
    pub ledger: Ledger,
}

impl ExtractionState {
    /// The extraction of `category` from the `count` elements of `composite`,
    /// before its first call.
    pub open spec fn start(composite: Handle, category: FrameCategory, count: usize)
        -> ExtractionState {
        ExtractionState {
            composite,
            category,
            count,
            index: 0,
            stage: ExtractionStage::Extract,
            frames: Seq::empty(),
            ledger: Ledger {
                extracted: Seq::empty(),
                admitted: Set::empty(),
                released: Seq::empty(),
            },
        }
    }

    /// Whether every element has been dealt with.
    pub open spec fn finished(self) -> bool {
        self.stage is Extract && self.index >= self.count
    }

    /// The call that the extraction needs next; none once it is finished.
    pub open spec fn next_call(self) -> Option<ForeignCall> {
        match self.stage {
            ExtractionStage::Extract => if self.index < self.count {
                Some(ForeignCall::ExtractFrame { composite: self.composite, index: self.index })
            } else {
                None
            },
            ExtractionStage::Extendable { frame } => Some(
                ForeignCall::IsFrameExtendableTo {
                    frame,
                    extension: self.category.extension_spec(),
                },
            ),
            ExtractionStage::Construct { construction } => Some(construction.next_call_spec()),
            ExtractionStage::Release { frame } => Some(ForeignCall::ReleaseFrame { frame }),
        }
    }

    /// The extraction at the next element.
    pub open spec fn next_element(self) -> ExtractionState {
        ExtractionState {
            index: (self.index + 1) as usize,
            stage: ExtractionStage::Extract,
            ..self
        }
    }

    /// The extraction at another stage of the same element.
    pub open spec fn at_stage(self, stage: ExtractionStage) -> ExtractionState {
        ExtractionState { stage, ..self }
    }

    /// What the extraction becomes when its call is answered by `reply`.
    ///
    /// An element that cannot be taken out is skipped. One that was taken out
    /// is asked whether it can be taken for the category; if it can, the typed
    /// frame is built from it. A frame that was built is returned and owns the
    /// element. In every other case the element is released: where the check
    /// failed or said no, and where the frame could not be built. A reply that
    /// does not answer the call leaves the extraction where it is.
    pub open spec fn step(self, reply: ForeignReply) -> ExtractionState {
        match self.stage {
            ExtractionStage::Extract => if self.index >= self.count {
                self
            } else {
                match reply {
                    ForeignReply::Object(frame) => ExtractionState {
                        stage: ExtractionStage::Extendable { frame },
                        ledger: Ledger {
                            extracted: self.ledger.extracted.push(frame),
                            ..self.ledger
                        },
                        ..self
                    },
                    ForeignReply::Failed(_) => self.next_element(),
                    _ => self,
                }
            },
            ExtractionStage::Extendable { frame } => match reply {
                ForeignReply::Value(flag) => if flag != 0 {
                    ExtractionState {
                        stage: ExtractionStage::Construct {
                            construction: FrameConstruction::start(frame, self.category),
                        },
                        ledger: Ledger {
                            admitted: self.ledger.admitted.insert(frame),
                            ..self.ledger
                        },
                        ..self
                    }
                } else {
                    self.at_stage(ExtractionStage::Release { frame })
                },
                ForeignReply::Failed(_) => self.at_stage(ExtractionStage::Release { frame }),
                _ => self,
            },
            ExtractionStage::Construct { construction } => match construction.step(reply) {
                ConstructionProgress::Pending(next) => self.at_stage(
                    ExtractionStage::Construct { construction: next },
                ),
                ConstructionProgress::Built(frame) => ExtractionState {
                    frames: self.frames.push(frame),
                    ..self.next_element()
                },
                ConstructionProgress::Failed(_) => self.at_stage(
                    ExtractionStage::Release { frame: construction.frame },
                ),
            },
            ExtractionStage::Release { frame } => ExtractionState {
                ledger: Ledger { released: self.ledger.released.push(frame), ..self.ledger },
                ..self.next_element()
            },
        }
    }

    /// The extraction after the replies `replies`, in order.
    pub open spec fn run(self, replies: Seq<ForeignReply>) -> ExtractionState
        decreases replies.len(),
    {
        if replies.len() == 0 {
            self
        } else {
            self.run(replies.drop_last()).step(replies.last())
        }
    }

    /// The handles that the returned frames own, in order.
    pub open spec fn kept(self) -> Seq<Handle> {
        Seq::new(self.frames.len(), |i: int| self.frames[i].frame.handle().unwrap())
    }

    /// The element that was taken out and is neither returned nor released
    /// yet.
    pub open spec fn in_flight(self) -> Multiset<Handle> {
        match self.stage {
            ExtractionStage::Extract => Multiset::empty(),
            ExtractionStage::Extendable { frame } => Multiset::singleton(frame),
            ExtractionStage::Construct { construction } => Multiset::singleton(construction.frame),
            ExtractionStage::Release { frame } => Multiset::singleton(frame),
        }
    }

    /// What holds of an extraction at every moment.
    ///
    /// Every frame to be returned is of the category, has a stream kind that
    /// the category accepts, and owns a handle that passed the capability
    /// check. Every handle taken out of the bundle is accounted for once: it
    /// is owned by a returned frame, or was released, or is the one in work.
    pub open spec fn inv(self) -> bool {
        &&& self.index <= self.count
        &&& !(self.stage is Extract) ==> self.index < self.count
        &&& forall|i: int|
            0 <= i < self.frames.len() ==> {
                &&& (#[trigger] self.frames[i]).wf()
                &&& self.frames[i].category == self.category
                &&& self.ledger.admitted.contains(self.frames[i].frame.handle().unwrap())
            }
        &&& self.ledger.extracted.to_multiset() =~= self.kept().to_multiset().add(
            self.ledger.released.to_multiset(),
        ).add(self.in_flight())
        &&& self.stage matches ExtractionStage::Construct { construction } ==> {
            &&& construction.category == self.category
            &&& self.ledger.admitted.contains(construction.frame)
        }
    }
}

/// An extraction is well-formed before its first call.
pub proof fn lemma_start_inv(composite: Handle, category: FrameCategory, count: usize)
    ensures
        ExtractionState::start(composite, category, count).inv(),
{
    broadcast use group_multiset_axioms, group_to_multiset_ensures;

}

/// Whatever the native runtime replies, a well-formed extraction stays
/// well-formed.
pub proof fn lemma_step_inv(state: ExtractionState, reply: ForeignReply)
    requires
        state.inv(),
    ensures
        state.step(reply).inv(),
{
    broadcast use group_multiset_axioms, group_to_multiset_ensures, OwnedFrame::lemma_handle;

    let next = state.step(reply);
    if let ExtractionStage::Construct { construction } = state.stage {
        lemma_construction_step(construction, reply);
        if construction.step(reply) is Built {
            // The frame that was built is returned last, and owns the element
            // that was in work.
            assert(next.kept() =~= state.kept().push(construction.frame));
        }
    }
}

/// Whatever the native runtime replies, and however often, the extraction of
/// a bundle is well-formed.
pub proof fn lemma_run_inv(
    composite: Handle,
    category: FrameCategory,
    count: usize,
    replies: Seq<ForeignReply>,
)
    ensures
        ExtractionState::start(composite, category, count).run(replies).inv(),
    decreases replies.len(),
{
    if replies.len() == 0 {
        lemma_start_inv(composite, category, count);
    } else {
        lemma_run_inv(composite, category, count, replies.drop_last());
        lemma_step_inv(
            ExtractionState::start(composite, category, count).run(replies.drop_last()),
            replies.last(),
        );
    }
}

/// The ledger records the calls as they are answered, and nothing else: a
/// handle enters `extracted` exactly when an extracting call brings it,
/// `admitted` exactly when the capability check says yes to it, and `released`
/// exactly when its release call is answered.
pub proof fn lemma_ledger_records_calls(state: ExtractionState, reply: ForeignReply)
    requires
        state.inv(),
    ensures
        state.step(reply).ledger.extracted == (match (state.next_call(), reply) {
            (Some(ForeignCall::ExtractFrame { .. }), ForeignReply::Object(frame)) => {
                state.ledger.extracted.push(frame)
            },
            _ => state.ledger.extracted,
        }),
        state.step(reply).ledger.admitted == (match (state.next_call(), reply) {
            (Some(ForeignCall::IsFrameExtendableTo { frame, .. }), ForeignReply::Value(flag)) => {
                if flag != 0 {
                    state.ledger.admitted.insert(frame)
                } else {
                    state.ledger.admitted
                }
            },
            _ => state.ledger.admitted,
        }),
        state.step(reply).ledger.released == (match state.next_call() {
            Some(ForeignCall::ReleaseFrame { frame }) => state.ledger.released.push(frame),
            _ => state.ledger.released,
        }),
{
}

/// An extraction never changes the bundle, the category or the count it was
/// started with.
pub proof fn lemma_run_keeps_category(
    composite: Handle,
    category: FrameCategory,
    count: usize,
    replies: Seq<ForeignReply>,
)
    ensures
        ExtractionState::start(composite, category, count).run(replies).composite == composite,
        ExtractionState::start(composite, category, count).run(replies).category == category,
        ExtractionState::start(composite, category, count).run(replies).count == count,
    decreases replies.len(),
{
    if replies.len() > 0 {
        lemma_run_keeps_category(composite, category, count, replies.drop_last());
    }
}

/// When the extraction of a bundle has finished, whatever the native runtime
/// replied on the way: only frames of the category are returned, each with a
/// stream kind that the category accepts and a handle that passed the
/// capability check; and every element taken out of the bundle is either
/// owned by a returned frame or was released, each exactly once, so that none
/// is both and none is neither.
pub proof fn lemma_every_element_returned_or_released(
    composite: Handle,
    category: FrameCategory,
    count: usize,
    replies: Seq<ForeignReply>,
)
    requires
        ExtractionState::start(composite, category, count).run(replies).finished(),
    ensures
        ({
            let end = ExtractionState::start(composite, category, count).run(replies);
            &&& forall|i: int|
                0 <= i < end.frames.len() ==> {
                    &&& (#[trigger] end.frames[i]).category == category
                    &&& category.accepts(end.frames[i].kind)
                    &&& end.frames[i].frame.handle() is Some
                    &&& end.ledger.admitted.contains(end.frames[i].frame.handle().unwrap())
                }
            &&& end.ledger.extracted.to_multiset() == end.kept().to_multiset().add(
                end.ledger.released.to_multiset(),
            )
            &&& forall|frame: Handle|
                end.ledger.extracted.to_multiset().count(frame) == end.kept().to_multiset().count(
                    frame,
                ) + end.ledger.released.to_multiset().count(frame)
        }),
{
    broadcast use group_multiset_axioms;

    lemma_run_inv(composite, category, count, replies);
    let end = ExtractionState::start(composite, category, count).run(replies);
    assert forall|i: int| 0 <= i < end.frames.len() implies {
        &&& (#[trigger] end.frames[i]).category == category
        &&& category.accepts(end.frames[i].kind)
        &&& end.frames[i].frame.handle() is Some
        &&& end.ledger.admitted.contains(end.frames[i].frame.handle().unwrap())
    } by {
        lemma_run_keeps_category(composite, category, count, replies);
    }
}

/// What the native runtime answers for one element of a bundle, to each of
/// the calls that an extraction may make for it.
pub struct ElementReplies {
    /// The reply to the extracting call.
    pub extract: ForeignReply,
    /// The reply to the capability check.
    pub check: ForeignReply,
    /// The reply to the call for the stream profile.
    pub profile: ForeignReply,
    /// The reply to the call for the stream kind.
    pub stream: ForeignReply,
    /// The reply to the call for the category's data.
    pub data: ForeignReply,
}

impl ElementReplies {
    /// Whether each reply answers its call: it is a failure, or has the shape
    /// that the call returns.
    pub open spec fn answers(self) -> bool {
        &&& self.extract is Failed || self.extract is Object
        &&& self.check is Failed || self.check is Value
        &&& self.profile is Failed || self.profile is Object
        &&& self.stream is Failed || self.stream is Stream
        &&& self.data is Failed || self.data is Done
    }

    /// The handle of the element, if it can be taken out of the bundle.
    pub open spec fn handle(self) -> Option<Handle> {
        match self.extract {
            ForeignReply::Object(frame) => Some(frame),
            _ => None,
        }
    }

    /// The typed frame that the element gives for `category`: there is one if
    /// the element can be taken out, can be taken for the category, gives its
    /// profile, stream kind and data, and has a stream kind that the category
    /// accepts.
    pub open spec fn frame(self, category: FrameCategory) -> Option<Frame> {
        match (self.extract, self.profile, self.stream) {
            (
                ForeignReply::Object(frame),
                ForeignReply::Object(profile),
                ForeignReply::Stream(kind),
            ) => if self.check.is_yes_spec() && self.data is Done && category.accepts(kind) {
                Some(Frame { frame: OwnedFrame::owning(frame), category, profile, kind })
            } else {
                None
            },
            _ => None,
        }
    }

    /// The handle that is released for the element: its own, if it was taken
    /// out and gives no frame.
    pub open spec fn released(self, category: FrameCategory) -> Option<Handle> {
        if self.frame(category) is Some {
            None
        } else {
            self.handle()
        }
    }

    /// The replies that an extraction of `category` gets for the element, in
    /// the order of its calls. It asks no further once the fate of the element
    /// is settled, and the last call of an element that is not returned is its
    /// release.
    pub open spec fn transcript(self, category: FrameCategory) -> Seq<ForeignReply> {
        if self.extract is Failed {
            seq![self.extract]
        } else if !self.check.is_yes_spec() {
            seq![self.extract, self.check, ForeignReply::Done]
        } else if self.profile is Failed {
            seq![self.extract, self.check, self.profile, ForeignReply::Done]
        } else if self.stream is Failed {
            seq![self.extract, self.check, self.profile, self.stream, ForeignReply::Done]
        } else if self.frame(category) is Some {
            seq![self.extract, self.check, self.profile, self.stream, self.data]
        } else {
            seq![
                self.extract,
                self.check,
                self.profile,
                self.stream,
                self.data,
                ForeignReply::Done,
            ]
        }
    }
}

/// The replies that an extraction of `category` gets for the elements
/// `elements`, one element after the other.
pub open spec fn transcript_of(elements: Seq<ElementReplies>, category: FrameCategory) -> Seq<
    ForeignReply,
>
    decreases elements.len(),
{
    if elements.len() == 0 {
        Seq::empty()
    } else {
        transcript_of(elements.drop_last(), category) + elements.last().transcript(category)
    }
}

/// The frames that `elements` give for `category`, in the elements' order.
pub open spec fn frames_of(elements: Seq<ElementReplies>, category: FrameCategory) -> Seq<Frame>
    decreases elements.len(),
{
    if elements.len() == 0 {
        Seq::empty()
    } else {
        match elements.last().frame(category) {
            Some(frame) => frames_of(elements.drop_last(), category).push(frame),
            None => frames_of(elements.drop_last(), category),
        }
    }
}

/// The ledger of an extraction of `category` that has dealt with `elements`.
pub open spec fn ledger_of(elements: Seq<ElementReplies>, category: FrameCategory) -> Ledger
    decreases elements.len(),
{
    if elements.len() == 0 {
        Ledger { extracted: Seq::empty(), admitted: Set::empty(), released: Seq::empty() }
    } else {
        let before = ledger_of(elements.drop_last(), category);
        let element = elements.last();
        Ledger {
            extracted: match element.handle() {
                Some(frame) => before.extracted.push(frame),
                None => before.extracted,
            },
            admitted: match element.handle() {
                Some(frame) => if element.check.is_yes_spec() {
                    before.admitted.insert(frame)
                } else {
                    before.admitted
                },
                None => before.admitted,
            },
            released: match element.released(category) {
                Some(frame) => before.released.push(frame),
                None => before.released,
            },
        }
    }
}

/// A run over two transcripts, one after the other, is the run over the
/// second from where the first ended.
pub proof fn lemma_run_concat(
    state: ExtractionState,
    first: Seq<ForeignReply>,
    second: Seq<ForeignReply>,
)
    ensures
        state.run(first + second) == state.run(first).run(second),
    decreases second.len(),
{
    if second.len() > 0 {
        lemma_run_concat(state, first, second.drop_last());
        assert((first + second).drop_last() =~= first + second.drop_last());
    }
}

/// A run over one reply is one step, and a run begins with the step on its
/// first reply.
pub proof fn lemma_run_first(state: ExtractionState, reply: ForeignReply, rest: Seq<ForeignReply>)
    ensures
        state.run(seq![reply]) == state.step(reply),
        state.run(seq![reply] + rest) == state.step(reply).run(rest),
{
    assert(state.run(seq![reply].drop_last()) == state);
    lemma_run_concat(state, seq![reply], rest);
}

/// What one element does to an extraction that is about to take it out: the
/// extraction moves on to the next element; the element's frame, if it gives
/// one, is returned last; and the ledger records the element.
pub proof fn lemma_run_element(
    state: ExtractionState,
    element: ElementReplies,
)
    requires
        state.stage is Extract,
        state.index < state.count,
        element.answers(),
    ensures
        state.run(element.transcript(state.category)) == (ExtractionState {
            index: (state.index + 1) as usize,
            frames: match element.frame(state.category) {
                Some(frame) => state.frames.push(frame),
                None => state.frames,
            },
            ledger: Ledger {
                extracted: match element.handle() {
                    Some(frame) => state.ledger.extracted.push(frame),
                    None => state.ledger.extracted,
                },
                admitted: match element.handle() {
                    Some(frame) => if element.check.is_yes_spec() {
                        state.ledger.admitted.insert(frame)
                    } else {
                        state.ledger.admitted
                    },
                    None => state.ledger.admitted,
                },
                released: match element.released(state.category) {
                    Some(frame) => state.ledger.released.push(frame),
                    None => state.ledger.released,
                },
            },
            ..state
        }),
{
    let category = state.category;
    let done = ForeignReply::Done;
    let s1 = state.step(element.extract);
    if element.extract is Failed {
        lemma_run_first(state, element.extract, Seq::empty());
    } else {
        let s2 = s1.step(element.check);
        if !element.check.is_yes_spec() {
            assert(element.transcript(category) =~= seq![element.extract] + (seq![element.check]
                + seq![done]));
            lemma_run_first(state, element.extract, seq![element.check] + seq![done]);
            lemma_run_first(s1, element.check, seq![done]);
            lemma_run_first(s2, done, Seq::empty());
        } else {
            let s3 = s2.step(element.profile);
            if element.profile is Failed {
                assert(element.transcript(category) =~= seq![element.extract] + (
                seq![element.check] + (seq![element.profile] + seq![done])));
                lemma_run_first(
                    state,
                    element.extract,
                    seq![element.check] + (seq![element.profile] + seq![done]),
                );
                lemma_run_first(s1, element.check, seq![element.profile] + seq![done]);
                lemma_run_first(s2, element.profile, seq![done]);
                lemma_run_first(s3, done, Seq::empty());
            } else {
                let s4 = s3.step(element.stream);
                if element.stream is Failed {
                    assert(element.transcript(category) =~= seq![element.extract] + (
                    seq![element.check] + (seq![element.profile] + (seq![element.stream]
                        + seq![done]))));
                    lemma_run_first(
                        state,
                        element.extract,
                        seq![element.check] + (seq![element.profile] + (seq![element.stream]
                            + seq![done])),
                    );
                    lemma_run_first(
                        s1,
                        element.check,
                        seq![element.profile] + (seq![element.stream] + seq![done]),
                    );
                    lemma_run_first(s2, element.profile, seq![element.stream] + seq![done]);
                    lemma_run_first(s3, element.stream, seq![done]);
                    lemma_run_first(s4, done, Seq::empty());
                } else {
                    let s5 = s4.step(element.data);
                    if element.frame(category) is Some {
                        assert(element.transcript(category) =~= seq![element.extract] + (
                        seq![element.check] + (seq![element.profile] + (seq![element.stream]
                            + seq![element.data]))));
                        lemma_run_first(
                            state,
                            element.extract,
                            seq![element.check] + (seq![element.profile] + (seq![element.stream]
                                + seq![element.data])),
                        );
                        lemma_run_first(
                            s1,
                            element.check,
                            seq![element.profile] + (seq![element.stream] + seq![element.data]),
                        );
                        lemma_run_first(
                            s2,
                            element.profile,
                            seq![element.stream] + seq![element.data],
                        );
                        lemma_run_first(s3, element.stream, seq![element.data]);
                        lemma_run_first(s4, element.data, Seq::empty());
                    } else {
                        assert(element.transcript(category) =~= seq![element.extract] + (
                        seq![element.check] + (seq![element.profile] + (seq![element.stream] + (
                        seq![element.data] + seq![done])))));
                        lemma_run_first(
                            state,
                            element.extract,
                            seq![element.check] + (seq![element.profile] + (seq![element.stream]
                                + (seq![element.data] + seq![done]))),
                        );
                        lemma_run_first(
                            s1,
                            element.check,
                            seq![element.profile] + (seq![element.stream] + (seq![element.data]
                                + seq![done])),
                        );
                        lemma_run_first(
                            s2,
                            element.profile,
                            seq![element.stream] + (seq![element.data] + seq![done]),
                        );
                        lemma_run_first(s3, element.stream, seq![element.data] + seq![done]);
                        lemma_run_first(s4, element.data, seq![done]);
                        lemma_run_first(s5, done, Seq::empty());
                    }
                }
            }
        }
    }
}

/// The extraction of a bundle, from end to end. Let the native runtime answer
/// for the bundle's elements as `elements` say, each reply answering its
/// call. Then the extraction of `category` ends after exactly the replies of
/// `transcript_of`, and returns exactly the frames of `frames_of`: one for
/// each element that can be taken out, passes the capability check, gives
/// profile, stream kind and data, and has a stream kind that the category
/// accepts; in the order of the bundle. Every other element that was taken
/// out has been released, and no other.
pub proof fn lemma_frames_of_type(
    composite: Handle,
    category: FrameCategory,
    count: usize,
    elements: Seq<ElementReplies>,
)
    requires
        elements.len() <= count,
        forall|i: int| 0 <= i < elements.len() ==> (#[trigger] elements[i]).answers(),
    ensures
        ExtractionState::start(composite, category, count).run(transcript_of(elements, category))
            == (ExtractionState {
            composite,
            category,
            count,
            index: elements.len() as usize,
            stage: ExtractionStage::Extract,
            frames: frames_of(elements, category),
            ledger: ledger_of(elements, category),
        }),
        elements.len() == count ==> ExtractionState::start(composite, category, count).run(
            transcript_of(elements, category),
        ).finished(),
    decreases elements.len(),
{
    let start = ExtractionState::start(composite, category, count);
    if elements.len() > 0 {
        let before = elements.drop_last();
        lemma_frames_of_type(composite, category, count, before);
        lemma_run_concat(
            start,
            transcript_of(before, category),
            elements.last().transcript(category),
        );
        lemma_run_element(start.run(transcript_of(before, category)), elements.last());
    }
}

} // verus!

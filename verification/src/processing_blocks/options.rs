//! Reading and setting the options of a processing stage.

use crate::foreign::{ForeignCall, ForeignReply};
use crate::handle::Handle;
use crate::kind::{OptionSetError, Rs2Option};
use vstd::prelude::*;

verus! {

/// How far the question whether an option is read-only has come.
#[derive(Debug, Clone, Copy, PartialEq, Eq, Structural)]
pub enum QueryStage {
    /// The stage has to be asked whether it has the option.
    Supports,
    /// The stage has to be asked whether the option is read-only.
    ReadOnly,
}

/// The question whether an option of a stage is read-only, between two calls.
#[derive(Debug, Clone, Copy, PartialEq, Eq, Structural)]
pub struct ReadOnlyQuery {
    /// The stage that is asked.
    pub block: Handle,
    /// The option that is asked about.
    pub option: Rs2Option,
    /// How far the question has come.
    pub stage: QueryStage,
}

/// What a reply makes of the question.
#[derive(Debug, Clone, Copy, PartialEq, Eq, Structural)]
pub enum QueryProgress {
    /// Another call is needed.
    Pending(ReadOnlyQuery),
    /// The answer.
    Answer(bool),
}

impl ReadOnlyQuery {
    /// The question about `option` of `block`, before its first call.
    pub open spec fn start(block: Handle, option: Rs2Option) -> ReadOnlyQuery {
        ReadOnlyQuery { block, option, stage: QueryStage::Supports }
    }

    /// The call that the question needs next.
    pub open spec fn next_call_spec(self) -> ForeignCall {
        match self.stage {
            QueryStage::Supports => ForeignCall::SupportsOption {
                block: self.block,
                option: self.option,
            },
            QueryStage::ReadOnly => ForeignCall::IsOptionReadOnly {
                block: self.block,
                option: self.option,
            },
        }
    }

    /// What the question becomes when its call is answered by `reply`. An
    /// option that the stage does not have is not read-only, and is not asked
    /// about any further; nor is one for which the second call fails.
    pub open spec fn step(self, reply: ForeignReply) -> QueryProgress {
        match self.stage {
            QueryStage::Supports => if reply.is_yes_spec() {
                QueryProgress::Pending(
                    ReadOnlyQuery {
                        block: self.block,
                        option: self.option,
                        stage: QueryStage::ReadOnly,
                    },
                )
            } else {
                QueryProgress::Answer(false)
            },
            QueryStage::ReadOnly => QueryProgress::Answer(reply.is_yes_spec()),
        }
    }

    /// The call that the question needs next.
    pub fn next_call(&self) -> (call: ForeignCall)
        ensures
            call == self.next_call_spec(),
    {
        match self.stage {
            QueryStage::Supports => ForeignCall::SupportsOption {
                block: self.block,
                option: self.option,
            },
            QueryStage::ReadOnly => ForeignCall::IsOptionReadOnly {
                block: self.block,
                option: self.option,
            },
        }
    }

    /// Takes the reply to the call that `next_call` gave.
    pub fn advance(self, reply: &ForeignReply) -> (progress: QueryProgress)
        ensures
            progress == self.step(*reply),
    {
        match self.stage {
            QueryStage::Supports => if reply.is_yes() {
                QueryProgress::Pending(
                    ReadOnlyQuery {
                        block: self.block,
                        option: self.option,
                        stage: QueryStage::ReadOnly,
                    },
                )
            } else {
                QueryProgress::Answer(false)
            },
            QueryStage::ReadOnly => QueryProgress::Answer(reply.is_yes()),
        }
    }
}

/// How far the setting of an option has come.
#[derive(Debug, Clone, Copy, PartialEq, Eq, Structural)]
pub enum SettingStage {
    /// The stage has to be asked whether it has the option.
    Supports,
    /// The stage is being asked whether the option is read-only.
    ReadOnly { query: ReadOnlyQuery },
    /// The option has to be set.
    Write,
}

/// The setting of an option of a stage, between two calls. The value to set
/// stays with the caller, who hands it over with the setting call.
#[derive(Debug, Clone, Copy, PartialEq, Eq, Structural)]
pub struct OptionSetting {
    /// The stage whose option is set.
    pub block: Handle,
    /// The option that is set.
    pub option: Rs2Option,
    /// How far the setting has come.
    pub stage: SettingStage,
}

/// What a reply makes of the setting of an option.
#[derive(Debug, PartialEq, Eq)]
pub enum SettingProgress {
    /// Another call is needed.
    Pending(OptionSetting),
    /// The setting has ended.
    Finished(Result<(), OptionSetError>),
}

impl OptionSetting {
    /// The setting of `option` of `block`, before its first call.
    pub open spec fn start(block: Handle, option: Rs2Option) -> OptionSetting {
        OptionSetting { block, option, stage: SettingStage::Supports }
    }

    /// The setting at another stage.
    pub open spec fn at_stage(self, stage: SettingStage) -> OptionSetting {
        OptionSetting { block: self.block, option: self.option, stage }
    }

    /// The call that the setting needs next.
    pub open spec fn next_call_spec(self) -> ForeignCall {
        match self.stage {
            SettingStage::Supports => ForeignCall::SupportsOption {
                block: self.block,
                option: self.option,
            },
            SettingStage::ReadOnly { query } => query.next_call_spec(),
            SettingStage::Write => ForeignCall::SetOption { block: self.block, option: self.option },
        }
    }

    /// What the setting becomes when its call is answered by `reply`. An
    /// option that the stage does not have is refused at once, and so is one
    /// that is read-only: in neither case is the setting call made. Otherwise
    /// the option is set, and a failure of that call is the setting's error.
    pub open spec fn step(self, reply: ForeignReply) -> SettingProgress {
        match self.stage {
            SettingStage::Supports => if reply.is_yes_spec() {
                SettingProgress::Pending(
                    self.at_stage(
                        SettingStage::ReadOnly {
                            query: ReadOnlyQuery::start(self.block, self.option),
                        },
                    ),
                )
            } else {
                SettingProgress::Finished(Err(OptionSetError::OptionNotSupported))
            },
            SettingStage::ReadOnly { query } => match query.step(reply) {
                QueryProgress::Pending(next) => SettingProgress::Pending(
                    self.at_stage(SettingStage::ReadOnly { query: next }),
                ),
                QueryProgress::Answer(read_only) => if read_only {
                    SettingProgress::Finished(Err(OptionSetError::OptionIsReadOnly))
                } else {
                    SettingProgress::Pending(self.at_stage(SettingStage::Write))
                },
            },
            SettingStage::Write => match reply {
                ForeignReply::Failed(failure) => SettingProgress::Finished(
                    Err(OptionSetError::CouldNotSetOption(failure.kind, failure.message)),
                ),
                _ => SettingProgress::Finished(Ok(())),
            },
        }
    }

    /// The call that the setting needs next.
    pub fn next_call(&self) -> (call: ForeignCall)
        ensures
            call == self.next_call_spec(),
    {
        match self.stage {
            SettingStage::Supports => ForeignCall::SupportsOption {
                block: self.block,
                option: self.option,
            },
            SettingStage::ReadOnly { query } => query.next_call(),
            SettingStage::Write => ForeignCall::SetOption { block: self.block, option: self.option },
        }
    }

    /// Takes the reply to the call that `next_call` gave.
    pub fn advance(self, reply: ForeignReply) -> (progress: SettingProgress)
        ensures
            progress == self.step(reply),
    {
        match self.stage {
            SettingStage::Supports => if reply.is_yes() {
                SettingProgress::Pending(
                    OptionSetting {
                        block: self.block,
                        option: self.option,
                        stage: SettingStage::ReadOnly {
                            query: ReadOnlyQuery {
                                block: self.block,
                                option: self.option,
                                stage: QueryStage::Supports,
                            },
                        },
                    },
                )
            } else {
                SettingProgress::Finished(Err(OptionSetError::OptionNotSupported))
            },
            SettingStage::ReadOnly { query } => match query.advance(&reply) {
                QueryProgress::Pending(next) => SettingProgress::Pending(
                    OptionSetting {
                        block: self.block,
                        option: self.option,
                        stage: SettingStage::ReadOnly { query: next },
                    },
                ),
                QueryProgress::Answer(read_only) => if read_only {
                    SettingProgress::Finished(Err(OptionSetError::OptionIsReadOnly))
                } else {
                    SettingProgress::Pending(
                        OptionSetting {
                            block: self.block,
                            option: self.option,
                            stage: SettingStage::Write,
                        },
                    )
                },
            },
            SettingStage::Write => match reply {
                ForeignReply::Failed(failure) => SettingProgress::Finished(
                    Err(OptionSetError::CouldNotSetOption(failure.kind, failure.message)),
                ),
                _ => SettingProgress::Finished(Ok(())),
            },
        }
    }
}

impl SettingProgress {
    /// What becomes of the setting when `replies` answer its calls, in order.
    /// Replies that come after the setting has ended are not looked at.
    pub open spec fn run(self, replies: Seq<ForeignReply>) -> SettingProgress
        decreases replies.len(),
    {
        if replies.len() == 0 {
            self
        } else {
            match self {
                SettingProgress::Pending(setting) => setting.step(replies[0]).run(
                    replies.drop_first(),
                ),
                SettingProgress::Finished(_) => self,
            }
        }
    }

    /// The calls that the setting makes while `replies` answer them, in
    /// order.
    pub open spec fn calls(self, replies: Seq<ForeignReply>) -> Seq<ForeignCall>
        decreases replies.len(),
    {
        if replies.len() == 0 {
            Seq::empty()
        } else {
            match self {
                SettingProgress::Pending(setting) => seq![setting.next_call_spec()]
                    + setting.step(replies[0]).calls(replies.drop_first()),
                SettingProgress::Finished(_) => Seq::empty(),
            }
        }
    }

    /// Whether the setting was refused here, before any call could set the
    /// option.
    pub open spec fn refused_locally(self) -> bool {
        self == SettingProgress::Finished(Err(OptionSetError::OptionNotSupported)) || self
            == SettingProgress::Finished(Err(OptionSetError::OptionIsReadOnly))
    }

    /// Whether the setting has not come to its setting call.
    pub open spec fn before_set(self) -> bool {
        match self {
            SettingProgress::Pending(setting) => !(setting.stage is Write),
            SettingProgress::Finished(_) => self.refused_locally(),
        }
    }
}

/// Once the setting has come to its setting call, it is never refused for a
/// missing or read-only option.
pub proof fn lemma_set_is_not_refused_locally(progress: SettingProgress, replies: Seq<ForeignReply>)
    requires
        !progress.before_set(),
    ensures
        !progress.run(replies).refused_locally(),
    decreases replies.len(),
{
    if replies.len() > 0 {
        match progress {
            SettingProgress::Pending(setting) => {
                lemma_set_is_not_refused_locally(setting.step(replies[0]), replies.drop_first());
            },
            SettingProgress::Finished(_) => {},
        }
    }
}

/// A setting that ends refused, because the stage does not have the option or
/// because the option is read-only, has made no setting call: whatever the
/// native runtime replied, and however the refusal came about.
pub proof fn lemma_refused_without_set_call(progress: SettingProgress, replies: Seq<ForeignReply>)
    requires
        progress.before_set(),
        progress.run(replies).refused_locally(),
    ensures
        forall|i: int|
            0 <= i < progress.calls(replies).len() ==> !(#[trigger] progress.calls(replies)[i]
                is SetOption),
    decreases replies.len(),
{
    if replies.len() > 0 {
        match progress {
            SettingProgress::Pending(setting) => {
                let next = setting.step(replies[0]);
                if next.before_set() {
                    lemma_refused_without_set_call(next, replies.drop_first());
                } else {
                    lemma_set_is_not_refused_locally(next, replies.drop_first());
                }
            },
            SettingProgress::Finished(_) => {},
        }
    }
}

/// Setting an option that the stage does not have is refused as not
/// supported after the first call, which only asks; setting a read-only
/// option is refused as read-only after the calls that ask.
pub proof fn lemma_set_option_refusals(
    block: Handle,
    option: Rs2Option,
    supports: ForeignReply,
    supports_again: ForeignReply,
    read_only: ForeignReply,
)
    ensures
        OptionSetting::start(block, option).next_call_spec() == (ForeignCall::SupportsOption {
            block,
            option,
        }),
        !supports.is_yes_spec() ==> OptionSetting::start(block, option).step(supports)
            == SettingProgress::Finished(Err(OptionSetError::OptionNotSupported)),
        supports.is_yes_spec() && supports_again.is_yes_spec() && read_only.is_yes_spec()
            ==> SettingProgress::Pending(OptionSetting::start(block, option)).run(
            seq![supports, supports_again, read_only],
        ) == SettingProgress::Finished(Err(OptionSetError::OptionIsReadOnly)),
{
    if supports.is_yes_spec() && supports_again.is_yes_spec() && read_only.is_yes_spec() {
        reveal_with_fuel(SettingProgress::run, 5);
    }
}

} // verus!

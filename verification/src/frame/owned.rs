//! The single owner of one frame handle.

use crate::foreign::ForeignCall;
use crate::handle::Handle;
use vstd::prelude::*;

verus! {

/// The owner of at most one frame handle. While the slot is full, this value
/// owes the handle's release; a transfer or the release itself empties it.
#[derive(Debug, PartialEq, Eq)]
pub struct OwnedFrame {
    slot: Option<Handle>,
}

impl OwnedFrame {
    /// The handle that this value owns, if it still owns one.
    pub closed spec fn handle(&self) -> Option<Handle> {
        self.slot
    }

    /// The owner of `handle`.
    pub closed spec fn owning(handle: Handle) -> OwnedFrame {
        OwnedFrame { slot: Some(handle) }
    }

    /// The owner of nothing: what is left after a transfer or a release.
    pub closed spec fn disowned() -> OwnedFrame {
        OwnedFrame { slot: None }
    }

    /// The release calls that the destruction of this value issues: one for
    /// the handle it owns, none when it owns nothing.
    pub open spec fn owed_releases(&self) -> Seq<ForeignCall> {
        match self.handle() {
            Some(frame) => seq![ForeignCall::ReleaseFrame { frame }],
            None => seq![],
        }
    }

    /// What `owning` and `disowned` hold.
    pub broadcast proof fn lemma_handle(handle: Handle)
        ensures
            #[trigger] OwnedFrame::owning(handle).handle() == Some(handle),
            OwnedFrame::disowned().handle() is None,
    {
    }

    /// Takes ownership of `handle`. Nothing is asked of the handle.
    pub fn from_raw(handle: Handle) -> (owner: OwnedFrame)
        ensures
            owner == OwnedFrame::owning(handle),
            owner.handle() == Some(handle),
    {
        OwnedFrame { slot: Some(handle) }
    }

    /// Whether this value still owns its handle.
    pub fn is_owning(&self) -> (owning: bool)
        ensures
            owning == self.handle().is_some(),
    {
        self.slot.is_some()
    }

    /// The handle, for calls that read the frame without taking it over.
    pub fn peek(&self) -> (handle: Option<Handle>)
        ensures
            handle == self.handle(),
    {
        self.slot
    }

    /// Hands the handle to a new owner. This value is consumed, and no release
    /// is issued for it: the new owner owes the release.
    pub fn get_owned_raw(self) -> (handle: Handle)
        requires
            self.handle() is Some,
        ensures
            Some(handle) == self.handle(),
    {
        self.slot.unwrap()
    }

    /// Destroys what this value owns: gives the release call that is owed, and
    /// empties the slot, so that a second destruction issues nothing.
    pub fn release(&mut self) -> (call: Option<ForeignCall>)
        ensures
            *final(self) == OwnedFrame::disowned(),
            call == (match old(self).handle() {
                Some(frame) => Some(ForeignCall::ReleaseFrame { frame }),
                None => None,
            }),
    {
        match self.slot.take() {
            Some(frame) => Some(ForeignCall::ReleaseFrame { frame }),
            None => None,
        }
    }
}

/// The release calls that are issued for `handle` over its life in this
/// layer, when it is handed from one owner to the next `transfers` times and
/// every owner is destroyed in the end: each owner that handed the handle on
/// issues what it owes at that moment, and so does the last owner.
pub open spec fn releases_over_life(handle: Handle, transfers: nat) -> Seq<ForeignCall>
    decreases transfers,
{
    if transfers == 0 {
        OwnedFrame::owning(handle).owed_releases()
    } else {
        OwnedFrame::disowned().owed_releases() + releases_over_life(
            handle,
            (transfers - 1) as nat,
        )
    }
}

/// A handle is released exactly once over its life, however often it is
/// handed on: the owner that holds it in the end issues the one release, and
/// an owner that handed it on, or was destroyed before, issues none.
pub proof fn lemma_released_exactly_once(handle: Handle, transfers: nat)
    ensures
        releases_over_life(handle, transfers) == seq![ForeignCall::ReleaseFrame { frame: handle }],
        OwnedFrame::disowned().owed_releases() == Seq::<ForeignCall>::empty(),
    decreases transfers,
{
    if transfers > 0 {
        lemma_released_exactly_once(handle, (transfers - 1) as nat);
    }
}

/// Handing a handle on and wrapping it again gives back the owner it came
/// from: the new owner owes the same single release, so that the transfer
/// changes nothing in what is released.
pub proof fn lemma_transfer_round_trip(owner: OwnedFrame)
    requires
        owner.handle() is Some,
    ensures
        OwnedFrame::owning(owner.handle().unwrap()) == owner,
        OwnedFrame::owning(owner.handle().unwrap()).owed_releases() == owner.owed_releases(),
        releases_over_life(owner.handle().unwrap(), 1) == releases_over_life(
            owner.handle().unwrap(),
            0,
        ),
{
    lemma_released_exactly_once(owner.handle().unwrap(), 1);
    lemma_released_exactly_once(owner.handle().unwrap(), 0);
}

} // verus!

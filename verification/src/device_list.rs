//! The list of devices, and the iteration over it.

use crate::error::Error;
use crate::foreign::ForeignCall;
use crate::handle::Handle;
use vstd::prelude::*;

verus! {

/// A device. It owns its handle.
#[derive(Debug, PartialEq, Eq)]
pub struct Device {
    /// The handle of the device.
    pub ptr: Handle,
}

/// A list of devices. It owns its handle.
#[derive(Debug, PartialEq, Eq)]
pub struct DeviceList {
    ptr: Handle,
}

impl DeviceList {
    /// The handle of the list.
    pub closed spec fn ptr(&self) -> Handle {
        self.ptr
    }

    /// The list behind `ptr`.
    pub closed spec fn of(ptr: Handle) -> DeviceList {
        DeviceList { ptr }
    }

    /// Takes ownership of the list behind `ptr`.
    pub fn from_raw(ptr: Handle) -> (list: DeviceList)
        ensures
            list == DeviceList::of(ptr),
            list.ptr() == ptr,
    {
        DeviceList { ptr }
    }

    /// Gives up the list's handle to the caller, who from now on owes its
    /// destruction.
    pub fn into_raw(self) -> (ptr: Handle)
        ensures
            ptr == self.ptr(),
            DeviceList::of(ptr) == self,
    {
        self.ptr
    }

    /// The call that creates the device at `index`.
    pub fn get(&self, index: usize) -> (call: ForeignCall)
        ensures
            call == (ForeignCall::CreateDevice { list: self.ptr(), index }),
    {
        ForeignCall::CreateDevice { list: self.ptr, index }
    }

    /// The device that `get` brought: `device` is the address that the call
    /// returned, and `checked` what its error slot held.
    pub fn get_reply(checked: Result<(), Error>, device: usize) -> (result: Result<Device, Error>)
        requires
            checked is Ok ==> device != 0,
        ensures
            (match checked {
                Ok(()) => result matches Ok(d) && d.ptr.addr_spec() == device,
                Err(error) => result == Err::<Device, Error>(error),
            }),
    {
        match checked {
            Ok(()) => Ok(Device { ptr: Handle::new(device).unwrap() }),
            Err(error) => Err(error),
        }
    }

    /// The call that counts the devices in the list.
    pub fn len(&self) -> (call: ForeignCall)
        ensures
            call == (ForeignCall::GetDeviceCount { list: self.ptr() }),
    {
        ForeignCall::GetDeviceCount { list: self.ptr }
    }

    /// The length of the list, from what `len` brought.
    pub fn len_reply(checked: Result<(), Error>, len: usize) -> (result: Result<usize, Error>)
        ensures
            result == (match checked {
                Ok(()) => Ok::<usize, Error>(len),
                Err(error) => Err(error),
            }),
    {
        match checked {
            Ok(()) => Ok(len),
            Err(error) => Err(error),
        }
    }

    /// Whether the list is empty, from its length.
    pub fn is_empty(len: Result<usize, Error>) -> (result: Result<bool, Error>)
        ensures
            result == (match len {
                Ok(len) => Ok::<bool, Error>(len == 0),
                Err(error) => Err(error),
            }),
    {
        match len {
            Ok(len) => Ok(len == 0),
            Err(error) => Err(error),
        }
    }

    /// Turns the list into an iteration over its `len` devices, which takes
    /// over the list's handle. Where the length could not be had, neither can
    /// the iteration.
    pub fn try_into_iter(self, len: Result<usize, Error>) -> (result: Result<
        DeviceListIntoIter,
        Error,
    >)
        ensures
            (match len {
                Ok(len) => result matches Ok(iter) && iter@ == (IterState {
                    index: 0,
                    len,
                    ptr: self.ptr(),
                    fused: len == 0,
                }) && iter.wf(),
                Err(error) => result == Err::<DeviceListIntoIter, Error>(error),
            }),
    {
        match len {
            Ok(len) => Ok(DeviceListIntoIter { index: 0, len, ptr: self.ptr, fused: len == 0 }),
            Err(error) => Err(error),
        }
    }

    /// Destroys the list: the call that is owed.
    pub fn release(self) -> (call: ForeignCall)
        ensures
            call == (ForeignCall::DeleteDeviceList { list: self.ptr() }),
    {
        ForeignCall::DeleteDeviceList { list: self.ptr }
    }
}

/// An iteration over a device list, as a mathematical value.
pub struct IterState {
    /// The index of the next device.
    pub index: usize,
    /// The length of the list.
    pub len: usize,
    /// The handle of the list.
    pub ptr: Handle,
    /// Whether the iteration has ended.
    pub fused: bool,
}

impl IterState {
    /// An iteration that has not ended has a device left.
    pub open spec fn inv(self) -> bool {
        !self.fused ==> self.index < self.len
    }

    /// The iteration after a step that was answered with `failed` or not. An
    /// iteration that has ended stays as it is; a failure ends it; so does
    /// the last device.
    pub open spec fn after(self, failed: bool) -> IterState {
        if self.fused {
            self
        } else if failed {
            IterState { fused: true, ..self }
        } else {
            IterState {
                index: (self.index + 1) as usize,
                fused: self.index + 1 >= self.len,
                ..self
            }
        }
    }
}

/// The iteration over the devices of a list. It owns the list's handle.
#[derive(Debug, PartialEq, Eq)]
pub struct DeviceListIntoIter {
    index: usize,
    len: usize,
    ptr: Handle,
    fused: bool,
}

impl View for DeviceListIntoIter {
    type V = IterState;

    closed spec fn view(&self) -> IterState {
        IterState { index: self.index, len: self.len, ptr: self.ptr, fused: self.fused }
    }
}

impl DeviceListIntoIter {
    /// Whether the iteration is well-formed.
    pub open spec fn wf(&self) -> bool {
        self@.inv()
    }

    /// The call that creates the next device; `None` once the iteration has
    /// ended.
    pub fn next_call(&self) -> (call: Option<ForeignCall>)
        ensures
            call == (if self@.fused {
                None
            } else {
                Some(ForeignCall::CreateDevice { list: self@.ptr, index: self@.index })
            }),
    {
        if self.fused {
            None
        } else {
            Some(ForeignCall::CreateDevice { list: self.ptr, index: self.index })
        }
    }

    /// The next item of the iteration, from what the call of `next_call`
    /// brought: `device` is the address that the call returned, and `checked`
    /// what its error slot held. An iteration that has ended gives `None`,
    /// whatever it is handed.
    pub fn next(&mut self, checked: Result<(), Error>, device: usize) -> (item: Option<
        Result<Device, Error>,
    >)
        requires
            old(self).wf(),
            !old(self)@.fused && checked is Ok ==> device != 0,
        ensures
            final(self).wf(),
            final(self)@ == old(self)@.after(checked is Err),
            old(self)@.fused <==> item is None,
            !old(self)@.fused ==> (match checked {
                Ok(()) => item matches Some(Ok(d)) && d.ptr.addr_spec() == device,
                Err(error) => item == Some(Err::<Device, Error>(error)),
            }),
    {
        if self.fused {
            return None;
        }
        match checked {
            Err(error) => {
                self.fused = true;
                Some(Err(error))
            },
            Ok(()) => {
                self.index = self.index + 1;
                if self.index >= self.len {
                    self.fused = true;
                }
                Some(Ok(Device { ptr: Handle::new(device).unwrap() }))
            },
        }
    }

    /// Destroys the iteration, and with it the list: the call that is owed.
    pub fn release(self) -> (call: ForeignCall)
        ensures
            call == (ForeignCall::DeleteDeviceList { list: self@.ptr }),
    {
        ForeignCall::DeleteDeviceList { list: self.ptr }
    }
}

/// An iteration that has ended stays ended, and gives nothing more: it is
/// fused. One that goes on never passes the length of its list.
pub proof fn lemma_iteration_is_fused(state: IterState, failed: bool)
    requires
        state.inv(),
    ensures
        state.after(failed).inv(),
        state.fused ==> state.after(failed) == state,
        state.after(failed).index <= state.len || state.fused,
        failed && !state.fused ==> state.after(failed).fused,
{
}

} // verus!

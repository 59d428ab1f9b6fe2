//! Non-null foreign handles.

use vstd::prelude::*;

verus! {

/// An opaque, non-null reference to a resource of the native runtime, held as
/// its address.
#[derive(Clone, Copy, Debug, PartialEq, Eq, Structural, Hash)]
pub struct Handle {
    addr: usize,
}

impl Handle {
    /// The address this handle stands for.
    pub closed spec fn addr_spec(self) -> usize {
        self.addr
    }

    /// Whether the address is non-null.
    pub open spec fn wf(self) -> bool {
        self.addr_spec() != 0
    }

    /// Wraps a raw address; the null address gives `None`.
    pub fn new(addr: usize) -> (handle: Option<Handle>)
        ensures
            addr == 0 <==> handle is None,
            handle matches Some(h) ==> h.addr_spec() == addr && h.wf(),
    {
        if addr == 0 {
            None
        } else {
            Some(Handle { addr })
        }
    }

    /// The raw address, as it is handed to the native runtime.
    pub fn addr(&self) -> (addr: usize)
        ensures
            addr == self.addr_spec(),
    {
        self.addr
    }
}

} // verus!

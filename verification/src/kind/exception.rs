//! The kinds of failure that the native runtime reports.

use vstd::prelude::*;

verus! {

/// The kind of failure behind a native error.
#[derive(Debug, Clone, Copy, PartialEq, Eq, Structural, Hash)]
pub enum Rs2Exception {
    /// A failure of no particular kind.
    Unknown,
    /// The device was disconnected.
    CameraDisconnected,
    /// The operating-system backend failed.
    Backend,
    /// An argument was invalid.
    InvalidValue,
    /// A call came out of order.
    WrongApiCallSequence,
    /// The call is not implemented.
    NotImplemented,
    /// The device is in recovery mode.
    DeviceInRecoveryMode,
    /// An input or output failure.
    Io,
}

impl Rs2Exception {
    /// The ordinal by which the native runtime knows this value.
    pub open spec fn ordinal(self) -> u32 {
        match self {
            Rs2Exception::Unknown => 0,
            Rs2Exception::CameraDisconnected => 1,
            Rs2Exception::Backend => 2,
            Rs2Exception::InvalidValue => 3,
            Rs2Exception::WrongApiCallSequence => 4,
            Rs2Exception::NotImplemented => 5,
            Rs2Exception::DeviceInRecoveryMode => 6,
            Rs2Exception::Io => 7,
        }
    }

    /// The ordinal of this value.
    pub fn to_u32(&self) -> (ordinal: u32)
        ensures
            ordinal == self.ordinal(),
    {
        match self {
            Rs2Exception::Unknown => 0,
            Rs2Exception::CameraDisconnected => 1,
            Rs2Exception::Backend => 2,
            Rs2Exception::InvalidValue => 3,
            Rs2Exception::WrongApiCallSequence => 4,
            Rs2Exception::NotImplemented => 5,
            Rs2Exception::DeviceInRecoveryMode => 6,
            Rs2Exception::Io => 7,
        }
    }

    /// The value with the given ordinal, if there is one.
    pub fn from_u32(ordinal: u32) -> (value: Option<Rs2Exception>)
        ensures
            (match value {
                Some(v) => v.ordinal() == ordinal,
                None => forall|v: Rs2Exception| v.ordinal() != ordinal,
            }),
    {
        match ordinal {
            0 => Some(Rs2Exception::Unknown),
            1 => Some(Rs2Exception::CameraDisconnected),
            2 => Some(Rs2Exception::Backend),
            3 => Some(Rs2Exception::InvalidValue),
            4 => Some(Rs2Exception::WrongApiCallSequence),
            5 => Some(Rs2Exception::NotImplemented),
            6 => Some(Rs2Exception::DeviceInRecoveryMode),
            7 => Some(Rs2Exception::Io),
            _ => None,
        }
    }

}

/// Distinct values of [`Rs2Exception`] have distinct ordinals, so the ordinal
/// identifies the value.
pub proof fn lemma_exception_ordinal_injective(a: Rs2Exception, b: Rs2Exception)
    requires
        a.ordinal() == b.ordinal(),
    ensures
        a == b,
{
}

} // verus!

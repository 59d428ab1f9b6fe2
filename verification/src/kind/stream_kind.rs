//! The kinds of stream a frame can belong to.

use vstd::prelude::*;

verus! {

/// The kind of stream a frame belongs to.
#[derive(Debug, Clone, Copy, PartialEq, Eq, Structural, Hash)]
pub enum Rs2StreamKind {
    /// No particular stream; as an expectation, it accepts every stream.
    Any,
    /// Depth data.
    Depth,
    /// Color data.
    Color,
    /// Infrared data.
    Infrared,
    /// Wide-angle image data.
    Fisheye,
    /// Gyroscope motion data.
    Gyro,
    /// Accelerometer motion data.
    Accel,
    /// Signals from external devices.
    Gpio,
    /// Six-degrees-of-freedom pose data.
    Pose,
    /// Per-pixel confidence data.
    Confidence,
    /// Combined motion data.
    Motion,
}

impl Rs2StreamKind {
    /// The ordinal by which the native runtime knows this value.
    pub open spec fn ordinal(self) -> u32 {
        match self {
            Rs2StreamKind::Any => 0,
            Rs2StreamKind::Depth => 1,
            Rs2StreamKind::Color => 2,
            Rs2StreamKind::Infrared => 3,
            Rs2StreamKind::Fisheye => 4,
            Rs2StreamKind::Gyro => 5,
            Rs2StreamKind::Accel => 6,
            Rs2StreamKind::Gpio => 7,
            Rs2StreamKind::Pose => 8,
            Rs2StreamKind::Confidence => 9,
            Rs2StreamKind::Motion => 10,
        }
    }

    /// The ordinal of this value.
    pub fn to_u32(&self) -> (ordinal: u32)
        ensures
            ordinal == self.ordinal(),
    {
        match self {
            Rs2StreamKind::Any => 0,
            Rs2StreamKind::Depth => 1,
            Rs2StreamKind::Color => 2,
            Rs2StreamKind::Infrared => 3,
            Rs2StreamKind::Fisheye => 4,
            Rs2StreamKind::Gyro => 5,
            Rs2StreamKind::Accel => 6,
            Rs2StreamKind::Gpio => 7,
            Rs2StreamKind::Pose => 8,
            Rs2StreamKind::Confidence => 9,
            Rs2StreamKind::Motion => 10,
        }
    }

    /// The value with the given ordinal, if there is one.
    pub fn from_u32(ordinal: u32) -> (value: Option<Rs2StreamKind>)
        ensures
            (match value {
                Some(v) => v.ordinal() == ordinal,
                None => forall|v: Rs2StreamKind| v.ordinal() != ordinal,
            }),
    {
        match ordinal {
            0 => Some(Rs2StreamKind::Any),
            1 => Some(Rs2StreamKind::Depth),
            2 => Some(Rs2StreamKind::Color),
            3 => Some(Rs2StreamKind::Infrared),
            4 => Some(Rs2StreamKind::Fisheye),
            5 => Some(Rs2StreamKind::Gyro),
            6 => Some(Rs2StreamKind::Accel),
            7 => Some(Rs2StreamKind::Gpio),
            8 => Some(Rs2StreamKind::Pose),
            9 => Some(Rs2StreamKind::Confidence),
            10 => Some(Rs2StreamKind::Motion),
            _ => None,
        }
    }

}

/// Distinct values of [`Rs2StreamKind`] have distinct ordinals, so the ordinal
/// identifies the value.
pub proof fn lemma_stream_kind_ordinal_injective(a: Rs2StreamKind, b: Rs2StreamKind)
    requires
        a.ordinal() == b.ordinal(),
    ensures
        a == b,
{
}

} // verus!

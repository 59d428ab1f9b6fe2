//! The numeric options of a processing stage.

use crate::kind::exception::Rs2Exception;
use vstd::prelude::*;

verus! {

/// An option that can be read or set on a processing stage.
#[derive(Debug, Clone, Copy, PartialEq, Eq, Structural, Hash)]
pub enum Rs2Option {
    /// Number of frames the stage may hold at once.
    FramesQueueSize,
    /// Minimum distance that a threshold keeps.
    MinDistance,
    /// Maximum distance that a threshold keeps.
    MaxDistance,
    /// Strength of a filter: its iterations or its scale.
    FilterMagnitude,
    /// Weight of the current pixel in smoothing.
    FilterSmoothAlpha,
    /// Step size up to which an edge is smoothed over.
    FilterSmoothDelta,
    /// How far holes in depth data are filled.
    HolesFill,
    /// The stream a filter is applied to.
    StreamFilter,
    /// The stream format a filter is applied to.
    StreamFormatFilter,
    /// The stream index a filter is applied to.
    StreamIndexFilter,
}

impl Rs2Option {
    /// The ordinal by which the native runtime knows this value.
    pub open spec fn ordinal(self) -> u32 {
        match self {
            Rs2Option::FramesQueueSize => 19,
            Rs2Option::MinDistance => 33,
            Rs2Option::MaxDistance => 34,
            Rs2Option::FilterMagnitude => 36,
            Rs2Option::FilterSmoothAlpha => 37,
            Rs2Option::FilterSmoothDelta => 38,
            Rs2Option::HolesFill => 39,
            Rs2Option::StreamFilter => 43,
            Rs2Option::StreamFormatFilter => 44,
            Rs2Option::StreamIndexFilter => 45,
        }
    }

    /// The ordinal of this value.
    pub fn to_u32(&self) -> (ordinal: u32)
        ensures
            ordinal == self.ordinal(),
    {
        match self {
            Rs2Option::FramesQueueSize => 19,
            Rs2Option::MinDistance => 33,
            Rs2Option::MaxDistance => 34,
            Rs2Option::FilterMagnitude => 36,
            Rs2Option::FilterSmoothAlpha => 37,
            Rs2Option::FilterSmoothDelta => 38,
            Rs2Option::HolesFill => 39,
            Rs2Option::StreamFilter => 43,
            Rs2Option::StreamFormatFilter => 44,
            Rs2Option::StreamIndexFilter => 45,
        }
    }

    /// The value with the given ordinal, if there is one.
    pub fn from_u32(ordinal: u32) -> (value: Option<Rs2Option>)
        ensures
            (match value {
                Some(v) => v.ordinal() == ordinal,
                None => forall|v: Rs2Option| v.ordinal() != ordinal,
            }),
    {
        match ordinal {
            19 => Some(Rs2Option::FramesQueueSize),
            33 => Some(Rs2Option::MinDistance),
            34 => Some(Rs2Option::MaxDistance),
            36 => Some(Rs2Option::FilterMagnitude),
            37 => Some(Rs2Option::FilterSmoothAlpha),
            38 => Some(Rs2Option::FilterSmoothDelta),
            39 => Some(Rs2Option::HolesFill),
            43 => Some(Rs2Option::StreamFilter),
            44 => Some(Rs2Option::StreamFormatFilter),
            45 => Some(Rs2Option::StreamIndexFilter),
            _ => None,
        }
    }

}

/// Why an option could not be set.
#[derive(Debug, Clone, PartialEq, Eq)]
pub enum OptionSetError {
    /// The option is not supported.
    OptionNotSupported,
    /// The option is supported but can only be read.
    OptionIsReadOnly,
    /// The option is supported and can be written, but the native runtime
    /// refused to set it.
    CouldNotSetOption(Rs2Exception, String),
}

/// Distinct values of [`Rs2Option`] have distinct ordinals, so the ordinal
/// identifies the value.
pub proof fn lemma_option_ordinal_injective(a: Rs2Option, b: Rs2Option)
    requires
        a.ordinal() == b.ordinal(),
    ensures
        a == b,
{
}

} // verus!

//! The capability tags by which an opaque handle is asked what it can be
//! taken for.

use vstd::prelude::*;

verus! {

/// A capability tag of the native type system.
#[derive(Debug, Clone, Copy, PartialEq, Eq, Structural, Hash)]
pub enum Extension {
    /// A sensor capability.
    ColorSensor,
    /// A sensor capability.
    MotionSensor,
    /// A sensor capability.
    FishEyeSensor,
    /// A sensor capability.
    DepthSensor,
    /// A sensor capability.
    DepthStereoSensor,
    /// A sensor capability.
    SoftwareSensor,
    /// A sensor capability.
    PoseSensor,
    /// A sensor capability.
    L500DepthSensor,
    /// A sensor capability.
    Tm2Sensor,
    /// A frame capability.
    VideoFrame,
    /// A frame capability.
    MotionFrame,
    /// A frame capability.
    CompositeFrame,
    /// A frame capability.
    DepthFrame,
    /// A frame capability.
    DisparityFrame,
    /// A frame capability.
    PoseFrame,
    /// A frame capability.
    Points,
    /// A filter capability.
    DecimationFilter,
    /// A filter capability.
    ThresholdFilter,
    /// A filter capability.
    DisparityFilter,
    /// A filter capability.
    SpatialFilter,
    /// A filter capability.
    TemporalFilter,
    /// A filter capability.
    HoleFillingFilter,
    /// A filter capability.
    ZeroOrderFilter,
    /// A filter capability.
    RecommendedFilters,
    /// A stream-profile capability.
    VideoProfile,
    /// A stream-profile capability.
    MotionProfile,
    /// A stream-profile capability.
    PoseProfile,
    /// A device capability.
    SoftwareDevice,
    /// A device capability.
    UpdateDevice,
    /// A device capability.
    AutoCalibratedDevice,
    /// A general capability.
    AdvancedMode,
    /// A general capability.
    Record,
    /// A general capability.
    Playback,
    /// A general capability.
    Pose,
    /// A general capability.
    WheelOdometer,
    /// A general capability.
    GlobalTimer,
    /// A general capability.
    Updatable,
    /// A general capability.
    Tm2,
    /// A general capability.
    Unknown,
    /// A general capability.
    Debug,
    /// A general capability.
    Info,
    /// A general capability.
    Motion,
    /// A general capability.
    Options,
    /// A general capability.
    Video,
    /// A general capability.
    Roi,
}

impl Extension {
    /// The ordinal by which the native runtime knows this value.
    pub open spec fn ordinal(self) -> u32 {
        match self {
            Extension::ColorSensor => 42,
            Extension::MotionSensor => 43,
            Extension::FishEyeSensor => 44,
            Extension::DepthSensor => 7,
            Extension::DepthStereoSensor => 17,
            Extension::SoftwareSensor => 24,
            Extension::PoseSensor => 34,
            Extension::L500DepthSensor => 39,
            Extension::Tm2Sensor => 40,
            Extension::VideoFrame => 8,
            Extension::MotionFrame => 9,
            Extension::CompositeFrame => 10,
            Extension::DepthFrame => 12,
            Extension::DisparityFrame => 18,
            Extension::PoseFrame => 20,
            Extension::Points => 11,
            Extension::DecimationFilter => 25,
            Extension::ThresholdFilter => 26,
            Extension::DisparityFilter => 27,
            Extension::SpatialFilter => 28,
            Extension::TemporalFilter => 29,
            Extension::HoleFillingFilter => 30,
            Extension::ZeroOrderFilter => 31,
            Extension::RecommendedFilters => 32,
            Extension::VideoProfile => 15,
            Extension::MotionProfile => 19,
            Extension::PoseProfile => 21,
            Extension::SoftwareDevice => 23,
            Extension::UpdateDevice => 38,
            Extension::AutoCalibratedDevice => 41,
            Extension::AdvancedMode => 13,
            Extension::Record => 14,
            Extension::Playback => 16,
            Extension::Pose => 33,
            Extension::WheelOdometer => 35,
            Extension::GlobalTimer => 36,
            Extension::Updatable => 37,
            Extension::Tm2 => 22,
            Extension::Unknown => 0,
            Extension::Debug => 1,
            Extension::Info => 2,
            Extension::Motion => 3,
            Extension::Options => 4,
            Extension::Video => 5,
            Extension::Roi => 6,
        }
    }

    /// The ordinal of this value.
    pub fn to_u32(&self) -> (ordinal: u32)
        ensures
            ordinal == self.ordinal(),
    {
        match self {
            Extension::ColorSensor => 42,
            Extension::MotionSensor => 43,
            Extension::FishEyeSensor => 44,
            Extension::DepthSensor => 7,
            Extension::DepthStereoSensor => 17,
            Extension::SoftwareSensor => 24,
            Extension::PoseSensor => 34,
            Extension::L500DepthSensor => 39,
            Extension::Tm2Sensor => 40,
            Extension::VideoFrame => 8,
            Extension::MotionFrame => 9,
            Extension::CompositeFrame => 10,
            Extension::DepthFrame => 12,
            Extension::DisparityFrame => 18,
            Extension::PoseFrame => 20,
            Extension::Points => 11,
            Extension::DecimationFilter => 25,
            Extension::ThresholdFilter => 26,
            Extension::DisparityFilter => 27,
            Extension::SpatialFilter => 28,
            Extension::TemporalFilter => 29,
            Extension::HoleFillingFilter => 30,
            Extension::ZeroOrderFilter => 31,
            Extension::RecommendedFilters => 32,
            Extension::VideoProfile => 15,
            Extension::MotionProfile => 19,
            Extension::PoseProfile => 21,
            Extension::SoftwareDevice => 23,
            Extension::UpdateDevice => 38,
            Extension::AutoCalibratedDevice => 41,
            Extension::AdvancedMode => 13,
            Extension::Record => 14,
            Extension::Playback => 16,
            Extension::Pose => 33,
            Extension::WheelOdometer => 35,
            Extension::GlobalTimer => 36,
            Extension::Updatable => 37,
            Extension::Tm2 => 22,
            Extension::Unknown => 0,
            Extension::Debug => 1,
            Extension::Info => 2,
            Extension::Motion => 3,
            Extension::Options => 4,
            Extension::Video => 5,
            Extension::Roi => 6,
        }
    }

    /// The value with the given ordinal, if there is one.
    pub fn from_u32(ordinal: u32) -> (value: Option<Extension>)
        ensures
            (match value {
                Some(v) => v.ordinal() == ordinal,
                None => forall|v: Extension| v.ordinal() != ordinal,
            }),
    {
        match ordinal {
            42 => Some(Extension::ColorSensor),
            43 => Some(Extension::MotionSensor),
            44 => Some(Extension::FishEyeSensor),
            7 => Some(Extension::DepthSensor),
            17 => Some(Extension::DepthStereoSensor),
            24 => Some(Extension::SoftwareSensor),
            34 => Some(Extension::PoseSensor),
            39 => Some(Extension::L500DepthSensor),
            40 => Some(Extension::Tm2Sensor),
            8 => Some(Extension::VideoFrame),
            9 => Some(Extension::MotionFrame),
            10 => Some(Extension::CompositeFrame),
            12 => Some(Extension::DepthFrame),
            18 => Some(Extension::DisparityFrame),
            20 => Some(Extension::PoseFrame),
            11 => Some(Extension::Points),
            25 => Some(Extension::DecimationFilter),
            26 => Some(Extension::ThresholdFilter),
            27 => Some(Extension::DisparityFilter),
            28 => Some(Extension::SpatialFilter),
            29 => Some(Extension::TemporalFilter),
            30 => Some(Extension::HoleFillingFilter),
            31 => Some(Extension::ZeroOrderFilter),
            32 => Some(Extension::RecommendedFilters),
            15 => Some(Extension::VideoProfile),
            19 => Some(Extension::MotionProfile),
            21 => Some(Extension::PoseProfile),
            23 => Some(Extension::SoftwareDevice),
            38 => Some(Extension::UpdateDevice),
            41 => Some(Extension::AutoCalibratedDevice),
            13 => Some(Extension::AdvancedMode),
            14 => Some(Extension::Record),
            16 => Some(Extension::Playback),
            33 => Some(Extension::Pose),
            35 => Some(Extension::WheelOdometer),
            36 => Some(Extension::GlobalTimer),
            37 => Some(Extension::Updatable),
            22 => Some(Extension::Tm2),
            0 => Some(Extension::Unknown),
            1 => Some(Extension::Debug),
            2 => Some(Extension::Info),
            3 => Some(Extension::Motion),
            4 => Some(Extension::Options),
            5 => Some(Extension::Video),
            6 => Some(Extension::Roi),
            _ => None,
        }
    }

}

/// Distinct values of [`Extension`] have distinct ordinals, so the ordinal
/// identifies the value.
pub proof fn lemma_extension_ordinal_injective(a: Extension, b: Extension)
    requires
        a.ordinal() == b.ordinal(),
    ensures
        a == b,
{
}

} // verus!

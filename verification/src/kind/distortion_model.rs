//! The kinds of distortion that a stream profile can carry.

use vstd::prelude::*;

verus! {

/// The number of distortion models; every ordinal below it names one.
pub const DISTORTION_MODEL_COUNT: u32 = 6;

/// The distortion model of a stream.
#[derive(Debug, Clone, Copy, PartialEq, Eq, Structural, Hash)]
pub enum Rs2DistortionModel {
    /// Rectilinear images. No distortion compensation required.
    NoDistortion,
    /// Unmodified Brown-Conrady distortion model.
    BrownConrady,
    /// Brown-Conrady distortion where tangential distortion is applied to radially distorted points.
    BrownConradyModified,
    /// Brown-Conrady distortion that undistorts the image instead of distorting it.
    BrownConradyInverse,
    /// F-Theta fish-eye distortion model.
    FThetaFisheye,
    /// Four parameter Kannala Brandt distortion model.
    KannalaBrandt,
}

impl Rs2DistortionModel {
    /// The ordinal by which the native runtime knows this value.
    pub open spec fn ordinal(self) -> u32 {
        match self {
            Rs2DistortionModel::NoDistortion => 0,
            Rs2DistortionModel::BrownConrady => 4,
            Rs2DistortionModel::BrownConradyModified => 1,
            Rs2DistortionModel::BrownConradyInverse => 2,
            Rs2DistortionModel::FThetaFisheye => 3,
            Rs2DistortionModel::KannalaBrandt => 5,
        }
    }

    /// The ordinal of this value.
    pub fn to_u32(&self) -> (ordinal: u32)
        ensures
            ordinal == self.ordinal(),
    {
        match self {
            Rs2DistortionModel::NoDistortion => 0,
            Rs2DistortionModel::BrownConrady => 4,
            Rs2DistortionModel::BrownConradyModified => 1,
            Rs2DistortionModel::BrownConradyInverse => 2,
            Rs2DistortionModel::FThetaFisheye => 3,
            Rs2DistortionModel::KannalaBrandt => 5,
        }
    }

    /// The value with the given ordinal, if there is one.
    pub fn from_u32(ordinal: u32) -> (value: Option<Rs2DistortionModel>)
        ensures
            (match value {
                Some(v) => v.ordinal() == ordinal,
                None => forall|v: Rs2DistortionModel| v.ordinal() != ordinal,
            }),
    {
        match ordinal {
            0 => Some(Rs2DistortionModel::NoDistortion),
            4 => Some(Rs2DistortionModel::BrownConrady),
            1 => Some(Rs2DistortionModel::BrownConradyModified),
            2 => Some(Rs2DistortionModel::BrownConradyInverse),
            3 => Some(Rs2DistortionModel::FThetaFisheye),
            5 => Some(Rs2DistortionModel::KannalaBrandt),
            _ => None,
        }
    }

    /// Every ordinal below the number of distortion models names a model.
    pub proof fn lemma_all_variants_exist(ordinal: u32)
        requires
            ordinal < DISTORTION_MODEL_COUNT,
        ensures
            exists|m: Rs2DistortionModel| m.ordinal() == ordinal,
    {
        let m = match ordinal {
            0 => Rs2DistortionModel::NoDistortion,
            1 => Rs2DistortionModel::BrownConradyModified,
            2 => Rs2DistortionModel::BrownConradyInverse,
            3 => Rs2DistortionModel::FThetaFisheye,
            4 => Rs2DistortionModel::BrownConrady,
            _ => Rs2DistortionModel::KannalaBrandt,
        };
        assert(m.ordinal() == ordinal);
    }
}

/// Distinct values of [`Rs2DistortionModel`] have distinct ordinals, so the ordinal
/// identifies the value.
pub proof fn lemma_distortion_model_ordinal_injective(a: Rs2DistortionModel, b: Rs2DistortionModel)
    requires
        a.ordinal() == b.ordinal(),
    ensures
        a == b,
{
}

} // verus!

//! Failure values for projection construction and the checked transforms.

use crate::fp::Fp;
use vstd::prelude::*;

verus! {

/// The numeric parameters a projection constructor validates.
#[derive(Clone, Copy, PartialEq, Eq, Structural, Debug)]
pub enum ParamName {
    /// Reference longitude.
    RefLon,
    /// Reference latitude.
    RefLat,
    /// First standard parallel.
    StdPar1,
    /// Second standard parallel.
    StdPar2,
    /// Standard parallel of the cylindrical projection.
    StdPar,
    /// Longitude of the rotated pole.
    PoleLon,
    /// Latitude of the rotated pole.
    PoleLat,
    /// Longitude of the central meridian.
    CentralLon,
}

impl ParamName {
    /// The parameter's name as it appears in messages.
    pub fn text(self) -> &'static str {
        match self {
            ParamName::RefLon => "ref_lon",
            ParamName::RefLat => "ref_lat",
            ParamName::StdPar1 => "std_par_1",
            ParamName::StdPar2 => "std_par_2",
            ParamName::StdPar => "std_par",
            ParamName::PoleLon => "pole_lon",
            ParamName::PoleLat => "pole_lat",
            ParamName::CentralLon => "central_lon",
        }
    }
}

/// The projection-specific structural constraints a constructor can reject.
#[derive(Clone, Copy, PartialEq, Eq, Structural, Debug)]
pub enum ParamsConstraint {
    /// The two standard parallels of a conic projection sum to zero, which
    /// leaves the cone constant undefined.
    StandardParallelsSumZero,
}

impl ParamsConstraint {
    /// The violated constraint as it appears in messages.
    pub fn text(self) -> &'static str {
        match self {
            ParamsConstraint::StandardParallelsSumZero => {
                "standard parallels cannot sum to zero"
            },
        }
    }
}

/// Everything that can go wrong when defining a projection or running a
/// checked transform.
#[derive(Clone, Copy, PartialEq, Eq, Structural, Debug)]
pub enum ProjectionError {
    /// A required numeric parameter is NaN or infinite.
    ParamNotFinite(ParamName),
    /// A longitude or latitude parameter lies outside its canonical
    /// interval; carries the interval's ends in whole degrees.
    ParamOutOfRange(ParamName, i32, i32),
    /// A projection-specific structural constraint failed.
    IncorrectParams(ParamsConstraint),
    /// The checked forward transform produced a non-finite coordinate;
    /// carries the longitude and latitude that were to be projected.
    ProjectionImpossible(Fp, Fp),
    /// The checked inverse transform produced a non-finite coordinate;
    /// carries the planar coordinates that were to be inverse-projected.
    InverseProjectionImpossible(Fp, Fp),
}

} // verus!

//! The trivial longitude-latitude projection.

use crate::errors::ProjectionError;
use crate::fp::{is_finite_bits, Fp};
use crate::{convert_spec, inverse_project_spec, project_spec, ConversionPipe, Projection};
use vstd::prelude::*;

verus! {

/// This is a trivial projection that does not project anything: forward and
/// inverse transforms are both the identity on the coordinate pair. Its
/// purpose is to serve as the neutral element in generic uses of
/// `ConversionPipe` where the source or target works in raw geographical
/// coordinates.
#[derive(Debug, Copy, Clone, PartialEq, Eq, Structural, Hash, Default)]
pub struct LongitudeLatitude;

impl LongitudeLatitude {
    /// Builds a [`ConversionPipe`] from this projection into `target`
    /// without performing any transform.
    pub fn pipe_to<T: Projection>(&self, target: &T) -> (r: ConversionPipe<LongitudeLatitude, T>)
        ensures
            r.source == *self,
            r.target == *target,
    {
        ConversionPipe::new(*self, *target)
    }
}

/// The round trip through the identity projection is exact: for finite
/// coordinates the checked forward transform returns the input unchanged,
/// and so does the checked inverse.
pub proof fn lemma_lon_lat_round_trip(lon: Fp, lat: Fp)
    requires
        is_finite_bits(lon.0),
        is_finite_bits(lat.0),
    ensures
        project_spec(LongitudeLatitude, lon, lat) == Ok::<(Fp, Fp), ProjectionError>((lon, lat)),
        inverse_project_spec(LongitudeLatitude, lon, lat) == Ok::<(Fp, Fp), ProjectionError>(
            (lon, lat),
        ),
{
}

/// The identity projection is the neutral element of conversion on the
/// source side: converting out of raw geographic coordinates through a pipe
/// whose source is [`LongitudeLatitude`] is exactly the target's checked
/// projection.
pub proof fn lemma_pipe_from_lon_lat<T: Projection>(target: T, lon: Fp, lat: Fp)
    requires
        is_finite_bits(lon.0),
        is_finite_bits(lat.0),
    ensures
        convert_spec(ConversionPipe { source: LongitudeLatitude, target }, lon, lat)
            == project_spec(target, lon, lat),
{
}

/// The identity projection is the neutral element of conversion on the
/// target side: converting into raw geographic coordinates through a pipe
/// whose target is [`LongitudeLatitude`] is exactly the source's checked
/// inverse projection.
pub proof fn lemma_pipe_into_lon_lat<S: Projection>(source: S, x: Fp, y: Fp)
    ensures
        convert_spec(ConversionPipe { source, target: LongitudeLatitude }, x, y)
            == inverse_project_spec(source, x, y),
{
}

impl Projection for LongitudeLatitude {
    open spec fn fwd_spec(self, lon: u64, lat: u64) -> (u64, u64) {
        (lon, lat)
    }

    open spec fn inv_spec(self, x: u64, y: u64) -> (u64, u64) {
        (x, y)
    }

    fn project_unchecked(&self, lon: Fp, lat: Fp) -> (r: (Fp, Fp)) {
        (lon, lat)
    }

    fn inverse_project_unchecked(&self, x: Fp, y: Fp) -> (r: (Fp, Fp)) {
        (x, y)
    }
}

} // verus!

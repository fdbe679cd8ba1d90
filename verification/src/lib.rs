//! Pure Rust geographical projections library.
//!
//! A projection is configured and validated once, yielding an immutable
//! value with precomputed constants; forward and inverse transforms are then
//! pure functions of that value and the input coordinates, safe to share
//! across threads. Projections' implementations closely follow algorithms
//! and instructions provided in Snyder's "Map projections: A working manual"
//! (USGS Professional Paper 1395, 1987).
//!
//! Longitudes and latitudes at the interface are degrees; planar outputs are
//! meters for every projection except the oblique longitude-latitude
//! rotation, which yields degrees. Every scalar is carried as the raw bit
//! pattern of a double-precision number in [`Fp`]; see [`fp`].

use vstd::prelude::*;

pub mod ellipsoids;
pub mod errors;
pub mod fp;
pub mod geodesic;
pub mod projections;

pub use ellipsoids::Ellipsoid;
pub use errors::{ParamName, ParamsConstraint, ProjectionError};
pub use fp::Fp;

verus! {

use crate::fp::is_finite_bits;

/// The checked forward transform: the unchecked result when both of its
/// coordinates are finite, and `ProjectionImpossible` with the offending
/// input otherwise.
pub open spec fn project_spec<P: Projection>(p: P, lon: Fp, lat: Fp) -> Result<
    (Fp, Fp),
    ProjectionError,
> {
    let (x, y) = p.fwd_spec(lon.0, lat.0);
    if !is_finite_bits(x) || !is_finite_bits(y) {
        Err(ProjectionError::ProjectionImpossible(lon, lat))
    } else {
        Ok((Fp(x), Fp(y)))
    }
}

/// The checked inverse transform: the unchecked result when both of its
/// coordinates are finite, and `InverseProjectionImpossible` with the
/// offending input otherwise.
pub open spec fn inverse_project_spec<P: Projection>(p: P, x: Fp, y: Fp) -> Result<
    (Fp, Fp),
    ProjectionError,
> {
    let (lon, lat) = p.inv_spec(x.0, y.0);
    if !is_finite_bits(lon) || !is_finite_bits(lat) {
        Err(ProjectionError::InverseProjectionImpossible(x, y))
    } else {
        Ok((Fp(lon), Fp(lat)))
    }
}

/// An interface for all projections included in the crate.
///
/// Both transforms are total functions of the projection value and the
/// input bit patterns, which is what makes repeated and concurrent calls on
/// a shared projection instance return identical results.
pub trait Projection: Sized + Copy {
    /// The raw forward transform: degrees of longitude and latitude to
    /// planar coordinates, as a function on bit patterns.
    spec fn fwd_spec(self, lon: u64, lat: u64) -> (u64, u64);

    /// The raw inverse transform: planar coordinates back to degrees of
    /// longitude and latitude, as a function on bit patterns.
    spec fn inv_spec(self, x: u64, y: u64) -> (u64, u64);

    /// Same as [`Projection::project()`] but does not check the result.
    fn project_unchecked(&self, lon: Fp, lat: Fp) -> (r: (Fp, Fp))
        ensures
            (r.0.0, r.1.0) == self.fwd_spec(lon.0, lat.0),
    ;

    /// Same as [`Projection::inverse_project()`] but does not check the
    /// result.
    fn inverse_project_unchecked(&self, x: Fp, y: Fp) -> (r: (Fp, Fp))
        ensures
            (r.0.0, r.1.0) == self.inv_spec(x.0, y.0),
    ;

    /// Function to project geographical coordinates (in degrees) to
    /// cartographical coordinates (in meters) on a map with specified
    /// projection.
    ///
    /// # Errors
    ///
    /// Returns [`ProjectionError::ProjectionImpossible`] when the result of
    /// projection is not finite.
    fn project(&self, lon: Fp, lat: Fp) -> (r: Result<(Fp, Fp), ProjectionError>)
        ensures
            r == ({
                let (x, y) = self.fwd_spec(lon.0, lat.0);
                if !is_finite_bits(x) || !is_finite_bits(y) {
                    Err(ProjectionError::ProjectionImpossible(lon, lat))
                } else {
                    Ok((Fp(x), Fp(y)))
                }
            }),
    {
        let (x, y) = self.project_unchecked(lon, lat);
        if !x.is_finite() || !y.is_finite() {
            Err(ProjectionError::ProjectionImpossible(lon, lat))
        } else {
            Ok((x, y))
        }
    }

    /// Function to inversely project cartographical coordinates (in meters)
    /// to geographical coordinates (in degrees) on a map with specified
    /// projection.
    ///
    /// # Errors
    ///
    /// Returns [`ProjectionError::InverseProjectionImpossible`] when the
    /// result of inverse projection is not finite.
    fn inverse_project(&self, x: Fp, y: Fp) -> (r: Result<(Fp, Fp), ProjectionError>)
        ensures
            r == ({
                let (lon, lat) = self.inv_spec(x.0, y.0);
                if !is_finite_bits(lon) || !is_finite_bits(lat) {
                    Err(ProjectionError::InverseProjectionImpossible(x, y))
                } else {
                    Ok((Fp(lon), Fp(lat)))
                }
            }),
    {
        let (lon, lat) = self.inverse_project_unchecked(x, y);
        if !lon.is_finite() || !lat.is_finite() {
            Err(ProjectionError::InverseProjectionImpossible(x, y))
        } else {
            Ok((lon, lat))
        }
    }

}

/// The result of converting planar coordinates through a pipe: the source's
/// checked inverse transform into geographic coordinates, then the target's
/// checked forward transform, with a source failure taking precedence.
pub open spec fn convert_spec<S: Projection, T: Projection>(
    pipe: ConversionPipe<S, T>,
    x: Fp,
    y: Fp,
) -> Result<(Fp, Fp), ProjectionError> {
    match inverse_project_spec(pipe.source, x, y) {
        Ok(geo) => project_spec(pipe.target, geo.0, geo.1),
        Err(e) => Err(e),
    }
}

/// The result of converting planar coordinates through a pipe with the
/// unchecked transforms: any non-finite intermediate value propagates.
pub open spec fn convert_unchecked_spec<S: Projection, T: Projection>(
    pipe: ConversionPipe<S, T>,
    x: u64,
    y: u64,
) -> (u64, u64) {
    let (lon, lat) = pipe.source.inv_spec(x, y);
    pipe.target.fwd_spec(lon, lat)
}

/// Converts coordinates between two projections by bridging through the
/// shared geographic coordinate space: an inverse projection out of the
/// source followed by a forward projection into the target.
///
/// Both ends are already-constructed projection values, so building or
/// inverting a pipe performs no computation. The accumulated floating-point
/// and projection error of the double transform grows with the distance from
/// each projection's region of validity; long conversion chains are
/// inadvisable.
#[derive(Clone, Copy)]
pub struct ConversionPipe<S: Projection, T: Projection> {
    /// The projection the input coordinates are expressed in.
    pub source: S,
    /// The projection the output coordinates are expressed in.
    pub target: T,
}

impl<S: Projection, T: Projection> ConversionPipe<S, T> {
    /// Wraps the `source` and `target` projections into a pipe.
    pub fn new(source: S, target: T) -> (r: Self)
        ensures
            r.source == source,
            r.target == target,
    {
        Self { source, target }
    }

    /// Converts `(x, y)` from the source projection to the target
    /// projection.
    ///
    /// # Errors
    ///
    /// Fails with whichever underlying checked transform error occurs
    /// first; the source's inverse failure takes precedence.
    pub fn convert(&self, x: Fp, y: Fp) -> (r: Result<(Fp, Fp), ProjectionError>)
        ensures
            r == convert_spec(*self, x, y),
    {
        let (lon, lat) = self.source.inverse_project(x, y)?;
        self.target.project(lon, lat)
    }

    /// Same as [`ConversionPipe::convert()`] but with the unchecked
    /// transforms: a non-finite intermediate value propagates instead of
    /// failing.
    pub fn convert_unchecked(&self, x: Fp, y: Fp) -> (r: (Fp, Fp))
        ensures
            (r.0.0, r.1.0) == convert_unchecked_spec(*self, x.0, y.0),
    {
        let (lon, lat) = self.source.inverse_project_unchecked(x, y);
        self.target.project_unchecked(lon, lat)
    }

    /// The pipe that converts in the opposite direction: source and target
    /// swapped, with no recomputation.
    pub fn invert(self) -> (r: ConversionPipe<T, S>)
        ensures
            r.source == self.target,
            r.target == self.source,
    {
        ConversionPipe { source: self.target, target: self.source }
    }
}

// ---------------------------------------------------------------------------
// Batch transforms. The per-point computations are independent pure
// functions, so a batch may be dispatched by any data-parallel primitive;
// these helpers give the two required semantics over a slice of pairs: a
// checked mode that fails the whole batch on the first failing point, and an
// unchecked mode that lets non-finite values propagate per element.
// ---------------------------------------------------------------------------

/// Projects every coordinate pair of a batch through the checked forward
/// transform, failing with the first point's error.
pub fn project_batch<P: Projection>(proj: &P, coords: &Vec<(Fp, Fp)>) -> (r: Result<
    Vec<(Fp, Fp)>,
    ProjectionError,
>)
    ensures
        match r {
            Ok(out) => out.len() == coords.len() && forall|i: int|
                0 <= i < coords.len() ==> project_spec(*proj, coords[i].0, coords[i].1) == Ok::<
                    (Fp, Fp),
                    ProjectionError,
                >(#[trigger] out[i]),
            Err(e) => exists|i: int|
                0 <= i < coords.len() && project_spec(*proj, #[trigger] coords[i].0, coords[i].1)
                    == Err::<(Fp, Fp), ProjectionError>(e),
        },
{
    let mut out: Vec<(Fp, Fp)> = Vec::new();
    let mut idx: usize = 0;
    while idx < coords.len()
        invariant
            idx <= coords.len(),
            out.len() == idx,
            forall|i: int|
                0 <= i < idx ==> project_spec(*proj, coords[i].0, coords[i].1) == Ok::<
                    (Fp, Fp),
                    ProjectionError,
                >(#[trigger] out[i]),
        decreases coords.len() - idx,
    {
        let (lon, lat) = coords[idx];
        match proj.project(lon, lat) {
            Ok(xy) => out.push(xy),
            Err(e) => {
                return Err(e);
            },
        }
        idx += 1;
    }
    Ok(out)
}

/// Projects every coordinate pair of a batch through the unchecked forward
/// transform; non-finite results stay in place.
pub fn project_batch_unchecked<P: Projection>(proj: &P, coords: &Vec<(Fp, Fp)>) -> (r: Vec<
    (Fp, Fp),
>)
    ensures
        r.len() == coords.len(),
        forall|i: int|
            0 <= i < coords.len() ==> ((#[trigger] r[i]).0.0, r[i].1.0) == proj.fwd_spec(
                coords[i].0.0,
                coords[i].1.0,
            ),
{
    let mut out: Vec<(Fp, Fp)> = Vec::new();
    let mut idx: usize = 0;
    while idx < coords.len()
        invariant
            idx <= coords.len(),
            out.len() == idx,
            forall|i: int|
                0 <= i < idx ==> ((#[trigger] out[i]).0.0, out[i].1.0) == proj.fwd_spec(
                    coords[i].0.0,
                    coords[i].1.0,
                ),
        decreases coords.len() - idx,
    {
        let (lon, lat) = coords[idx];
        let xy = proj.project_unchecked(lon, lat);
        out.push(xy);
        idx += 1;
    }
    out
}

/// Inverse-projects every planar pair of a batch through the checked
/// inverse transform, failing with the first point's error.
pub fn inverse_project_batch<P: Projection>(proj: &P, points: &Vec<(Fp, Fp)>) -> (r: Result<
    Vec<(Fp, Fp)>,
    ProjectionError,
>)
    ensures
        match r {
            Ok(out) => out.len() == points.len() && forall|i: int|
                0 <= i < points.len() ==> inverse_project_spec(*proj, points[i].0, points[i].1)
                    == Ok::<(Fp, Fp), ProjectionError>(#[trigger] out[i]),
            Err(e) => exists|i: int|
                0 <= i < points.len() && inverse_project_spec(
                    *proj,
                    #[trigger] points[i].0,
                    points[i].1,
                ) == Err::<(Fp, Fp), ProjectionError>(e),
        },
{
    let mut out: Vec<(Fp, Fp)> = Vec::new();
    let mut idx: usize = 0;
    while idx < points.len()
        invariant
            idx <= points.len(),
            out.len() == idx,
            forall|i: int|
                0 <= i < idx ==> inverse_project_spec(*proj, points[i].0, points[i].1) == Ok::<
                    (Fp, Fp),
                    ProjectionError,
                >(#[trigger] out[i]),
        decreases points.len() - idx,
    {
        let (x, y) = points[idx];
        match proj.inverse_project(x, y) {
            Ok(geo) => out.push(geo),
            Err(e) => {
                return Err(e);
            },
        }
        idx += 1;
    }
    Ok(out)
}

/// Inverse-projects every planar pair of a batch through the unchecked
/// inverse transform; non-finite results stay in place.
pub fn inverse_project_batch_unchecked<P: Projection>(proj: &P, points: &Vec<(Fp, Fp)>) -> (r: Vec<
    (Fp, Fp),
>)
    ensures
        r.len() == points.len(),
        forall|i: int|
            0 <= i < points.len() ==> ((#[trigger] r[i]).0.0, r[i].1.0) == proj.inv_spec(
                points[i].0.0,
                points[i].1.0,
            ),
{
    let mut out: Vec<(Fp, Fp)> = Vec::new();
    let mut idx: usize = 0;
    while idx < points.len()
        invariant
            idx <= points.len(),
            out.len() == idx,
            forall|i: int|
                0 <= i < idx ==> ((#[trigger] out[i]).0.0, out[i].1.0) == proj.inv_spec(
                    points[i].0.0,
                    points[i].1.0,
                ),
        decreases points.len() - idx,
    {
        let (x, y) = points[idx];
        let geo = proj.inverse_project_unchecked(x, y);
        out.push(geo);
        idx += 1;
    }
    out
}

// ---------------------------------------------------------------------------
// Determinism. Projection values are immutable and the transforms are
// functions of the value and the inputs alone, so repeated calls - from one
// thread or from many sharing one instance - agree bit for bit.
// ---------------------------------------------------------------------------

/// Any two results of the checked forward transform on one projection value
/// and one input pair are identical: the contract pins each to the same
/// function of the inputs, which is what makes a projection safe to share
/// across threads without synchronization.
pub proof fn lemma_project_deterministic<P: Projection>(
    p: P,
    lon: Fp,
    lat: Fp,
    r1: Result<(Fp, Fp), ProjectionError>,
    r2: Result<(Fp, Fp), ProjectionError>,
)
    requires
        r1 == project_spec(p, lon, lat),
        r2 == project_spec(p, lon, lat),
    ensures
        r1 == r2,
{
}

/// Any two results of the checked inverse transform on one projection value
/// and one input pair are identical.
pub proof fn lemma_inverse_project_deterministic<P: Projection>(
    p: P,
    x: Fp,
    y: Fp,
    r1: Result<(Fp, Fp), ProjectionError>,
    r2: Result<(Fp, Fp), ProjectionError>,
)
    requires
        r1 == inverse_project_spec(p, x, y),
        r2 == inverse_project_spec(p, x, y),
    ensures
        r1 == r2,
{
}

} // verus!

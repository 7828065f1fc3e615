//! Structured errors returned by the entity constructors.

use vstd::prelude::*;

verus! {

/// The entity family a constructor belongs to, carried inside an error so a
/// caller can report which directive failed.
#[derive(Clone, Copy, Debug, PartialEq, Eq, Structural)]
pub enum EntityFamily {
    Options,
    Film,
    Camera,
    Integrator,
    Accelerator,
    Sampler,
    Light,
    Texture,
    Material,
    Shape,
    Medium,
}

/// Why a constructor rejected a directive.
///
/// Every constructor returns a `Result`; no constructor recovers from its own
/// errors, and no partial entity is ever returned alongside one.
#[derive(Clone, Copy, Debug, PartialEq, Eq, Structural)]
pub enum Error {
    /// A coordinate-system token outside {"cameraworld", "camera", "world"}.
    UnknownCoordinateSystem,
    /// A BVH split-method token outside {"sah", "middle", "equal", "hlbvh"}.
    UnknownSplitMethod,
    /// A type tag outside the named family's declared set.
    UnrecognizedTypeTag(EntityFamily),
    /// A declared variant or option whose construction is not built yet.
    UnimplementedVariant(EntityFamily),
    /// A present array parameter whose length is not the required fixed
    /// arity (a crop window must hold exactly 4 values, a radiance spectrum
    /// exactly 3).
    FixedArityMismatch { expected: usize, got: usize },
    /// A present array parameter whose length is not a multiple of the
    /// required divisor (mesh indices come in triples).
    FixedMultipleMismatch { divisor: usize, got: usize },
}

} // verus!

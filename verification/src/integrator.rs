//! The integrator: the light transport algorithm that computes radiance
//! arriving at the film plane.

use vstd::prelude::*;
use crate::error::{EntityFamily, Error};
use crate::params::ParamList;
use crate::text::str_eq;

verus! {

/// The light transport algorithm.
///
/// Only volumetric path tracing is fully wired; the other declared variants
/// construct as a recoverable unimplemented-variant error until they are
/// built.
#[derive(Clone, Copy, Debug, PartialEq, Eq, Structural)]
pub enum Integrator {
    /// Ambient occlusion (accessibility over the hemisphere).
    AmbientOcclusion,
    /// Bidirectional path tracing.
    Bdpt,
    /// Path tracing starting from the light sources.
    LightPath,
    /// Metropolis light transport using bidirectional path tracing.
    Mlt,
    /// Path tracing.
    Path,
    /// Rendering using a simple random walk without any explicit light sampling.
    RandomWalk,
    /// Path tracing with very basic sampling algorithms.
    SimplePath,
    /// Volumetric path tracing with very basic sampling algorithms.
    SimpleVolPath,
    /// Stochastic progressive photon mapping.
    Sppm,
    /// Volumetric path tracing.
    VolPath {
        /// Maximum length of a light-carrying path sampled by the integrator.
        max_depth: i32,
    },
}

/// Whether a token names a declared integrator variant whose construction is
/// not built yet.
pub open spec fn is_unbuilt_integrator_tag(ty: Seq<char>) -> bool {
    ||| ty == "ambientocclusion"@
    ||| ty == "bdpt"@
    ||| ty == "lightpath"@
    ||| ty == "mlt"@
    ||| ty == "path"@
    ||| ty == "randomwalk"@
    ||| ty == "simplepath"@
    ||| ty == "simplevolpath"@
    ||| ty == "sppm"@
}

impl Integrator {
    /// What constructing an integrator returns, for every tag and source:
    /// "volpath" reads the maximum path depth (default 5); the other nine
    /// declared tags are an unimplemented-variant error until their
    /// constructors are built; any other tag is an unrecognized-type-tag
    /// error.
    pub open spec fn spec_new(ty: Seq<char>, params: ParamList) -> Result<Integrator, Error> {
        if ty == "volpath"@ {
            Ok(Integrator::VolPath { max_depth: params.spec_integer("maxdepth"@, 5) })
        } else if is_unbuilt_integrator_tag(ty) {
            Err(Error::UnimplementedVariant(EntityFamily::Integrator))
        } else {
            Err(Error::UnrecognizedTypeTag(EntityFamily::Integrator))
        }
    }

    /// Constructs the integrator a directive selects.
    pub fn new(ty: &str, params: ParamList) -> (r: Result<Integrator, Error>)
        ensures
            r == Integrator::spec_new(ty@, params),
    {
        if str_eq(ty, "volpath") {
            Ok(Integrator::VolPath { max_depth: params.integer("maxdepth", 5) })
        } else if str_eq(ty, "ambientocclusion") || str_eq(ty, "bdpt") || str_eq(ty, "lightpath")
            || str_eq(ty, "mlt") || str_eq(ty, "path") || str_eq(ty, "randomwalk")
            || str_eq(ty, "simplepath") || str_eq(ty, "simplevolpath") || str_eq(ty, "sppm") {
            Err(Error::UnimplementedVariant(EntityFamily::Integrator))
        } else {
            Err(Error::UnrecognizedTypeTag(EntityFamily::Integrator))
        }
    }
}

} // verus!

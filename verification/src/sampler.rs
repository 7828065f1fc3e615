//! The sampler: generates samples for the image, time, lens, and Monte Carlo
//! integration.

use vstd::prelude::*;
use crate::error::{EntityFamily, Error};
use crate::params::ParamList;
use crate::text::str_eq;

verus! {

/// The sample-generation algorithm.
#[derive(Clone, Copy, Debug, PartialEq, Eq, Structural)]
pub enum Sampler {
    Halton,
    Independent,
    PaddedSobol,
    Sobol,
    Stratified,
    ZSobol,
}

impl Sampler {
    /// What constructing a sampler returns, for every tag: each of the six
    /// declared tags names its variant; any other tag is an
    /// unrecognized-type-tag error. No sampler consumes per-variant
    /// parameters yet.
    pub open spec fn spec_new(ty: Seq<char>) -> Result<Sampler, Error> {
        if ty == "halton"@ {
            Ok(Sampler::Halton)
        } else if ty == "independent"@ {
            Ok(Sampler::Independent)
        } else if ty == "paddedsobol"@ {
            Ok(Sampler::PaddedSobol)
        } else if ty == "sobol"@ {
            Ok(Sampler::Sobol)
        } else if ty == "stratified"@ {
            Ok(Sampler::Stratified)
        } else if ty == "zsobol"@ {
            Ok(Sampler::ZSobol)
        } else {
            Err(Error::UnrecognizedTypeTag(EntityFamily::Sampler))
        }
    }

    /// Constructs the sampler a directive selects. The parameter source is
    /// accepted and intentionally ignored: no sampler's own parameters are
    /// parsed yet.
    pub fn new(ty: &str, _params: ParamList) -> (r: Result<Sampler, Error>)
        ensures
            r == Sampler::spec_new(ty@),
    {
        if str_eq(ty, "halton") {
            Ok(Sampler::Halton)
        } else if str_eq(ty, "independent") {
            Ok(Sampler::Independent)
        } else if str_eq(ty, "paddedsobol") {
            Ok(Sampler::PaddedSobol)
        } else if str_eq(ty, "sobol") {
            Ok(Sampler::Sobol)
        } else if str_eq(ty, "stratified") {
            Ok(Sampler::Stratified)
        } else if str_eq(ty, "zsobol") {
            Ok(Sampler::ZSobol)
        } else {
            Err(Error::UnrecognizedTypeTag(EntityFamily::Sampler))
        }
    }
}

impl Default for Sampler {
    /// The default sampler.
    fn default() -> (r: Sampler)
        ensures
            r == Sampler::ZSobol,
    {
        Sampler::ZSobol
    }
}

} // verus!

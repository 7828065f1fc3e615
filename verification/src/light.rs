//! Light sources: they cast illumination in the scene.

use vstd::prelude::*;
use crate::error::{EntityFamily, Error};
use crate::float_bits::FloatBits;
use crate::params::ParamList;
use crate::text::str_eq;
use crate::views::{view_opt_string, view_result};

verus! {

/// A light source.
///
/// Only the infinite light carries a payload today: the other declared tags
/// construct their variant, but their own parameters are not parsed yet.
#[derive(Debug)]
pub enum Light {
    /// A directional light source "at infinity": it illuminates the scene
    /// with light arriving from a single direction.
    Distant,
    GonioPhotometric,
    /// An infinitely far away light source that potentially casts
    /// illumination from all directions.
    Infinite {
        /// The environment map to use. When absent, the light emits the same
        /// amount of radiance from every direction.
        filename: Option<String>,
        /// The spectral distribution of emission: exactly three values when
        /// present; absence means uniform unit radiance (interpreted by the
        /// renderer, not here).
        l: Option<[FloatBits; 3]>,
    },
    Point,
    Projection,
    Spot,
}

/// The mathematical value of a [`Light`].
pub ghost enum LightView {
    Distant,
    GonioPhotometric,
    Infinite { filename: Option<Seq<char>>, l: Option<Seq<FloatBits>> },
    Point,
    Projection,
    Spot,
}

impl View for Light {
    type V = LightView;

    open spec fn view(&self) -> LightView {
        match self {
            Light::Distant => LightView::Distant,
            Light::GonioPhotometric => LightView::GonioPhotometric,
            Light::Infinite { filename, l } => LightView::Infinite {
                filename: view_opt_string(*filename),
                l: match l {
                    Some(arr) => Some(arr@),
                    None => None,
                },
            },
            Light::Point => LightView::Point,
            Light::Projection => LightView::Projection,
            Light::Spot => LightView::Spot,
        }
    }
}

/// The radiance spectrum of an infinite light: absent when "L" is absent,
/// the given triple when present with exactly three values, and a
/// fixed-arity error otherwise.
pub open spec fn spec_radiance(params: ParamList) -> Result<Option<Seq<FloatBits>>, Error> {
    match params.spec_floats("L"@) {
        Some(v) => if v.len() == 3 {
            Ok(Some(v))
        } else {
            Err(Error::FixedArityMismatch { expected: 3, got: v.len() as usize })
        },
        None => Ok(None),
    }
}

impl Light {
    /// What constructing a light returns, for every tag and source: each of
    /// the six declared tags names its variant; "infinite" reads its
    /// optional environment map and optional three-value radiance spectrum;
    /// any other tag is an unrecognized-type-tag error.
    pub open spec fn spec_new(ty: Seq<char>, params: ParamList) -> Result<LightView, Error> {
        if ty == "distant"@ {
            Ok(LightView::Distant)
        } else if ty == "goniometric"@ {
            Ok(LightView::GonioPhotometric)
        } else if ty == "infinite"@ {
            match spec_radiance(params) {
                Ok(l) => Ok(
                    LightView::Infinite { filename: params.spec_string("filename"@), l },
                ),
                Err(e) => Err(e),
            }
        } else if ty == "point"@ {
            Ok(LightView::Point)
        } else if ty == "projection"@ {
            Ok(LightView::Projection)
        } else if ty == "spot"@ {
            Ok(LightView::Spot)
        } else {
            Err(Error::UnrecognizedTypeTag(EntityFamily::Light))
        }
    }

    /// Constructs the light a directive selects.
    pub fn new(ty: &str, params: ParamList) -> (r: Result<Light, Error>)
        ensures
            view_result(r) == Light::spec_new(ty@, params),
    {
        if str_eq(ty, "distant") {
            Ok(Light::Distant)
        } else if str_eq(ty, "goniometric") {
            Ok(Light::GonioPhotometric)
        } else if str_eq(ty, "infinite") {
            let l: Option<[FloatBits; 3]> = match params.floats("L") {
                Some(v) => {
                    if v.len() == 3 {
                        let arr = [v[0], v[1], v[2]];
                        proof {
                            assert(arr@ =~= v@);
                        }
                        Some(arr)
                    } else {
                        return Err(Error::FixedArityMismatch { expected: 3, got: v.len() });
                    }
                },
                None => None,
            };
            Ok(Light::Infinite { filename: params.string("filename"), l })
        } else if str_eq(ty, "point") {
            Ok(Light::Point)
        } else if str_eq(ty, "projection") {
            Ok(Light::Projection)
        } else if str_eq(ty, "spot") {
            Ok(Light::Spot)
        } else {
            Err(Error::UnrecognizedTypeTag(EntityFamily::Light))
        }
    }
}

} // verus!

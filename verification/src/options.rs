//! Scene-wide rendering options and the coordinate-system enumeration.

use vstd::prelude::*;
use crate::error::{EntityFamily, Error};
use crate::float_bits::{FloatBits, F32_ONE};
use crate::params::Param;
use crate::text::str_eq;
use crate::views::view_opt_string;

verus! {

/// The coordinate system used for rendering computation.
#[derive(Clone, Copy, Debug, PartialEq, Eq, Structural)]
pub enum CoordinateSystem {
    /// Translate the scene so that the camera is at the origin.
    CameraWorld,
    /// Use camera space.
    Camera,
    /// Use world space.
    World,
}

impl CoordinateSystem {
    /// The variant a token names: exactly "cameraworld", "camera" or
    /// "world"; every other token is an unknown-coordinate-system error.
    pub open spec fn spec_from_str(token: Seq<char>) -> Result<CoordinateSystem, Error> {
        if token == "cameraworld"@ {
            Ok(CoordinateSystem::CameraWorld)
        } else if token == "camera"@ {
            Ok(CoordinateSystem::Camera)
        } else if token == "world"@ {
            Ok(CoordinateSystem::World)
        } else {
            Err(Error::UnknownCoordinateSystem)
        }
    }

    /// Parses a coordinate-system token: case-sensitive exact match over the
    /// declared token set, with no trimming or aliasing.
    pub fn from_str(s: &str) -> (r: Result<CoordinateSystem, Error>)
        ensures
            r == CoordinateSystem::spec_from_str(s@),
    {
        if str_eq(s, "cameraworld") {
            Ok(CoordinateSystem::CameraWorld)
        } else if str_eq(s, "camera") {
            Ok(CoordinateSystem::Camera)
        } else if str_eq(s, "world") {
            Ok(CoordinateSystem::World)
        } else {
            Err(Error::UnknownCoordinateSystem)
        }
    }
}

/// Scene-wide rendering options.
#[derive(Debug)]
pub struct Options {
    /// Forces all pixel samples to be through the center of the pixel area.
    pub disable_pixel_jitter: bool,
    /// Forces point sampling at the finest MIP level for all texture lookups.
    pub disable_texture_filtering: bool,
    /// Forces all samples within each pixel to sample the same wavelengths.
    pub disable_wavelength_jitter: bool,
    /// Global scale factor applied to triangle edge lengths before evaluating
    /// the edge length test for refinement when applying displacement mapping.
    pub displacement_edge_scale: FloatBits,
    /// Filename of an image to use when computing mean squared error versus
    /// the number of pixel samples taken.
    pub mse_reference_image: Option<String>,
    /// Filename for per-sample mean squared error results.
    pub mse_reference_out: Option<String>,
    /// The coordinate system to use for rendering computation.
    pub render_coord_sys: CoordinateSystem,
}

/// The mathematical value of an [`Options`].
pub ghost struct OptionsView {
    pub disable_pixel_jitter: bool,
    pub disable_texture_filtering: bool,
    pub disable_wavelength_jitter: bool,
    pub displacement_edge_scale: FloatBits,
    pub mse_reference_image: Option<Seq<char>>,
    pub mse_reference_out: Option<Seq<char>>,
    pub render_coord_sys: CoordinateSystem,
}

impl View for Options {
    type V = OptionsView;

    open spec fn view(&self) -> OptionsView {
        OptionsView {
            disable_pixel_jitter: self.disable_pixel_jitter,
            disable_texture_filtering: self.disable_texture_filtering,
            disable_wavelength_jitter: self.disable_wavelength_jitter,
            displacement_edge_scale: self.displacement_edge_scale,
            mse_reference_image: view_opt_string(self.mse_reference_image),
            mse_reference_out: view_opt_string(self.mse_reference_out),
            render_coord_sys: self.render_coord_sys,
        }
    }
}

impl Options {
    /// The documented defaults: every disable off, edge scale one, both
    /// paths absent, coordinate system camera-world.
    pub open spec fn spec_default() -> OptionsView {
        OptionsView {
            disable_pixel_jitter: false,
            disable_texture_filtering: false,
            disable_wavelength_jitter: false,
            displacement_edge_scale: FloatBits { bits: F32_ONE },
            mse_reference_image: None,
            mse_reference_out: None,
            render_coord_sys: CoordinateSystem::CameraWorld,
        }
    }

    /// Applying one option by kind is not built yet: rather than silently
    /// accepting every option as applied, this reports the gap and leaves
    /// the options value unchanged.
    pub fn apply(&mut self, _option: Param) -> (r: Result<(), Error>)
        ensures
            *final(self) == *old(self),
            r == Err::<(), Error>(Error::UnimplementedVariant(EntityFamily::Options)),
    {
        Err(Error::UnimplementedVariant(EntityFamily::Options))
    }
}

impl Default for Options {
    /// The options value holding the documented defaults.
    fn default() -> (r: Options)
        ensures
            r@ == Options::spec_default(),
    {
        Options {
            disable_pixel_jitter: false,
            disable_texture_filtering: false,
            disable_wavelength_jitter: false,
            displacement_edge_scale: FloatBits { bits: F32_ONE },
            mse_reference_image: None,
            mse_reference_out: None,
            render_coord_sys: CoordinateSystem::CameraWorld,
        }
    }
}

} // verus!

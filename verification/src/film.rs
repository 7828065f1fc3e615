//! The film: the characteristics of the image being generated.

use vstd::prelude::*;
use crate::error::{EntityFamily, Error};
use crate::float_bits::{
    FloatBits, F32_EIGHT_THIRTY, F32_MAX, F32_ONE, F32_ONE_HUNDRED, F32_THIRTY_FIVE,
    F32_THREE_SIXTY, F32_ZERO,
};
use crate::params::ParamList;
use crate::text::str_eq;
use crate::views::view_result;

verus! {

/// The film variant and its variant-specific payload.
#[derive(Debug)]
pub enum FilmType {
    /// Stores RGB images using the current color space.
    Rgb,
    /// In addition to RGB, stores multiple additional channels that encode
    /// information about the visible geometry in each pixel.
    GBuffer {
        /// Geometric data is stored in camera space by default;
        /// alternatively, "world" can be specified for world space.
        coordinate_system: String,
    },
    /// Stores a discretized spectral distribution at each pixel, in addition
    /// to RGB.
    Spectral {
        /// Number of buckets that the spectral range is discretized into.
        nbuckets: i32,
        /// Minimum wavelength of the spectral range, in nanometres.
        lambda_min: FloatBits,
        /// Maximum wavelength of the spectral range, in nanometres.
        lambda_max: FloatBits,
    },
}

/// The mathematical value of a [`FilmType`].
pub ghost enum FilmTypeView {
    Rgb,
    GBuffer { coordinate_system: Seq<char> },
    Spectral { nbuckets: i32, lambda_min: FloatBits, lambda_max: FloatBits },
}

impl View for FilmType {
    type V = FilmTypeView;

    open spec fn view(&self) -> FilmTypeView {
        match self {
            FilmType::Rgb => FilmTypeView::Rgb,
            FilmType::GBuffer { coordinate_system } => FilmTypeView::GBuffer {
                coordinate_system: coordinate_system@,
            },
            FilmType::Spectral { nbuckets, lambda_min, lambda_max } => FilmTypeView::Spectral {
                nbuckets: *nbuckets,
                lambda_min: *lambda_min,
                lambda_max: *lambda_max,
            },
        }
    }
}

impl Default for FilmType {
    /// The default film variant.
    fn default() -> (r: FilmType)
        ensures
            r@ == FilmTypeView::Rgb,
    {
        FilmType::Rgb
    }
}

/// The characteristics of the image being generated by the renderer.
#[derive(Debug)]
pub struct Film {
    /// The number of pixels in the x direction.
    pub xresolution: i32,
    /// The number of pixels in the y direction.
    pub yresolution: i32,
    /// The sub-region of the image to render, as x and y ranges in
    /// normalized image coordinates.
    pub crop_window: [FloatBits; 4],
    /// Diagonal length of the film, in mm.
    pub diagonal: FloatBits,
    /// The output filename.
    pub filename: String,
    /// Whether 16-bit (as opposed to 32-bit) values should be used when
    /// saving images in OpenEXR format.
    pub save_fp16: bool,
    /// Film sensitivity to light; final pixel values are scaled by the "iso"
    /// value divided by 100.
    pub iso: FloatBits,
    /// If non-zero, a temperature in degrees kelvin used as the reference
    /// color temperature for white balancing.
    pub white_balance: FloatBits,
    /// Characterizes the sensor's response for red, green, and blue colors.
    /// The default corresponds to the CIE 1931 spectral response curves.
    pub sensor: String,
    /// Image sample values with luminance greater than this value are
    /// clamped to have this luminance.
    pub max_component_value: FloatBits,
    /// The film variant and its payload.
    pub ty: FilmType,
}

/// The mathematical value of a [`Film`].
pub ghost struct FilmView {
    pub xresolution: i32,
    pub yresolution: i32,
    pub crop_window: Seq<FloatBits>,
    pub diagonal: FloatBits,
    pub filename: Seq<char>,
    pub save_fp16: bool,
    pub iso: FloatBits,
    pub white_balance: FloatBits,
    pub sensor: Seq<char>,
    pub max_component_value: FloatBits,
    pub ty: FilmTypeView,
}

impl View for Film {
    type V = FilmView;

    open spec fn view(&self) -> FilmView {
        FilmView {
            xresolution: self.xresolution,
            yresolution: self.yresolution,
            crop_window: self.crop_window@,
            diagonal: self.diagonal,
            filename: self.filename@,
            save_fp16: self.save_fp16,
            iso: self.iso,
            white_balance: self.white_balance,
            sensor: self.sensor@,
            max_component_value: self.max_component_value,
            ty: self.ty@,
        }
    }
}

/// The crop window: the whole image when absent, the given ranges when
/// present with exactly four values, and a fixed-arity error otherwise —
/// never a truncated or padded window.
pub open spec fn spec_crop_window(params: ParamList) -> Result<Seq<FloatBits>, Error> {
    match params.spec_floats("cropwindow"@) {
        Some(v) => if v.len() == 4 {
            Ok(v)
        } else {
            Err(Error::FixedArityMismatch { expected: 4, got: v.len() as usize })
        },
        None => Ok(Film::spec_default().crop_window),
    }
}

impl Film {
    /// The documented defaults: a 1280 by 720 image, the whole-image crop
    /// window, a 35 mm diagonal, filename "pbrt.exr", half-float output, ISO
    /// 100, no white balancing, the CIE 1931 sensor, no component clamp, and
    /// the RGB variant.
    pub open spec fn spec_default() -> FilmView {
        FilmView {
            xresolution: 1280,
            yresolution: 720,
            crop_window: seq![
                FloatBits { bits: F32_ZERO },
                FloatBits { bits: F32_ONE },
                FloatBits { bits: F32_ZERO },
                FloatBits { bits: F32_ONE },
            ],
            diagonal: FloatBits { bits: F32_THIRTY_FIVE },
            filename: "pbrt.exr"@,
            save_fp16: true,
            iso: FloatBits { bits: F32_ONE_HUNDRED },
            white_balance: FloatBits { bits: F32_ZERO },
            sensor: "cie1931"@,
            max_component_value: FloatBits { bits: F32_MAX },
            ty: FilmTypeView::Rgb,
        }
    }

    /// What constructing a film returns, for every tag and source: the three
    /// declared tags select their variant ("gbuffer" reading its coordinate
    /// system, default "camera"; "spectral" reading its bucket count,
    /// default 16, and wavelength range, default 360 to 830 nm); the common
    /// fields are read with the documented defaults; a present crop window
    /// must hold exactly four values; any other tag is an
    /// unrecognized-type-tag error.
    pub open spec fn spec_new(ty: Seq<char>, params: ParamList) -> Result<FilmView, Error> {
        if ty == "rgb"@ || ty == "gbuffer"@ || ty == "spectral"@ {
            let payload = if ty == "rgb"@ {
                FilmTypeView::Rgb
            } else if ty == "gbuffer"@ {
                FilmTypeView::GBuffer {
                    coordinate_system: match params.spec_string("coordinatesystem"@) {
                        Some(s) => s,
                        None => "camera"@,
                    },
                }
            } else {
                FilmTypeView::Spectral {
                    nbuckets: params.spec_integer("nbuckets"@, 16),
                    lambda_min: params.spec_float(
                        "lambdamin"@,
                        FloatBits { bits: F32_THREE_SIXTY },
                    ),
                    lambda_max: params.spec_float(
                        "lambdamax"@,
                        FloatBits { bits: F32_EIGHT_THIRTY },
                    ),
                }
            };
            match spec_crop_window(params) {
                Ok(cw) => Ok(
                    FilmView {
                        xresolution: params.spec_integer("xresolution"@, 1280),
                        yresolution: params.spec_integer("yresolution"@, 720),
                        crop_window: cw,
                        diagonal: params.spec_float(
                            "diagonal"@,
                            FloatBits { bits: F32_THIRTY_FIVE },
                        ),
                        filename: match params.spec_string("filename"@) {
                            Some(s) => s,
                            None => "pbrt.exr"@,
                        },
                        save_fp16: match params.spec_boolean("savefp16"@) {
                            Some(b) => b,
                            None => true,
                        },
                        iso: params.spec_float("iso"@, FloatBits { bits: F32_ONE_HUNDRED }),
                        white_balance: params.spec_float(
                            "whitebalance"@,
                            FloatBits { bits: F32_ZERO },
                        ),
                        sensor: match params.spec_string("sensor"@) {
                            Some(s) => s,
                            None => "cie1931"@,
                        },
                        max_component_value: params.spec_float(
                            "maxcomponentvalue"@,
                            FloatBits { bits: F32_MAX },
                        ),
                        ty: payload,
                    },
                ),
                Err(e) => Err(e),
            }
        } else {
            Err(Error::UnrecognizedTypeTag(EntityFamily::Film))
        }
    }

    /// Constructs the film a directive selects.
    pub fn new(ty: &str, params: ParamList) -> (r: Result<Film, Error>)
        ensures
            view_result(r) == Film::spec_new(ty@, params),
    {
        let is_rgb = str_eq(ty, "rgb");
        let is_gbuffer = str_eq(ty, "gbuffer");
        let is_spectral = str_eq(ty, "spectral");
        if !is_rgb && !is_gbuffer && !is_spectral {
            return Err(Error::UnrecognizedTypeTag(EntityFamily::Film));
        }
        let film_type: FilmType = if is_rgb {
            FilmType::Rgb
        } else if is_gbuffer {
            FilmType::GBuffer {
                coordinate_system: match params.string("coordinatesystem") {
                    Some(s) => s,
                    None => "camera".to_owned(),
                },
            }
        } else {
            FilmType::Spectral {
                nbuckets: params.integer("nbuckets", 16),
                lambda_min: params.float("lambdamin", FloatBits { bits: F32_THREE_SIXTY }),
                lambda_max: params.float("lambdamax", FloatBits { bits: F32_EIGHT_THIRTY }),
            }
        };
        let crop_window: [FloatBits; 4] = match params.floats("cropwindow") {
            Some(v) => {
                if v.len() == 4 {
                    let cw = [v[0], v[1], v[2], v[3]];
                    proof {
                        assert(cw@ =~= v@);
                    }
                    cw
                } else {
                    return Err(Error::FixedArityMismatch { expected: 4, got: v.len() });
                }
            },
            None => {
                let cw = [
                    FloatBits { bits: F32_ZERO },
                    FloatBits { bits: F32_ONE },
                    FloatBits { bits: F32_ZERO },
                    FloatBits { bits: F32_ONE },
                ];
                proof {
                    assert(cw@ =~= Film::spec_default().crop_window);
                }
                cw
            },
        };
        let filename: String = match params.string("filename") {
            Some(s) => s,
            None => "pbrt.exr".to_owned(),
        };
        let sensor: String = match params.string("sensor") {
            Some(s) => s,
            None => "cie1931".to_owned(),
        };
        let save_fp16: bool = match params.boolean("savefp16") {
            Some(b) => b,
            None => true,
        };
        Ok(
            Film {
                xresolution: params.integer("xresolution", 1280),
                yresolution: params.integer("yresolution", 720),
                crop_window,
                diagonal: params.float("diagonal", FloatBits { bits: F32_THIRTY_FIVE }),
                filename,
                save_fp16,
                iso: params.float("iso", FloatBits { bits: F32_ONE_HUNDRED }),
                white_balance: params.float("whitebalance", FloatBits { bits: F32_ZERO }),
                sensor,
                max_component_value: params.float(
                    "maxcomponentvalue",
                    FloatBits { bits: F32_MAX },
                ),
                ty: film_type,
            },
        )
    }
}

impl Default for Film {
    /// The film value holding the documented defaults.
    fn default() -> (r: Film)
        ensures
            r@ == Film::spec_default(),
    {
        let crop_window = [
            FloatBits { bits: F32_ZERO },
            FloatBits { bits: F32_ONE },
            FloatBits { bits: F32_ZERO },
            FloatBits { bits: F32_ONE },
        ];
        proof {
            assert(crop_window@ =~= Film::spec_default().crop_window);
        }
        Film {
            xresolution: 1280,
            yresolution: 720,
            crop_window,
            diagonal: FloatBits { bits: F32_THIRTY_FIVE },
            filename: "pbrt.exr".to_owned(),
            save_fp16: true,
            iso: FloatBits { bits: F32_ONE_HUNDRED },
            white_balance: FloatBits { bits: F32_ZERO },
            sensor: "cie1931".to_owned(),
            max_component_value: FloatBits { bits: F32_MAX },
            ty: FilmType::Rgb,
        }
    }
}

} // verus!

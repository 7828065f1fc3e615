//! The camera: the viewing geometry and shutter interval.

use vstd::prelude::*;
use crate::error::{EntityFamily, Error};
use crate::float_bits::{FloatBits, F32_NINETY, F32_ONE, F32_TEN, F32_ZERO};
use crate::params::ParamList;
use crate::text::str_eq;
use crate::views::{view_opt_string, view_result};

verus! {

/// The camera model.
#[derive(Debug)]
pub enum Camera {
    Orthographic {
        /// The time at which the virtual camera shutter opens.
        shutter_open: FloatBits,
        /// The time at which the virtual camera shutter closes.
        shutter_close: FloatBits,
    },
    Perspective {
        /// The time at which the virtual camera shutter opens.
        shutter_open: FloatBits,
        /// The time at which the virtual camera shutter closes.
        shutter_close: FloatBits,
        /// The field of view for the perspective camera, in degrees.
        fov: FloatBits,
    },
    /// Simulates imaging from light rays passing through complex lens
    /// systems.
    Realistic {
        /// The time at which the virtual camera shutter opens.
        shutter_open: FloatBits,
        /// The time at which the virtual camera shutter closes.
        shutter_close: FloatBits,
        /// The name of a lens description file that gives the collection of
        /// lens elements in the lens system.
        lensfile: Option<String>,
        /// Diameter of the lens system's aperture, in mm.
        aperture_diameter: FloatBits,
        /// Distance in metres at which the lens system is focused.
        focus_distance: FloatBits,
        /// The shape of the camera aperture: a built-in shape name or an
        /// image filename; circular when absent.
        aperture: Option<String>,
    },
    /// Captures light arriving at the camera from all directions.
    Spherical {
        /// The time at which the virtual camera shutter opens.
        shutter_open: FloatBits,
        /// The time at which the virtual camera shutter closes.
        shutter_close: FloatBits,
        /// The sphere-to-image mapping: the literal "equirectangular"
        /// selects the equirectangular projection; the default token selects
        /// the area-preserving octahedral mapping.
        mapping: String,
    },
}

/// The mathematical value of a [`Camera`].
pub ghost enum CameraView {
    Orthographic { shutter_open: FloatBits, shutter_close: FloatBits },
    Perspective { shutter_open: FloatBits, shutter_close: FloatBits, fov: FloatBits },
    Realistic {
        shutter_open: FloatBits,
        shutter_close: FloatBits,
        lensfile: Option<Seq<char>>,
        aperture_diameter: FloatBits,
        focus_distance: FloatBits,
        aperture: Option<Seq<char>>,
    },
    Spherical { shutter_open: FloatBits, shutter_close: FloatBits, mapping: Seq<char> },
}

impl View for Camera {
    type V = CameraView;

    open spec fn view(&self) -> CameraView {
        match self {
            Camera::Orthographic { shutter_open, shutter_close } => CameraView::Orthographic {
                shutter_open: *shutter_open,
                shutter_close: *shutter_close,
            },
            Camera::Perspective { shutter_open, shutter_close, fov } => CameraView::Perspective {
                shutter_open: *shutter_open,
                shutter_close: *shutter_close,
                fov: *fov,
            },
            Camera::Realistic {
                shutter_open,
                shutter_close,
                lensfile,
                aperture_diameter,
                focus_distance,
                aperture,
            } => CameraView::Realistic {
                shutter_open: *shutter_open,
                shutter_close: *shutter_close,
                lensfile: view_opt_string(*lensfile),
                aperture_diameter: *aperture_diameter,
                focus_distance: *focus_distance,
                aperture: view_opt_string(*aperture),
            },
            Camera::Spherical { shutter_open, shutter_close, mapping } => CameraView::Spherical {
                shutter_open: *shutter_open,
                shutter_close: *shutter_close,
                mapping: mapping@,
            },
        }
    }
}

impl Camera {
    /// What constructing a camera returns, for every tag and source. The
    /// shutter interval (defaults 0 and 1) is common to every variant;
    /// "perspective" adds the field of view (default 90 degrees);
    /// "realistic" adds the optional lens file, aperture diameter (default
    /// 1 mm), focus distance (default 10 m) and optional aperture shape;
    /// "spherical" adds the mapping token (default "equalarea"); any other
    /// tag is an unrecognized-type-tag error.
    pub open spec fn spec_new(ty: Seq<char>, params: ParamList) -> Result<CameraView, Error> {
        let shutter_open = params.spec_float("shutteropen"@, FloatBits { bits: F32_ZERO });
        let shutter_close = params.spec_float("shutterclose"@, FloatBits { bits: F32_ONE });
        if ty == "orthographic"@ {
            Ok(CameraView::Orthographic { shutter_open, shutter_close })
        } else if ty == "perspective"@ {
            Ok(
                CameraView::Perspective {
                    shutter_open,
                    shutter_close,
                    fov: params.spec_float("fov"@, FloatBits { bits: F32_NINETY }),
                },
            )
        } else if ty == "realistic"@ {
            Ok(
                CameraView::Realistic {
                    shutter_open,
                    shutter_close,
                    lensfile: params.spec_string("lensfile"@),
                    aperture_diameter: params.spec_float(
                        "aperturediameter"@,
                        FloatBits { bits: F32_ONE },
                    ),
                    focus_distance: params.spec_float(
                        "focusdistance"@,
                        FloatBits { bits: F32_TEN },
                    ),
                    aperture: params.spec_string("aperture"@),
                },
            )
        } else if ty == "spherical"@ {
            Ok(
                CameraView::Spherical {
                    shutter_open,
                    shutter_close,
                    mapping: match params.spec_string("mapping"@) {
                        Some(s) => s,
                        None => "equalarea"@,
                    },
                },
            )
        } else {
            Err(Error::UnrecognizedTypeTag(EntityFamily::Camera))
        }
    }

    /// Constructs the camera a directive selects.
    pub fn new(ty: &str, params: ParamList) -> (r: Result<Camera, Error>)
        ensures
            view_result(r) == Camera::spec_new(ty@, params),
    {
        // The shutter interval is common to every camera and read once
        // before dispatch.
        let shutter_open = params.float("shutteropen", FloatBits { bits: F32_ZERO });
        let shutter_close = params.float("shutterclose", FloatBits { bits: F32_ONE });
        if str_eq(ty, "orthographic") {
            Ok(Camera::Orthographic { shutter_open, shutter_close })
        } else if str_eq(ty, "perspective") {
            Ok(
                Camera::Perspective {
                    shutter_open,
                    shutter_close,
                    fov: params.float("fov", FloatBits { bits: F32_NINETY }),
                },
            )
        } else if str_eq(ty, "realistic") {
            Ok(
                Camera::Realistic {
                    shutter_open,
                    shutter_close,
                    lensfile: params.string("lensfile"),
                    aperture_diameter: params.float(
                        "aperturediameter",
                        FloatBits { bits: F32_ONE },
                    ),
                    focus_distance: params.float("focusdistance", FloatBits { bits: F32_TEN }),
                    aperture: params.string("aperture"),
                },
            )
        } else if str_eq(ty, "spherical") {
            Ok(
                Camera::Spherical {
                    shutter_open,
                    shutter_close,
                    mapping: match params.string("mapping") {
                        Some(s) => s,
                        None => "equalarea".to_owned(),
                    },
                },
            )
        } else {
            Err(Error::UnrecognizedTypeTag(EntityFamily::Camera))
        }
    }
}

} // verus!

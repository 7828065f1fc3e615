//! Tests for the entity constructors: dispatch, defaults, fixed arity, and
//! derived defaults.

use scene_params::{
    Accelerator, BvhSplitMethod, Camera, CoordinateSystem, EntityFamily, Error, Film, FilmType,
    FloatBits, Integrator, Light, Material, Medium, Options, Param, ParamList, ParamValue,
    Sampler, Shape, Texture, TextureMap, TextureType,
};

fn fb(x: f32) -> FloatBits {
    FloatBits::of(x.to_bits())
}

fn empty() -> ParamList {
    ParamList::new()
}

fn one_float(name: &str, x: f32) -> ParamList {
    let mut pl = ParamList::new();
    pl.push(Param {
        name: String::from(name),
        value: ParamValue::Float(fb(x)),
    });
    pl
}

fn one_floats(name: &str, xs: &[f32]) -> ParamList {
    let mut pl = ParamList::new();
    pl.push(Param {
        name: String::from(name),
        value: ParamValue::Floats(xs.iter().map(|x| fb(*x)).collect()),
    });
    pl
}

fn one_string(name: &str, v: &str) -> ParamList {
    let mut pl = ParamList::new();
    pl.push(Param {
        name: String::from(name),
        value: ParamValue::Str(String::from(v)),
    });
    pl
}

// --- Unknown tags are rejected in every family ------------------------------

#[test]
fn unknown_tags_rejected_everywhere() {
    assert_eq!(
        Film::new("foo", empty()).unwrap_err(),
        Error::UnrecognizedTypeTag(EntityFamily::Film)
    );
    assert_eq!(
        Camera::new("foo", empty()).unwrap_err(),
        Error::UnrecognizedTypeTag(EntityFamily::Camera)
    );
    assert_eq!(
        Integrator::new("foo", empty()).unwrap_err(),
        Error::UnrecognizedTypeTag(EntityFamily::Integrator)
    );
    assert_eq!(
        Accelerator::new("foo", empty()).unwrap_err(),
        Error::UnrecognizedTypeTag(EntityFamily::Accelerator)
    );
    assert_eq!(
        Sampler::new("foo", empty()).unwrap_err(),
        Error::UnrecognizedTypeTag(EntityFamily::Sampler)
    );
    assert_eq!(
        Light::new("foo", empty()).unwrap_err(),
        Error::UnrecognizedTypeTag(EntityFamily::Light)
    );
    assert_eq!(
        Texture::new("tex", "foo", "checkerboard", empty()).unwrap_err(),
        Error::UnrecognizedTypeTag(EntityFamily::Texture)
    );
    assert_eq!(
        Shape::new("foo", empty()).unwrap_err(),
        Error::UnrecognizedTypeTag(EntityFamily::Shape)
    );
    // The empty tag is outside every declared set too.
    assert_eq!(
        Shape::new("", empty()).unwrap_err(),
        Error::UnrecognizedTypeTag(EntityFamily::Shape)
    );
}

// --- Defaults from an empty source ------------------------------------------

#[test]
fn options_defaults() {
    let o = Options::default();
    assert!(!o.disable_pixel_jitter);
    assert!(!o.disable_texture_filtering);
    assert!(!o.disable_wavelength_jitter);
    assert_eq!(o.displacement_edge_scale, fb(1.0));
    assert_eq!(o.mse_reference_image, None);
    assert_eq!(o.mse_reference_out, None);
    assert_eq!(o.render_coord_sys, CoordinateSystem::CameraWorld);
}

#[test]
fn options_apply_reports_the_gap() {
    let mut o = Options::default();
    let r = o.apply(Param {
        name: String::from("disablepixeljitter"),
        value: ParamValue::Boolean(true),
    });
    assert_eq!(r, Err(Error::UnimplementedVariant(EntityFamily::Options)));
    // The options value is untouched.
    assert!(!o.disable_pixel_jitter);
}

#[test]
fn film_defaults() {
    let film = Film::new("rgb", empty()).unwrap();
    assert_eq!(film.xresolution, 1280);
    assert_eq!(film.yresolution, 720);
    assert_eq!(film.crop_window, [fb(0.0), fb(1.0), fb(0.0), fb(1.0)]);
    assert_eq!(film.diagonal, fb(35.0));
    assert_eq!(film.filename, "pbrt.exr");
    assert!(film.save_fp16);
    assert_eq!(film.iso, fb(100.0));
    assert_eq!(film.white_balance, fb(0.0));
    assert_eq!(film.sensor, "cie1931");
    assert_eq!(film.max_component_value, fb(f32::MAX));
    assert!(matches!(film.ty, FilmType::Rgb));
}

#[test]
fn film_gbuffer_and_spectral_payload_defaults() {
    let film = Film::new("gbuffer", empty()).unwrap();
    match film.ty {
        FilmType::GBuffer { coordinate_system } => assert_eq!(coordinate_system, "camera"),
        _ => panic!("expected the gbuffer variant"),
    }
    let film = Film::new("spectral", empty()).unwrap();
    match film.ty {
        FilmType::Spectral { nbuckets, lambda_min, lambda_max } => {
            assert_eq!(nbuckets, 16);
            assert_eq!(lambda_min, fb(360.0));
            assert_eq!(lambda_max, fb(830.0));
        }
        _ => panic!("expected the spectral variant"),
    }
}

#[test]
fn film_default_trait_matches_empty_rgb() {
    let d = Film::default();
    let built = Film::new("rgb", empty()).unwrap();
    assert_eq!(d.xresolution, built.xresolution);
    assert_eq!(d.crop_window, built.crop_window);
    assert_eq!(d.filename, built.filename);
    assert_eq!(d.sensor, built.sensor);
    assert!(matches!(d.ty, FilmType::Rgb));
}

#[test]
fn integrator_defaults_and_gaps() {
    assert!(matches!(
        Integrator::new("volpath", empty()),
        Ok(Integrator::VolPath { max_depth: 5 })
    ));
    let mut pl = ParamList::new();
    pl.push(Param {
        name: String::from("maxdepth"),
        value: ParamValue::Integer(12),
    });
    assert!(matches!(
        Integrator::new("volpath", pl),
        Ok(Integrator::VolPath { max_depth: 12 })
    ));
    for tag in [
        "ambientocclusion",
        "bdpt",
        "lightpath",
        "mlt",
        "path",
        "randomwalk",
        "simplepath",
        "simplevolpath",
        "sppm",
    ] {
        assert_eq!(
            Integrator::new(tag, empty()).unwrap_err(),
            Error::UnimplementedVariant(EntityFamily::Integrator)
        );
    }
}

#[test]
fn kdtree_defaults() {
    match Accelerator::new("kdtree", empty()).unwrap() {
        Accelerator::KdTree { intersect_cost, traversal_cost, empty_bonus, max_prims, max_depth } => {
            assert_eq!(intersect_cost, 5);
            assert_eq!(traversal_cost, 1);
            assert_eq!(empty_bonus, fb(0.5));
            assert_eq!(max_prims, 1);
            assert_eq!(max_depth, -1);
        }
        _ => panic!("expected the kd-tree variant"),
    }
}

#[test]
fn sampler_vocabulary() {
    assert!(matches!(Sampler::new("halton", empty()), Ok(Sampler::Halton)));
    assert!(matches!(
        Sampler::new("independent", empty()),
        Ok(Sampler::Independent)
    ));
    assert!(matches!(
        Sampler::new("paddedsobol", empty()),
        Ok(Sampler::PaddedSobol)
    ));
    assert!(matches!(Sampler::new("sobol", empty()), Ok(Sampler::Sobol)));
    assert!(matches!(
        Sampler::new("stratified", empty()),
        Ok(Sampler::Stratified)
    ));
    assert!(matches!(Sampler::new("zsobol", empty()), Ok(Sampler::ZSobol)));
    assert_eq!(Sampler::default(), Sampler::ZSobol);
    // Sampler parameters are accepted and ignored.
    assert!(matches!(
        Sampler::new("halton", one_float("jitter", 1.0)),
        Ok(Sampler::Halton)
    ));
}

// --- Camera ------------------------------------------------------------------

#[test]
fn perspective_camera_scenario() {
    match Camera::new("perspective", one_float("fov", 60.0)).unwrap() {
        Camera::Perspective { shutter_open, shutter_close, fov } => {
            assert_eq!(shutter_open, fb(0.0));
            assert_eq!(shutter_close, fb(1.0));
            assert_eq!(fov, fb(60.0));
        }
        _ => panic!("expected the perspective variant"),
    }
}

#[test]
fn camera_variants_and_defaults() {
    match Camera::new("orthographic", empty()).unwrap() {
        Camera::Orthographic { shutter_open, shutter_close } => {
            assert_eq!(shutter_open, fb(0.0));
            assert_eq!(shutter_close, fb(1.0));
        }
        _ => panic!("expected the orthographic variant"),
    }
    match Camera::new("realistic", empty()).unwrap() {
        Camera::Realistic { lensfile, aperture_diameter, focus_distance, aperture, .. } => {
            assert_eq!(lensfile, None);
            assert_eq!(aperture_diameter, fb(1.0));
            assert_eq!(focus_distance, fb(10.0));
            assert_eq!(aperture, None);
        }
        _ => panic!("expected the realistic variant"),
    }
    match Camera::new("spherical", empty()).unwrap() {
        Camera::Spherical { mapping, .. } => assert_eq!(mapping, "equalarea"),
        _ => panic!("expected the spherical variant"),
    }
    match Camera::new("spherical", one_string("mapping", "equirectangular")).unwrap() {
        Camera::Spherical { mapping, .. } => assert_eq!(mapping, "equirectangular"),
        _ => panic!("expected the spherical variant"),
    }
}

#[test]
fn camera_shutter_interval_is_read_for_every_variant() {
    let mut pl = ParamList::new();
    pl.push(Param {
        name: String::from("shutteropen"),
        value: ParamValue::Float(fb(0.25)),
    });
    pl.push(Param {
        name: String::from("shutterclose"),
        value: ParamValue::Float(fb(0.75)),
    });
    match Camera::new("orthographic", pl).unwrap() {
        Camera::Orthographic { shutter_open, shutter_close } => {
            assert_eq!(shutter_open, fb(0.25));
            assert_eq!(shutter_close, fb(0.75));
        }
        _ => panic!("expected the orthographic variant"),
    }
}

// --- Accelerator --------------------------------------------------------------

#[test]
fn bvh_scenario() {
    match Accelerator::new("bvh", one_string("splitmethod", "equal")).unwrap() {
        Accelerator::Bvh { max_node_prims, split_method } => {
            assert_eq!(max_node_prims, 4);
            assert_eq!(split_method, BvhSplitMethod::Equal);
        }
        _ => panic!("expected the BVH variant"),
    }
}

#[test]
fn bvh_defaults_and_bad_split_method() {
    match Accelerator::new("bvh", empty()).unwrap() {
        Accelerator::Bvh { max_node_prims, split_method } => {
            assert_eq!(max_node_prims, 4);
            assert_eq!(split_method, BvhSplitMethod::Sah);
        }
        _ => panic!("expected the BVH variant"),
    }
    assert_eq!(
        Accelerator::new("bvh", one_string("splitmethod", "foo")).unwrap_err(),
        Error::UnknownSplitMethod
    );
}

// --- Light ---------------------------------------------------------------------

#[test]
fn infinite_light_scenario() {
    // No filename and no "L": both fields absent.
    match Light::new("infinite", empty()).unwrap() {
        Light::Infinite { filename, l } => {
            assert_eq!(filename, None);
            assert_eq!(l, None);
        }
        _ => panic!("expected the infinite variant"),
    }
    // An exact three-value spectrum is carried through unchanged.
    match Light::new("infinite", one_floats("L", &[1.0, 2.0, 3.0])).unwrap() {
        Light::Infinite { l, .. } => assert_eq!(l, Some([fb(1.0), fb(2.0), fb(3.0)])),
        _ => panic!("expected the infinite variant"),
    }
    // A two-value spectrum is a fixed-arity error.
    assert_eq!(
        Light::new("infinite", one_floats("L", &[1.0, 2.0])).unwrap_err(),
        Error::FixedArityMismatch { expected: 3, got: 2 }
    );
}

#[test]
fn light_variants() {
    assert!(matches!(Light::new("distant", empty()), Ok(Light::Distant)));
    assert!(matches!(
        Light::new("goniometric", empty()),
        Ok(Light::GonioPhotometric)
    ));
    assert!(matches!(Light::new("point", empty()), Ok(Light::Point)));
    assert!(matches!(
        Light::new("projection", empty()),
        Ok(Light::Projection)
    ));
    assert!(matches!(Light::new("spot", empty()), Ok(Light::Spot)));
}

// --- Film arity ----------------------------------------------------------------

#[test]
fn crop_window_arity() {
    assert_eq!(
        Film::new("rgb", one_floats("cropwindow", &[0.0, 1.0, 0.0])).unwrap_err(),
        Error::FixedArityMismatch { expected: 4, got: 3 }
    );
    assert_eq!(
        Film::new("rgb", one_floats("cropwindow", &[0.0, 1.0, 0.0, 1.0, 0.5])).unwrap_err(),
        Error::FixedArityMismatch { expected: 4, got: 5 }
    );
    let film = Film::new("rgb", one_floats("cropwindow", &[0.1, 0.9, 0.2, 0.8])).unwrap();
    assert_eq!(film.crop_window, [fb(0.1), fb(0.9), fb(0.2), fb(0.8)]);
}

// --- Shape ----------------------------------------------------------------------

#[test]
fn sphere_derived_defaults() {
    // radius given, no explicit planes: both derive from the radius.
    match Shape::new("sphere", one_float("radius", 2.0)).unwrap() {
        Shape::Sphere { radius, zmin, zmax, .. } => {
            assert_eq!(radius, fb(2.0));
            assert_eq!(zmin, fb(-2.0));
            assert_eq!(zmax, fb(2.0));
        }
        _ => panic!("expected the sphere variant"),
    }
    // An explicit lower plane overrides only itself: the upper plane still
    // derives from the radius.
    let mut pl = one_float("radius", 2.0);
    pl.push(Param {
        name: String::from("zmin"),
        value: ParamValue::Float(fb(-0.5)),
    });
    match Shape::new("sphere", pl).unwrap() {
        Shape::Sphere { zmin, zmax, .. } => {
            assert_eq!(zmin, fb(-0.5));
            assert_eq!(zmax, fb(2.0));
        }
        _ => panic!("expected the sphere variant"),
    }
}

#[test]
fn sphere_full_defaults() {
    match Shape::new("sphere", empty()).unwrap() {
        Shape::Sphere { alpha, radius, zmin, zmax, phimax } => {
            assert_eq!(alpha, fb(1.0));
            assert_eq!(radius, fb(1.0));
            assert_eq!(zmin, fb(-1.0));
            assert_eq!(zmax, fb(1.0));
            assert_eq!(phimax, fb(360.0));
        }
        _ => panic!("expected the sphere variant"),
    }
}

#[test]
fn cylinder_and_disk_defaults() {
    match Shape::new("cylinder", empty()).unwrap() {
        Shape::Cylinder { alpha, radius, zmin, zmax, phimax } => {
            assert_eq!(alpha, fb(1.0));
            assert_eq!(radius, fb(1.0));
            assert_eq!(zmin, fb(-1.0));
            assert_eq!(zmax, fb(1.0));
            assert_eq!(phimax, fb(360.0));
        }
        _ => panic!("expected the cylinder variant"),
    }
    match Shape::new("disk", empty()).unwrap() {
        Shape::Disk { alpha, height, radius, innerradius, phimax } => {
            assert_eq!(alpha, fb(1.0));
            assert_eq!(height, fb(0.0));
            assert_eq!(radius, fb(1.0));
            assert_eq!(innerradius, fb(0.0));
            assert_eq!(phimax, fb(360.0));
        }
        _ => panic!("expected the disk variant"),
    }
}

#[test]
fn triangle_mesh_arrays_carried_through() {
    let mut pl = ParamList::new();
    pl.push(Param {
        name: String::from("indices"),
        value: ParamValue::Integers(vec![0, 1, 2, 0, 2, 3]),
    });
    pl.push(Param {
        name: String::from("P"),
        value: ParamValue::Floats(vec![fb(0.0), fb(0.0), fb(0.0), fb(1.0), fb(0.0), fb(0.0)]),
    });
    pl.push(Param {
        name: String::from("uv"),
        value: ParamValue::Floats(vec![fb(0.0), fb(1.0)]),
    });
    match Shape::new("trianglemesh", pl).unwrap() {
        Shape::TriangleMesh { indices, positions, normals, tangents, uvs, .. } => {
            assert_eq!(indices, vec![0, 1, 2, 0, 2, 3]);
            assert_eq!(positions.len(), 6);
            assert_eq!(normals, Vec::<FloatBits>::new());
            assert_eq!(tangents, Vec::<FloatBits>::new());
            assert_eq!(uvs, vec![fb(0.0), fb(1.0)]);
        }
        _ => panic!("expected the mesh variant"),
    }
}

#[test]
fn triangle_mesh_index_count_must_be_a_multiple_of_three() {
    let mut pl = ParamList::new();
    pl.push(Param {
        name: String::from("indices"),
        value: ParamValue::Integers(vec![0, 1, 2, 3]),
    });
    assert_eq!(
        Shape::new("trianglemesh", pl).unwrap_err(),
        Error::FixedMultipleMismatch { divisor: 3, got: 4 }
    );
}

// --- Texture, material, medium ---------------------------------------------------

#[test]
fn texture_record() {
    let t = Texture::new("tex0", "spectrum", "checkerboard", empty()).unwrap();
    assert_eq!(t.name, "tex0");
    assert!(matches!(t.ty, TextureType::Spectrum));
    assert_eq!(t.class, "checkerboard");
    let t = Texture::new("tex1", "float", "scale", empty()).unwrap();
    assert!(matches!(t.ty, TextureType::Float));
}

#[test]
fn material_record() {
    let mut map = TextureMap::new();
    map.bind(String::from("checker"), 3);
    let m = Material::new("diffuse", empty(), &map).unwrap();
    assert_eq!(m.ty, "diffuse");
}

#[test]
fn medium_placeholder() {
    assert_eq!(Medium::new(empty()), Ok(Medium {}));
}

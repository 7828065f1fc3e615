//! Laws: properties of the constructors that hold over all inputs, stated
//! over the same spec functions the constructors' contracts use and proved
//! here once and for all.

use vstd::prelude::*;
use crate::accelerator::{Accelerator, BvhSplitMethod};
use crate::camera::{Camera, CameraView};
use crate::error::{EntityFamily, Error};
use crate::film::{Film, FilmTypeView, FilmView};
use crate::float_bits::{
    FloatBits, F32_EIGHT_THIRTY, F32_HALF, F32_MINUS_ONE, F32_NINETY, F32_ONE, F32_TEN,
    F32_THREE_SIXTY, F32_ZERO,
};
use crate::integrator::Integrator;
use crate::light::{Light, LightView};
use crate::options::CoordinateSystem;
use crate::params::{ParamList, ParamValue};
use crate::sampler::Sampler;
use crate::shape::{Shape, ShapeView};
use crate::texture::Texture;

verus! {

// --- Enumeration round trips -----------------------------------------------

/// Every declared coordinate-system token parses to its named variant, and
/// every other token fails with the unknown-coordinate-system error.
pub proof fn lemma_coordinate_system_round_trip(token: Seq<char>)
    ensures
        CoordinateSystem::spec_from_str("cameraworld"@) == Ok::<CoordinateSystem, Error>(
            CoordinateSystem::CameraWorld,
        ),
        CoordinateSystem::spec_from_str("camera"@) == Ok::<CoordinateSystem, Error>(
            CoordinateSystem::Camera,
        ),
        CoordinateSystem::spec_from_str("world"@) == Ok::<CoordinateSystem, Error>(
            CoordinateSystem::World,
        ),
        token != "cameraworld"@ && token != "camera"@ && token != "world"@
            ==> CoordinateSystem::spec_from_str(token) == Err::<CoordinateSystem, Error>(
            Error::UnknownCoordinateSystem,
        ),
{
    reveal_strlit("cameraworld");
    assert("cameraworld"@.len() == 11);
    reveal_strlit("camera");
    assert("camera"@.len() == 6);
    reveal_strlit("world");
    assert("world"@.len() == 5);
    assert("camera"@ != "cameraworld"@);
    assert("world"@ != "cameraworld"@);
    assert("world"@ != "camera"@);
}

/// Every declared split-method token parses to its named variant, and every
/// other token fails with the unknown-split-method error.
pub proof fn lemma_split_method_round_trip(token: Seq<char>)
    ensures
        BvhSplitMethod::spec_from_str("sah"@) == Ok::<BvhSplitMethod, Error>(BvhSplitMethod::Sah),
        BvhSplitMethod::spec_from_str("middle"@) == Ok::<BvhSplitMethod, Error>(
            BvhSplitMethod::Middle,
        ),
        BvhSplitMethod::spec_from_str("equal"@) == Ok::<BvhSplitMethod, Error>(
            BvhSplitMethod::Equal,
        ),
        BvhSplitMethod::spec_from_str("hlbvh"@) == Ok::<BvhSplitMethod, Error>(
            BvhSplitMethod::Hlbvh,
        ),
        token != "sah"@ && token != "middle"@ && token != "equal"@ && token != "hlbvh"@
            ==> BvhSplitMethod::spec_from_str(token) == Err::<BvhSplitMethod, Error>(
            Error::UnknownSplitMethod,
        ),
{
    reveal_strlit("sah");
    assert("sah"@.len() == 3);
    reveal_strlit("middle");
    assert("middle"@.len() == 6);
    reveal_strlit("equal");
    assert("equal"@.len() == 5);
    reveal_strlit("hlbvh");
    assert("hlbvh"@.len() == 5);
    assert("middle"@ != "sah"@);
    assert("equal"@ != "sah"@);
    assert("equal"@ != "middle"@);
    assert("hlbvh"@ != "sah"@);
    assert("hlbvh"@ != "middle"@);
    assert("hlbvh"@[0] == 'h');
    assert("equal"@[0] == 'e');
    assert("hlbvh"@ != "equal"@);
}

// --- Unknown tags are rejected, in every family ----------------------------

/// A film tag outside {"rgb", "gbuffer", "spectral"} is rejected, whatever
/// the source holds.
pub proof fn lemma_film_unknown_tag(ty: Seq<char>, params: ParamList)
    requires
        ty != "rgb"@ && ty != "gbuffer"@ && ty != "spectral"@,
    ensures
        Film::spec_new(ty, params) == Err::<FilmView, Error>(
            Error::UnrecognizedTypeTag(EntityFamily::Film),
        ),
{
}

/// A camera tag outside {"orthographic", "perspective", "realistic",
/// "spherical"} is rejected, whatever the source holds.
pub proof fn lemma_camera_unknown_tag(ty: Seq<char>, params: ParamList)
    requires
        ty != "orthographic"@ && ty != "perspective"@ && ty != "realistic"@ && ty != "spherical"@,
    ensures
        Camera::spec_new(ty, params) == Err::<CameraView, Error>(
            Error::UnrecognizedTypeTag(EntityFamily::Camera),
        ),
{
}

/// An integrator tag outside the ten declared ones is rejected, whatever the
/// source holds.
pub proof fn lemma_integrator_unknown_tag(ty: Seq<char>, params: ParamList)
    requires
        ty != "volpath"@ && ty != "ambientocclusion"@ && ty != "bdpt"@ && ty != "lightpath"@
            && ty != "mlt"@ && ty != "path"@ && ty != "randomwalk"@ && ty != "simplepath"@
            && ty != "simplevolpath"@ && ty != "sppm"@,
    ensures
        Integrator::spec_new(ty, params) == Err::<Integrator, Error>(
            Error::UnrecognizedTypeTag(EntityFamily::Integrator),
        ),
{
}

/// An accelerator tag outside {"bvh", "kdtree"} is rejected, whatever the
/// source holds.
pub proof fn lemma_accelerator_unknown_tag(ty: Seq<char>, params: ParamList)
    requires
        ty != "bvh"@ && ty != "kdtree"@,
    ensures
        Accelerator::spec_new(ty, params) == Err::<Accelerator, Error>(
            Error::UnrecognizedTypeTag(EntityFamily::Accelerator),
        ),
{
}

/// A sampler tag outside the six declared ones is rejected.
pub proof fn lemma_sampler_unknown_tag(ty: Seq<char>)
    requires
        ty != "halton"@ && ty != "independent"@ && ty != "paddedsobol"@ && ty != "sobol"@
            && ty != "stratified"@ && ty != "zsobol"@,
    ensures
        Sampler::spec_new(ty) == Err::<Sampler, Error>(
            Error::UnrecognizedTypeTag(EntityFamily::Sampler),
        ),
{
}

/// A light tag outside the six declared ones is rejected, whatever the
/// source holds.
pub proof fn lemma_light_unknown_tag(ty: Seq<char>, params: ParamList)
    requires
        ty != "distant"@ && ty != "goniometric"@ && ty != "infinite"@ && ty != "point"@
            && ty != "projection"@ && ty != "spot"@,
    ensures
        Light::spec_new(ty, params) == Err::<LightView, Error>(
            Error::UnrecognizedTypeTag(EntityFamily::Light),
        ),
{
}

/// A texture tag outside {"float", "spectrum"} is rejected, whatever name
/// and class come with it.
pub proof fn lemma_texture_unknown_tag(name: Seq<char>, ty: Seq<char>, class: Seq<char>)
    requires
        ty != "float"@ && ty != "spectrum"@,
    ensures
        Texture::spec_new(name, ty, class) == Err::<crate::texture::TextureView, Error>(
            Error::UnrecognizedTypeTag(EntityFamily::Texture),
        ),
{
}

/// A shape tag outside {"cylinder", "disk", "sphere", "trianglemesh"} is
/// rejected, whatever the source holds.
pub proof fn lemma_shape_unknown_tag(ty: Seq<char>, params: ParamList)
    requires
        ty != "cylinder"@ && ty != "disk"@ && ty != "sphere"@ && ty != "trianglemesh"@,
    ensures
        Shape::spec_new(ty, params) == Err::<ShapeView, Error>(
            Error::UnrecognizedTypeTag(EntityFamily::Shape),
        ),
{
}

// --- An empty source reproduces the documented defaults --------------------

/// A film built from an empty source holds exactly the documented defaults;
/// the gbuffer and spectral payloads default too.
pub proof fn lemma_film_empty_source_defaults(params: ParamList)
    requires
        params.entries@.len() == 0,
    ensures
        Film::spec_new("rgb"@, params) == Ok::<FilmView, Error>(Film::spec_default()),
        Film::spec_new("gbuffer"@, params) == Ok::<FilmView, Error>(
            FilmView {
                ty: FilmTypeView::GBuffer { coordinate_system: "camera"@ },
                ..Film::spec_default()
            },
        ),
        Film::spec_new("spectral"@, params) == Ok::<FilmView, Error>(
            FilmView {
                ty: FilmTypeView::Spectral {
                    nbuckets: 16,
                    lambda_min: FloatBits { bits: F32_THREE_SIXTY },
                    lambda_max: FloatBits { bits: F32_EIGHT_THIRTY },
                },
                ..Film::spec_default()
            },
        ),
{
    reveal_strlit("rgb");
    assert("rgb"@.len() == 3);
    reveal_strlit("gbuffer");
    assert("gbuffer"@.len() == 7);
    reveal_strlit("spectral");
    assert("spectral"@.len() == 8);
    assert("gbuffer"@ != "rgb"@);
    assert("spectral"@ != "rgb"@);
    assert("spectral"@ != "gbuffer"@);
}

/// A camera built from an empty source holds the documented defaults: the
/// shutter interval zero to one for every variant, a 90 degree field of
/// view, a unit aperture, a 10 m focus distance, no lens or aperture file,
/// and the "equalarea" mapping.
pub proof fn lemma_camera_empty_source_defaults(params: ParamList)
    requires
        params.entries@.len() == 0,
    ensures
        Camera::spec_new("orthographic"@, params) == Ok::<CameraView, Error>(
            CameraView::Orthographic {
                shutter_open: FloatBits { bits: F32_ZERO },
                shutter_close: FloatBits { bits: F32_ONE },
            },
        ),
        Camera::spec_new("perspective"@, params) == Ok::<CameraView, Error>(
            CameraView::Perspective {
                shutter_open: FloatBits { bits: F32_ZERO },
                shutter_close: FloatBits { bits: F32_ONE },
                fov: FloatBits { bits: F32_NINETY },
            },
        ),
        Camera::spec_new("realistic"@, params) == Ok::<CameraView, Error>(
            CameraView::Realistic {
                shutter_open: FloatBits { bits: F32_ZERO },
                shutter_close: FloatBits { bits: F32_ONE },
                lensfile: None,
                aperture_diameter: FloatBits { bits: F32_ONE },
                focus_distance: FloatBits { bits: F32_TEN },
                aperture: None,
            },
        ),
        Camera::spec_new("spherical"@, params) == Ok::<CameraView, Error>(
            CameraView::Spherical {
                shutter_open: FloatBits { bits: F32_ZERO },
                shutter_close: FloatBits { bits: F32_ONE },
                mapping: "equalarea"@,
            },
        ),
{
    reveal_strlit("orthographic");
    assert("orthographic"@.len() == 12);
    reveal_strlit("perspective");
    assert("perspective"@.len() == 11);
    reveal_strlit("realistic");
    assert("realistic"@.len() == 9);
    reveal_strlit("spherical");
    assert("spherical"@.len() == 9);
    assert("perspective"@ != "orthographic"@);
    assert("realistic"@ != "orthographic"@);
    assert("realistic"@ != "perspective"@);
    assert("spherical"@ != "orthographic"@);
    assert("spherical"@ != "perspective"@);
    assert("spherical"@[0] == 's');
    assert("realistic"@[0] == 'r');
    assert("spherical"@ != "realistic"@);
}

/// A volumetric path tracing integrator built from an empty source holds the
/// default maximum path depth of five.
pub proof fn lemma_integrator_empty_source_defaults(params: ParamList)
    requires
        params.entries@.len() == 0,
    ensures
        Integrator::spec_new("volpath"@, params) == Ok::<Integrator, Error>(
            Integrator::VolPath { max_depth: 5 },
        ),
{
}

/// Each declared but unbuilt integrator tag reports the gap as a
/// recoverable unimplemented-variant error rather than failing hard.
pub proof fn lemma_integrator_unbuilt_tags(params: ParamList)
    ensures
        Integrator::spec_new("ambientocclusion"@, params) == Err::<Integrator, Error>(
            Error::UnimplementedVariant(EntityFamily::Integrator),
        ),
        Integrator::spec_new("bdpt"@, params) == Err::<Integrator, Error>(
            Error::UnimplementedVariant(EntityFamily::Integrator),
        ),
        Integrator::spec_new("lightpath"@, params) == Err::<Integrator, Error>(
            Error::UnimplementedVariant(EntityFamily::Integrator),
        ),
        Integrator::spec_new("mlt"@, params) == Err::<Integrator, Error>(
            Error::UnimplementedVariant(EntityFamily::Integrator),
        ),
        Integrator::spec_new("path"@, params) == Err::<Integrator, Error>(
            Error::UnimplementedVariant(EntityFamily::Integrator),
        ),
        Integrator::spec_new("randomwalk"@, params) == Err::<Integrator, Error>(
            Error::UnimplementedVariant(EntityFamily::Integrator),
        ),
        Integrator::spec_new("simplepath"@, params) == Err::<Integrator, Error>(
            Error::UnimplementedVariant(EntityFamily::Integrator),
        ),
        Integrator::spec_new("simplevolpath"@, params) == Err::<Integrator, Error>(
            Error::UnimplementedVariant(EntityFamily::Integrator),
        ),
        Integrator::spec_new("sppm"@, params) == Err::<Integrator, Error>(
            Error::UnimplementedVariant(EntityFamily::Integrator),
        ),
{
    reveal_strlit("volpath");
    assert("volpath"@.len() == 7);
    reveal_strlit("ambientocclusion");
    assert("ambientocclusion"@.len() == 16);
    reveal_strlit("bdpt");
    assert("bdpt"@.len() == 4);
    reveal_strlit("lightpath");
    assert("lightpath"@.len() == 9);
    reveal_strlit("mlt");
    assert("mlt"@.len() == 3);
    reveal_strlit("path");
    assert("path"@.len() == 4);
    reveal_strlit("randomwalk");
    assert("randomwalk"@.len() == 10);
    reveal_strlit("simplepath");
    assert("simplepath"@.len() == 10);
    reveal_strlit("simplevolpath");
    assert("simplevolpath"@.len() == 13);
    reveal_strlit("sppm");
    assert("sppm"@.len() == 4);
    assert("ambientocclusion"@ != "volpath"@);
    assert("bdpt"@ != "volpath"@);
    assert("lightpath"@ != "volpath"@);
    assert("mlt"@ != "volpath"@);
    assert("path"@ != "volpath"@);
    assert("randomwalk"@ != "volpath"@);
    assert("simplepath"@ != "volpath"@);
    assert("simplevolpath"@ != "volpath"@);
    assert("sppm"@ != "volpath"@);
}

/// An accelerator built from an empty source holds the documented defaults:
/// a BVH with four primitives per node and the surface area heuristic, or a
/// kd-tree with its five documented cost and depth defaults.
pub proof fn lemma_accelerator_empty_source_defaults(params: ParamList)
    requires
        params.entries@.len() == 0,
    ensures
        Accelerator::spec_new("bvh"@, params) == Ok::<Accelerator, Error>(
            Accelerator::Bvh { max_node_prims: 4, split_method: BvhSplitMethod::Sah },
        ),
        Accelerator::spec_new("kdtree"@, params) == Ok::<Accelerator, Error>(
            Accelerator::KdTree {
                intersect_cost: 5,
                traversal_cost: 1,
                empty_bonus: FloatBits { bits: F32_HALF },
                max_prims: 1,
                max_depth: -1i32,
            },
        ),
{
    reveal_strlit("bvh");
    assert("bvh"@.len() == 3);
    reveal_strlit("kdtree");
    assert("kdtree"@.len() == 6);
    assert("kdtree"@ != "bvh"@);
}

/// An infinite light built from an empty source has both fields absent: no
/// environment map, and no radiance spectrum (the renderer reads that as
/// uniform unit radiance).
pub proof fn lemma_light_empty_source_defaults(params: ParamList)
    requires
        params.entries@.len() == 0,
    ensures
        Light::spec_new("infinite"@, params) == Ok::<LightView, Error>(
            LightView::Infinite { filename: None, l: None },
        ),
{
    reveal_strlit("distant");
    assert("distant"@.len() == 7);
    reveal_strlit("goniometric");
    assert("goniometric"@.len() == 11);
    reveal_strlit("infinite");
    assert("infinite"@.len() == 8);
    assert("infinite"@ != "distant"@);
    assert("infinite"@ != "goniometric"@);
}

/// A shape built from an empty source holds the documented defaults; in
/// particular the sphere's clipping planes derive from its default unit
/// radius, the lower one by an exact sign flip.
pub proof fn lemma_shape_empty_source_defaults(params: ParamList)
    requires
        params.entries@.len() == 0,
    ensures
        Shape::spec_new("cylinder"@, params) == Ok::<ShapeView, Error>(
            ShapeView::Cylinder {
                alpha: FloatBits { bits: F32_ONE },
                radius: FloatBits { bits: F32_ONE },
                zmin: FloatBits { bits: F32_MINUS_ONE },
                zmax: FloatBits { bits: F32_ONE },
                phimax: FloatBits { bits: F32_THREE_SIXTY },
            },
        ),
        Shape::spec_new("disk"@, params) == Ok::<ShapeView, Error>(
            ShapeView::Disk {
                alpha: FloatBits { bits: F32_ONE },
                height: FloatBits { bits: F32_ZERO },
                radius: FloatBits { bits: F32_ONE },
                innerradius: FloatBits { bits: F32_ZERO },
                phimax: FloatBits { bits: F32_THREE_SIXTY },
            },
        ),
        Shape::spec_new("sphere"@, params) == Ok::<ShapeView, Error>(
            ShapeView::Sphere {
                alpha: FloatBits { bits: F32_ONE },
                radius: FloatBits { bits: F32_ONE },
                zmin: FloatBits { bits: F32_MINUS_ONE },
                zmax: FloatBits { bits: F32_ONE },
                phimax: FloatBits { bits: F32_THREE_SIXTY },
            },
        ),
        Shape::spec_new("trianglemesh"@, params) == Ok::<ShapeView, Error>(
            ShapeView::TriangleMesh {
                alpha: FloatBits { bits: F32_ONE },
                indices: Seq::empty(),
                positions: Seq::empty(),
                normals: Seq::empty(),
                tangents: Seq::empty(),
                uvs: Seq::empty(),
            },
        ),
{
    reveal_strlit("cylinder");
    assert("cylinder"@.len() == 8);
    reveal_strlit("disk");
    assert("disk"@.len() == 4);
    reveal_strlit("sphere");
    assert("sphere"@.len() == 6);
    reveal_strlit("trianglemesh");
    assert("trianglemesh"@.len() == 12);
    assert("disk"@ != "cylinder"@);
    assert("sphere"@ != "cylinder"@);
    assert("sphere"@ != "disk"@);
    assert("trianglemesh"@ != "cylinder"@);
    assert("trianglemesh"@ != "disk"@);
    assert("trianglemesh"@ != "sphere"@);
    assert(0x3F80_0000u32 ^ 0x8000_0000u32 == 0xBF80_0000u32) by (bit_vector);
}

// --- Fixed arity is checked, never truncated or padded ---------------------

/// For every declared film tag, a present crop window succeeds exactly when
/// it holds four values — which then appear unchanged — and is a
/// fixed-arity error at every other length.
pub proof fn lemma_crop_window_arity(ty: Seq<char>, params: ParamList, w: Seq<FloatBits>)
    requires
        ty == "rgb"@ || ty == "gbuffer"@ || ty == "spectral"@,
        params.spec_floats("cropwindow"@) == Some(w),
    ensures
        w.len() != 4 ==> Film::spec_new(ty, params) == Err::<FilmView, Error>(
            Error::FixedArityMismatch { expected: 4, got: w.len() as usize },
        ),
        w.len() == 4 ==> (Film::spec_new(ty, params) matches Ok(f) && f.crop_window == w),
{
}

/// For an infinite light, a present radiance spectrum succeeds exactly when
/// it holds three values — which then appear unchanged — and is a
/// fixed-arity error at every other length.
pub proof fn lemma_radiance_arity(params: ParamList, w: Seq<FloatBits>)
    requires
        params.spec_floats("L"@) == Some(w),
    ensures
        w.len() != 3 ==> Light::spec_new("infinite"@, params) == Err::<LightView, Error>(
            Error::FixedArityMismatch { expected: 3, got: w.len() as usize },
        ),
        w.len() == 3 ==> Light::spec_new("infinite"@, params) == Ok::<LightView, Error>(
            LightView::Infinite { filename: params.spec_string("filename"@), l: Some(w) },
        ),
{
    reveal_strlit("distant");
    assert("distant"@.len() == 7);
    reveal_strlit("goniometric");
    assert("goniometric"@.len() == 11);
    reveal_strlit("infinite");
    assert("infinite"@.len() == 8);
    assert("infinite"@ != "distant"@);
    assert("infinite"@ != "goniometric"@);
}

/// A present mesh index array succeeds exactly when its length is a multiple
/// of three, and is a fixed-multiple error otherwise.
pub proof fn lemma_mesh_index_arity(params: ParamList, idx: Seq<i32>)
    requires
        params.spec_integers("indices"@) == Some(idx),
    ensures
        idx.len() % 3 != 0 ==> Shape::spec_new("trianglemesh"@, params) == Err::<ShapeView, Error>(
            Error::FixedMultipleMismatch { divisor: 3, got: idx.len() as usize },
        ),
        idx.len() % 3 == 0 ==> (Shape::spec_new("trianglemesh"@, params) matches
            Ok(ShapeView::TriangleMesh { indices, .. }) && indices == idx),
{
    reveal_strlit("cylinder");
    assert("cylinder"@.len() == 8);
    reveal_strlit("disk");
    assert("disk"@.len() == 4);
    reveal_strlit("sphere");
    assert("sphere"@.len() == 6);
    reveal_strlit("trianglemesh");
    assert("trianglemesh"@.len() == 12);
    assert("disk"@ != "cylinder"@);
    assert("sphere"@ != "cylinder"@);
    assert("sphere"@ != "disk"@);
    assert("trianglemesh"@ != "cylinder"@);
    assert("trianglemesh"@ != "disk"@);
    assert("trianglemesh"@ != "sphere"@);
}

// --- The sphere's clipping planes derive from its radius --------------------

/// With an explicit radius and no explicit clipping planes, the lower plane
/// defaults to the negated radius and the upper to the radius itself.
pub proof fn lemma_sphere_derived_defaults(params: ParamList, radius: FloatBits)
    requires
        params.spec_lookup("radius"@) == Some(ParamValue::Float(radius)),
        params.spec_lookup("zmin"@) is None,
        params.spec_lookup("zmax"@) is None,
    ensures
        (Shape::spec_new("sphere"@, params) matches Ok(ShapeView::Sphere { zmin, zmax, .. })
            && zmin == radius.spec_negated() && zmax == radius),
{
    reveal_strlit("cylinder");
    assert("cylinder"@.len() == 8);
    reveal_strlit("disk");
    assert("disk"@.len() == 4);
    reveal_strlit("sphere");
    assert("sphere"@.len() == 6);
    assert("sphere"@ != "cylinder"@);
    assert("sphere"@ != "disk"@);
}

/// The two clipping planes default independently off the radius, not off
/// each other: an explicit lower plane overrides only itself, and the upper
/// plane still defaults to the radius.
pub proof fn lemma_sphere_planes_independent(params: ParamList, radius: FloatBits, z: FloatBits)
    requires
        params.spec_lookup("radius"@) == Some(ParamValue::Float(radius)),
        params.spec_lookup("zmin"@) == Some(ParamValue::Float(z)),
        params.spec_lookup("zmax"@) is None,
    ensures
        (Shape::spec_new("sphere"@, params) matches Ok(ShapeView::Sphere { zmin, zmax, .. })
            && zmin == z && zmax == radius),
{
    reveal_strlit("cylinder");
    assert("cylinder"@.len() == 8);
    reveal_strlit("disk");
    assert("disk"@.len() == 4);
    reveal_strlit("sphere");
    assert("sphere"@.len() == 6);
    assert("sphere"@ != "cylinder"@);
    assert("sphere"@ != "disk"@);
}

} // verus!

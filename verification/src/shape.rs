//! Shapes: the geometric primitives of the scene.

use vstd::prelude::*;
use crate::error::{EntityFamily, Error};
use crate::float_bits::{FloatBits, F32_MINUS_ONE, F32_ONE, F32_THREE_SIXTY, F32_ZERO};
use crate::params::ParamList;
use crate::text::str_eq;
use crate::views::view_result;

verus! {

/// A geometric primitive.
#[derive(Debug)]
pub enum Shape {
    /// A cylinder, always oriented along the z axis.
    Cylinder {
        /// Opacity mask value for cutting away regions of the surface.
        alpha: FloatBits,
        /// The cylinder's radius.
        radius: FloatBits,
        /// The height of the cylinder's bottom along the z axis.
        zmin: FloatBits,
        /// The height of the cylinder's top along the z axis.
        zmax: FloatBits,
        /// The maximum extent of the cylinder in phi (in spherical coordinates).
        phimax: FloatBits,
    },
    /// A disk perpendicular to the z axis in the xy plane, with its object
    /// space center at x=0 and y=0.
    Disk {
        /// Opacity mask value for cutting away regions of the surface.
        alpha: FloatBits,
        /// The position of the disk along the z axis.
        height: FloatBits,
        /// The outer radius of the disk.
        radius: FloatBits,
        /// The inner radius of the disk (if nonzero, the disk is an annulus).
        innerradius: FloatBits,
        /// The maximum extent of the disk in phi (in spherical coordinates).
        phimax: FloatBits,
    },
    /// A sphere, always at the origin in object space.
    Sphere {
        /// Opacity mask value for cutting away regions of the surface.
        alpha: FloatBits,
        /// The sphere's radius.
        radius: FloatBits,
        /// The height of the lower clipping plane along the z axis.
        zmin: FloatBits,
        /// The height of the upper clipping plane along the z axis.
        zmax: FloatBits,
        /// The maximum extent of the sphere in phi (in spherical coordinates).
        phimax: FloatBits,
    },
    /// A triangle mesh.
    TriangleMesh {
        /// Opacity mask value for cutting away regions of the surface.
        alpha: FloatBits,
        /// The mesh topology: each successive triple of indices into the
        /// vertex arrays gives the three vertices of one triangle, so the
        /// length is a multiple of three.
        indices: Vec<i32>,
        /// Per-vertex positions.
        positions: Vec<FloatBits>,
        /// Per-vertex normals.
        normals: Vec<FloatBits>,
        /// Per-vertex tangents.
        tangents: Vec<FloatBits>,
        /// Per-vertex texture coordinates.
        uvs: Vec<FloatBits>,
    },
}

/// The mathematical value of a [`Shape`].
pub ghost enum ShapeView {
    Cylinder {
        alpha: FloatBits,
        radius: FloatBits,
        zmin: FloatBits,
        zmax: FloatBits,
        phimax: FloatBits,
    },
    Disk {
        alpha: FloatBits,
        height: FloatBits,
        radius: FloatBits,
        innerradius: FloatBits,
        phimax: FloatBits,
    },
    Sphere {
        alpha: FloatBits,
        radius: FloatBits,
        zmin: FloatBits,
        zmax: FloatBits,
        phimax: FloatBits,
    },
    TriangleMesh {
        alpha: FloatBits,
        indices: Seq<i32>,
        positions: Seq<FloatBits>,
        normals: Seq<FloatBits>,
        tangents: Seq<FloatBits>,
        uvs: Seq<FloatBits>,
    },
}

impl View for Shape {
    type V = ShapeView;

    open spec fn view(&self) -> ShapeView {
        match self {
            Shape::Cylinder { alpha, radius, zmin, zmax, phimax } => ShapeView::Cylinder {
                alpha: *alpha,
                radius: *radius,
                zmin: *zmin,
                zmax: *zmax,
                phimax: *phimax,
            },
            Shape::Disk { alpha, height, radius, innerradius, phimax } => ShapeView::Disk {
                alpha: *alpha,
                height: *height,
                radius: *radius,
                innerradius: *innerradius,
                phimax: *phimax,
            },
            Shape::Sphere { alpha, radius, zmin, zmax, phimax } => ShapeView::Sphere {
                alpha: *alpha,
                radius: *radius,
                zmin: *zmin,
                zmax: *zmax,
                phimax: *phimax,
            },
            Shape::TriangleMesh { alpha, indices, positions, normals, tangents, uvs } => {
                ShapeView::TriangleMesh {
                    alpha: *alpha,
                    indices: indices@,
                    positions: positions@,
                    normals: normals@,
                    tangents: tangents@,
                    uvs: uvs@,
                }
            },
        }
    }
}

/// A variable-arity float array, or empty when absent.
pub open spec fn spec_floats_or_empty(params: ParamList, name: Seq<char>) -> Seq<FloatBits> {
    match params.spec_floats(name) {
        Some(v) => v,
        None => Seq::empty(),
    }
}

impl Shape {
    /// What constructing a shape returns, for every tag and source. Every
    /// shape reads the shared opacity value "alpha" (default 1). "cylinder"
    /// reads its radius (default 1), z range (defaults minus one to one) and
    /// phi extent (default 360); "disk" its height (default 0), outer and
    /// inner radii (defaults 1 and 0) and phi extent; "sphere" its radius
    /// (default 1) first, and then each clipping plane independently, the
    /// lower defaulting to the negated radius and the upper to the radius —
    /// a cross-field derived default, not a fixed constant; "trianglemesh"
    /// its index triples (the count must be a multiple of three) and the
    /// optional, independently variable-length vertex arrays. Any other tag
    /// is an unrecognized-type-tag error.
    pub open spec fn spec_new(ty: Seq<char>, params: ParamList) -> Result<ShapeView, Error> {
        let alpha = params.spec_float("alpha"@, FloatBits { bits: F32_ONE });
        if ty == "cylinder"@ {
            Ok(
                ShapeView::Cylinder {
                    alpha,
                    radius: params.spec_float("radius"@, FloatBits { bits: F32_ONE }),
                    zmin: params.spec_float("zmin"@, FloatBits { bits: F32_MINUS_ONE }),
                    zmax: params.spec_float("zmax"@, FloatBits { bits: F32_ONE }),
                    phimax: params.spec_float("phimax"@, FloatBits { bits: F32_THREE_SIXTY }),
                },
            )
        } else if ty == "disk"@ {
            Ok(
                ShapeView::Disk {
                    alpha,
                    height: params.spec_float("height"@, FloatBits { bits: F32_ZERO }),
                    radius: params.spec_float("radius"@, FloatBits { bits: F32_ONE }),
                    innerradius: params.spec_float("innerradius"@, FloatBits { bits: F32_ZERO }),
                    phimax: params.spec_float("phimax"@, FloatBits { bits: F32_THREE_SIXTY }),
                },
            )
        } else if ty == "sphere"@ {
            let radius = params.spec_float("radius"@, FloatBits { bits: F32_ONE });
            Ok(
                ShapeView::Sphere {
                    alpha,
                    radius,
                    zmin: params.spec_float("zmin"@, radius.spec_negated()),
                    zmax: params.spec_float("zmax"@, radius),
                    phimax: params.spec_float("phimax"@, FloatBits { bits: F32_THREE_SIXTY }),
                },
            )
        } else if ty == "trianglemesh"@ {
            let indices = match params.spec_integers("indices"@) {
                Some(v) => v,
                None => Seq::empty(),
            };
            if indices.len() % 3 == 0 {
                Ok(
                    ShapeView::TriangleMesh {
                        alpha,
                        indices,
                        positions: spec_floats_or_empty(params, "P"@),
                        normals: spec_floats_or_empty(params, "N"@),
                        tangents: spec_floats_or_empty(params, "S"@),
                        uvs: spec_floats_or_empty(params, "uv"@),
                    },
                )
            } else {
                Err(Error::FixedMultipleMismatch { divisor: 3, got: indices.len() as usize })
            }
        } else {
            Err(Error::UnrecognizedTypeTag(EntityFamily::Shape))
        }
    }

    /// Constructs the shape a directive selects.
    pub fn new(ty: &str, params: ParamList) -> (r: Result<Shape, Error>)
        ensures
            view_result(r) == Shape::spec_new(ty@, params),
    {
        // All shapes take an optional "alpha" value that can be used to
        // define a mask cutting away regions of a surface.
        let alpha = params.float("alpha", FloatBits { bits: F32_ONE });
        if str_eq(ty, "cylinder") {
            Ok(
                Shape::Cylinder {
                    alpha,
                    radius: params.float("radius", FloatBits { bits: F32_ONE }),
                    zmin: params.float("zmin", FloatBits { bits: F32_MINUS_ONE }),
                    zmax: params.float("zmax", FloatBits { bits: F32_ONE }),
                    phimax: params.float("phimax", FloatBits { bits: F32_THREE_SIXTY }),
                },
            )
        } else if str_eq(ty, "disk") {
            Ok(
                Shape::Disk {
                    alpha,
                    height: params.float("height", FloatBits { bits: F32_ZERO }),
                    radius: params.float("radius", FloatBits { bits: F32_ONE }),
                    innerradius: params.float("innerradius", FloatBits { bits: F32_ZERO }),
                    phimax: params.float("phimax", FloatBits { bits: F32_THREE_SIXTY }),
                },
            )
        } else if str_eq(ty, "sphere") {
            let radius = params.float("radius", FloatBits { bits: F32_ONE });
            // The clipping planes default from the radius when not given
            // explicitly: the lower to its negation, the upper to the radius
            // itself. The two default independently off the radius, not off
            // each other.
            let zmin = params.float("zmin", radius.negated());
            let zmax = params.float("zmax", radius);
            Ok(
                Shape::Sphere {
                    alpha,
                    radius,
                    zmin,
                    zmax,
                    phimax: params.float("phimax", FloatBits { bits: F32_THREE_SIXTY }),
                },
            )
        } else if str_eq(ty, "trianglemesh") {
            let indices: Vec<i32> = match params.integers("indices") {
                Some(v) => copy_integers(v),
                None => Vec::new(),
            };
            if indices.len() % 3 != 0 {
                return Err(Error::FixedMultipleMismatch { divisor: 3, got: indices.len() });
            }
            let positions = floats_or_empty(&params, "P");
            let normals = floats_or_empty(&params, "N");
            let tangents = floats_or_empty(&params, "S");
            let uvs = floats_or_empty(&params, "uv");
            Ok(Shape::TriangleMesh { alpha, indices, positions, normals, tangents, uvs })
        } else {
            Err(Error::UnrecognizedTypeTag(EntityFamily::Shape))
        }
    }
}

/// An owned copy of an integer array.
fn copy_integers(v: &Vec<i32>) -> (r: Vec<i32>)
    ensures
        r@ == v@,
{
    let mut r: Vec<i32> = Vec::new();
    let n = v.len();
    let mut i: usize = 0;
    proof {
        assert(r@ =~= v@.subrange(0, 0));
    }
    while i < n
        invariant
            i <= n,
            n == v@.len(),
            r@ == v@.subrange(0, i as int),
        decreases n - i,
    {
        r.push(v[i]);
        proof {
            assert(r@ =~= v@.subrange(0, i + 1 as int));
        }
        i = i + 1;
    }
    proof {
        assert(r@ =~= v@);
    }
    r
}

/// An owned copy of a float array.
fn copy_floats(v: &Vec<FloatBits>) -> (r: Vec<FloatBits>)
    ensures
        r@ == v@,
{
    let mut r: Vec<FloatBits> = Vec::new();
    let n = v.len();
    let mut i: usize = 0;
    proof {
        assert(r@ =~= v@.subrange(0, 0));
    }
    while i < n
        invariant
            i <= n,
            n == v@.len(),
            r@ == v@.subrange(0, i as int),
        decreases n - i,
    {
        r.push(v[i]);
        proof {
            assert(r@ =~= v@.subrange(0, i + 1 as int));
        }
        i = i + 1;
    }
    proof {
        assert(r@ =~= v@);
    }
    r
}

/// An owned copy of the float array bound to `name`, or an empty one when it
/// is absent.
fn floats_or_empty(params: &ParamList, name: &str) -> (r: Vec<FloatBits>)
    ensures
        r@ == spec_floats_or_empty(*params, name@),
{
    match params.floats(name) {
        Some(v) => copy_floats(v),
        None => {
            let r: Vec<FloatBits> = Vec::new();
            proof {
                assert(r@ =~= Seq::<FloatBits>::empty());
            }
            r
        },
    }
}

} // verus!

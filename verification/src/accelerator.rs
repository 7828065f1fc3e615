//! The spatial accelerator: ray-intersection acceleration structures.

use vstd::prelude::*;
use crate::error::{EntityFamily, Error};
use crate::float_bits::{FloatBits, F32_HALF};
use crate::params::ParamList;
use crate::text::str_eq;

verus! {

/// The method used to partition primitives when building a BVH.
#[derive(Clone, Copy, Debug, PartialEq, Eq, Structural)]
pub enum BvhSplitMethod {
    /// The surface area heuristic.
    Sah,
    /// Splits each node at its midpoint along the split axis.
    Middle,
    /// Splits the current group of primitives into two equal-sized sets.
    Equal,
    /// The HLBVH algorithm, which parallelizes well.
    Hlbvh,
}

impl BvhSplitMethod {
    /// The variant a token names: exactly "sah", "middle", "equal" or
    /// "hlbvh"; every other token is an unknown-split-method error.
    pub open spec fn spec_from_str(token: Seq<char>) -> Result<BvhSplitMethod, Error> {
        if token == "sah"@ {
            Ok(BvhSplitMethod::Sah)
        } else if token == "middle"@ {
            Ok(BvhSplitMethod::Middle)
        } else if token == "equal"@ {
            Ok(BvhSplitMethod::Equal)
        } else if token == "hlbvh"@ {
            Ok(BvhSplitMethod::Hlbvh)
        } else {
            Err(Error::UnknownSplitMethod)
        }
    }

    /// Parses a split-method token: case-sensitive exact match over the
    /// declared token set, with no trimming or aliasing.
    pub fn from_str(s: &str) -> (r: Result<BvhSplitMethod, Error>)
        ensures
            r == BvhSplitMethod::spec_from_str(s@),
    {
        if str_eq(s, "sah") {
            Ok(BvhSplitMethod::Sah)
        } else if str_eq(s, "middle") {
            Ok(BvhSplitMethod::Middle)
        } else if str_eq(s, "equal") {
            Ok(BvhSplitMethod::Equal)
        } else if str_eq(s, "hlbvh") {
            Ok(BvhSplitMethod::Hlbvh)
        } else {
            Err(Error::UnknownSplitMethod)
        }
    }
}

impl Default for BvhSplitMethod {
    /// The default split method: the surface area heuristic.
    fn default() -> (r: BvhSplitMethod)
        ensures
            r == BvhSplitMethod::Sah,
    {
        BvhSplitMethod::Sah
    }
}

/// The ray-intersection acceleration structure.
#[derive(Clone, Copy, Debug, PartialEq, Eq, Structural)]
pub enum Accelerator {
    Bvh {
        /// Maximum number of primitives to allow in a node in the tree.
        max_node_prims: i32,
        /// Method to use to partition the primitives when building the tree.
        split_method: BvhSplitMethod,
    },
    KdTree {
        /// The value of the cost function that estimates the expected cost of
        /// performing a ray-object intersection, for use in building the kd-tree.
        intersect_cost: i32,
        /// Estimated cost for traversing a ray through a kd-tree node.
        traversal_cost: i32,
        /// "Bonus" factor for kd-tree nodes that represent empty space.
        empty_bonus: FloatBits,
        /// Maximum number of primitives to store in a kd-tree node.
        max_prims: i32,
        /// Maximum depth of the kd-tree. If negative, the kd-tree chooses a
        /// maximum depth based on the number of primitives to be stored in it.
        max_depth: i32,
    },
}

impl Accelerator {
    /// What constructing an accelerator returns, for every tag and source:
    /// "bvh" reads the node budget (default 4) and parses the split-method
    /// token (default "sah"); "kdtree" reads the four cost knobs and the
    /// depth bound (default negative one, meaning derive from the primitive
    /// count); any other tag is an unrecognized-type-tag error.
    pub open spec fn spec_new(ty: Seq<char>, params: ParamList) -> Result<Accelerator, Error> {
        if ty == "bvh"@ {
            match BvhSplitMethod::spec_from_str(
                match params.spec_string("splitmethod"@) {
                    Some(tok) => tok,
                    None => "sah"@,
                },
            ) {
                Ok(m) => Ok(
                    Accelerator::Bvh {
                        max_node_prims: params.spec_integer("maxnodeprims"@, 4),
                        split_method: m,
                    },
                ),
                Err(e) => Err(e),
            }
        } else if ty == "kdtree"@ {
            Ok(
                Accelerator::KdTree {
                    intersect_cost: params.spec_integer("intersectcost"@, 5),
                    traversal_cost: params.spec_integer("traversalcost"@, 1),
                    empty_bonus: params.spec_float("emptybonus"@, FloatBits { bits: F32_HALF }),
                    max_prims: params.spec_integer("maxprims"@, 1),
                    max_depth: params.spec_integer("maxdepth"@, -1i32),
                },
            )
        } else {
            Err(Error::UnrecognizedTypeTag(EntityFamily::Accelerator))
        }
    }

    /// Constructs the accelerator a directive selects.
    pub fn new(ty: &str, params: ParamList) -> (r: Result<Accelerator, Error>)
        ensures
            r == Accelerator::spec_new(ty@, params),
    {
        if str_eq(ty, "bvh") {
            let split_tok: Option<String> = params.string("splitmethod");
            let parsed: Result<BvhSplitMethod, Error> = match &split_tok {
                Some(tok) => BvhSplitMethod::from_str(tok.as_str()),
                None => Ok(BvhSplitMethod::Sah),
            };
            match parsed {
                Ok(m) => Ok(
                    Accelerator::Bvh {
                        max_node_prims: params.integer("maxnodeprims", 4),
                        split_method: m,
                    },
                ),
                Err(e) => Err(e),
            }
        } else if str_eq(ty, "kdtree") {
            Ok(
                Accelerator::KdTree {
                    intersect_cost: params.integer("intersectcost", 5),
                    traversal_cost: params.integer("traversalcost", 1),
                    empty_bonus: params.float("emptybonus", FloatBits { bits: F32_HALF }),
                    max_prims: params.integer("maxprims", 1),
                    max_depth: params.integer("maxdepth", -1),
                },
            )
        } else {
            Err(Error::UnrecognizedTypeTag(EntityFamily::Accelerator))
        }
    }
}

} // verus!

//! Validated construction of renderer scene entities from untyped parameter
//! lists.
//!
//! A scene description names an entity family (film, camera, shape, ...), a
//! textual type tag ("sphere", "bvh", "perspective", ...) and a list of named
//! arguments. Each entity family here has one constructor that dispatches on
//! the tag, reads the arguments it knows from a [`params::ParamList`], fills
//! documented defaults for the rest, checks fixed-arity arrays, and returns a
//! validated entity value or a structured [`error::Error`].
//!
//! Floating-point arguments and fields are carried as raw IEEE-754 bit
//! patterns ([`float_bits::FloatBits`]): the constructors never compute with
//! such values, they only move them unchanged, and the single derived default
//! (a sphere's clipping planes from its radius) is an exact sign flip.

pub mod accelerator;
pub mod camera;
pub mod error;
pub mod film;
pub mod float_bits;
pub mod integrator;
pub mod laws;
pub mod light;
pub mod material;
pub mod medium;
pub mod options;
pub mod params;
pub mod sampler;
pub mod shape;
pub mod text;
pub mod texture;
pub mod views;

pub use accelerator::{Accelerator, BvhSplitMethod};
pub use camera::{Camera, CameraView};
pub use error::{EntityFamily, Error};
pub use film::{Film, FilmType, FilmTypeView, FilmView};
pub use float_bits::FloatBits;
pub use integrator::Integrator;
pub use light::{Light, LightView};
pub use material::{Material, MaterialView, TextureBinding, TextureMap};
pub use medium::Medium;
pub use options::{CoordinateSystem, Options, OptionsView};
pub use params::{Param, ParamList, ParamValue};
pub use sampler::Sampler;
pub use shape::{Shape, ShapeView};
pub use text::str_eq;
pub use texture::{Texture, TextureType, TextureView};

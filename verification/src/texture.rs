//! Textures: named, typed texture records.

use vstd::prelude::*;
use crate::error::{EntityFamily, Error};
use crate::params::ParamList;
use crate::text::str_eq;
use crate::views::view_result;

verus! {

/// Whether a texture produces float or spectrum values.
#[derive(Clone, Copy, Debug, PartialEq, Eq, Structural)]
pub enum TextureType {
    Float,
    Spectrum,
}

/// A named, typed texture record.
///
/// Texture-class-specific parameters (noise functions, scale and offset,
/// image filenames, ...) are accepted structurally but not parsed yet: that
/// is a declared gap, and the parameter source is intentionally ignored
/// until it is filled.
#[derive(Debug)]
pub struct Texture {
    /// The name later directives refer to this texture by.
    pub name: String,
    /// Whether the texture produces float or spectrum values.
    pub ty: TextureType,
    /// The texture class, e.g. an image map or a noise function.
    pub class: String,
}

/// The mathematical value of a [`Texture`].
pub ghost struct TextureView {
    pub name: Seq<char>,
    pub ty: TextureType,
    pub class: Seq<char>,
}

impl View for Texture {
    type V = TextureView;

    open spec fn view(&self) -> TextureView {
        TextureView { name: self.name@, ty: self.ty, class: self.class@ }
    }
}

impl Texture {
    /// What constructing a texture returns, for every tag: "float" and
    /// "spectrum" name the two texture types; any other tag is an
    /// unrecognized-type-tag error. The name and class are carried through
    /// unchanged.
    pub open spec fn spec_new(
        name: Seq<char>,
        ty: Seq<char>,
        class: Seq<char>,
    ) -> Result<TextureView, Error> {
        if ty == "spectrum"@ {
            Ok(TextureView { name, ty: TextureType::Spectrum, class })
        } else if ty == "float"@ {
            Ok(TextureView { name, ty: TextureType::Float, class })
        } else {
            Err(Error::UnrecognizedTypeTag(EntityFamily::Texture))
        }
    }

    /// Constructs the texture a directive declares. The parameter source is
    /// accepted and intentionally ignored: texture-class parameters are not
    /// parsed yet.
    pub fn new(name: &str, ty: &str, class: &str, _params: ParamList) -> (r: Result<
        Texture,
        Error,
    >)
        ensures
            view_result(r) == Texture::spec_new(name@, ty@, class@),
    {
        let parsed: TextureType = if str_eq(ty, "spectrum") {
            TextureType::Spectrum
        } else if str_eq(ty, "float") {
            TextureType::Float
        } else {
            return Err(Error::UnrecognizedTypeTag(EntityFamily::Texture));
        };
        Ok(Texture { name: name.to_owned(), ty: parsed, class: class.to_owned() })
    }
}

} // verus!

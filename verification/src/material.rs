//! Materials: the light scattering properties of surfaces, and the lookup
//! table that binds texture names to handles.

use vstd::prelude::*;
use crate::error::Error;
use crate::views::view_result;

verus! {

/// One binding of a texture name to an opaque texture handle.
#[derive(Debug, Clone)]
pub struct TextureBinding {
    /// The texture's declared name.
    pub name: String,
    /// The handle (an index owned by the scene assembler) the name stands
    /// for.
    pub handle: usize,
}

/// The handle bound to `name`, if any: the handle of the first binding whose
/// name matches.
pub open spec fn lookup_binding(bindings: Seq<TextureBinding>, name: Seq<char>) -> Option<usize>
    decreases bindings.len(),
{
    if bindings.len() == 0 {
        None
    } else if bindings[0].name@ == name {
        Some(bindings[0].handle)
    } else {
        lookup_binding(bindings.drop_first(), name)
    }
}

/// Skipping past a binding whose name does not match leaves the lookup
/// result unchanged.
proof fn lemma_binding_skip_mismatch(bindings: Seq<TextureBinding>, name: Seq<char>, i: int)
    requires
        0 <= i < bindings.len(),
        bindings[i].name@ != name,
    ensures
        lookup_binding(bindings.skip(i), name) == lookup_binding(bindings.skip(i + 1), name),
{
    assert(bindings.skip(i)[0] == bindings[i]);
    assert(bindings.skip(i).drop_first() =~= bindings.skip(i + 1));
}

/// An immutable lookup table from texture name to texture handle: it lets
/// material parameters refer to previously declared textures by name.
/// Textures themselves stay with the scene assembler; a material only ever
/// stores the lightweight handles.
#[derive(Debug, Clone)]
pub struct TextureMap {
    /// The bindings, in declaration order.
    pub bindings: Vec<TextureBinding>,
}

impl TextureMap {
    /// A table with no bindings.
    pub fn new() -> (r: TextureMap)
        ensures
            r.bindings@.len() == 0,
    {
        TextureMap { bindings: Vec::new() }
    }

    /// Appends one binding.
    pub fn bind(&mut self, name: String, handle: usize)
        ensures
            final(self).bindings@ == old(self).bindings@.push(
                TextureBinding { name, handle },
            ),
    {
        self.bindings.push(TextureBinding { name, handle });
    }

    /// The handle bound to `name`, if any.
    pub open spec fn spec_get(&self, name: Seq<char>) -> Option<usize> {
        lookup_binding(self.bindings@, name)
    }

    /// Looks a texture name up.
    pub fn get(&self, name: &str) -> (r: Option<usize>)
        ensures
            r == self.spec_get(name@),
    {
        let owned: String = name.to_owned();
        let n = self.bindings.len();
        let mut i: usize = 0;
        proof {
            assert(self.bindings@.skip(0) =~= self.bindings@);
        }
        while i < n
            invariant
                i <= n,
                n == self.bindings@.len(),
                owned@ == name@,
                lookup_binding(self.bindings@.skip(i as int), name@) == self.spec_get(name@),
            decreases n - i,
        {
            let matched: bool = self.bindings[i].name == owned;
            proof {
                assert(self.bindings@.skip(i as int)[0] == self.bindings@[i as int]);
            }
            if matched {
                return Some(self.bindings[i].handle);
            }
            proof {
                lemma_binding_skip_mismatch(self.bindings@, name@, i as int);
            }
            i = i + 1;
        }
        proof {
            assert(self.bindings@.skip(n as int) =~= Seq::<TextureBinding>::empty());
        }
        None
    }
}

/// The light scattering properties of a surface.
///
/// Material parameters are distinctive in that textures can be used to give
/// spatially-varying values for them; parameter parsing is not built yet, so
/// only the material's type name is carried.
#[derive(Debug)]
pub struct Material {
    /// The material's type name.
    pub ty: String,
}

/// The mathematical value of a [`Material`].
pub ghost struct MaterialView {
    pub ty: Seq<char>,
}

impl View for Material {
    type V = MaterialView;

    open spec fn view(&self) -> MaterialView {
        MaterialView { ty: self.ty@ }
    }
}

impl Material {
    /// What constructing a material returns: a record carrying the name,
    /// always.
    pub open spec fn spec_new(name: Seq<char>) -> Result<MaterialView, Error> {
        Ok(MaterialView { ty: name })
    }

    /// Constructs a material. The parameter source and the texture table are
    /// accepted and intentionally ignored: material parameters (including
    /// the texture-referencing, spatially-varying ones the table will
    /// resolve) are not parsed yet.
    pub fn new(
        name: &str,
        _params: crate::params::ParamList,
        _texture_map: &TextureMap,
    ) -> (r: Result<Material, Error>)
        ensures
            view_result(r) == Material::spec_new(name@),
    {
        Ok(Material { ty: name.to_owned() })
    }
}

} // verus!

use crate::meta::Meta;
use crate::texture::{Texture, TextureModel};
use vstd::prelude::*;

verus! {

/// The mathematical value of a [`WgsData`] artifact: everything that is
/// persisted, with strings as character sequences and textures as
/// [`TextureModel`] values. The texture count is not part of the model;
/// it is derived as the length of `textures`.
pub struct ArtifactModel {
    /// The display name.
    pub name: Seq<char>,
    /// The editable fragment-shader body.
    pub frag: Seq<char>,
    /// The format version.
    pub version: u32,
    /// The embedded textures, in binding order.
    pub textures: Seq<TextureModel>,
}

impl ArtifactModel {
    /// A persistable artifact: at most 255 textures (the count is stored
    /// in one byte), every texture sized as four bytes per pixel, no NUL
    /// character in either string (both are stored NUL-terminated), and a
    /// version no newer than the one this library writes (readers reject
    /// unknown higher versions).
    pub open spec fn valid(self) -> bool {
        &&& self.version <= crate::VERSION
        &&& self.textures.len() <= 255
        &&& forall|i: int| 0 <= i < self.textures.len() ==> (#[trigger] self.textures[i]).valid()
        &&& !self.name.contains('\0')
        &&& !self.frag.contains('\0')
    }
}

/// An artifact: a named, versioned bundle of one editable fragment-shader
/// body and a flat list of RGBA8 textures. This is the unit of persistence
/// and the unit of mutation; it owns CPU-side bytes only and never holds a
/// GPU handle.
pub struct WgsData {
    /// The artifact's header: name, stored texture count, version.
    pub meta: Meta,
    /// The editable fragment-shader body.
    pub frag: String,
    /// The embedded textures, in binding order.
    pub textures: Vec<Texture>,
}

impl View for WgsData {
    type V = ArtifactModel;

    open spec fn view(&self) -> ArtifactModel {
        ArtifactModel {
            name: self.meta.name@,
            frag: self.frag@,
            version: self.meta.version,
            textures: self.textures@.map_values(|t: Texture| t@),
        }
    }
}

impl Default for WgsData {
    /// A fresh artifact named "Untitled" with the default fragment-shader
    /// body and no textures.
    fn default() -> (r: WgsData)
        ensures
            r@.name == ("Untitled")@,
            r@.frag == crate::FRAG_DEFAULT@,
            r@.version == crate::VERSION,
            r@.textures.len() == 0,
            r.well_formed(),
    {
        proof {
            reveal_strlit("Untitled");
            reveal_strlit(
                "fn main_image(frag_coord: vec2<f32>) -> vec4<f32> {\n    let uv = frag_coord / u.resolution;\n    return vec4<f32>(uv.x, uv.y, 0.5 + 0.5 * sin(u.time), 1.0);\n}\n",
            );
            assert(!("Untitled")@.contains('\0'));
            assert(!crate::FRAG_DEFAULT@.contains('\0'));
        }
        WgsData::new("Untitled", crate::FRAG_DEFAULT)
    }
}

impl WgsData {
    /// The invariant every artifact maintains: the stored texture count
    /// equals the length of the texture list, and the model is valid.
    pub open spec fn well_formed(self) -> bool {
        &&& self.meta.texture_count == self.textures@.len()
        &&& self@.valid()
    }

    /// Creates a fresh artifact with the given name and fragment-shader
    /// body, no textures, and the current format version.
    pub fn new(name: &str, frag: &str) -> (r: WgsData)
        requires
            !name@.contains('\0'),
            !frag@.contains('\0'),
        ensures
            r@.name == name@,
            r@.frag == frag@,
            r@.version == crate::VERSION,
            r@.textures.len() == 0,
            r.well_formed(),
    {
        let r = WgsData { meta: Meta::new(name), frag: frag.to_owned(), textures: Vec::new() };
        proof {
            assert(r@.textures =~= Seq::<TextureModel>::empty());
        }
        r
    }

    /// Appends a texture. The stored texture count follows the list.
    pub fn add_texture(&mut self, width: u32, height: u32, data: Vec<u8>)
        requires
            old(self).well_formed(),
            old(self).textures@.len() < 255,
            data@.len() == width * height * 4,
        ensures
            final(self).well_formed(),
            final(self)@.textures == old(self)@.textures.push(
                TextureModel { width, height, data: data@ },
            ),
            final(self)@.name == old(self)@.name,
            final(self)@.frag == old(self)@.frag,
            final(self)@.version == old(self)@.version,
    {
        self.textures.push(Texture::new(width, height, data));
        self.meta.texture_count = self.textures.len() as u8;
        proof {
            assert(final(self)@.textures =~= old(self)@.textures.push(
                TextureModel { width, height, data: data@ },
            ));
        }
    }

    /// Replaces the texture at the given index. The stored texture count
    /// follows the list.
    pub fn change_texture(&mut self, index: usize, width: u32, height: u32, data: Vec<u8>)
        requires
            old(self).well_formed(),
            index < old(self).textures@.len(),
            data@.len() == width * height * 4,
        ensures
            final(self).well_formed(),
            final(self)@.textures == old(self)@.textures.update(
                index as int,
                TextureModel { width, height, data: data@ },
            ),
            final(self)@.name == old(self)@.name,
            final(self)@.frag == old(self)@.frag,
            final(self)@.version == old(self)@.version,
    {
        self.textures.set(index, Texture::new(width, height, data));
        self.meta.texture_count = self.textures.len() as u8;
        proof {
            assert(final(self)@.textures =~= old(self)@.textures.update(
                index as int,
                TextureModel { width, height, data: data@ },
            ));
        }
    }

    /// Removes the texture at the given index. The stored texture count
    /// follows the list.
    pub fn remove_texture(&mut self, index: usize)
        requires
            old(self).well_formed(),
            index < old(self).textures@.len(),
        ensures
            final(self).well_formed(),
            final(self)@.textures == old(self)@.textures.remove(index as int),
            final(self)@.name == old(self)@.name,
            final(self)@.frag == old(self)@.frag,
            final(self)@.version == old(self)@.version,
    {
        self.textures.remove(index);
        self.meta.texture_count = self.textures.len() as u8;
        proof {
            assert(final(self)@.textures =~= old(self)@.textures.remove(index as int));
        }
    }

    /// Returns a copy of the editable fragment-shader body.
    pub fn frag(&self) -> (r: String)
        ensures
            r@ == self@.frag,
    {
        self.frag.clone()
    }

    /// Returns a copy of the display name. Not a filename.
    pub fn name(&self) -> (r: String)
        ensures
            r@ == self@.name,
    {
        self.meta.name.clone()
    }

    /// Sets the editable fragment-shader body.
    pub fn set_frag(&mut self, frag: &str)
        requires
            !frag@.contains('\0'),
        ensures
            final(self)@ == (ArtifactModel { frag: frag@, ..old(self)@ }),
            old(self).well_formed() ==> final(self).well_formed(),
    {
        self.frag = frag.to_owned();
    }

    /// Sets the display name.
    pub fn set_name(&mut self, name: &str)
        requires
            !name@.contains('\0'),
        ensures
            final(self)@ == (ArtifactModel { name: name@, ..old(self)@ }),
            old(self).well_formed() ==> final(self).well_formed(),
    {
        self.meta.name = name.to_owned();
    }

    /// Returns the textures embedded in the artifact, in binding order.
    pub fn textures_ref(&self) -> (r: &Vec<Texture>)
        ensures
            r@.map_values(|t: Texture| t@) == self@.textures,
    {
        &self.textures
    }

    /// Returns the stored texture count.
    pub fn texture_count(&self) -> (r: u8)
        ensures
            r == self.meta.texture_count,
    {
        self.meta.texture_count
    }

    /// Returns the format version the artifact carries.
    pub fn version(&self) -> (r: u32)
        ensures
            r == self@.version,
    {
        self.meta.version
    }
}

} // verus!

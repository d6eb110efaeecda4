use crate::VERSION;
use vstd::prelude::*;

verus! {

/// The header of an artifact: its display name, the number of embedded
/// textures, and the format version it is saved under.
///
/// `texture_count` is derived from the artifact's texture list and is kept
/// equal to its length by every mutation; it is never set independently.
pub struct Meta {
    /// The display name of the artifact. Not a filename.
    pub name: String,
    /// The count of textures embedded in the artifact.
    pub texture_count: u8,
    /// The format version of the artifact.
    pub version: u32,
}

impl Meta {
    /// Creates a header for a fresh artifact with no textures and the
    /// current format version.
    pub fn new(name: &str) -> (r: Meta)
        ensures
            r.name@ == name@,
            r.texture_count == 0,
            r.version == VERSION,
    {
        Meta { name: name.to_owned(), texture_count: 0, version: VERSION }
    }
}

} // verus!

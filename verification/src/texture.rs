use vstd::prelude::*;

verus! {

/// The mathematical value of a [`Texture`]: its dimensions and the
/// sequence of its pixel bytes.
pub struct TextureModel {
    /// The width of the texture in pixels.
    pub width: u32,
    /// The height of the texture in pixels.
    pub height: u32,
    /// The pixel bytes, exactly four per pixel.
    pub data: Seq<u8>,
}

impl TextureModel {
    /// The sizing rule every texture obeys: four bytes for each pixel.
    pub open spec fn valid(self) -> bool {
        self.data.len() == self.width * self.height * 4
    }
}

/// A raster texture embedded in an artifact: 8-bit RGBA, row-major,
/// no padding and no mipmaps, so a `width x height` image occupies
/// exactly `width * height * 4` bytes.
pub struct Texture {
    /// The width of the texture in pixels.
    pub width: u32,
    /// The height of the texture in pixels.
    pub height: u32,
    /// The pixel bytes, exactly four per pixel.
    pub data: Vec<u8>,
}

impl View for Texture {
    type V = TextureModel;

    open spec fn view(&self) -> TextureModel {
        TextureModel { width: self.width, height: self.height, data: self.data@ }
    }
}

impl Texture {
    /// The sizing rule every texture obeys: four bytes for each pixel.
    pub open spec fn well_formed(self) -> bool {
        self@.valid()
    }

    /// Creates a new texture from its dimensions and pixel bytes.
    ///
    /// Constructing a texture whose pixel data does not measure exactly
    /// `width * height * 4` bytes (as an exact product, never a wrapped
    /// one) is a contract violation: the precondition excludes it, so no
    /// verified caller can build a mis-sized texture. [`Texture::try_new`]
    /// is the checked counterpart that rejects such data at run time.
    pub fn new(width: u32, height: u32, data: Vec<u8>) -> (r: Texture)
        requires
            data@.len() == width * height * 4,
        ensures
            r.width == width,
            r.height == height,
            r.data == data,
            r.well_formed(),
    {
        Texture { width, height, data }
    }

    /// Creates a new texture, rejecting pixel data whose length does not
    /// match the dimensions.
    pub fn try_new(width: u32, height: u32, data: Vec<u8>) -> (r: Option<Texture>)
        ensures
            match r {
                Some(t) => {
                    &&& data@.len() == width * height * 4
                    &&& t.width == width
                    &&& t.height == height
                    &&& t.data == data
                    &&& t.well_formed()
                },
                None => data@.len() != width * height * 4,
            },
    {
        proof {
            assert((width as u128) * (height as u128) * 4 < u128::MAX) by (nonlinear_arith)
                requires
                    width <= u32::MAX,
                    height <= u32::MAX,
            ;
        }
        let expected: u128 = width as u128 * height as u128 * 4;
        if data.len() as u128 == expected {
            Some(Texture { width, height, data })
        } else {
            None
        }
    }
}

} // verus!

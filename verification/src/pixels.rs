use vstd::prelude::*;

verus! {

/// Bytes per pixel of a rasterized page: the page source hands the viewer
/// tightly packed RGBA data, one byte per channel.
pub const BYTES_PER_PIXEL: u32 = 4;

/// Largest texture edge the viewer will upload. This is the default
/// two-dimensional texture limit a GPU device is configured with; a buffer
/// beyond it could not become a texture and is rejected up front.
pub const MAX_TEXTURE_DIM: u32 = 8192;

/// One rasterized page: a `width` x `height` image, tightly packed RGBA.
///
/// A freshly produced buffer is not trusted: whether `bytes` really covers
/// `width * height` pixels is checked by `well_sized`, and every path that
/// turns a buffer into a texture rejects a buffer that fails the check.
#[derive(Clone, Debug)]
pub struct PixelBuffer {
    pub width: u32,
    pub height: u32,
    pub bytes: Vec<u8>,
}

impl PixelBuffer {
    /// The buffer can back a texture: both edges are in range and the byte
    /// length is exactly `width * height * BYTES_PER_PIXEL`.
    pub open spec fn well_sized(self) -> bool {
        &&& 1 <= self.width <= MAX_TEXTURE_DIM
        &&& 1 <= self.height <= MAX_TEXTURE_DIM
        &&& self.bytes@.len() == self.width * self.height * BYTES_PER_PIXEL
    }

    /// Runtime check for `well_sized`.
    pub fn check_size(&self) -> (ok: bool)
        ensures
            ok == self.well_sized(),
    {
        if self.width < 1 || self.width > MAX_TEXTURE_DIM {
            return false;
        }
        if self.height < 1 || self.height > MAX_TEXTURE_DIM {
            return false;
        }
        proof {
            assert(self.width * self.height * BYTES_PER_PIXEL <= 8192 * 8192 * 4) by (nonlinear_arith)
                requires
                    1 <= self.width <= 8192,
                    1 <= self.height <= 8192,
                    BYTES_PER_PIXEL == 4,
            ;
        }
        let expected: usize = (self.width as usize) * (self.height as usize) * (BYTES_PER_PIXEL as usize);
        self.bytes.len() == expected
    }
}

} // verus!

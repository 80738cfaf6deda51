use vstd::prelude::*;

verus! {

/// Bytes per RGBA pixel.
pub const CHANNELS: u32 = 4;

/// The number of bytes an RGBA buffer of the given dimensions holds.
pub open spec fn rgba_len(width: u32, height: u32) -> int {
    CHANNELS as int * width as int * height as int
}

proof fn lemma_row_bytes_fit(width: u32)
    ensures
        CHANNELS as int * width as int <= u64::MAX,
{
}

/// A captured RGBA image: row-major pixels, four bytes each.
pub struct RgbaRaster {
    width: u32,
    height: u32,
    pixels: Vec<u8>,
}

impl RgbaRaster {
    #[verifier::type_invariant]
    closed spec fn well_formed(&self) -> bool {
        self.pixels@.len() == rgba_len(self.width, self.height)
    }

    pub closed spec fn spec_width(&self) -> u32 {
        self.width
    }

    pub closed spec fn spec_height(&self) -> u32 {
        self.height
    }

    pub closed spec fn spec_pixels(&self) -> Seq<u8> {
        self.pixels@
    }

    /// Wraps a pixel buffer; `None` when its length is not four bytes per pixel.
    pub fn new(width: u32, height: u32, pixels: Vec<u8>) -> (r: Option<RgbaRaster>)
        ensures
            r is Some <==> pixels@.len() == rgba_len(width, height),
            r matches Some(img) ==> img.spec_width() == width && img.spec_height() == height
                && img.spec_pixels() == pixels@,
    {
        proof {
            lemma_row_bytes_fit(width);
        }
        let expected: u64 = CHANNELS as u64 * width as u64;
        let len: usize = pixels.len();
        let fits: bool = match expected.checked_mul(height as u64) {
            Some(n) => n == len as u64,
            None => false,
        };
        if fits {
            Some(RgbaRaster { width, height, pixels })
        } else {
            None
        }
    }

    /// An image of the given size with every pixel set to `rgba`.
    pub fn filled(width: u32, height: u32, rgba: [u8; 4]) -> (r: Option<RgbaRaster>)
        ensures
            r is Some <==> rgba_len(width, height) <= usize::MAX,
            r matches Some(img) ==> img.spec_width() == width && img.spec_height() == height
                && forall|i: int| 0 <= i < img.spec_pixels().len()
                    ==> #[trigger] img.spec_pixels()[i] == rgba@[i % 4],
    {
        proof {
            lemma_row_bytes_fit(width);
        }
        let total: u64 = match (CHANNELS as u64 * width as u64).checked_mul(height as u64) {
            Some(n) => n,
            None => return None,
        };
        if total > usize::MAX as u64 {
            return None;
        }
        let mut pixels: Vec<u8> = Vec::new();
        let mut i: usize = 0;
        while i < total as usize
            invariant
                total as int == rgba_len(width, height),
                total <= usize::MAX,
                i <= total,
                pixels@.len() == i,
                forall|j: int| 0 <= j < i ==> #[trigger] pixels@[j] == rgba@[j % 4],
            decreases total - i,
        {
            pixels.push(rgba[i % 4]);
            i = i + 1;
        }
        Some(RgbaRaster { width, height, pixels })
    }

    pub fn width(&self) -> (r: u32)
        ensures
            r == self.spec_width(),
    {
        self.width
    }

    pub fn height(&self) -> (r: u32)
        ensures
            r == self.spec_height(),
    {
        self.height
    }

    pub fn pixels(&self) -> (r: &Vec<u8>)
        ensures
            r@ == self.spec_pixels(),
            r@.len() == rgba_len(self.spec_width(), self.spec_height()),
    {
        proof {
            use_type_invariant(self);
        }
        &self.pixels
    }
}

} // verus!

use vstd::prelude::*;

verus! {

/// One pixel's red, green and blue channels.
#[derive(Clone, Copy, Debug, PartialEq, Eq, Structural)]
pub struct Rgb {
    pub r: u8,
    pub g: u8,
    pub b: u8,
}

/// A decoded pixel grid. `pixels` holds the pixels in row-major order:
/// the pixel at column `x` of row `y` is `pixels[y * width + x]`.
#[derive(Debug)]
pub struct RasterImage {
    pub width: u32,
    pub height: u32,
    pub pixels: Vec<Rgb>,
}

/// The pixels described by a buffer of RGBA bytes, four bytes per pixel;
/// the alpha byte is ignored.
pub open spec fn rgba_pixels(raw: Seq<u8>) -> Seq<Rgb> {
    Seq::new(raw.len() / 4, |i: int| Rgb { r: raw[4 * i], g: raw[4 * i + 1], b: raw[4 * i + 2] })
}

impl RasterImage {
    /// The grid holds exactly one pixel per coordinate.
    pub open spec fn wf(&self) -> bool {
        self.pixels@.len() == self.width as nat * self.height as nat
    }

    /// The pixel at column `x` of row `y`.
    pub open spec fn pixel_at(&self, x: int, y: int) -> Rgb {
        self.pixels@[y * self.width + x]
    }

    /// Builds an image from its row-major pixels; `None` when their number is
    /// not `width * height`.
    pub fn new(width: u32, height: u32, pixels: Vec<Rgb>) -> (r: Option<RasterImage>)
        ensures
            pixels@.len() == width as nat * height as nat <==> r is Some,
            r matches Some(img) ==> img.wf() && img.width == width && img.height == height
                && img.pixels@ == pixels@,
    {
        proof {
            assert(width as nat * height as nat <= 0xffff_ffff * 0xffff_ffff) by (nonlinear_arith)
                requires
                    width <= 0xffff_ffff,
                    height <= 0xffff_ffff,
            ;
        }
        let n: u64 = width as u64 * height as u64;
        if pixels.len() as u64 == n {
            Some(RasterImage { width, height, pixels })
        } else {
            None
        }
    }

    /// Builds an image from a row-major buffer of RGBA bytes, dropping alpha.
    pub fn from_rgba(width: u32, height: u32, raw: &Vec<u8>) -> (r: RasterImage)
        requires
            raw@.len() == 4 * (width as nat * height as nat),
        ensures
            r.wf(),
            r.width == width,
            r.height == height,
            r.pixels@ == rgba_pixels(raw@),
    {
        let total: usize = raw.len();
        let n: usize = total / 4;
        let mut pixels: Vec<Rgb> = Vec::new();
        let mut i: usize = 0;
        while i < n
            invariant
                total == raw@.len(),
                n == raw@.len() / 4,
                i <= n,
                pixels@ == rgba_pixels(raw@).subrange(0, i as int),
            decreases n - i,
        {
            assert(4 * i + 3 < raw@.len());
            let k: usize = 4 * i;
            pixels.push(Rgb { r: raw[k], g: raw[k + 1], b: raw[k + 2] });
            i = i + 1;
            assert(pixels@ =~= rgba_pixels(raw@).subrange(0, i as int));
        }
        assert(pixels@ =~= rgba_pixels(raw@));
        RasterImage { width, height, pixels }
    }

    /// The pixel at column `x` of row `y`.
    pub fn get_pixel(&self, x: u32, y: u32) -> (p: Rgb)
        requires
            self.wf(),
            x < self.width,
            y < self.height,
        ensures
            p == self.pixel_at(x as int, y as int),
    {
        proof {
            assert(y * self.width + x < self.width as nat * self.height as nat) by (nonlinear_arith)
                requires
                    x < self.width,
                    y < self.height,
            ;
            assert(y * self.width <= y * self.width + x);
        }
        let len: usize = self.pixels.len();
        assert(y * self.width + x < len);
        let row: usize = y as usize * self.width as usize;
        let idx: usize = row + x as usize;
        self.pixels[idx]
    }
}

} // verus!

use vstd::prelude::*;
use crate::color::Rgb;

verus! {

/// A decoded image: a row-major grid of RGB pixels. The pixel at column
/// x of row y sits at index y * width + x of `pixels`.
#[derive(Debug)]
pub struct Image {
    pub width: u32,
    pub height: u32,
    pub pixels: Vec<Rgb>,
}

impl Image {
    /// Well-formed: the grid holds exactly width * height pixels.
    pub open spec fn wf(self) -> bool {
        self.pixels.len() == self.width * self.height
    }

    /// The pixel at column x of row y, in the row-major layout.
    pub open spec fn spec_pixel(self, x: int, y: int) -> Rgb {
        self.pixels[y * self.width + x]
    }

    /// Builds an image from its dimensions and a row-major pixel grid;
    /// refused when the grid's length does not fit the dimensions.
    pub fn new(width: u32, height: u32, pixels: Vec<Rgb>) -> (r: Option<Image>)
        ensures
            (r is Some) <==> pixels@.len() == width * height,
            r matches Some(img) ==> {
                &&& img.width == width
                &&& img.height == height
                &&& img.pixels@ == pixels@
                &&& img.wf()
            },
    {
        proof {
            assert((width as int) * (height as int) <= 0xffff_ffff * 0xffff_ffff)
                by (nonlinear_arith)
                requires
                    width <= 0xffff_ffffu32,
                    height <= 0xffff_ffffu32,
            ;
        }
        let need: u64 = (width as u64) * (height as u64);
        if (pixels.len() as u64) == need {
            Some(Image { width, height, pixels })
        } else {
            None
        }
    }

    /// Reads the pixel at column x of row y.
    pub fn pixel(&self, x: u32, y: u32) -> (p: Rgb)
        requires
            self.wf(),
            x < self.width,
            y < self.height,
        ensures
            p == self.spec_pixel(x as int, y as int),
    {
        proof {
            assert((y as int) * (self.width as int) + (x as int) < (self.width as int) * (
            self.height as int)) by (nonlinear_arith)
                requires
                    (y as int) < (self.height as int),
                    (x as int) < (self.width as int),
                    0 <= (x as int),
                    0 <= (y as int),
            ;
        }
        let idx: usize = (y as usize) * (self.width as usize) + (x as usize);
        self.pixels[idx]
    }
}

} // verus!

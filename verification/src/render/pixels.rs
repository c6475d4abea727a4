//! An RGBA pixel buffer that the text renderers read.
//!
//! The layout is that of an 8-bit RGBA image: rows from top to bottom, each
//! row the pixels from left to right, four bytes per pixel.
use vstd::prelude::*;

use super::cells::CellRect;

verus! {

/// A `width` x `height` RGBA image.
pub struct Pixels {
    pub width: u32,
    pub height: u32,
    pub data: Vec<u8>,
}

impl Pixels {
    /// The buffer holds exactly four bytes for every pixel.
    pub open spec fn wf(&self) -> bool {
        self.data@.len() == self.width * self.height * 4
    }

    /// Channel `c` (0 = red, 1 = green, 2 = blue, 3 = alpha) of the pixel at (`x`, `y`).
    pub open spec fn channel(&self, x: int, y: int, c: int) -> u8 {
        self.data@[(y * self.width + x) * 4 + c]
    }

    /// Wrap raw RGBA bytes; `None` when their number does not match the size.
    pub fn new(width: u32, height: u32, data: Vec<u8>) -> (r: Option<Pixels>)
        ensures
            r is Some <==> data@.len() == width * height * 4,
            r matches Some(p) ==> p.wf() && p.width == width && p.height == height && p.data@
                == data@,
    {
        let w = width as u64;
        let h = height as u64;
        assert(w * h <= u32::MAX * u32::MAX) by (nonlinear_arith)
            requires
                w <= u32::MAX,
                h <= u32::MAX,
        ;
        let n = w * h;
        let len = data.len();
        if n <= (usize::MAX / 4) as u64 && len == (n as usize) * 4 {
            Some(Pixels { width, height, data })
        } else {
            proof {
                assert(n == width * height);
                if data@.len() == width * height * 4 {
                    assert(n <= usize::MAX / 4);
                }
            }
            None
        }
    }

    /// The pixel at (`x`, `y`) as `[r, g, b, a]`.
    pub fn get_pixel(&self, x: u32, y: u32) -> (r: [u8; 4])
        requires
            self.wf(),
            x < self.width,
            y < self.height,
        ensures
            r@ == seq![
                self.channel(x as int, y as int, 0),
                self.channel(x as int, y as int, 1),
                self.channel(x as int, y as int, 2),
                self.channel(x as int, y as int, 3),
            ],
    {
        let len = self.data.len();
        proof {
            lemma_pixel_index_in_bounds(x as int, y as int, self.width as int, self.height as int);
            assert(0 <= y * self.width <= y * self.width + x);
        }
        let i = ((y as usize) * (self.width as usize) + (x as usize)) * 4;
        [self.data[i], self.data[i + 1], self.data[i + 2], self.data[i + 3]]
    }
}

proof fn lemma_pixel_index_in_bounds(x: int, y: int, w: int, h: int)
    requires
        0 <= x < w,
        0 <= y < h,
    ensures
        0 <= y * w + x,
        (y * w + x) * 4 + 3 < w * h * 4,
{
    assert(y * w + x < w * h) by (nonlinear_arith)
        requires
            0 <= x < w,
            0 <= y < h,
    ;
    assert(0 <= y * w) by (nonlinear_arith)
        requires
            0 <= y,
            0 <= w,
    ;
}

/// Pixel size of an image that braille rendering maps exactly onto `area`:
/// two pixels per column, four per row.
pub open spec fn braille_size_for_area_spec(area: CellRect) -> (u32, u32) {
    ((area.width * 2) as u32, (area.height * 4) as u32)
}

pub fn braille_size_for_area(area: CellRect) -> (r: (u32, u32))
    ensures
        r == braille_size_for_area_spec(area),
{
    (area.width as u32 * 2, area.height as u32 * 4)
}

/// A fully transparent `pixel_w` x `pixel_h` image, ready to be drawn on and
/// converted to braille.
pub fn braille_image(pixel_w: u32, pixel_h: u32) -> (r: Pixels)
    requires
        pixel_w * pixel_h * 4 <= usize::MAX,
    ensures
        r.wf(),
        r.width == pixel_w,
        r.height == pixel_h,
        forall|i: int| 0 <= i < r.data@.len() ==> r.data@[i] == 0,
{
    assert(0 <= pixel_w * pixel_h) by (nonlinear_arith);
    let n: usize = (pixel_w as usize) * (pixel_h as usize) * 4;
    let mut data: Vec<u8> = Vec::new();
    while data.len() < n
        invariant
            data@.len() <= n,
            forall|i: int| 0 <= i < data@.len() ==> data@[i] == 0,
        decreases n - data@.len(),
    {
        data.push(0);
    }
    Pixels { width: pixel_w, height: pixel_h, data }
}

/// A transparent image of the size braille rendering maps exactly onto `area`.
pub fn braille_image_for_area(area: CellRect) -> (r: Pixels)
    requires
        (area.width * 2) * (area.height * 4) * 4 <= usize::MAX,
    ensures
        r.wf(),
        (r.width, r.height) == braille_size_for_area_spec(area),
        forall|i: int| 0 <= i < r.data@.len() ==> r.data@[i] == 0,
{
    let (pw, ph) = braille_size_for_area(area);
    braille_image(pw, ph)
}

} // verus!

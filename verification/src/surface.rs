//! The pixel surface that every control is painted into.

use vstd::prelude::*;
use crate::color::Color;

verus! {

/// One cell of the surface. The host presents the cells as four bytes each, in
/// the order blue, green, red, alpha.
#[derive(Debug, Copy, Clone, PartialEq, Eq, Structural)]
pub struct Pixel {
    pub blue: u8,
    pub green: u8,
    pub red: u8,
    pub alpha: u8,
}

/// The value of one channel after `text` is laid over `existing` with the given
/// coverage: a weighted mean with truncating division.
pub open spec fn blend_channel(text: int, existing: int, coverage: int) -> int {
    (text * coverage + existing * (255 - coverage)) / 255
}

/// With no coverage the existing value stays, and with full coverage the text
/// value replaces it.
pub proof fn lemma_blend_channel_ends(text: int, existing: int)
    ensures
        blend_channel(text, existing, 0) == existing,
        blend_channel(text, existing, 255) == text,
{
    assert((existing * 255) / 255 == existing) by (nonlinear_arith);
    assert((text * 255) / 255 == text) by (nonlinear_arith);
    assert(text * 0 + existing * (255 - 0) == existing * 255) by (nonlinear_arith);
    assert(text * 255 + existing * (255 - 255) == text * 255) by (nonlinear_arith);
}

/// Blends `c1` over `c2`, where `alpha` of 255 gives `c1` and 0 gives `c2`.
pub fn alpha_blend_u8(c1: u8, c2: u8, alpha: u8) -> (out: u8)
    ensures
        out == blend_channel(c1 as int, c2 as int, alpha as int),
        alpha == 0 ==> out == c2,
        alpha == 255 ==> out == c1,
{
    let inv_alpha: u32 = 255 - alpha as u32;
    assert(c1 * alpha <= 255 * 255 && c2 * inv_alpha <= 255 * 255 && c1 * alpha + c2 * inv_alpha <= 255
        * 255) by (nonlinear_arith)
        requires
            0 <= c1 <= 255,
            0 <= c2 <= 255,
            0 <= alpha <= 255,
            inv_alpha == 255 - alpha,
    ;
    proof {
        lemma_blend_channel_ends(c1 as int, c2 as int);
    }
    let result: u32 = (c1 as u32) * (alpha as u32) + (c2 as u32) * inv_alpha;
    (result / 255) as u8
}

impl Pixel {
    /// A fully transparent black cell.
    pub fn default() -> (pixel: Pixel)
        ensures
            pixel == (Pixel { blue: 0, green: 0, red: 0, alpha: 0 }),
    {
        Pixel { blue: 0, green: 0, red: 0, alpha: 0 }
    }

    /// The cell with its color channels replaced by `color`; alpha is kept.
    pub open spec fn painted(self, color: Color) -> Pixel {
        Pixel { blue: color.blue, green: color.green, red: color.red, alpha: self.alpha }
    }

    /// The cell after `color` is blended over it with the given coverage; alpha
    /// is kept.
    pub open spec fn blended(self, color: Color, coverage: u8) -> Pixel {
        Pixel {
            blue: blend_channel(color.blue as int, self.blue as int, coverage as int) as u8,
            green: blend_channel(color.green as int, self.green as int, coverage as int) as u8,
            red: blend_channel(color.red as int, self.red as int, coverage as int) as u8,
            alpha: self.alpha,
        }
    }

    /// Replaces the color channels and keeps alpha.
    pub fn paint(self, color: Color) -> (pixel: Pixel)
        ensures
            pixel == self.painted(color),
    {
        Pixel { blue: color.blue, green: color.green, red: color.red, alpha: self.alpha }
    }

    /// Blends `color` over the cell with the given coverage and keeps alpha.
    pub fn blend(self, color: Color, coverage: u8) -> (pixel: Pixel)
        ensures
            pixel == self.blended(color, coverage),
    {
        Pixel {
            blue: alpha_blend_u8(color.blue, self.blue, coverage),
            green: alpha_blend_u8(color.green, self.green, coverage),
            red: alpha_blend_u8(color.red, self.red, coverage),
            alpha: self.alpha,
        }
    }
}

/// A cell is left as it is where the glyph does not cover it.
pub proof fn lemma_blend_transparent(pixel: Pixel, color: Color)
    ensures
        pixel.blended(color, 0) == pixel,
{
    lemma_blend_channel_ends(color.blue as int, pixel.blue as int);
    lemma_blend_channel_ends(color.green as int, pixel.green as int);
    lemma_blend_channel_ends(color.red as int, pixel.red as int);
}

/// A fully covered cell takes the color on its three color channels, and
/// keeps its alpha.
pub proof fn lemma_blend_opaque(pixel: Pixel, color: Color)
    ensures
        pixel.blended(color, 255) == pixel.painted(color),
        pixel.blended(color, 255).alpha == pixel.alpha,
{
    lemma_blend_channel_ends(color.blue as int, pixel.blue as int);
    lemma_blend_channel_ends(color.green as int, pixel.green as int);
    lemma_blend_channel_ends(color.red as int, pixel.red as int);
}

/// Whether `(x, y)` names a cell of a `width` by `height` grid.
pub open spec fn on_grid(width: int, height: int, x: int, y: int) -> bool {
    0 <= x < width && 0 <= y < height
}

/// A row-major grid of cells, `width` cells in each of `height` rows.
pub struct PixelBuffer {
    pub pixels: Vec<Pixel>,
    pub width: i32,
    pub height: i32,
}

impl PixelBuffer {
    /// The grid holds exactly one cell for each position.
    pub open spec fn wf(&self) -> bool {
        &&& 0 <= self.width
        &&& 0 <= self.height
        &&& self.pixels@.len() == self.width * self.height
    }

    /// Whether `(x, y)` names a cell of the grid.
    #[verifier::inline]
    pub open spec fn in_bounds(&self, x: int, y: int) -> bool {
        on_grid(self.width as int, self.height as int, x, y)
    }

    /// The cell in column `x` of row `y`.
    pub open spec fn at(&self, x: int, y: int) -> Pixel {
        self.pixels@[y * self.width + x]
    }

    /// The number of cells of a `width` by `height` grid, where a negative
    /// extent counts as zero.
    pub open spec fn cell_count(width: i32, height: i32) -> int {
        (if width > 0 { width as int } else { 0 }) * (if height > 0 { height as int } else { 0 })
    }

    /// A surface of the given size, every cell transparent black. A negative
    /// extent counts as zero. There is no surface whose cells the machine
    /// cannot count.
    pub fn new(width: i32, height: i32) -> (made: Option<PixelBuffer>)
        ensures
            made is Some <==> Self::cell_count(width, height) <= usize::MAX,
            made matches Some(buffer) ==> {
                &&& buffer.wf()
                &&& buffer.width == (if width > 0 { width } else { 0 })
                &&& buffer.height == (if height > 0 { height } else { 0 })
                &&& forall|i: int| 0 <= i < buffer.pixels@.len() ==> buffer.pixels@[i] == (Pixel { blue: 0, green: 0, red: 0, alpha: 0 })
            },
    {
        let w: i32 = if width > 0 { width } else { 0 };
        let h: i32 = if height > 0 { height } else { 0 };
        assert(0 <= w * h <= 0x7fff_ffff * 0x7fff_ffff) by (nonlinear_arith)
            requires
                0 <= w <= 0x7fff_ffff,
                0 <= h <= 0x7fff_ffff,
        ;
        let count: u64 = (w as u64) * (h as u64);
        if count > usize::MAX as u64 {
            return None;
        }
        let pixels: Vec<Pixel> = vec![Pixel::default(); count as usize];
        Some(PixelBuffer { pixels: pixels, width: w, height: h })
    }

    /// Gives the surface a new size and clears every cell. A negative extent
    /// counts as zero. Returns whether the machine can count the cells; if it
    /// cannot, the surface stays as it was.
    pub fn resize(&mut self, width: i32, height: i32) -> (done: bool)
        ensures
            done <==> Self::cell_count(width, height) <= usize::MAX,
            !done ==> *final(self) == *old(self),
            done ==> {
                &&& final(self).wf()
                &&& final(self).width == (if width > 0 { width } else { 0 })
                &&& final(self).height == (if height > 0 { height } else { 0 })
                &&& forall|i: int| 0 <= i < final(self).pixels@.len() ==> final(self).pixels@[i] == (Pixel { blue: 0, green: 0, red: 0, alpha: 0 })
            },
    {
        match PixelBuffer::new(width, height) {
            Some(buffer) => {
                *self = buffer;
                true
            },
            None => false,
        }
    }

    /// Two positions of one grid share a cell only if they are the same.
    pub proof fn lemma_cell_index(&self, x: int, y: int, u: int, v: int)
        requires
            self.wf(),
            self.in_bounds(x, y),
            self.in_bounds(u, v),
        ensures
            0 <= y * self.width + x < self.pixels@.len(),
            0 <= v * self.width + u < self.pixels@.len(),
            (u != x || v != y) ==> v * self.width + u != y * self.width + x,
    {
        let w = self.width as int;
        let h = self.height as int;
        assert(0 <= y * w && y * w + x < w * h) by (nonlinear_arith)
            requires
                0 <= x < w,
                0 <= y < h,
        ;
        assert(0 <= v * w && v * w + u < w * h) by (nonlinear_arith)
            requires
                0 <= u < w,
                0 <= v < h,
        ;
        if u != x || v != y {
            assert(v * w + u != y * w + x) by (nonlinear_arith)
                requires
                    0 <= u < w,
                    0 <= x < w,
                    u != x || v != y,
            ;
        }
    }

    /// Tells whether the grid holds exactly one cell for each position.
    pub fn is_well_formed(&self) -> (well_formed: bool)
        ensures
            well_formed == self.wf(),
    {
        if self.width < 0 || self.height < 0 {
            return false;
        }
        assert(0 <= self.width * self.height <= 0x7fff_ffff * 0x7fff_ffff) by (nonlinear_arith)
            requires
                0 <= self.width <= 0x7fff_ffff,
                0 <= self.height <= 0x7fff_ffff,
        ;
        self.pixels.len() as u64 == (self.width as u64) * (self.height as u64)
    }

    /// The place of the cell `(x, y)` in the row-major sequence.
    fn cell_index(&self, x: i32, y: i32) -> (index: usize)
        requires
            self.wf(),
            self.in_bounds(x as int, y as int),
        ensures
            index == y * self.width + x,
            index < self.pixels@.len(),
    {
        let row: usize = y as usize;
        let stride: usize = self.width as usize;
        proof {
            self.lemma_cell_index(x as int, y as int, x as int, y as int);
            assert(self.pixels.len() <= usize::MAX);
            assert(row * stride == y * self.width && 0 <= row * stride) by (nonlinear_arith)
                requires
                    row == y,
                    stride == self.width,
                    0 <= y,
                    0 <= self.width,
            ;
        }
        row * stride + (x as usize)
    }

    /// Reads a cell that is known to be on the grid.
    pub(crate) fn cell(&self, x: i32, y: i32) -> (pixel: Pixel)
        requires
            self.wf(),
            self.in_bounds(x as int, y as int),
        ensures
            pixel == self.at(x as int, y as int),
    {
        let index: usize = self.cell_index(x, y);
        self.pixels[index]
    }

    /// Reads the cell at `(x, y)`; there is none off the grid.
    pub fn get(&self, x: i32, y: i32) -> (pixel: Option<Pixel>)
        requires
            self.wf(),
        ensures
            pixel is Some <==> self.in_bounds(x as int, y as int),
            pixel matches Some(p) ==> p == self.at(x as int, y as int),
    {
        if 0 <= x && x < self.width && 0 <= y && y < self.height {
            Some(self.cell(x, y))
        } else {
            None
        }
    }

    /// Writes the cell at `(x, y)` and leaves every other cell alone. A write
    /// off the grid changes nothing.
    pub fn put(&mut self, x: i32, y: i32, pixel: Pixel)
        requires
            old(self).wf(),
        ensures
            final(self).wf(),
            final(self).width == old(self).width,
            final(self).height == old(self).height,
            !old(self).in_bounds(x as int, y as int) ==> *final(self) == *old(self),
            forall|u: int, v: int| #[trigger]
                final(self).in_bounds(u, v) ==> final(self).at(u, v) == (if u == x && v == y {
                    pixel
                } else {
                    old(self).at(u, v)
                }),
    {
        if 0 <= x && x < self.width && 0 <= y && y < self.height {
            let index: usize = self.cell_index(x, y);
            self.pixels.set(index, pixel);
            assert forall|u: int, v: int| #[trigger] self.in_bounds(u, v) implies self.at(u, v) == (if u == x
                && v == y {
                pixel
            } else {
                old(self).at(u, v)
            }) by {
                old(self).lemma_cell_index(x as int, y as int, u, v);
            }
        }
    }

    /// Paints `color` into every cell of the surface that lies in the columns
    /// from `left` up to but not including `right` and in the rows from `top`
    /// up to but not including `bottom`. Alpha is kept.
    pub fn fill_span(&mut self, left: i64, top: i64, right: i64, bottom: i64, color: Color)
        requires
            old(self).wf(),
        ensures
            final(self).wf(),
            final(self).width == old(self).width,
            final(self).height == old(self).height,
            forall|u: int, v: int| #[trigger]
                final(self).in_bounds(u, v) ==> final(self).at(u, v) == (if in_span(
                    u,
                    v,
                    left as int,
                    top as int,
                    right as int,
                    bottom as int,
                ) {
                    old(self).at(u, v).painted(color)
                } else {
                    old(self).at(u, v)
                }),
    {
        let x0: i32 = clamp_to(left, self.width);
        let x1: i32 = clamp_to(right, self.width);
        let y0: i32 = clamp_to(top, self.height);
        let y1: i32 = clamp_to(bottom, self.height);
        let mut y: i32 = y0;
        while y < y1
            invariant
                self.wf(),
                self.width == old(self).width,
                self.height == old(self).height,
                0 <= x0 <= self.width,
                0 <= x1 <= self.width,
                0 <= y0 <= y,
                y <= y1 || y == y0,
                y1 <= self.height,
                forall|u: int, v: int| #[trigger]
                    self.in_bounds(u, v) ==> self.at(u, v) == (if in_span(u, v, x0 as int, y0 as int, x1 as int, y as int) {
                        old(self).at(u, v).painted(color)
                    } else {
                        old(self).at(u, v)
                    }),
            decreases y1 - y,
        {
            let mut x: i32 = x0;
            while x < x1
                invariant
                    self.wf(),
                    self.width == old(self).width,
                    self.height == old(self).height,
                    0 <= x0 <= x,
                    x <= x1 || x == x0,
                    0 <= x1 <= self.width,
                    0 <= y0 <= y < y1 <= self.height,
                    forall|u: int, v: int| #[trigger]
                        self.in_bounds(u, v) ==> self.at(u, v) == (if in_span(u, v, x0 as int, y0 as int, x1 as int, y as int)
                            || (v == y && x0 <= u < x) {
                            old(self).at(u, v).painted(color)
                        } else {
                            old(self).at(u, v)
                        }),
                decreases x1 - x,
            {
                let pixel: Pixel = self.cell(x, y);
                self.put(x, y, pixel.paint(color));
                x = x + 1;
            }
            y = y + 1;
        }
    }

    /// The cells as the host presents them: row after row, four bytes for each
    /// cell, in the order blue, green, red, alpha.
    pub fn to_bytes(&self) -> (bytes: Vec<u8>)
        ensures
            bytes@.len() == 4 * self.pixels@.len(),
            forall|i: int|
                0 <= i < self.pixels@.len() ==> {
                    &&& bytes@[4 * i] == (#[trigger] self.pixels@[i]).blue
                    &&& bytes@[4 * i + 1] == self.pixels@[i].green
                    &&& bytes@[4 * i + 2] == self.pixels@[i].red
                    &&& bytes@[4 * i + 3] == self.pixels@[i].alpha
                },
    {
        let mut bytes: Vec<u8> = Vec::new();
        let count: usize = self.pixels.len();
        let mut i: usize = 0;
        while i < count
            invariant
                count == self.pixels@.len(),
                i <= count,
                bytes@.len() == 4 * i,
                forall|j: int|
                    0 <= j < i ==> {
                        &&& bytes@[4 * j] == (#[trigger] self.pixels@[j]).blue
                        &&& bytes@[4 * j + 1] == self.pixels@[j].green
                        &&& bytes@[4 * j + 2] == self.pixels@[j].red
                        &&& bytes@[4 * j + 3] == self.pixels@[j].alpha
                    },
            decreases count - i,
        {
            let pixel: Pixel = self.pixels[i];
            bytes.push(pixel.blue);
            bytes.push(pixel.green);
            bytes.push(pixel.red);
            bytes.push(pixel.alpha);
            i = i + 1;
        }
        bytes
    }
}

/// Whether column `x` and row `y` lie in the half-open span between the edges.
pub open spec fn in_span(x: int, y: int, left: int, top: int, right: int, bottom: int) -> bool {
    left <= x < right && top <= y < bottom
}

/// The edge `value` brought into the range from 0 to `limit`.
fn clamp_to(value: i64, limit: i32) -> (clamped: i32)
    requires
        0 <= limit,
    ensures
        0 <= clamped <= limit,
        0 <= value <= limit ==> clamped == value,
        value < 0 ==> clamped == 0,
        value > limit ==> clamped == limit,
{
    if value < 0 {
        0
    } else if value > limit as i64 {
        limit
    } else {
        value as i32
    }
}

/// Paints `color` into the cells of the `width` by `height` box whose top-left
/// corner is `(left, top)`, as far as the box lies on the surface.
pub fn fill_rect(buffer: &mut PixelBuffer, left: i32, top: i32, width: i32, height: i32, color: Color)
    requires
        old(buffer).wf(),
    ensures
        final(buffer).wf(),
        final(buffer).width == old(buffer).width,
        final(buffer).height == old(buffer).height,
        forall|u: int, v: int| #[trigger]
            final(buffer).in_bounds(u, v) ==> final(buffer).at(u, v) == (if in_span(u, v, left as int, top as int, left + width, top + height) {
                old(buffer).at(u, v).painted(color)
            } else {
                old(buffer).at(u, v)
            }),
{
    buffer.fill_span(left as i64, top as i64, left as i64 + width as i64, top as i64 + height as i64, color);
}

} // verus!

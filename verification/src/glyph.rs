//! Rasterized glyphs and the measures of a run of them.

use vstd::prelude::*;

verus! {

/// The layout measures of one glyph at a fixed size, in whole pixels.
#[derive(Debug, Copy, Clone, PartialEq, Eq, Structural)]
pub struct GlyphMetrics {
    /// Columns of the glyph's bitmap.
    pub width: usize,
    /// Rows of the glyph's bitmap.
    pub height: usize,
    /// Offset of the bitmap's bottom row from the baseline; negative where
    /// the glyph reaches below the baseline.
    pub ymin: i32,
    /// How far the pen moves to the right after the glyph.
    pub advance_width: i32,
}

/// A glyph's measures with its coverage bitmap: one byte for each cell of the
/// bitmap, row after row from the top-left corner, 0 for a cell that the glyph
/// leaves alone and 255 for one that it covers fully.
#[derive(Debug)]
pub struct Glyph {
    pub metrics: GlyphMetrics,
    pub coverage: Vec<u8>,
}

impl Glyph {
    /// The bitmap holds one byte for each cell.
    pub open spec fn wf(&self) -> bool {
        self.coverage@.len() == self.metrics.width * self.metrics.height
    }

    /// Whether the bitmap has a cell in column `col` of row `row`.
    pub open spec fn covers(&self, col: int, row: int) -> bool {
        0 <= col < self.metrics.width && 0 <= row < self.metrics.height
    }

    /// The coverage of the cell in column `col` of row `row`.
    pub open spec fn coverage_at(&self, col: int, row: int) -> u8 {
        self.coverage@[row * self.metrics.width + col]
    }

    /// Whether the glyph has no cells and does not move the pen.
    pub open spec fn is_empty(&self) -> bool {
        &&& self.metrics == (GlyphMetrics { width: 0, height: 0, ymin: 0, advance_width: 0 })
        &&& self.coverage@.len() == 0
    }

    /// The glyph that draws nothing and does not move the pen.
    pub fn empty() -> (glyph: Glyph)
        ensures
            glyph.wf(),
            glyph.is_empty(),
    {
        Glyph { metrics: GlyphMetrics { width: 0, height: 0, ymin: 0, advance_width: 0 }, coverage: Vec::new() }
    }

    /// Builds a glyph from measures and a bitmap. A bitmap that does not hold
    /// one byte for each cell gives the empty glyph.
    pub fn checked(metrics: GlyphMetrics, coverage: Vec<u8>) -> (glyph: Glyph)
        ensures
            glyph.wf(),
            coverage@.len() == metrics.width * metrics.height ==> glyph.metrics == metrics && glyph.coverage@ == coverage@,
            coverage@.len() != metrics.width * metrics.height ==> glyph.is_empty(),
    {
        let glyph = Glyph { metrics: metrics, coverage: coverage };
        if glyph.is_well_formed() {
            glyph
        } else {
            Glyph::empty()
        }
    }

    /// Tells whether the bitmap holds one byte for each cell.
    pub fn is_well_formed(&self) -> (well_formed: bool)
        ensures
            well_formed == self.wf(),
    {
        assert(self.metrics.width * self.metrics.height <= 0xffff_ffff_ffff_ffff * 0xffff_ffff_ffff_ffff) by (nonlinear_arith)
            requires
                0 <= self.metrics.width <= 0xffff_ffff_ffff_ffff,
                0 <= self.metrics.height <= 0xffff_ffff_ffff_ffff,
        ;
        self.coverage.len() as u128 == (self.metrics.width as u128) * (self.metrics.height as u128)
    }

    /// Reads the coverage of the cell in column `col` of row `row`.
    pub fn coverage_of(&self, col: usize, row: usize) -> (coverage: u8)
        requires
            self.wf(),
            self.covers(col as int, row as int),
        ensures
            coverage == self.coverage_at(col as int, row as int),
    {
        let stride: usize = self.metrics.width;
        assert(0 <= row * stride && row * stride + col < stride * self.metrics.height) by (nonlinear_arith)
            requires
                0 <= col < stride,
                0 <= row < self.metrics.height,
        ;
        assert(self.coverage.len() <= usize::MAX);
        self.coverage[row * stride + col]
    }
}

/// The extent of a run of glyphs.
#[derive(Debug, Copy, Clone, PartialEq, Eq, Structural)]
pub struct TextExtent {
    /// The greatest bitmap height in the run.
    pub height: usize,
    /// The sum of the advance widths.
    pub width: i128,
    /// The lowest bitmap offset below the baseline, at most zero.
    pub ymin: i32,
}

/// The sum of the first `n` advance widths.
pub open spec fn advance_sum(metrics: Seq<GlyphMetrics>, n: int) -> int
    decreases n,
{
    if n <= 0 {
        0
    } else {
        advance_sum(metrics, n - 1) + metrics[n - 1].advance_width
    }
}

/// The greatest height among the first `n` glyphs, zero for none.
pub open spec fn max_height(metrics: Seq<GlyphMetrics>, n: int) -> int
    decreases n,
{
    if n <= 0 {
        0
    } else if metrics[n - 1].height > max_height(metrics, n - 1) {
        metrics[n - 1].height as int
    } else {
        max_height(metrics, n - 1)
    }
}

/// The least `ymin` among the first `n` glyphs, but at most zero.
pub open spec fn min_ymin(metrics: Seq<GlyphMetrics>, n: int) -> int
    decreases n,
{
    if n <= 0 {
        0
    } else if metrics[n - 1].ymin < min_ymin(metrics, n - 1) {
        metrics[n - 1].ymin as int
    } else {
        min_ymin(metrics, n - 1)
    }
}

/// No sum of `n` advance widths leaves the range that `n` 32-bit steps span;
/// so the sum over any run that a vector can hold stays below 2 to the 95th.
pub proof fn lemma_advance_sum_bounds(metrics: Seq<GlyphMetrics>, n: int)
    requires
        0 <= n <= metrics.len(),
    ensures
        -n * 0x8000_0000 <= advance_sum(metrics, n) <= n * 0x8000_0000,
        n <= usize::MAX ==> -0x7fff_ffff_ffff_ffff_8000_0000 <= advance_sum(metrics, n) <= 0x7fff_ffff_ffff_ffff_8000_0000,
    decreases n,
{
    if n > 0 {
        lemma_advance_sum_bounds(metrics, n - 1);
    }
    if n <= usize::MAX {
        assert(n * 0x8000_0000 <= 0xffff_ffff_ffff_ffff * 0x8000_0000) by (nonlinear_arith)
            requires
                0 <= n <= 0xffff_ffff_ffff_ffff,
        ;
    }
}

/// Where no glyph moves the pen to the left, a longer prefix of the run is at
/// least as wide as a shorter one.
pub proof fn lemma_advance_sum_monotone(metrics: Seq<GlyphMetrics>, i: int, j: int)
    requires
        0 <= i <= j <= metrics.len(),
        forall|k: int| 0 <= k < metrics.len() ==> (#[trigger] metrics[k]).advance_width >= 0,
    ensures
        advance_sum(metrics, i) <= advance_sum(metrics, j),
    decreases j - i,
{
    if i < j {
        lemma_advance_sum_monotone(metrics, i, j - 1);
    }
}

/// Measures a run of glyphs: its greatest height, the sum of its advance
/// widths and its lowest reach below the baseline.
pub fn measure_metrics(metrics: &Vec<GlyphMetrics>) -> (extent: TextExtent)
    ensures
        extent.height == max_height(metrics@, metrics@.len() as int),
        extent.width == advance_sum(metrics@, metrics@.len() as int),
        extent.ymin == min_ymin(metrics@, metrics@.len() as int),
{
    let mut height: usize = 0;
    let mut width: i128 = 0;
    let mut ymin: i32 = 0;
    let count: usize = metrics.len();
    let mut i: usize = 0;
    while i < count
        invariant
            count == metrics@.len(),
            i <= count,
            height == max_height(metrics@, i as int),
            width == advance_sum(metrics@, i as int),
            ymin == min_ymin(metrics@, i as int),
        decreases count - i,
    {
        proof {
            lemma_advance_sum_bounds(metrics@, i as int);
        }
        let m: GlyphMetrics = metrics[i];
        if height < m.height {
            height = m.height;
        }
        width = width + m.advance_width as i128;
        if ymin > m.ymin {
            ymin = m.ymin;
        }
        i = i + 1;
    }
    TextExtent { height: height, width: width, ymin: ymin }
}

} // verus!

//! Lays a run of glyphs out in a content box and blends it into the surface,
//! with the selection highlight under it and the caret over it.

use vstd::prelude::*;
use crate::color::Color;
use crate::geometry::ContentBox;
use crate::glyph::{advance_sum, lemma_advance_sum_bounds, lemma_advance_sum_monotone, Glyph, GlyphMetrics};
use crate::style::{BoxStyle, HorizontalAlign, VerticalAlign};
use crate::surface::{in_span, lemma_blend_opaque, lemma_blend_transparent, Pixel, PixelBuffer};

verus! {

/// Half of `n`, rounded towards zero.
pub open spec fn half(n: int) -> int {
    if n >= 0 {
        n / 2
    } else {
        -((-n) / 2)
    }
}

/// How far right of the content box's left edge the text starts. Centered text
/// that is wider than the box starts left of it.
pub open spec fn h_align_offset(container_width: int, text_width: int, align: HorizontalAlign) -> int {
    match align {
        HorizontalAlign::Left => 0,
        HorizontalAlign::Center => half(container_width - text_width),
    }
}

/// How far below the content box's top edge the line of text starts.
pub open spec fn v_align_offset(container_height: int, text_height: int, align: VerticalAlign) -> int {
    match align {
        VerticalAlign::Center => half(container_height) - half(text_height),
        VerticalAlign::Bottom => container_height - text_height,
        VerticalAlign::Top => 0,
    }
}

/// Computes the horizontal start offset of a text of the given width.
pub fn calculate_h_align_offset(container_width: i128, text_width: i128, align: HorizontalAlign) -> (offset: i128)
    requires
        i128::MIN <= container_width - text_width <= i128::MAX,
    ensures
        offset == h_align_offset(container_width as int, text_width as int, align),
{
    match align {
        HorizontalAlign::Left => 0,
        HorizontalAlign::Center => (container_width - text_width) / 2,
    }
}

/// Computes the vertical start offset of a line of the given height.
pub fn calculate_v_align_offset(container_height: i128, text_height: i128, align: VerticalAlign) -> (offset: i128)
    requires
        i128::MIN <= container_height - text_height <= i128::MAX,
    ensures
        offset == v_align_offset(container_height as int, text_height as int, align),
{
    match align {
        VerticalAlign::Center => container_height / 2 - text_height / 2,
        VerticalAlign::Bottom => container_height - text_height,
        VerticalAlign::Top => 0,
    }
}

/// The measures of each glyph of a run.
pub open spec fn metrics_of(glyphs: Seq<Glyph>) -> Seq<GlyphMetrics> {
    Seq::new(glyphs.len(), |i: int| glyphs[i].metrics)
}

/// The cell `(x, y)` after one glyph, whose bitmap has its top-left corner at
/// `(gx, gy)`, is blended over `under`. Only a cell that is admitted and that
/// the bitmap covers changes.
pub open spec fn glyph_pixel(glyph: Glyph, gx: int, gy: int, color: Color, admitted: bool, x: int, y: int, under: Pixel) -> Pixel {
    if admitted && glyph.covers(x - gx, y - gy) {
        under.blended(color, glyph.coverage_at(x - gx, y - gy))
    } else {
        under
    }
}

/// All that decides what a run of glyphs looks like on a surface.
pub struct TextScene {
    pub glyphs: Seq<Glyph>,
    pub line_height: int,
    pub content: ContentBox,
    pub surface_width: int,
    pub surface_height: int,
    pub style: BoxStyle,
    pub selection: Option<(usize, usize)>,
}

impl TextScene {
    /// The number of glyphs.
    pub open spec fn len(self) -> int {
        self.glyphs.len() as int
    }

    /// The sum of all advance widths.
    pub open spec fn text_width(self) -> int {
        advance_sum(metrics_of(self.glyphs), self.len())
    }

    /// The column where the first glyph starts.
    pub open spec fn origin_x(self) -> int {
        self.content.left + h_align_offset(self.content.width(), self.text_width(), self.style.horizontal_align)
    }

    /// The top row of the line.
    pub open spec fn line_top(self) -> int {
        self.content.top + v_align_offset(self.content.height(), self.line_height, self.style.vertical_align)
    }

    /// The column of the pen before glyph `i`.
    pub open spec fn pen(self, i: int) -> int {
        self.origin_x() + advance_sum(metrics_of(self.glyphs), i)
    }

    /// The column of the caret that stands before the character `index`; an
    /// index at or past the end of the text puts it after the last glyph.
    pub open spec fn caret_column(self, index: int) -> int {
        self.pen(if index < self.len() { index } else { self.len() })
    }

    /// The top row of glyph `i`, which sets its bottom row `ymin` above the
    /// bottom of the line.
    pub open spec fn glyph_top(self, i: int) -> int {
        self.line_top() + self.line_height - self.glyphs[i].metrics.height - self.glyphs[i].metrics.ymin
    }

    /// The left edge of the clip: its first column. No cell left of it
    /// changes.
    pub open spec fn clip_left(self) -> int {
        if self.content.left > 0 { self.content.left as int } else { 0 }
    }

    /// The top edge of the clip: its first row. No cell above it changes.
    pub open spec fn clip_top(self) -> int {
        if self.content.top > 0 { self.content.top as int } else { 0 }
    }

    /// The right edge of the clip: the column just past its last one. No cell
    /// in or right of this column changes.
    pub open spec fn clip_right(self) -> int {
        if self.content.right < self.surface_width { self.content.right as int } else { self.surface_width }
    }

    /// The bottom edge of the clip: the row just past its last one. No cell in
    /// or below this row changes.
    pub open spec fn clip_bottom(self) -> int {
        if self.content.bottom < self.surface_height { self.content.bottom as int } else { self.surface_height }
    }

    /// Whether text may change the cell: it must lie inside both the content
    /// box and the surface.
    pub open spec fn admits(self, x: int, y: int) -> bool {
        in_span(x, y, self.clip_left(), self.clip_top(), self.clip_right(), self.clip_bottom())
    }

    /// Whether glyph `i` belongs to the selection.
    pub open spec fn selected(self, i: int) -> bool {
        self.selection matches Some((start, end)) && start <= i < end
    }

    /// The color of glyph `i`.
    pub open spec fn glyph_color(self, i: int) -> Color {
        if self.selected(i) {
            self.style.text_highlight_color
        } else {
            self.style.text_color
        }
    }

    /// The cell after the selection highlight is painted over `under`: the
    /// admitted cells of the line between the carets of the two selection ends.
    pub open spec fn highlight_layer(self, x: int, y: int, under: Pixel) -> Pixel {
        if self.selection matches Some((start, end)) && self.admits(x, y) && self.caret_column(start as int) <= x
            < self.caret_column(end as int) && self.line_top() <= y < self.line_top() + self.line_height {
            under.painted(self.style.highlight_color)
        } else {
            under
        }
    }

    /// The coverage that glyph `i` has at the cell: that of its bitmap where
    /// the bitmap reaches the cell, and none elsewhere.
    pub open spec fn coverage_on(self, i: int, x: int, y: int) -> u8 {
        if self.glyphs[i].covers(x - self.pen(i), y - self.glyph_top(i)) {
            self.glyphs[i].coverage_at(x - self.pen(i), y - self.glyph_top(i))
        } else {
            0
        }
    }

    /// The cell after glyph `i` is blended over `under`.
    pub open spec fn glyph_layer(self, i: int, x: int, y: int, under: Pixel) -> Pixel {
        glyph_pixel(self.glyphs[i], self.pen(i), self.glyph_top(i), self.glyph_color(i), self.admits(x, y), x, y, under)
    }

    /// The cell after the first `n` glyphs are blended over `under`, one after
    /// the other.
    pub open spec fn text_layers(self, n: int, x: int, y: int, under: Pixel) -> Pixel
        decreases n,
    {
        if n <= 0 {
            under
        } else {
            self.glyph_layer(n - 1, x, y, self.text_layers(n - 1, x, y, under))
        }
    }

    /// The cell after the caret is painted over `under`: two columns wide from
    /// the caret's column, from two rows above the line to two rows below it.
    pub open spec fn caret_layer(self, cursor_index: int, draw_cursor: bool, x: int, y: int, under: Pixel) -> Pixel {
        if draw_cursor && in_span(
            x,
            y,
            self.caret_column(cursor_index),
            self.line_top() - 2,
            self.caret_column(cursor_index) + 2,
            self.line_top() + self.line_height + 2,
        ) {
            under.painted(self.style.text_color)
        } else {
            under
        }
    }

    /// The cell after the whole text is drawn over `under`: the highlight, then
    /// the glyphs, then the caret.
    pub open spec fn pixel(self, cursor_index: int, draw_cursor: bool, x: int, y: int, under: Pixel) -> Pixel {
        self.caret_layer(cursor_index, draw_cursor, x, y, self.text_layers(self.len(), x, y, self.highlight_layer(x, y, under)))
    }
}

/// The scene that `draw_glyphs` draws on a surface of the given size.
pub open spec fn scene_of(
    surface_width: int,
    surface_height: int,
    glyphs: Seq<Glyph>,
    line_height: usize,
    content: ContentBox,
    style: BoxStyle,
    selection: Option<(usize, usize)>,
) -> TextScene {
    TextScene {
        glyphs: glyphs,
        line_height: line_height as int,
        content: content,
        surface_width: surface_width,
        surface_height: surface_height,
        style: style,
        selection: selection,
    }
}

/// Whether `after` is `before` with the scene's text drawn over it.
pub open spec fn text_drawn(
    before: PixelBuffer,
    after: PixelBuffer,
    glyphs: Seq<Glyph>,
    line_height: usize,
    content: ContentBox,
    style: BoxStyle,
    cursor_index: usize,
    draw_cursor: bool,
    selection: Option<(usize, usize)>,
) -> bool {
    &&& after.wf()
    &&& after.width == before.width
    &&& after.height == before.height
    &&& forall|u: int, v: int| #[trigger]
        after.in_bounds(u, v) ==> after.at(u, v) == scene_of(
            before.width as int,
            before.height as int,
            glyphs,
            line_height,
            content,
            style,
            selection,
        ).pixel(cursor_index as int, draw_cursor, u, v, before.at(u, v))
}

/// The greatest distance from zero of a pen position that `draw_glyphs` can
/// reach.
pub open spec fn pen_limit() -> int {
    0x1_0000_0000_0000_0000_0000_0000_0000
}

/// The edge `value` as near as a 64-bit edge can come to it. Edges beyond the
/// 32-bit range lie off every surface, so this moves none that matters.
fn narrow(value: i128) -> (edge: i64)
    ensures
        -0x1_0000_0000 <= value <= 0x1_0000_0000 ==> edge == value,
        value < -0x1_0000_0000 ==> edge == -0x1_0000_0000,
        value > 0x1_0000_0000 ==> edge == 0x1_0000_0000,
{
    if value < -0x1_0000_0000 {
        -0x1_0000_0000
    } else if value > 0x1_0000_0000 {
        0x1_0000_0000
    } else {
        value as i64
    }
}

/// Blends one glyph, whose bitmap has its top-left corner at `(gx, gy)`, into
/// the cells of the clip: the columns from `clip_left` up to `clip_right` and
/// the rows from `clip_top` up to `clip_bottom`.
fn blend_glyph(
    buffer: &mut PixelBuffer,
    glyph: &Glyph,
    gx: i128,
    gy: i128,
    clip_left: i64,
    clip_top: i64,
    clip_right: i64,
    clip_bottom: i64,
    color: Color,
)
    requires
        old(buffer).wf(),
        glyph.wf(),
        -pen_limit() <= gx <= pen_limit(),
        -pen_limit() <= gy <= pen_limit(),
        0 <= clip_left,
        0 <= clip_top,
        clip_right <= old(buffer).width,
        clip_bottom <= old(buffer).height,
    ensures
        final(buffer).wf(),
        final(buffer).width == old(buffer).width,
        final(buffer).height == old(buffer).height,
        forall|u: int, v: int| #[trigger]
            final(buffer).in_bounds(u, v) ==> final(buffer).at(u, v) == glyph_pixel(
                *glyph,
                gx as int,
                gy as int,
                color,
                in_span(u, v, clip_left as int, clip_top as int, clip_right as int, clip_bottom as int),
                u,
                v,
                old(buffer).at(u, v),
            ),
{
    let rows: usize = glyph.metrics.height;
    let cols: usize = glyph.metrics.width;
    if cols == 0 {
        // a bitmap without columns covers no cell, however many rows it claims
        return;
    }
    let mut row: usize = 0;
    while row < rows
        invariant
            buffer.wf(),
            glyph.wf(),
            rows == glyph.metrics.height,
            cols == glyph.metrics.width,
            row <= rows,
            buffer.width == old(buffer).width,
            buffer.height == old(buffer).height,
            -pen_limit() <= gx <= pen_limit(),
            -pen_limit() <= gy <= pen_limit(),
            0 <= clip_left,
            0 <= clip_top,
            clip_right <= buffer.width,
            clip_bottom <= buffer.height,
            forall|u: int, v: int| #[trigger]
                buffer.in_bounds(u, v) ==> buffer.at(u, v) == (if v - gy < row {
                    glyph_pixel(
                        *glyph,
                        gx as int,
                        gy as int,
                        color,
                        in_span(u, v, clip_left as int, clip_top as int, clip_right as int, clip_bottom as int),
                        u,
                        v,
                        old(buffer).at(u, v),
                    )
                } else {
                    old(buffer).at(u, v)
                }),
        decreases rows - row,
    {
        let y: i128 = gy + row as i128;
        let mut col: usize = 0;
        while col < cols
            invariant
                buffer.wf(),
                glyph.wf(),
                rows == glyph.metrics.height,
                cols == glyph.metrics.width,
                row < rows,
                col <= cols,
                y == gy + row,
                buffer.width == old(buffer).width,
                buffer.height == old(buffer).height,
                -pen_limit() <= gx <= pen_limit(),
                -pen_limit() <= gy <= pen_limit(),
                0 <= clip_left,
                0 <= clip_top,
                clip_right <= buffer.width,
                clip_bottom <= buffer.height,
                forall|u: int, v: int| #[trigger]
                    buffer.in_bounds(u, v) ==> buffer.at(u, v) == (if v - gy < row || (v - gy == row && u - gx < col) {
                        glyph_pixel(
                            *glyph,
                            gx as int,
                            gy as int,
                            color,
                            in_span(u, v, clip_left as int, clip_top as int, clip_right as int, clip_bottom as int),
                            u,
                            v,
                            old(buffer).at(u, v),
                        )
                    } else {
                        old(buffer).at(u, v)
                    }),
            decreases cols - col,
        {
            let x: i128 = gx + col as i128;
            if x >= clip_left as i128 && x < clip_right as i128 && y >= clip_top as i128 && y < clip_bottom as i128 {
                let pixel: Pixel = buffer.cell(x as i32, y as i32);
                let coverage: u8 = glyph.coverage_of(col, row);
                buffer.put(x as i32, y as i32, pixel.blend(color, coverage));
            }
            col = col + 1;
        }
        row = row + 1;
    }
}

/// The pen's column before glyph `index`, or after the last glyph where there
/// is no such glyph.
fn pen_at(glyphs: &Vec<Glyph>, origin_x: i128, index: usize) -> (pen: i128)
    requires
        -pen_limit() / 4 <= origin_x <= pen_limit() / 4,
    ensures
        pen == origin_x + advance_sum(metrics_of(glyphs@), if index < glyphs@.len() { index as int } else { glyphs@.len() as int }),
        -pen_limit() / 2 <= pen <= pen_limit() / 2,
{
    let count: usize = if index < glyphs.len() { index } else { glyphs.len() };
    let mut pen: i128 = origin_x;
    let mut i: usize = 0;
    proof {
        lemma_advance_sum_bounds(metrics_of(glyphs@), count as int);
    }
    while i < count
        invariant
            i <= count <= glyphs@.len(),
            -pen_limit() / 4 <= origin_x <= pen_limit() / 4,
            pen == origin_x + advance_sum(metrics_of(glyphs@), i as int),
        decreases count - i,
    {
        proof {
            lemma_advance_sum_bounds(metrics_of(glyphs@), i as int);
        }
        pen = pen + glyphs[i].metrics.advance_width as i128;
        i = i + 1;
    }
    pen
}

/// Where the text of a scene stands on the surface, as `draw_glyphs` computes
/// it once for all layers.
struct Placement {
    origin_x: i128,
    line_top: i128,
    line_bottom: i128,
    clip_left: i64,
    clip_top: i64,
    clip_right: i64,
    clip_bottom: i64,
}

impl Placement {
    /// Whether the placement is that of the scene.
    spec fn fits(self, scene: TextScene) -> bool {
        &&& self.origin_x == scene.origin_x()
        &&& self.line_top == scene.line_top()
        &&& self.line_bottom == scene.line_top() + scene.line_height
        &&& self.clip_left == scene.clip_left()
        &&& self.clip_top == scene.clip_top()
        &&& self.clip_right == scene.clip_right()
        &&& self.clip_bottom == scene.clip_bottom()
        &&& -pen_limit() / 4 <= self.origin_x <= pen_limit() / 4
        &&& -pen_limit() / 4 <= self.line_top <= pen_limit() / 4
        &&& -pen_limit() / 4 <= self.line_bottom <= pen_limit() / 4
    }
}

/// Computes where the text stands: the start of the line by the alignment,
/// and the clip as the content box cut off at the surface.
fn place(
    surface_width: i32,
    surface_height: i32,
    glyphs: &Vec<Glyph>,
    line_height: usize,
    content: ContentBox,
    style: &BoxStyle,
    selection: Ghost<Option<(usize, usize)>>,
) -> (placement: Placement)
    requires
        0 <= surface_width,
        0 <= surface_height,
    ensures
        placement.fits(scene_of(surface_width as int, surface_height as int, glyphs@, line_height, content, *style, selection@)),
{
    let count: usize = glyphs.len();
    proof {
        lemma_advance_sum_bounds(metrics_of(glyphs@), count as int);
    }
    let text_width: i128 = pen_at(glyphs, 0, count);
    let content_width: i128 = content.right as i128 - content.left as i128;
    let content_height: i128 = content.bottom as i128 - content.top as i128;
    let h_offset: i128 = calculate_h_align_offset(content_width, text_width, style.horizontal_align);
    let v_offset: i128 = calculate_v_align_offset(content_height, line_height as i128, style.vertical_align);
    let line_top: i128 = content.top as i128 + v_offset;
    Placement {
        origin_x: content.left as i128 + h_offset,
        line_top: line_top,
        line_bottom: line_top + line_height as i128,
        clip_left: if content.left > 0 { content.left } else { 0 },
        clip_top: if content.top > 0 { content.top } else { 0 },
        clip_right: if content.right < surface_width as i64 { content.right } else { surface_width as i64 },
        clip_bottom: if content.bottom < surface_height as i64 { content.bottom } else { surface_height as i64 },
    }
}

/// Paints the highlight under the selected glyphs.
fn draw_highlight(
    buffer: &mut PixelBuffer,
    glyphs: &Vec<Glyph>,
    line_height: usize,
    content: ContentBox,
    style: &BoxStyle,
    selection: Option<(usize, usize)>,
    placement: &Placement,
)
    requires
        old(buffer).wf(),
        placement.fits(
            scene_of(old(buffer).width as int, old(buffer).height as int, glyphs@, line_height, content, *style, selection),
        ),
    ensures
        final(buffer).wf(),
        final(buffer).width == old(buffer).width,
        final(buffer).height == old(buffer).height,
        forall|u: int, v: int| #[trigger]
            final(buffer).in_bounds(u, v) ==> final(buffer).at(u, v) == scene_of(
                old(buffer).width as int,
                old(buffer).height as int,
                glyphs@,
                line_height,
                content,
                *style,
                selection,
            ).highlight_layer(u, v, old(buffer).at(u, v)),
{
    match selection {
        Some((start, end)) => {
            let from: i128 = pen_at(glyphs, placement.origin_x, start);
            let to: i128 = pen_at(glyphs, placement.origin_x, end);
            let left: i128 = if from > placement.clip_left as i128 { from } else { placement.clip_left as i128 };
            let right: i128 = if to < placement.clip_right as i128 { to } else { placement.clip_right as i128 };
            let top: i128 = if placement.line_top > placement.clip_top as i128 {
                placement.line_top
            } else {
                placement.clip_top as i128
            };
            let bottom: i128 = if placement.line_bottom < placement.clip_bottom as i128 {
                placement.line_bottom
            } else {
                placement.clip_bottom as i128
            };
            buffer.fill_span(narrow(left), narrow(top), narrow(right), narrow(bottom), style.highlight_color);
        },
        None => {},
    }
}

/// Blends the glyphs, one after the other, each at the pen's place.
fn draw_run(
    buffer: &mut PixelBuffer,
    glyphs: &Vec<Glyph>,
    line_height: usize,
    content: ContentBox,
    style: &BoxStyle,
    selection: Option<(usize, usize)>,
    placement: &Placement,
)
    requires
        old(buffer).wf(),
        forall|i: int| 0 <= i < glyphs@.len() ==> (#[trigger] glyphs@[i]).wf(),
        placement.fits(
            scene_of(old(buffer).width as int, old(buffer).height as int, glyphs@, line_height, content, *style, selection),
        ),
    ensures
        final(buffer).wf(),
        final(buffer).width == old(buffer).width,
        final(buffer).height == old(buffer).height,
        forall|u: int, v: int| #[trigger]
            final(buffer).in_bounds(u, v) ==> final(buffer).at(u, v) == scene_of(
                old(buffer).width as int,
                old(buffer).height as int,
                glyphs@,
                line_height,
                content,
                *style,
                selection,
            ).text_layers(glyphs@.len() as int, u, v, old(buffer).at(u, v)),
{
    let ghost scene = scene_of(buffer.width as int, buffer.height as int, glyphs@, line_height, content, *style, selection);
    let count: usize = glyphs.len();
    let mut pen: i128 = placement.origin_x;
    let mut i: usize = 0;
    while i < count
        invariant
            buffer.wf(),
            buffer.width == old(buffer).width,
            buffer.height == old(buffer).height,
            count == glyphs@.len(),
            i <= count,
            forall|k: int| 0 <= k < glyphs@.len() ==> (#[trigger] glyphs@[k]).wf(),
            scene == scene_of(old(buffer).width as int, old(buffer).height as int, glyphs@, line_height, content, *style, selection),
            placement.fits(scene),
            pen == scene.pen(i as int),
            forall|u: int, v: int| #[trigger]
                buffer.in_bounds(u, v) ==> buffer.at(u, v) == scene.text_layers(i as int, u, v, old(buffer).at(u, v)),
        decreases count - i,
    {
        proof {
            lemma_advance_sum_bounds(metrics_of(glyphs@), i as int);
        }
        let glyph: &Glyph = &glyphs[i];
        let top: i128 = placement.line_bottom - glyph.metrics.height as i128 - glyph.metrics.ymin as i128;
        let selected: bool = match selection {
            Some((start, end)) => start <= i && i < end,
            None => false,
        };
        let color: Color = if selected { style.text_highlight_color } else { style.text_color };
        assert(top == scene.glyph_top(i as int));
        assert(color == scene.glyph_color(i as int));
        blend_glyph(
            buffer,
            glyph,
            pen,
            top,
            placement.clip_left,
            placement.clip_top,
            placement.clip_right,
            placement.clip_bottom,
            color,
        );
        pen = pen + glyph.metrics.advance_width as i128;
        i = i + 1;
    }
}

/// Paints the caret, if it is to be drawn.
fn draw_caret(
    buffer: &mut PixelBuffer,
    glyphs: &Vec<Glyph>,
    line_height: usize,
    content: ContentBox,
    style: &BoxStyle,
    cursor_index: usize,
    draw_cursor: bool,
    selection: Ghost<Option<(usize, usize)>>,
    placement: &Placement,
)
    requires
        old(buffer).wf(),
        placement.fits(
            scene_of(old(buffer).width as int, old(buffer).height as int, glyphs@, line_height, content, *style, selection@),
        ),
    ensures
        final(buffer).wf(),
        final(buffer).width == old(buffer).width,
        final(buffer).height == old(buffer).height,
        forall|u: int, v: int| #[trigger]
            final(buffer).in_bounds(u, v) ==> final(buffer).at(u, v) == scene_of(
                old(buffer).width as int,
                old(buffer).height as int,
                glyphs@,
                line_height,
                content,
                *style,
                selection@,
            ).caret_layer(cursor_index as int, draw_cursor, u, v, old(buffer).at(u, v)),
{
    if draw_cursor {
        let caret: i128 = pen_at(glyphs, placement.origin_x, cursor_index);
        buffer.fill_span(
            narrow(caret),
            narrow(placement.line_top - 2),
            narrow(caret + 2),
            narrow(placement.line_bottom + 2),
            style.text_color,
        );
    }
}

/// Draws a run of glyphs into the content box of a control: first the
/// highlight under the selected glyphs, then each glyph at the pen's place,
/// blended by its coverage, then the caret if `draw_cursor` is set. Text that
/// does not fit is cut off at the content box and at the surface, cell by
/// cell. The caret is cut off at the surface only.
pub fn draw_glyphs(
    buffer: &mut PixelBuffer,
    glyphs: &Vec<Glyph>,
    line_height: usize,
    content: ContentBox,
    style: &BoxStyle,
    cursor_index: usize,
    draw_cursor: bool,
    selection: Option<(usize, usize)>,
)
    requires
        old(buffer).wf(),
        forall|i: int| 0 <= i < glyphs@.len() ==> (#[trigger] glyphs@[i]).wf(),
    ensures
        text_drawn(*old(buffer), *final(buffer), glyphs@, line_height, content, *style, cursor_index, draw_cursor, selection),
        forall|u: int, v: int| #[trigger] final(buffer).in_bounds(u, v) ==> final(buffer).at(u, v).alpha == old(buffer).at(u, v).alpha,
        forall|u: int, v: int| #[trigger]
            final(buffer).in_bounds(u, v) && !draw_cursor && !(content.left <= u < content.right && content.top <= v
                < content.bottom) ==> final(buffer).at(u, v) == old(buffer).at(u, v),
{
    let placement: Placement = place(buffer.width, buffer.height, glyphs, line_height, content, style, Ghost(selection));
    draw_highlight(buffer, glyphs, line_height, content, style, selection, &placement);
    draw_run(buffer, glyphs, line_height, content, style, selection, &placement);
    draw_caret(buffer, glyphs, line_height, content, style, cursor_index, draw_cursor, Ghost(selection), &placement);
    proof {
        let scene = scene_of(old(buffer).width as int, old(buffer).height as int, glyphs@, line_height, content, *style, selection);
        assert forall|u: int, v: int| #[trigger] buffer.in_bounds(u, v) implies buffer.at(u, v).alpha == old(buffer).at(
            u,
            v,
        ).alpha by {
            lemma_text_keeps_alpha(scene, cursor_index as int, draw_cursor, u, v, old(buffer).at(u, v));
        }
        assert forall|u: int, v: int| #[trigger]
            buffer.in_bounds(u, v) && !draw_cursor && !(content.left <= u < content.right && content.top <= v
                < content.bottom) implies buffer.at(u, v) == old(buffer).at(u, v) by {
            lemma_text_stays_in_content_box(scene, u, v, old(buffer).at(u, v));
        }
    }
}

/// The glyphs and the highlight change no cell outside the content box, even
/// one that a glyph's bitmap reaches.
pub proof fn lemma_text_stays_in_content_box(scene: TextScene, x: int, y: int, under: Pixel)
    requires
        !(scene.content.left <= x < scene.content.right && scene.content.top <= y < scene.content.bottom),
    ensures
        !scene.admits(x, y),
        scene.highlight_layer(x, y, under) == under,
        scene.text_layers(scene.len(), x, y, under) == under,
{
    lemma_text_needs_admission(scene, scene.len(), x, y, under);
}

/// The glyphs change no cell that the clip does not admit.
pub proof fn lemma_text_needs_admission(scene: TextScene, n: int, x: int, y: int, under: Pixel)
    requires
        !scene.admits(x, y),
    ensures
        scene.text_layers(n, x, y, under) == under,
    decreases n,
{
    if n > 0 {
        lemma_text_needs_admission(scene, n - 1, x, y, under);
    }
}

/// A glyph leaves a cell alone where its coverage is zero.
pub proof fn lemma_zero_coverage_keeps_cell(glyph: Glyph, gx: int, gy: int, color: Color, admitted: bool, x: int, y: int, under: Pixel)
    requires
        glyph.coverage_at(x - gx, y - gy) == 0,
    ensures
        glyph_pixel(glyph, gx, gy, color, admitted, x, y, under) == under,
{
    lemma_blend_transparent(under, color);
}

/// A glyph gives an admitted cell that it covers fully its own color on the
/// three color channels, and leaves the cell's alpha alone.
pub proof fn lemma_full_coverage_replaces_color(glyph: Glyph, gx: int, gy: int, color: Color, x: int, y: int, under: Pixel)
    requires
        glyph.covers(x - gx, y - gy),
        glyph.coverage_at(x - gx, y - gy) == 255,
    ensures
        glyph_pixel(glyph, gx, gy, color, true, x, y, under) == (Pixel {
            blue: color.blue,
            green: color.green,
            red: color.red,
            alpha: under.alpha,
        }),
{
    lemma_blend_opaque(under, color);
}

/// An admitted cell takes the color of the last glyph that covers it, on its
/// three color channels, where that glyph covers it fully: nothing of what
/// was there before shows through.
pub proof fn lemma_last_full_coverage_wins(scene: TextScene, n: int, k: int, x: int, y: int, under: Pixel)
    requires
        0 <= k < n,
        scene.admits(x, y),
        scene.coverage_on(k, x, y) == 255,
        forall|i: int| k < i < n ==> #[trigger] scene.coverage_on(i, x, y) == 0,
    ensures
        scene.text_layers(n, x, y, under) == under.painted(scene.glyph_color(k)),
    decreases n,
{
    let below = scene.text_layers(n - 1, x, y, under);
    if n - 1 == k {
        lemma_blend_opaque(below, scene.glyph_color(k));
        lemma_layers_keep_alpha(scene, k, x, y, under);
    } else {
        assert(scene.coverage_on(n - 1, x, y) == 0);
        lemma_blend_transparent(below, scene.glyph_color(n - 1));
        lemma_last_full_coverage_wins(scene, n - 1, k, x, y, under);
    }
}

/// Drawing text never changes the alpha of a cell.
pub proof fn lemma_text_keeps_alpha(scene: TextScene, cursor_index: int, draw_cursor: bool, x: int, y: int, under: Pixel)
    ensures
        scene.pixel(cursor_index, draw_cursor, x, y, under).alpha == under.alpha,
{
    lemma_layers_keep_alpha(scene, scene.len(), x, y, scene.highlight_layer(x, y, under));
}

/// Blending glyphs never changes the alpha of a cell.
pub proof fn lemma_layers_keep_alpha(scene: TextScene, n: int, x: int, y: int, under: Pixel)
    ensures
        scene.text_layers(n, x, y, under).alpha == under.alpha,
    decreases n,
{
    if n > 0 {
        lemma_layers_keep_alpha(scene, n - 1, x, y, under);
    }
}

/// Where no glyph moves the pen to the left, the caret's column does not
/// decrease as the caret's index increases.
pub proof fn lemma_caret_column_monotone(scene: TextScene, i: int, j: int)
    requires
        0 <= i <= j,
        forall|k: int| 0 <= k < scene.len() ==> (#[trigger] scene.glyphs[k]).metrics.advance_width >= 0,
    ensures
        scene.caret_column(i) <= scene.caret_column(j),
{
    let metrics = metrics_of(scene.glyphs);
    let a = if i < scene.len() { i } else { scene.len() };
    let b = if j < scene.len() { j } else { scene.len() };
    assert forall|k: int| 0 <= k < metrics.len() implies (#[trigger] metrics[k]).advance_width >= 0 by {
        assert(scene.glyphs[k].metrics.advance_width >= 0);
    }
    lemma_advance_sum_monotone(metrics, a, b);
}

} // verus!

//! Text drawn with the glyphs of a font.

use vstd::prelude::*;
use crate::compositor::{draw_glyphs, text_drawn};
use crate::geometry::ContentBox;
use crate::glyph::{advance_sum, max_height, measure_metrics, min_ymin, Glyph, GlyphMetrics, TextExtent};
use crate::style::BoxStyle;
use crate::surface::PixelBuffer;

verus! {

/// `fontdue::Font`, a parsed font. Nothing of its inside is known here.
#[verifier::external_type_specification]
#[verifier::external_body]
pub struct ExFont(fontdue::Font);

/// The characters that a font maps to a glyph of its own: the keys of the map
/// that `fontdue::Font::chars` hands out.
pub uninterp spec fn font_chars(font: fontdue::Font) -> Set<char>;

/// Calls `fontdue::Font::has_glyph`: whether the font maps the character to a
/// glyph of its own, that is whether the character is among the font's
/// characters.
#[verifier::external_body]
fn has_glyph(font: &fontdue::Font, c: char) -> (has: bool)
    ensures
        has == font_chars(*font).contains(c),
{
    font.has_glyph(c)
}

/// What `fontdue::Font::metrics` gives for the character at `px` pixels per
/// em, its advance width cut to whole pixels. It is decided by the font, the
/// character and the size.
pub uninterp spec fn font_metrics(font: fontdue::Font, c: char, px: u16) -> GlyphMetrics;

/// What `fontdue::Font::rasterize` gives for the character at `px` pixels per
/// em: the measures, with the advance width cut to whole pixels, and the
/// coverage bitmap. It is decided by the font, the character and the size.
pub uninterp spec fn font_raster(font: fontdue::Font, c: char, px: u16) -> (GlyphMetrics, Seq<u8>);

/// Calls `fontdue::Font::metrics` for the character at `px` pixels per em and
/// hands back the bitmap's width and height, its offset from the baseline and
/// the advance width in whole pixels. The result is named, and nothing more
/// is claimed of the values.
#[verifier::external_body]
fn glyph_metrics(font: &fontdue::Font, c: char, px: u16) -> (metrics: GlyphMetrics)
    ensures
        metrics == font_metrics(*font, c, px),
{
    let m = font.metrics(c, px.into());
    GlyphMetrics { width: m.width, height: m.height, ymin: m.ymin, advance_width: m.advance_width as i32 }
}

/// Calls `fontdue::Font::rasterize` for the character at `px` pixels per em and
/// hands back the measures as `glyph_metrics` does, with the coverage bitmap.
/// The result is named, and nothing more is claimed of the values.
#[verifier::external_body]
fn rasterize(font: &fontdue::Font, c: char, px: u16) -> (raster: (GlyphMetrics, Vec<u8>))
    ensures
        raster.0 == font_raster(*font, c, px).0,
        raster.1@ == font_raster(*font, c, px).1,
{
    let (m, bitmap) = font.rasterize(c, px.into());
    (GlyphMetrics { width: m.width, height: m.height, ymin: m.ymin, advance_width: m.advance_width as i32 }, bitmap)
}

/// The measures of a glyph that takes no room.
pub open spec fn no_metrics() -> GlyphMetrics {
    GlyphMetrics { width: 0, height: 0, ymin: 0, advance_width: 0 }
}

/// The measures of one character at `px` pixels per em: what the font gives,
/// and no room for a character that the font lacks.
pub open spec fn char_metrics(font: fontdue::Font, c: char, px: u16) -> GlyphMetrics {
    if font_chars(font).contains(c) {
        font_metrics(font, c, px)
    } else {
        no_metrics()
    }
}

/// The measures of the characters of `text` at `px` pixels per em.
pub open spec fn metrics_of_text(text: Seq<char>, font: fontdue::Font, px: u16) -> Seq<GlyphMetrics> {
    Seq::new(text.len(), |i: int| char_metrics(font, text[i], px))
}

/// The glyph of one character at `px` pixels per em, as its measures and its
/// coverage: what the font gives, and the empty glyph for a character that
/// the font lacks or whose bitmap does not hold one byte for each cell.
pub open spec fn char_glyph(font: fontdue::Font, c: char, px: u16) -> (GlyphMetrics, Seq<u8>) {
    let raster = font_raster(font, c, px);
    if font_chars(font).contains(c) && raster.1.len() == raster.0.width * raster.0.height {
        raster
    } else {
        (no_metrics(), Seq::<u8>::empty())
    }
}

/// Whether `glyphs` are the glyphs of `text` in `font` at `px` pixels per em:
/// one for each character, with the measures and the coverage of that
/// character's glyph.
pub open spec fn glyphs_are(glyphs: Seq<Glyph>, text: Seq<char>, font: fontdue::Font, px: u16) -> bool {
    &&& glyphs.len() == text.len()
    &&& forall|i: int|
        0 <= i < glyphs.len() ==> (#[trigger] glyphs[i]).metrics == char_glyph(font, text[i], px).0 && glyphs[i].coverage@
            == char_glyph(font, text[i], px).1
}

/// The extent of a run with the given measures.
pub open spec fn extent_of(metrics: Seq<GlyphMetrics>) -> TextExtent {
    TextExtent {
        height: max_height(metrics, metrics.len() as int) as usize,
        width: advance_sum(metrics, metrics.len() as int) as i128,
        ymin: min_ymin(metrics, metrics.len() as int) as i32,
    }
}

/// The line height of the font at `px` pixels per em: the height of a
/// capital W.
pub open spec fn line_height_of(font: fontdue::Font, px: u16) -> usize {
    extent_of(metrics_of_text(seq!['W'], font, px)).height
}

/// The measures of the characters of `text` at `px` pixels per em. A character
/// that the font lacks takes no room.
pub fn text_metrics(text: &[char], font: &fontdue::Font, px: u16) -> (metrics: Vec<GlyphMetrics>)
    ensures
        metrics@ == metrics_of_text(text@, *font, px),
{
    let mut metrics: Vec<GlyphMetrics> = Vec::new();
    let count: usize = text.len();
    let mut i: usize = 0;
    while i < count
        invariant
            count == text@.len(),
            i <= count,
            metrics@.len() == i,
            forall|k: int| 0 <= k < i ==> metrics@[k] == char_metrics(*font, text@[k], px),
        decreases count - i,
    {
        let c: char = text[i];
        let m: GlyphMetrics = if has_glyph(font, c) {
            glyph_metrics(font, c, px)
        } else {
            GlyphMetrics { width: 0, height: 0, ymin: 0, advance_width: 0 }
        };
        metrics.push(m);
        i = i + 1;
    }
    assert(metrics@ =~= metrics_of_text(text@, *font, px));
    metrics
}

/// Measures `text` at `px` pixels per em: the greatest glyph height, the sum
/// of the advance widths and the lowest reach below the baseline.
pub fn measure_string(text: &[char], font: &fontdue::Font, px: u16) -> (extent: TextExtent)
    ensures
        extent == extent_of(metrics_of_text(text@, *font, px)),
{
    let metrics: Vec<GlyphMetrics> = text_metrics(text, font, px);
    measure_metrics(&metrics)
}

/// The glyphs of the characters of `text` at `px` pixels per em. A character
/// that the font lacks, or whose bitmap does not fit its measures, gets the
/// empty glyph.
pub fn rasterize_text(text: &[char], font: &fontdue::Font, px: u16) -> (glyphs: Vec<Glyph>)
    ensures
        glyphs_are(glyphs@, text@, *font, px),
        forall|i: int| 0 <= i < glyphs@.len() ==> (#[trigger] glyphs@[i]).wf(),
{
    let mut glyphs: Vec<Glyph> = Vec::new();
    let count: usize = text.len();
    let mut i: usize = 0;
    while i < count
        invariant
            count == text@.len(),
            i <= count,
            glyphs@.len() == i,
            forall|k: int| 0 <= k < i ==> (#[trigger] glyphs@[k]).wf(),
            forall|k: int|
                0 <= k < i ==> (#[trigger] glyphs@[k]).metrics == char_glyph(*font, text@[k], px).0 && glyphs@[k].coverage@
                    == char_glyph(*font, text@[k], px).1,
        decreases count - i,
    {
        let c: char = text[i];
        let glyph: Glyph = if has_glyph(font, c) {
            let (metrics, coverage) = rasterize(font, c, px);
            Glyph::checked(metrics, coverage)
        } else {
            Glyph::empty()
        };
        assert(glyph.metrics == char_glyph(*font, c, px).0 && glyph.coverage@ =~= char_glyph(*font, c, px).1);
        glyphs.push(glyph);
        i = i + 1;
    }
    glyphs
}

/// The line height at `px` pixels per em: the height of a capital W.
pub fn line_height(font: &fontdue::Font, px: u16) -> (height: usize)
    ensures
        height == line_height_of(*font, px),
{
    let reference: Vec<char> = vec!['W'];
    assert(reference@ =~= seq!['W']);
    measure_string(reference.as_slice(), font, px).height
}

/// Draws `text` into the content box with the font at the style's size, in
/// the style's colors and alignment, with the caret before the character
/// `cursor_index` if `draw_cursor` is set and the highlight under the
/// characters of `selection`. What is drawn is what `draw_glyphs` draws for
/// the glyphs of the text and the line height of the font.
pub fn fill_text(
    buffer: &mut PixelBuffer,
    text: &[char],
    content: ContentBox,
    font: &fontdue::Font,
    style: &BoxStyle,
    cursor_index: usize,
    draw_cursor: bool,
    selection: Option<(usize, usize)>,
)
    requires
        old(buffer).wf(),
    ensures
        exists|glyphs: Seq<Glyph>|
            glyphs_are(glyphs, text@, *font, style.font_size) && #[trigger] text_drawn(
                *old(buffer),
                *final(buffer),
                glyphs,
                line_height_of(*font, style.font_size),
                content,
                *style,
                cursor_index,
                draw_cursor,
                selection,
            ),
        final(buffer).wf(),
        final(buffer).width == old(buffer).width,
        final(buffer).height == old(buffer).height,
        forall|u: int, v: int| #[trigger] final(buffer).in_bounds(u, v) ==> final(buffer).at(u, v).alpha == old(buffer).at(u, v).alpha,
        forall|u: int, v: int| #[trigger]
            final(buffer).in_bounds(u, v) && !draw_cursor && !(content.left <= u < content.right && content.top <= v
                < content.bottom) ==> final(buffer).at(u, v) == old(buffer).at(u, v),
{
    let height: usize = line_height(font, style.font_size);
    let glyphs: Vec<Glyph> = rasterize_text(text, font, style.font_size);
    draw_glyphs(buffer, &glyphs, height, content, style, cursor_index, draw_cursor, selection);
    assert(text_drawn(*old(buffer), *buffer, glyphs@, height, content, *style, cursor_index, draw_cursor, selection));
}

} // verus!

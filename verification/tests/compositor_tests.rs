use pixel_gui::color::Color;
use pixel_gui::compositor::{calculate_h_align_offset, calculate_v_align_offset, draw_glyphs};
use pixel_gui::geometry::ContentBox;
use pixel_gui::glyph::{measure_metrics, Glyph, GlyphMetrics, TextExtent};
use pixel_gui::style::{BoxStyle, HorizontalAlign, VerticalAlign};
use pixel_gui::surface::{Pixel, PixelBuffer};

const BASE: Pixel = Pixel { blue: 10, green: 20, red: 30, alpha: 77 };
const TEXT: Pixel = Pixel { blue: 0, green: 0, red: 255, alpha: 77 };
const HIGHLIGHT: Pixel = Pixel { blue: 0, green: 0, red: 200, alpha: 77 };
const HIGHLIGHT_TEXT: Pixel = Pixel { blue: 255, green: 255, red: 255, alpha: 77 };

fn canvas(width: i32, height: i32) -> PixelBuffer {
    let mut buffer = PixelBuffer::new(width, height).unwrap();
    for pixel in buffer.pixels.iter_mut() {
        *pixel = BASE;
    }
    buffer
}

fn cell(buffer: &PixelBuffer, x: i32, y: i32) -> Pixel {
    buffer.pixels[(y * buffer.width + x) as usize]
}

fn glyph(width: usize, height: usize, ymin: i32, advance_width: i32, coverage: Vec<u8>) -> Glyph {
    Glyph::checked(GlyphMetrics { width, height, ymin, advance_width }, coverage)
}

fn style(horizontal_align: HorizontalAlign, vertical_align: VerticalAlign) -> BoxStyle {
    BoxStyle { horizontal_align, vertical_align, ..BoxStyle::default() }
}

fn changed_cells(buffer: &PixelBuffer) -> Vec<(i32, i32, Pixel)> {
    let mut cells = Vec::new();
    for y in 0..buffer.height {
        for x in 0..buffer.width {
            if cell(buffer, x, y) != BASE {
                cells.push((x, y, cell(buffer, x, y)));
            }
        }
    }
    cells
}

fn caret_column(glyphs: &Vec<Glyph>, cursor_index: usize) -> i32 {
    let mut buffer = canvas(40, 12);
    let content = ContentBox { left: 5, top: 2, right: 35, bottom: 10 };
    draw_glyphs(&mut buffer, glyphs, 2, content, &style(HorizontalAlign::Left, VerticalAlign::Top), cursor_index, true, None);
    let cells = changed_cells(&buffer);
    assert_eq!(cells.len(), 12);
    cells.iter().map(|c| c.0).min().unwrap()
}

#[test]
fn h_align_offsets() {
    assert_eq!(calculate_h_align_offset(10, 6, HorizontalAlign::Left), 0);
    assert_eq!(calculate_h_align_offset(10, 6, HorizontalAlign::Center), 2);
    assert_eq!(calculate_h_align_offset(10, 3, HorizontalAlign::Center), 3);
    assert_eq!(calculate_h_align_offset(4, 3, HorizontalAlign::Center), 0);
    assert_eq!(calculate_h_align_offset(10, 12, HorizontalAlign::Center), -1);
    assert_eq!(calculate_h_align_offset(10, 13, HorizontalAlign::Center), -1);
    assert_eq!(calculate_h_align_offset(10, 14, HorizontalAlign::Center), -2);
}

#[test]
fn v_align_offsets() {
    assert_eq!(calculate_v_align_offset(9, 4, VerticalAlign::Top), 0);
    assert_eq!(calculate_v_align_offset(9, 4, VerticalAlign::Bottom), 5);
    assert_eq!(calculate_v_align_offset(9, 4, VerticalAlign::Center), 2);
    assert_eq!(calculate_v_align_offset(8, 3, VerticalAlign::Center), 3);
    assert_eq!(calculate_v_align_offset(4, 9, VerticalAlign::Bottom), -5);
    assert_eq!(calculate_v_align_offset(-3, 0, VerticalAlign::Center), -1);
}

#[test]
fn measure_metrics_gives_height_width_and_ymin() {
    let metrics = vec![
        GlyphMetrics { width: 1, height: 2, ymin: 0, advance_width: 3 },
        GlyphMetrics { width: 4, height: 5, ymin: -2, advance_width: 6 },
        GlyphMetrics { width: 7, height: 3, ymin: 1, advance_width: -1 },
    ];
    assert_eq!(measure_metrics(&metrics), TextExtent { height: 5, width: 8, ymin: -2 });
    assert_eq!(measure_metrics(&Vec::new()), TextExtent { height: 0, width: 0, ymin: 0 });
    let raised = vec![GlyphMetrics { width: 1, height: 1, ymin: 4, advance_width: i32::MAX }; 3];
    assert_eq!(measure_metrics(&raised), TextExtent { height: 1, width: 3 * (i32::MAX as i128), ymin: 0 });
}

#[test]
fn checked_glyph_needs_one_byte_per_cell() {
    let good = glyph(2, 3, -1, 4, vec![1, 2, 3, 4, 5, 6]);
    assert_eq!(good.metrics, GlyphMetrics { width: 2, height: 3, ymin: -1, advance_width: 4 });
    assert_eq!(good.coverage, vec![1, 2, 3, 4, 5, 6]);
    assert_eq!(good.coverage_of(1, 0), 2);
    assert_eq!(good.coverage_of(0, 2), 5);
    let short = glyph(2, 3, -1, 4, vec![1, 2, 3, 4, 5]);
    assert_eq!(short.metrics, GlyphMetrics { width: 0, height: 0, ymin: 0, advance_width: 0 });
    assert!(short.coverage.is_empty());
    let huge = glyph(usize::MAX, usize::MAX, 0, 1, vec![1]);
    assert_eq!(huge.metrics, GlyphMetrics { width: 0, height: 0, ymin: 0, advance_width: 0 });
    let empty = Glyph::empty();
    assert_eq!(empty.metrics, GlyphMetrics { width: 0, height: 0, ymin: 0, advance_width: 0 });
    assert!(empty.coverage.is_empty());
}

#[test]
fn glyphs_are_blended_by_coverage() {
    let mut buffer = canvas(20, 10);
    let glyphs = vec![glyph(2, 2, 0, 3, vec![255, 0, 128, 255]), glyph(2, 2, 0, 3, vec![255, 0, 128, 255])];
    let content = ContentBox { left: 2, top: 1, right: 12, bottom: 9 };
    draw_glyphs(&mut buffer, &glyphs, 2, content, &style(HorizontalAlign::Left, VerticalAlign::Center), 0, false, None);
    let blended = Pixel { blue: 4, green: 9, red: 142, alpha: 77 };
    let expected = vec![(2, 4, TEXT), (5, 4, TEXT), (2, 5, blended), (3, 5, TEXT), (5, 5, blended), (6, 5, TEXT)];
    assert_eq!(changed_cells(&buffer), expected);
}

#[test]
fn cells_outside_content_box_are_never_changed() {
    let mut buffer = canvas(8, 4);
    let glyphs = vec![glyph(6, 2, 0, 6, vec![255; 12])];
    let content = ContentBox { left: 0, top: 0, right: 4, bottom: 4 };
    draw_glyphs(&mut buffer, &glyphs, 2, content, &style(HorizontalAlign::Left, VerticalAlign::Top), 0, false, None);
    let mut expected = Vec::new();
    for y in 0..2 {
        for x in 0..4 {
            expected.push((x, y, TEXT));
        }
    }
    assert_eq!(changed_cells(&buffer), expected);
}

#[test]
fn text_is_cut_off_at_the_surface() {
    let mut buffer = canvas(4, 4);
    let glyphs = vec![glyph(8, 8, 0, 8, vec![255; 64])];
    let content = ContentBox { left: -5, top: -5, right: 100, bottom: 100 };
    draw_glyphs(&mut buffer, &glyphs, 8, content, &style(HorizontalAlign::Left, VerticalAlign::Top), 0, false, None);
    let mut expected = Vec::new();
    for y in 0..3 {
        for x in 0..3 {
            expected.push((x, y, TEXT));
        }
    }
    assert_eq!(changed_cells(&buffer), expected);
}

#[test]
fn zero_coverage_changes_nothing() {
    let mut buffer = canvas(10, 10);
    let glyphs = vec![glyph(4, 4, 0, 4, vec![0; 16])];
    let content = ContentBox { left: 0, top: 0, right: 10, bottom: 10 };
    draw_glyphs(&mut buffer, &glyphs, 4, content, &style(HorizontalAlign::Center, VerticalAlign::Center), 0, false, None);
    assert_eq!(changed_cells(&buffer), vec![]);
}

#[test]
fn full_coverage_replaces_color_and_keeps_alpha() {
    let mut buffer = canvas(10, 10);
    buffer.put(4, 4, Pixel { blue: 1, green: 2, red: 3, alpha: 200 });
    let glyphs = vec![glyph(1, 1, 0, 1, vec![255])];
    let content = ContentBox { left: 3, top: 3, right: 6, bottom: 6 };
    draw_glyphs(&mut buffer, &glyphs, 1, content, &style(HorizontalAlign::Center, VerticalAlign::Center), 0, false, None);
    assert_eq!(cell(&buffer, 4, 4), Pixel { blue: 0, green: 0, red: 255, alpha: 200 });
    assert_eq!(changed_cells(&buffer).len(), 1);
}

#[test]
fn ymin_moves_a_glyph_against_the_line() {
    let content = ContentBox { left: 0, top: 0, right: 10, bottom: 10 };
    let look = style(HorizontalAlign::Left, VerticalAlign::Bottom);
    let mut buffer = canvas(10, 10);
    draw_glyphs(&mut buffer, &vec![glyph(3, 1, 0, 3, vec![255; 3])], 4, content, &look, 0, false, None);
    assert_eq!(changed_cells(&buffer), vec![(0, 9, TEXT), (1, 9, TEXT), (2, 9, TEXT)]);
    let mut buffer = canvas(10, 10);
    draw_glyphs(&mut buffer, &vec![glyph(3, 1, 2, 3, vec![255; 3])], 4, content, &look, 0, false, None);
    assert_eq!(changed_cells(&buffer), vec![(0, 7, TEXT), (1, 7, TEXT), (2, 7, TEXT)]);
    let mut buffer = canvas(10, 10);
    draw_glyphs(&mut buffer, &vec![glyph(3, 2, -1, 3, vec![255; 6])], 4, content, &look, 0, false, None);
    assert_eq!(changed_cells(&buffer), vec![(0, 9, TEXT), (1, 9, TEXT), (2, 9, TEXT)]);
}

#[test]
fn centered_text_that_overflows_starts_left_of_the_box() {
    let mut buffer = canvas(12, 6);
    let glyphs = vec![glyph(1, 1, 0, 4, vec![255]), glyph(1, 1, 0, 4, vec![255]), glyph(1, 1, 0, 4, vec![255])];
    let content = ContentBox { left: 3, top: 1, right: 9, bottom: 5 };
    draw_glyphs(&mut buffer, &glyphs, 1, content, &style(HorizontalAlign::Center, VerticalAlign::Bottom), 0, false, None);
    assert_eq!(changed_cells(&buffer), vec![(4, 4, TEXT), (8, 4, TEXT)]);
}

#[test]
fn caret_spans_the_line_with_overrun() {
    let mut buffer = canvas(20, 12);
    let glyphs = vec![glyph(1, 1, 0, 3, vec![0]), glyph(1, 1, 0, 4, vec![0])];
    let content = ContentBox { left: 5, top: 4, right: 15, bottom: 8 };
    draw_glyphs(&mut buffer, &glyphs, 3, content, &style(HorizontalAlign::Left, VerticalAlign::Top), 1, true, None);
    let mut expected = Vec::new();
    for y in 2..9 {
        expected.push((8, y, TEXT));
        expected.push((9, y, TEXT));
    }
    assert_eq!(changed_cells(&buffer), expected);
}

#[test]
fn caret_is_not_drawn_unless_asked() {
    let mut buffer = canvas(20, 12);
    let glyphs = vec![glyph(1, 1, 0, 3, vec![0])];
    let content = ContentBox { left: 5, top: 4, right: 15, bottom: 8 };
    draw_glyphs(&mut buffer, &glyphs, 3, content, &style(HorizontalAlign::Left, VerticalAlign::Top), 1, false, None);
    assert_eq!(changed_cells(&buffer), vec![]);
}

#[test]
fn caret_column_does_not_decrease_with_caret_index() {
    let glyphs = vec![glyph(1, 1, 0, 3, vec![0]), glyph(1, 1, 0, 0, vec![0]), glyph(1, 1, 0, 4, vec![0])];
    let columns: Vec<i32> = (0..6).map(|index| caret_column(&glyphs, index)).collect();
    assert_eq!(columns, vec![5, 8, 8, 12, 12, 12]);
    for pair in columns.windows(2) {
        assert!(pair[0] <= pair[1]);
    }
}

#[test]
fn caret_of_empty_text_stands_at_the_start() {
    assert_eq!(caret_column(&Vec::new(), 0), 5);
    assert_eq!(caret_column(&Vec::new(), 7), 5);
}

#[test]
fn selection_is_highlighted_and_its_glyphs_recolored() {
    let mut buffer = canvas(20, 8);
    let glyphs = vec![glyph(1, 1, 0, 3, vec![255]), glyph(1, 1, 0, 3, vec![255]), glyph(1, 1, 0, 3, vec![255])];
    let content = ContentBox { left: 2, top: 1, right: 18, bottom: 7 };
    draw_glyphs(&mut buffer, &glyphs, 2, content, &style(HorizontalAlign::Left, VerticalAlign::Center), 0, false, Some((1, 2)));
    let expected = vec![
        (5, 3, HIGHLIGHT),
        (6, 3, HIGHLIGHT),
        (7, 3, HIGHLIGHT),
        (2, 4, TEXT),
        (5, 4, HIGHLIGHT_TEXT),
        (6, 4, HIGHLIGHT),
        (7, 4, HIGHLIGHT),
        (8, 4, TEXT),
    ];
    assert_eq!(changed_cells(&buffer), expected);
    assert_eq!(cell(&buffer, 1, 4), BASE);
}

#[test]
fn selection_highlight_stays_in_the_content_box() {
    let mut buffer = canvas(12, 6);
    let glyphs = vec![glyph(1, 1, 0, 20, vec![0])];
    let content = ContentBox { left: 2, top: 1, right: 6, bottom: 5 };
    draw_glyphs(&mut buffer, &glyphs, 10, content, &style(HorizontalAlign::Left, VerticalAlign::Top), 0, false, Some((0, 1)));
    let mut expected = Vec::new();
    for y in 1..5 {
        for x in 2..6 {
            expected.push((x, y, HIGHLIGHT));
        }
    }
    assert_eq!(changed_cells(&buffer), expected);
}

#[test]
fn empty_run_draws_nothing() {
    let mut buffer = canvas(6, 6);
    let content = ContentBox { left: 0, top: 0, right: 6, bottom: 6 };
    draw_glyphs(&mut buffer, &Vec::new(), 3, content, &style(HorizontalAlign::Center, VerticalAlign::Center), 0, false, Some((0, 5)));
    assert_eq!(changed_cells(&buffer), vec![]);
}

#[test]
fn text_color_comes_from_the_style() {
    let mut buffer = canvas(6, 6);
    let look = BoxStyle { text_color: Color { red: 1, green: 2, blue: 3 }, ..style(HorizontalAlign::Left, VerticalAlign::Top) };
    let content = ContentBox { left: 0, top: 0, right: 6, bottom: 6 };
    draw_glyphs(&mut buffer, &vec![glyph(2, 2, 0, 2, vec![255; 4])], 2, content, &look, 0, false, None);
    let ink = Pixel { blue: 3, green: 2, red: 1, alpha: 77 };
    assert_eq!(changed_cells(&buffer), vec![(0, 0, ink), (1, 0, ink), (0, 1, ink), (1, 1, ink)]);
}

#[test]
fn well_formed_glyphs_hold_one_byte_per_cell() {
    assert!(Glyph::empty().is_well_formed());
    assert!(glyph(2, 3, 0, 1, vec![0; 6]).is_well_formed());
    let metrics = GlyphMetrics { width: 2, height: 3, ymin: 0, advance_width: 1 };
    assert!(!Glyph { metrics, coverage: vec![0; 5] }.is_well_formed());
    assert!(!Glyph { metrics: GlyphMetrics { width: usize::MAX, height: 2, ..metrics }, coverage: vec![0; 6] }.is_well_formed());
    assert!(Glyph { metrics: GlyphMetrics { width: usize::MAX, height: 0, ..metrics }, coverage: Vec::new() }.is_well_formed());
}

#[test]
fn glyph_without_cells_draws_nothing_and_moves_the_pen() {
    let mut buffer = canvas(12, 6);
    let tall = Glyph { metrics: GlyphMetrics { width: 0, height: usize::MAX, ymin: 0, advance_width: 2 }, coverage: Vec::new() };
    let wide = Glyph { metrics: GlyphMetrics { width: usize::MAX, height: 0, ymin: 0, advance_width: 2 }, coverage: Vec::new() };
    let glyphs = vec![tall, wide, glyph(1, 1, 0, 1, vec![255])];
    let content = ContentBox { left: 0, top: 0, right: 12, bottom: 6 };
    draw_glyphs(&mut buffer, &glyphs, 2, content, &style(HorizontalAlign::Left, VerticalAlign::Top), 0, false, None);
    assert_eq!(changed_cells(&buffer), vec![(4, 1, TEXT)]);
}

#[test]
fn reversed_selection_highlights_nothing() {
    let mut buffer = canvas(12, 6);
    let glyphs = vec![glyph(1, 1, 0, 3, vec![255]), glyph(1, 1, 0, 3, vec![255])];
    let content = ContentBox { left: 0, top: 0, right: 12, bottom: 6 };
    draw_glyphs(&mut buffer, &glyphs, 2, content, &style(HorizontalAlign::Left, VerticalAlign::Top), 0, false, Some((2, 1)));
    assert_eq!(changed_cells(&buffer), vec![(0, 1, TEXT), (3, 1, TEXT)]);
}

#[test]
fn glyphs_that_move_the_pen_back_overlap() {
    let mut buffer = canvas(12, 6);
    let glyphs = vec![glyph(2, 1, 0, 4, vec![255, 255]), glyph(2, 1, 0, -3, vec![128, 0]), glyph(2, 1, 0, 0, vec![0, 128])];
    let content = ContentBox { left: 0, top: 0, right: 12, bottom: 6 };
    draw_glyphs(&mut buffer, &glyphs, 2, content, &style(HorizontalAlign::Left, VerticalAlign::Top), 3, true, None);
    let once = Pixel { blue: 4, green: 9, red: 142, alpha: 77 };
    let over_text = Pixel { blue: 0, green: 0, red: 255, alpha: 77 };
    assert_eq!(cell(&buffer, 0, 1), over_text);
    assert_eq!(cell(&buffer, 1, 1), over_text);
    assert_eq!(cell(&buffer, 2, 1), over_text);
    assert_eq!(cell(&buffer, 4, 1), once);
    assert_eq!(cell(&buffer, 5, 1), BASE);
    // the caret stands where the pen ends: one cell right of the start
    assert_eq!(cell(&buffer, 1, 3), TEXT);
    assert_eq!(cell(&buffer, 2, 3), TEXT);
    assert_eq!(cell(&buffer, 3, 3), BASE);
    assert_eq!(cell(&buffer, 0, 3), BASE);
}

#[test]
fn far_away_content_box_draws_nothing() {
    let mut buffer = canvas(6, 6);
    let glyphs = vec![glyph(2, 2, 0, i32::MAX, vec![255; 4]), glyph(2, 2, 0, i32::MAX, vec![255; 4])];
    let far = ContentBox { left: i64::MAX - 10, top: i64::MIN, right: i64::MAX, bottom: i64::MAX };
    draw_glyphs(&mut buffer, &glyphs, usize::MAX, far, &style(HorizontalAlign::Center, VerticalAlign::Center), 2, true, Some((0, 2)));
    assert_eq!(changed_cells(&buffer), vec![]);
    let inverted = ContentBox { left: i64::MAX, top: i64::MAX, right: i64::MIN, bottom: i64::MIN };
    draw_glyphs(&mut buffer, &glyphs, usize::MAX, inverted, &style(HorizontalAlign::Center, VerticalAlign::Bottom), 2, true, Some((0, 2)));
    assert_eq!(changed_cells(&buffer), vec![]);
}

#[test]
fn first_column_and_row_of_the_content_box_are_drawn() {
    let mut buffer = canvas(12, 8);
    let glyphs = vec![glyph(2, 2, 0, 2, vec![255; 4])];
    let content = ContentBox { left: 5, top: 3, right: 9, bottom: 6 };
    draw_glyphs(&mut buffer, &glyphs, 2, content, &style(HorizontalAlign::Left, VerticalAlign::Top), 0, false, None);
    assert_eq!(changed_cells(&buffer), vec![(5, 3, TEXT), (6, 3, TEXT), (5, 4, TEXT), (6, 4, TEXT)]);
}

#[test]
fn last_column_and_row_of_the_content_box_are_drawn_and_no_more() {
    let mut buffer = canvas(12, 8);
    let glyphs = vec![glyph(1, 1, 0, 3, vec![255]), glyph(4, 4, -3, 4, vec![255; 16])];
    let content = ContentBox { left: 5, top: 3, right: 9, bottom: 6 };
    draw_glyphs(&mut buffer, &glyphs, 1, content, &style(HorizontalAlign::Left, VerticalAlign::Bottom), 0, false, None);
    assert_eq!(changed_cells(&buffer), vec![(5, 5, TEXT), (8, 5, TEXT)]);
}

#[test]
fn first_column_and_row_of_the_surface_are_drawn() {
    let mut buffer = canvas(3, 3);
    let glyphs = vec![glyph(2, 2, 0, 2, vec![255; 4])];
    let content = ContentBox { left: -1, top: -1, right: 3, bottom: 3 };
    draw_glyphs(&mut buffer, &glyphs, 2, content, &style(HorizontalAlign::Left, VerticalAlign::Top), 0, false, None);
    assert_eq!(changed_cells(&buffer), vec![(0, 0, TEXT)]);
}

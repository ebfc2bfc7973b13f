//! Drawing of controls: the box with its border, then the text.

use vstd::prelude::*;
use crate::button::Button;
use crate::color::Color;
use crate::compositor::text_drawn;
use crate::control::Control;
use crate::font::{fill_text, glyphs_are, line_height_of};
use crate::geometry::{BoxSize, ContentBox, Rect};
use crate::glyph::Glyph;
use crate::state::Gui;
use crate::style::BoxStyle;
use crate::surface::{fill_rect, in_span, Pixel, PixelBuffer};
use crate::text_state::TextState;
use crate::textbox::TextBox;

verus! {

/// Whether the cell `(x, y)` lies on the frame of the box: on one of the four
/// bars along its sides, each as thick as `line_width` says for that side.
pub open spec fn on_frame(x: int, y: int, bounds: Rect, line_width: BoxSize) -> bool {
    ||| in_span(x, y, bounds.x as int, bounds.y as int, bounds.right(), bounds.y + line_width.top)
    ||| in_span(x, y, bounds.right() - line_width.right, bounds.y as int, bounds.right(), bounds.bottom())
    ||| in_span(x, y, bounds.x as int, bounds.bottom() - line_width.bottom, bounds.right(), bounds.bottom())
    ||| in_span(x, y, bounds.x as int, bounds.y as int, bounds.x + line_width.left, bounds.bottom())
}

/// Whether the cell `(x, y)` lies inside the frame of the box.
pub open spec fn inside_frame(x: int, y: int, bounds: Rect, line_width: BoxSize) -> bool {
    in_span(
        x,
        y,
        bounds.x + line_width.left,
        bounds.y + line_width.top,
        bounds.right() - line_width.right,
        bounds.bottom() - line_width.bottom,
    )
}

/// The cell `(x, y)` after a control's box is drawn over `under`: the border
/// color on the frame, the background color inside it.
pub open spec fn box_pixel(bounds: Rect, style: BoxStyle, x: int, y: int, under: Pixel) -> Pixel {
    if on_frame(x, y, bounds, style.border_size) {
        under.painted(style.border_color)
    } else if inside_frame(x, y, bounds, style.border_size) {
        under.painted(style.background_color)
    } else {
        under
    }
}

/// Whether `after` is `before` with the control's box drawn over it.
pub open spec fn box_drawn(before: PixelBuffer, after: PixelBuffer, bounds: Rect, style: BoxStyle) -> bool {
    &&& after.wf()
    &&& after.width == before.width
    &&& after.height == before.height
    &&& forall|u: int, v: int| #[trigger] after.in_bounds(u, v) ==> after.at(u, v) == box_pixel(bounds, style, u, v, before.at(u, v))
}

/// Paints the frame of the box whose top-left corner is `(left, top)`: a bar
/// along each side, as thick as `line_width` says for that side.
pub fn draw_rect(buffer: &mut PixelBuffer, left: i32, top: i32, width: i32, height: i32, line_width: BoxSize, color: Color)
    requires
        old(buffer).wf(),
    ensures
        final(buffer).wf(),
        final(buffer).width == old(buffer).width,
        final(buffer).height == old(buffer).height,
        forall|u: int, v: int| #[trigger]
            final(buffer).in_bounds(u, v) ==> final(buffer).at(u, v) == (if on_frame(
                u,
                v,
                Rect { x: left, y: top, w: width, h: height },
                line_width,
            ) {
                old(buffer).at(u, v).painted(color)
            } else {
                old(buffer).at(u, v)
            }),
{
    let right: i64 = left as i64 + width as i64;
    let bottom: i64 = top as i64 + height as i64;
    buffer.fill_span(left as i64, top as i64, right, top as i64 + line_width.top as i64, color);
    buffer.fill_span(right - line_width.right as i64, top as i64, right, bottom, color);
    buffer.fill_span(left as i64, bottom - line_width.bottom as i64, right, bottom, color);
    buffer.fill_span(left as i64, top as i64, left as i64 + line_width.left as i64, bottom, color);
}

/// Draws a control's box: the background inside the border, then the border.
pub fn draw_border_box(buffer: &mut PixelBuffer, bounds: &Rect, style: &BoxStyle)
    requires
        old(buffer).wf(),
    ensures
        box_drawn(*old(buffer), *final(buffer), *bounds, *style),
{
    let left: i64 = bounds.x as i64;
    let top: i64 = bounds.y as i64;
    let right: i64 = left + bounds.w as i64;
    let bottom: i64 = top + bounds.h as i64;
    buffer.fill_span(
        left + style.border_size.left as i64,
        top + style.border_size.top as i64,
        right - style.border_size.right as i64,
        bottom - style.border_size.bottom as i64,
        style.background_color,
    );
    draw_rect(buffer, bounds.x, bounds.y, bounds.w, bounds.h, style.border_size, style.border_color);
}

/// The selection that a text field shows: the characters between the cursor
/// and the anchor, both taken as indices of the text.
pub open spec fn shown_selection(state: TextState) -> Option<(usize, usize)> {
    match state.anchor {
        Some(_) => Some((state.range_start() as usize, state.range_end() as usize)),
        None => None,
    }
}

/// Whether `after` is `before` with the text field drawn over it: its box,
/// then its text in the content box, in the glyphs of the font at the
/// style's size.
pub open spec fn textbox_drawn(before: PixelBuffer, after: PixelBuffer, textbox: TextBox, font: fontdue::Font) -> bool {
    exists|boxed: PixelBuffer, glyphs: Seq<Glyph>|
        box_drawn(before, boxed, textbox.bounds, textbox.style) && glyphs_are(
            glyphs,
            textbox.text@,
            font,
            textbox.style.font_size,
        ) && #[trigger] text_drawn(
            boxed,
            after,
            glyphs,
            line_height_of(font, textbox.style.font_size),
            textbox.bounds.content(textbox.style.border_size, textbox.style.padding_size),
            textbox.style,
            textbox.cursor_index,
            textbox.active,
            shown_selection(textbox@),
        )
}

/// Whether `after` is `before` with the button drawn over it: its box in the
/// style of its state, then its caption in the content box, in the glyphs of
/// the font at that style's size.
pub open spec fn button_drawn(before: PixelBuffer, after: PixelBuffer, button: Button, font: fontdue::Font) -> bool {
    exists|boxed: PixelBuffer, glyphs: Seq<Glyph>|
        box_drawn(before, boxed, button.bounds, button.resolved()) && glyphs_are(
            glyphs,
            button.text@,
            font,
            button.resolved().font_size,
        ) && #[trigger] text_drawn(
            boxed,
            after,
            glyphs,
            line_height_of(font, button.resolved().font_size),
            button.bounds.content(button.resolved().border_size, button.resolved().padding_size),
            button.resolved(),
            0,
            false,
            None,
        )
}

/// Whether `stages` are the surfaces that drawing the text fields one after
/// the other goes through: each field takes one stage to the next.
pub open spec fn textbox_stages(stages: Seq<PixelBuffer>, textboxes: Seq<TextBox>, font: fontdue::Font) -> bool {
    &&& stages.len() == textboxes.len() + 1
    &&& forall|k: int| 0 <= k < textboxes.len() ==> textbox_drawn(#[trigger] stages[k], stages[k + 1], textboxes[k], font)
}

/// Whether `stages` are the surfaces that drawing the buttons one after the
/// other goes through: each button takes one stage to the next.
pub open spec fn button_stages(stages: Seq<PixelBuffer>, buttons: Seq<Button>, font: fontdue::Font) -> bool {
    &&& stages.len() == buttons.len() + 1
    &&& forall|k: int| 0 <= k < buttons.len() ==> button_drawn(#[trigger] stages[k], stages[k + 1], buttons[k], font)
}

/// Whether `after` is `before` with all controls drawn over it: every text
/// field, then every button, each over what was drawn before it.
pub open spec fn controls_drawn(before: PixelBuffer, after: PixelBuffer, gui: Gui, font: fontdue::Font) -> bool {
    exists|fields: Seq<PixelBuffer>, tops: Seq<PixelBuffer>|
        #![trigger textbox_stages(fields, gui.textboxes@, font), button_stages(tops, gui.buttons@, font)]
        {
            &&& textbox_stages(fields, gui.textboxes@, font)
            &&& button_stages(tops, gui.buttons@, font)
            &&& fields[0] == before
            &&& tops[0] == fields[gui.textboxes@.len() as int]
            &&& tops[gui.buttons@.len() as int] == after
        }
}

/// The cell `(x, y)` of the window's ground: light gray, with dark gray guide
/// lines four cells thick at the quarters of the height and at half the
/// width.
pub open spec fn ground_pixel(width: int, height: int, x: int, y: int, under: Pixel) -> Pixel {
    if in_span(x, y, 0, height / 2 - 2, width, height / 2 + 2) || in_span(x, y, width / 2 - 2, 0, width / 2 + 2, height)
        || in_span(x, y, 0, height / 4 - 2, width, height / 4 + 2) || in_span(
        x,
        y,
        0,
        height / 4 * 3 - 2,
        width,
        height / 4 * 3 + 2,
    ) {
        under.painted(Color { red: 50, green: 50, blue: 50 })
    } else if in_span(x, y, 0, 0, width, height) {
        under.painted(Color { red: 200, green: 200, blue: 200 })
    } else {
        under
    }
}

/// Whether `after` is `before` with the window's ground drawn over it.
pub open spec fn ground_drawn(before: PixelBuffer, after: PixelBuffer) -> bool {
    &&& after.wf()
    &&& after.width == before.width
    &&& after.height == before.height
    &&& forall|u: int, v: int| #[trigger]
        after.in_bounds(u, v) ==> after.at(u, v) == ground_pixel(before.width as int, before.height as int, u, v, before.at(u, v))
}

/// Draws a text field: its box, then its text in the content box, with the
/// highlight under the selection, and with the caret if the field is active.
pub fn draw_textbox(buffer: &mut PixelBuffer, textbox: &TextBox, font: &fontdue::Font)
    requires
        old(buffer).wf(),
    ensures
        textbox_drawn(*old(buffer), *final(buffer), *textbox, *font),
        final(buffer).wf(),
        final(buffer).width == old(buffer).width,
        final(buffer).height == old(buffer).height,
        forall|u: int, v: int| #[trigger] final(buffer).in_bounds(u, v) ==> final(buffer).at(u, v).alpha == old(buffer).at(u, v).alpha,
{
    let style: &BoxStyle = textbox.get_style();
    draw_border_box(buffer, &textbox.bounds, style);
    let content: ContentBox = textbox.bounds.content_box(style.border_size, style.padding_size);
    let len: usize = textbox.text.len();
    let cursor: usize = if textbox.cursor_index > len { len } else { textbox.cursor_index };
    let selection: Option<(usize, usize)> = match textbox.selection_index {
        Some(a) => {
            let anchor: usize = if a > len { len } else { a };
            if cursor <= anchor {
                Some((cursor, anchor))
            } else {
                Some((anchor, cursor))
            }
        },
        None => None,
    };
    fill_text(buffer, textbox.text.as_slice(), content, font, style, textbox.cursor_index, textbox.active, selection);
}

/// The characters of a string.
pub fn chars_of(text: &str) -> (chars: Vec<char>)
    ensures
        chars@ == text@,
{
    let mut chars: Vec<char> = Vec::new();
    for c in it: text.chars()
        invariant
            it.seq() == text@,
            chars@ == it.seq().take(it.index()),
    {
        chars.push(c);
    }
    chars
}

/// Draws a button: its box in the style of its state, then its caption in
/// the content box.
pub fn draw_button(buffer: &mut PixelBuffer, button: &Button, font: &fontdue::Font)
    requires
        old(buffer).wf(),
    ensures
        button_drawn(*old(buffer), *final(buffer), *button, *font),
        final(buffer).wf(),
        final(buffer).width == old(buffer).width,
        final(buffer).height == old(buffer).height,
        forall|u: int, v: int| #[trigger] final(buffer).in_bounds(u, v) ==> final(buffer).at(u, v).alpha == old(buffer).at(u, v).alpha,
{
    let style: &BoxStyle = button.get_style();
    draw_border_box(buffer, &button.bounds, style);
    let content: ContentBox = button.bounds.content_box(style.border_size, style.padding_size);
    let caption: Vec<char> = chars_of(button.text);
    fill_text(buffer, caption.as_slice(), content, font, style, 0, false, None);
}

/// Draws every text field and then every button, each over what was drawn
/// before it.
pub fn draw_controls(buffer: &mut PixelBuffer, gui: &Gui, font: &fontdue::Font)
    requires
        old(buffer).wf(),
    ensures
        final(buffer).wf(),
        final(buffer).width == old(buffer).width,
        final(buffer).height == old(buffer).height,
        controls_drawn(*old(buffer), *final(buffer), *gui, *font),
        forall|u: int, v: int| #[trigger] final(buffer).in_bounds(u, v) ==> final(buffer).at(u, v).alpha == old(buffer).at(u, v).alpha,
{
    let ghost mut fields: Seq<PixelBuffer> = seq![*buffer];
    let textbox_count: usize = gui.textboxes.len();
    let mut i: usize = 0;
    while i < textbox_count
        invariant
            i <= textbox_count,
            textbox_count == gui.textboxes@.len(),
            buffer.wf(),
            buffer.width == old(buffer).width,
            buffer.height == old(buffer).height,
            fields.len() == i + 1,
            fields[0] == *old(buffer),
            fields[i as int] == *buffer,
            forall|k: int| 0 <= k < i ==> textbox_drawn(#[trigger] fields[k], fields[k + 1], gui.textboxes@[k], *font),
            forall|u: int, v: int| #[trigger] buffer.in_bounds(u, v) ==> buffer.at(u, v).alpha == old(buffer).at(u, v).alpha,
        decreases textbox_count - i,
    {
        draw_textbox(buffer, &gui.textboxes[i], font);
        proof {
            fields = fields.push(*buffer);
        }
        i = i + 1;
    }
    let ghost mut tops: Seq<PixelBuffer> = seq![*buffer];
    let button_count: usize = gui.buttons.len();
    let mut j: usize = 0;
    while j < button_count
        invariant
            j <= button_count,
            button_count == gui.buttons@.len(),
            buffer.wf(),
            buffer.width == old(buffer).width,
            buffer.height == old(buffer).height,
            tops.len() == j + 1,
            tops[0] == fields[gui.textboxes@.len() as int],
            tops[j as int] == *buffer,
            forall|k: int| 0 <= k < j ==> button_drawn(#[trigger] tops[k], tops[k + 1], gui.buttons@[k], *font),
            forall|u: int, v: int| #[trigger] buffer.in_bounds(u, v) ==> buffer.at(u, v).alpha == old(buffer).at(u, v).alpha,
        decreases button_count - j,
    {
        draw_button(buffer, &gui.buttons[j], font);
        proof {
            tops = tops.push(*buffer);
        }
        j = j + 1;
    }
    assert(textbox_stages(fields, gui.textboxes@, *font) && button_stages(tops, gui.buttons@, *font));
}

/// Paints the window's ground: light gray, with dark gray guide lines at the
/// quarters of the height and at half the width.
pub fn draw_ground(buffer: &mut PixelBuffer)
    requires
        old(buffer).wf(),
    ensures
        ground_drawn(*old(buffer), *final(buffer)),
{
    let width: i32 = buffer.width;
    let height: i32 = buffer.height;
    fill_rect(buffer, 0, 0, width, height, Color::light_gray());
    fill_rect(buffer, 0, height / 2 - 2, width, 4, Color::dark_gray());
    fill_rect(buffer, width / 2 - 2, 0, 4, height, Color::dark_gray());
    fill_rect(buffer, 0, height / 4 - 2, width, 4, Color::dark_gray());
    fill_rect(buffer, 0, height / 4 * 3 - 2, width, 4, Color::dark_gray());
}

/// Draws the whole window anew: the ground, and the controls over it.
pub fn update_back_buffer(buffer: &mut PixelBuffer, gui: &Gui, font: &fontdue::Font)
    requires
        old(buffer).wf(),
    ensures
        final(buffer).wf(),
        final(buffer).width == old(buffer).width,
        final(buffer).height == old(buffer).height,
        exists|ground: PixelBuffer|
            #![trigger ground_drawn(*old(buffer), ground)]
            ground_drawn(*old(buffer), ground) && controls_drawn(ground, *final(buffer), *gui, *font),
        forall|u: int, v: int| #[trigger] final(buffer).in_bounds(u, v) ==> final(buffer).at(u, v).alpha == old(buffer).at(u, v).alpha,
{
    draw_ground(buffer);
    let ghost ground = *buffer;
    draw_controls(buffer, gui, font);
    assert(ground_drawn(*old(buffer), ground) && controls_drawn(ground, *buffer, *gui, *font));
}

} // verus!

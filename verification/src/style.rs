//! Visual styles of controls.

use vstd::prelude::*;
use crate::color::Color;
use crate::geometry::BoxSize;

verus! {

/// Where a line of text stands between the left and right edges of its box.
#[derive(Debug, Copy, Clone, PartialEq, Eq, Structural)]
pub enum HorizontalAlign {
    Left,
    Center,
}

/// Where a line of text stands between the top and bottom edges of its box.
#[derive(Debug, Copy, Clone, PartialEq, Eq, Structural)]
pub enum VerticalAlign {
    Center,
    Bottom,
    Top,
}

/// How a control looks in one of its interaction states. The font size is in
/// whole pixels per em.
#[derive(Debug, Copy, Clone, PartialEq, Eq, Structural)]
pub struct BoxStyle {
    pub border_color: Color,
    pub border_size: BoxSize,
    pub padding_size: BoxSize,
    pub background_color: Color,
    pub text_color: Color,
    pub highlight_color: Color,
    pub text_highlight_color: Color,
    pub font_size: u16,
    pub vertical_align: VerticalAlign,
    pub horizontal_align: HorizontalAlign,
}

impl BoxStyle {
    /// The style that the others are derived from.
    pub open spec fn base() -> BoxStyle {
        BoxStyle {
            border_color: Color { red: 255, green: 0, blue: 0 },
            border_size: BoxSize { left: 2, top: 2, right: 2, bottom: 2 },
            padding_size: BoxSize { left: 2, top: 2, right: 2, bottom: 2 },
            background_color: Color { red: 255, green: 200, blue: 200 },
            text_color: Color { red: 255, green: 0, blue: 0 },
            highlight_color: Color { red: 200, green: 0, blue: 0 },
            text_highlight_color: Color { red: 255, green: 255, blue: 255 },
            font_size: 30,
            vertical_align: VerticalAlign::Center,
            horizontal_align: HorizontalAlign::Left,
        }
    }

    /// Red text on light red, left-aligned and vertically centered.
    pub fn default() -> (style: BoxStyle)
        ensures
            style == Self::base(),
    {
        BoxStyle {
            border_color: Color::red(),
            border_size: BoxSize::single(2),
            padding_size: BoxSize::single(2),
            background_color: Color::light_red(),
            text_color: Color::red(),
            highlight_color: Color::dark_red(),
            text_highlight_color: Color::white(),
            font_size: 30,
            vertical_align: VerticalAlign::Center,
            horizontal_align: HorizontalAlign::Left,
        }
    }

    /// The default style with its text centered.
    pub fn button_default() -> (style: BoxStyle)
        ensures
            style == (BoxStyle { horizontal_align: HorizontalAlign::Center, ..Self::base() }),
    {
        let mut style = BoxStyle::default();
        style.horizontal_align = HorizontalAlign::Center;
        style
    }

    /// The button style while the pointer is over the button.
    pub fn button_default_hot() -> (style: BoxStyle)
        ensures
            style == (BoxStyle {
                horizontal_align: HorizontalAlign::Center,
                background_color: Color { red: 255, green: 100, blue: 100 },
                ..Self::base()
            }),
    {
        let mut style = BoxStyle::button_default();
        style.background_color = Color::darker_red();
        style
    }

    /// The button style while the button is pressed.
    pub fn button_default_active() -> (style: BoxStyle)
        ensures
            style == (BoxStyle {
                horizontal_align: HorizontalAlign::Center,
                background_color: Color { red: 200, green: 0, blue: 0 },
                ..Self::base()
            }),
    {
        let mut style = BoxStyle::button_default();
        style.background_color = Color::dark_red();
        style
    }

    /// The style of a text field: the default style.
    pub fn textbox_default() -> (style: BoxStyle)
        ensures
            style == Self::base(),
    {
        BoxStyle::default()
    }
}

/// Picks the style for an interaction state: active beats hot beats default.
pub open spec fn resolved_style(is_active: bool, is_hot: bool, style: BoxStyle, style_hot: BoxStyle, style_active: BoxStyle) -> BoxStyle {
    if is_active {
        style_active
    } else if is_hot {
        style_hot
    } else {
        style
    }
}

} // verus!

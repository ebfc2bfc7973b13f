//! Colors of the toolkit's palette.

use vstd::prelude::*;

verus! {

/// An opaque color given by its red, green and blue channels.
#[derive(Debug, Copy, Clone, PartialEq, Eq, Structural)]
pub struct Color {
    pub red: u8,
    pub green: u8,
    pub blue: u8,
}

impl Color {
    /// The color with the given channels.
    pub fn from_rgb(r: u8, g: u8, b: u8) -> (color: Color)
        ensures
            color == (Color { red: r, green: g, blue: b }),
    {
        Color { red: r, green: g, blue: b }
    }

    pub fn white() -> (color: Color)
        ensures
            color == (Color { red: 255, green: 255, blue: 255 }),
    {
        Color::from_rgb(255, 255, 255)
    }

    pub fn light_gray() -> (color: Color)
        ensures
            color == (Color { red: 200, green: 200, blue: 200 }),
    {
        Color::from_rgb(200, 200, 200)
    }

    pub fn dark_gray() -> (color: Color)
        ensures
            color == (Color { red: 50, green: 50, blue: 50 }),
    {
        Color::from_rgb(50, 50, 50)
    }

    pub fn red() -> (color: Color)
        ensures
            color == (Color { red: 255, green: 0, blue: 0 }),
    {
        Color::from_rgb(255, 0, 0)
    }

    pub fn light_red() -> (color: Color)
        ensures
            color == (Color { red: 255, green: 200, blue: 200 }),
    {
        Color::from_rgb(255, 200, 200)
    }

    pub fn darker_red() -> (color: Color)
        ensures
            color == (Color { red: 255, green: 100, blue: 100 }),
    {
        Color::from_rgb(255, 100, 100)
    }

    pub fn dark_red() -> (color: Color)
        ensures
            color == (Color { red: 200, green: 0, blue: 0 }),
    {
        Color::from_rgb(200, 0, 0)
    }
}

} // verus!

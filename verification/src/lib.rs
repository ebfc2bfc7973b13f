//! An embedded UI toolkit that renders interactive controls into a raw pixel
//! buffer and handles keyboard and mouse input.

pub mod button;
pub mod clipboard;
pub mod color;
pub mod compositor;
pub mod control;
pub mod draw;
pub mod font;
pub mod geometry;
pub mod glyph;
pub mod keyboard;
pub mod mouse;
pub mod state;
pub mod style;
pub mod surface;
pub mod text_state;
pub mod textbox;
pub mod view;

//! The push button.

use vstd::prelude::*;
use crate::control::Control;
use crate::geometry::{is_point_in_rect, Rect};
use crate::style::{resolved_style, BoxStyle};

verus! {

/// A button with a caption. A click is reported by the identifier under
/// `on_click`, which the application resolves to what it wants done.
pub struct Button {
    pub text: &'static str,
    pub bounds: Rect,
    pub hot: bool,
    pub active: bool,
    /// The identifier of the click handler, if one is registered.
    pub on_click: Option<usize>,
    pub click_count: i32,
    pub style: BoxStyle,
    pub style_hot: BoxStyle,
    pub style_active: BoxStyle,
}

impl Button {
    /// The button with new hot and active states, and nothing else changed.
    pub open spec fn with_state(self, hot: bool, active: bool) -> Button {
        Button { hot: hot, active: active, ..self }
    }

    /// The handler that a release of the mouse button at a place inside the
    /// button (`hit`) or outside it calls for: the registered one, if the
    /// button was pressed and the release is inside.
    pub open spec fn click(self, hit: bool) -> Option<usize> {
        if self.active && hit {
            self.on_click
        } else {
            None
        }
    }

    /// A press of the mouse button at `(mouse_x, mouse_y)`: the button is hot
    /// and active exactly if the pointer is inside it.
    pub fn handle_mouse_button_down(&mut self, mouse_x: i32, mouse_y: i32)
        ensures
            *final(self) == old(self).with_state(
                old(self).bounds.contains(mouse_x as int, mouse_y as int),
                old(self).bounds.contains(mouse_x as int, mouse_y as int),
            ),
    {
        let hit: bool = is_point_in_rect(mouse_x, mouse_y, self.get_bounds());
        self.hot = hit;
        self.active = hit;
    }

    /// A release of the mouse button at `(mouse_x, mouse_y)`: the button is
    /// hot if the pointer is inside it, and no longer active. Returns the
    /// click handler to call, if the release completes a click.
    pub fn handle_button_mouse_up(&mut self, mouse_x: i32, mouse_y: i32) -> (clicked: Option<usize>)
        ensures
            *final(self) == old(self).with_state(old(self).bounds.contains(mouse_x as int, mouse_y as int), false),
            clicked == old(self).click(old(self).bounds.contains(mouse_x as int, mouse_y as int)),
    {
        let hit: bool = is_point_in_rect(mouse_x, mouse_y, self.get_bounds());
        self.hot = hit;
        let clicked: Option<usize> = if self.active && hit { self.on_click } else { None };
        self.active = false;
        clicked
    }
}

impl Control for Button {
    open spec fn bounds_of(&self) -> Rect {
        self.bounds
    }

    open spec fn is_hot(&self) -> bool {
        self.hot
    }

    open spec fn with_hot(self, hit: bool) -> Button {
        Button { hot: hit, ..self }
    }

    open spec fn resolved(&self) -> BoxStyle {
        resolved_style(self.active, self.hot, self.style, self.style_hot, self.style_active)
    }

    fn get_bounds(&self) -> (bounds: Rect) {
        self.bounds
    }

    fn get_hot(&self) -> (hot: bool) {
        self.hot
    }

    fn set_hot(&mut self, hit: bool) {
        self.hot = hit
    }

    /// Active beats hot beats default.
    fn get_style<'a>(&'a self) -> (style: &'a BoxStyle) {
        if self.active {
            &self.style_active
        } else if self.hot {
            &self.style_hot
        } else {
            &self.style
        }
    }
}

} // verus!

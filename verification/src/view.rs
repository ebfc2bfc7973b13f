//! Views: controls that can hold other views.

use vstd::prelude::*;
use crate::geometry::{is_point_in_rect, Rect};
use crate::style::{resolved_style, BoxStyle};

verus! {

/// How a view reacts to the pointer.
#[derive(Debug, Copy, Clone, PartialEq, Eq, Structural)]
pub enum ViewBehavior {
    /// The view shows its content and does no more.
    Inert,
    Button,
}

impl Default for ViewBehavior {
    fn default() -> (behavior: ViewBehavior)
        ensures
            behavior == ViewBehavior::Inert,
    {
        ViewBehavior::Inert
    }
}

/// What a view shows.
pub enum ViewContent {
    Empty,
    StaticText(&'static str),
    EditableText(Vec<char>),
    VerticalStack(Vec<View>),
}

impl Default for ViewContent {
    fn default() -> (content: ViewContent)
        ensures
            content is Empty,
    {
        ViewContent::Empty
    }
}

/// A rectangular part of the window with a content, a behavior and a style
/// for each interaction state. A click is reported by the identifier under
/// `on_click`.
pub struct View {
    pub content: ViewContent,
    pub behavior: ViewBehavior,
    pub bounds_rect: Rect,
    pub hot: bool,
    pub active: bool,
    pub on_click: Option<usize>,
    pub click_count: i32,
    pub style: BoxStyle,
    pub style_hot: BoxStyle,
    pub style_active: BoxStyle,
}

impl View {
    /// The view with new hot and active states, and nothing else changed.
    pub open spec fn with_state(self, hot: bool, active: bool) -> View {
        View { hot: hot, active: active, ..self }
    }

    /// The style for the view's state: active beats hot beats default.
    pub open spec fn resolved(&self) -> BoxStyle {
        resolved_style(self.active, self.hot, self.style, self.style_hot, self.style_active)
    }

    /// A press of the left mouse button at `(mouse_x, mouse_y)`, tested
    /// against the bounds of `view`: this view is hot and active exactly if
    /// the pointer is inside them.
    pub fn left_mouse_button_down(&mut self, view: &View, mouse_x: i32, mouse_y: i32)
        ensures
            *final(self) == old(self).with_state(
                view.bounds_rect.contains(mouse_x as int, mouse_y as int),
                view.bounds_rect.contains(mouse_x as int, mouse_y as int),
            ),
    {
        let hit: bool = is_point_in_rect(mouse_x, mouse_y, view.bounds_rect);
        self.hot = hit;
        self.active = hit;
    }

    /// A release of the left mouse button at `(mouse_x, mouse_y)`, tested
    /// against the bounds of `view`: this view is hot if the pointer is
    /// inside them, and no longer active. Returns the click handler to call:
    /// the registered one, if the view was pressed and the release is inside.
    pub fn left_mouse_button_up(&mut self, view: &View, mouse_x: i32, mouse_y: i32) -> (clicked: Option<usize>)
        ensures
            *final(self) == old(self).with_state(view.bounds_rect.contains(mouse_x as int, mouse_y as int), false),
            clicked == (if old(self).active && view.bounds_rect.contains(mouse_x as int, mouse_y as int) {
                old(self).on_click
            } else {
                None
            }),
    {
        let hit: bool = is_point_in_rect(mouse_x, mouse_y, view.bounds_rect);
        self.hot = hit;
        let clicked: Option<usize> = if self.active && hit { self.on_click } else { None };
        self.active = false;
        clicked
    }

    /// A move of the pointer to `(mouse_x, mouse_y)`: the view is hot exactly
    /// if the pointer is inside it. Returns whether the hot state changed,
    /// which calls for a redraw.
    pub fn mouse_move(&mut self, mouse_x: i32, mouse_y: i32) -> (changed: bool)
        ensures
            *final(self) == old(self).with_state(old(self).bounds_rect.contains(mouse_x as int, mouse_y as int), old(self).active),
            changed == (old(self).hot != old(self).bounds_rect.contains(mouse_x as int, mouse_y as int)),
    {
        let hit: bool = is_point_in_rect(mouse_x, mouse_y, self.bounds_rect);
        if self.hot != hit {
            self.hot = hit;
            return true;
        }
        false
    }

    /// The style that the view is drawn with in its current state.
    pub fn get_style<'a>(&'a self) -> (style: &'a BoxStyle)
        ensures
            *style == self.resolved(),
    {
        if self.active {
            &self.style_active
        } else if self.hot {
            &self.style_hot
        } else {
            &self.style
        }
    }
}

} // verus!

//! What buttons and text fields have in common: bounds, a hot state and a
//! style that follows the interaction state.

use vstd::prelude::*;
use crate::geometry::{is_point_in_rect, Rect};
use crate::style::BoxStyle;

verus! {

/// The pointer icon that the host is asked to show.
#[derive(Debug, Copy, Clone, PartialEq, Eq, Structural)]
pub enum Cursor {
    /// The host's own choice.
    NotSet,
    Arrow,
    IBeam,
    Hand,
}

/// A control that the pointer can hover over.
pub trait Control: Sized {
    /// The control's bounds.
    spec fn bounds_of(&self) -> Rect;

    /// Whether the pointer was over the control at the last hit test.
    spec fn is_hot(&self) -> bool;

    /// The control with its hot state replaced, and nothing else changed.
    spec fn with_hot(self, hit: bool) -> Self;

    /// The style that the control is drawn with in its current state.
    spec fn resolved(&self) -> BoxStyle;

    fn get_bounds(&self) -> (bounds: Rect)
        ensures
            bounds == self.bounds_of(),
    ;

    fn get_hot(&self) -> (hot: bool)
        ensures
            hot == self.is_hot(),
    ;

    /// Records whether the pointer is over the control; nothing else
    /// changes.
    fn set_hot(&mut self, hit: bool)
        ensures
            *final(self) == old(self).with_hot(hit),
            final(self).is_hot() == hit,
            final(self).bounds_of() == old(self).bounds_of(),
    ;

    /// Tests the pointer position against the bounds and records the result
    /// as the hot state. Returns whether the hot state changed, and whether
    /// the pointer is inside.
    fn hit_check(&mut self, mouse_x: i32, mouse_y: i32) -> (result: (bool, bool))
        ensures
            result.1 == old(self).bounds_of().contains(mouse_x as int, mouse_y as int),
            result.0 == (old(self).is_hot() != result.1),
            result.0 ==> *final(self) == old(self).with_hot(result.1),
            !result.0 ==> *final(self) == *old(self),
            final(self).is_hot() == result.1,
            final(self).bounds_of() == old(self).bounds_of(),
    {
        let hit: bool = is_point_in_rect(mouse_x, mouse_y, self.get_bounds());
        let mut hot_changed: bool = false;
        if self.get_hot() != hit {
            hot_changed = true;
            self.set_hot(hit);
        }
        (hot_changed, hit)
    }

    fn get_style<'a>(&'a self) -> (style: &'a BoxStyle)
        ensures
            *style == self.resolved(),
    ;
}

} // verus!

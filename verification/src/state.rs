//! The controls of one window, owned by the application and handed to every
//! input handler and draw call.

use vstd::prelude::*;
use crate::button::Button;
use crate::control::Cursor;
use crate::textbox::TextBox;

verus! {

/// All controls of a window, with the pointer icon last asked for.
pub struct Gui {
    pub cursor: Cursor,
    pub buttons: Vec<Button>,
    pub textboxes: Vec<TextBox>,
    /// Whether the host has a clipboard to write to.
    pub has_clipboard: bool,
}

impl Gui {
    /// A window without controls.
    pub fn new(has_clipboard: bool) -> (gui: Gui)
        ensures
            gui.cursor == Cursor::NotSet,
            gui.buttons@.len() == 0,
            gui.textboxes@.len() == 0,
            gui.has_clipboard == has_clipboard,
    {
        Gui { cursor: Cursor::NotSet, buttons: Vec::new(), textboxes: Vec::new(), has_clipboard: has_clipboard }
    }
}

} // verus!

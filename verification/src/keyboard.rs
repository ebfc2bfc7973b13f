//! Keyboard input as the host delivers it.

use vstd::prelude::*;
use crate::clipboard::char_from_u32;
use crate::state::Gui;
use crate::text_state::TextState;
use crate::textbox::TextBox;

verus! {

/// The modifier keys that are held while a key is pressed.
#[derive(Debug, Copy, Clone, PartialEq, Eq, Structural)]
pub struct KeyboardInputModifiers {
    pub ctrl: bool,
    pub alt: bool,
    pub shift: bool,
}

/// A key press, with what the host knows of it: the character typed, the
/// clipboard's text for a paste, the modifiers held with a navigation key.
#[allow(non_camel_case_types)]
#[derive(Debug)]
pub enum KeyboardInputType {
    Char(char),
    Escape,
    Back,
    Delete,
    Ctrl,
    Ctrl_A,
    Ctrl_C,
    Ctrl_V(Option<String>),
    Ctrl_X,
    Ctrl_Y,
    Ctrl_Z,
    Alt,
    Shift,
    CapsLock,
    ArrowLeft(KeyboardInputModifiers),
    ArrowUp(KeyboardInputModifiers),
    ArrowRight(KeyboardInputModifiers),
    ArrowDown(KeyboardInputModifiers),
    Home(KeyboardInputModifiers),
    End(KeyboardInputModifiers),
}

impl KeyboardInputType {
    /// Whether the window is drawn anew after the key: after every key that
    /// can change what a text field shows.
    pub open spec fn redraws(self) -> bool {
        match self {
            KeyboardInputType::Char(_) => true,
            KeyboardInputType::Back => true,
            KeyboardInputType::Delete => true,
            KeyboardInputType::Ctrl_A => true,
            KeyboardInputType::Ctrl_V(_) => true,
            KeyboardInputType::Ctrl_X => true,
            KeyboardInputType::Ctrl_Y => true,
            KeyboardInputType::Ctrl_Z => true,
            KeyboardInputType::ArrowLeft(_) => true,
            KeyboardInputType::ArrowRight(_) => true,
            KeyboardInputType::Home(_) => true,
            KeyboardInputType::End(_) => true,
            _ => false,
        }
    }

    /// Tells whether the window is to be drawn anew after the key.
    pub fn needs_redraw(&self) -> (redraw: bool)
        ensures
            redraw == self.redraws(),
    {
        match self {
            KeyboardInputType::Char(_) => true,
            KeyboardInputType::Back => true,
            KeyboardInputType::Delete => true,
            KeyboardInputType::Ctrl_A => true,
            KeyboardInputType::Ctrl_V(_) => true,
            KeyboardInputType::Ctrl_X => true,
            KeyboardInputType::Ctrl_Y => true,
            KeyboardInputType::Ctrl_Z => true,
            KeyboardInputType::ArrowLeft(_) => true,
            KeyboardInputType::ArrowRight(_) => true,
            KeyboardInputType::Home(_) => true,
            KeyboardInputType::End(_) => true,
            _ => false,
        }
    }
}

/// Virtual-key codes, as the Win32 host numbers the keys.
pub const VK_BACK: i32 = 0x08;

pub const VK_SHIFT: i32 = 0x10;

pub const VK_CONTROL: i32 = 0x11;

/// The alt key.
pub const VK_MENU: i32 = 0x12;

/// The caps lock key.
pub const VK_CAPITAL: i32 = 0x14;

pub const VK_ESCAPE: i32 = 0x1B;

pub const VK_END: i32 = 0x23;

pub const VK_HOME: i32 = 0x24;

pub const VK_LEFT: i32 = 0x25;

pub const VK_UP: i32 = 0x26;

pub const VK_RIGHT: i32 = 0x27;

pub const VK_DOWN: i32 = 0x28;

pub const VK_DELETE: i32 = 0x2E;

pub const VK_A: i32 = 0x41;

pub const VK_C: i32 = 0x43;

pub const VK_V: i32 = 0x56;

pub const VK_X: i32 = 0x58;

pub const VK_Y: i32 = 0x59;

pub const VK_Z: i32 = 0x5A;

/// What a pressed key means to the controls.
#[derive(Debug)]
pub enum KeyPress {
    /// The key is sent to the controls.
    Key(KeyboardInputType),
    /// A letter that is a command only with ctrl held, pressed without it:
    /// it arrives as a character and is left alone here.
    Ignored,
    /// A key that the controls do not know: the host deals with it.
    Unknown,
}

/// The code point of a character.
pub open spec fn code_point(c: char) -> int {
    c as int
}

/// Whether the character is a control code: one of U+0000 to U+001F or of
/// U+007F to U+009F.
pub open spec fn is_control(c: char) -> bool {
    code_point(c) <= 0x1F || 0x7F <= code_point(c) <= 0x9F
}

/// Calls `char::is_control`, which tells whether the character has the
/// general category of control codes; Unicode gives that category to the
/// code points U+0000 to U+001F and U+007F to U+009F, and to no others.
#[verifier::external_body]
fn char_is_control(c: char) -> (control: bool)
    ensures
        control == is_control(c),
{
    c.is_control()
}

/// What the key with the given virtual-key code means, with the modifiers
/// held and with the text that the clipboard would hand to a paste.
pub open spec fn key_of(code: i32, modifiers: KeyboardInputModifiers, clipboard: Option<String>) -> KeyPress {
    if code == VK_A || code == VK_C || code == VK_V || code == VK_X || code == VK_Y || code == VK_Z {
        if !modifiers.ctrl {
            KeyPress::Ignored
        } else if code == VK_A {
            KeyPress::Key(KeyboardInputType::Ctrl_A)
        } else if code == VK_C {
            KeyPress::Key(KeyboardInputType::Ctrl_C)
        } else if code == VK_V {
            KeyPress::Key(KeyboardInputType::Ctrl_V(clipboard))
        } else if code == VK_X {
            KeyPress::Key(KeyboardInputType::Ctrl_X)
        } else if code == VK_Y {
            KeyPress::Key(KeyboardInputType::Ctrl_Y)
        } else {
            KeyPress::Key(KeyboardInputType::Ctrl_Z)
        }
    } else if code == VK_ESCAPE {
        KeyPress::Key(KeyboardInputType::Escape)
    } else if code == VK_BACK {
        KeyPress::Key(KeyboardInputType::Back)
    } else if code == VK_DELETE {
        KeyPress::Key(KeyboardInputType::Delete)
    } else if code == VK_SHIFT {
        KeyPress::Key(KeyboardInputType::Shift)
    } else if code == VK_CONTROL {
        KeyPress::Key(KeyboardInputType::Ctrl)
    } else if code == VK_MENU {
        KeyPress::Key(KeyboardInputType::Alt)
    } else if code == VK_CAPITAL {
        KeyPress::Key(KeyboardInputType::CapsLock)
    } else if code == VK_LEFT {
        KeyPress::Key(KeyboardInputType::ArrowLeft(modifiers))
    } else if code == VK_UP {
        KeyPress::Key(KeyboardInputType::ArrowUp(modifiers))
    } else if code == VK_RIGHT {
        KeyPress::Key(KeyboardInputType::ArrowRight(modifiers))
    } else if code == VK_DOWN {
        KeyPress::Key(KeyboardInputType::ArrowDown(modifiers))
    } else if code == VK_HOME {
        KeyPress::Key(KeyboardInputType::Home(modifiers))
    } else if code == VK_END {
        KeyPress::Key(KeyboardInputType::End(modifiers))
    } else {
        KeyPress::Unknown
    }
}

/// Tells whether the key is a paste, for which the clipboard is to be read.
pub fn reads_clipboard(code: i32, modifiers: KeyboardInputModifiers) -> (reads: bool)
    ensures
        reads == (code == VK_V && modifiers.ctrl),
{
    code == VK_V && modifiers.ctrl
}

/// Translates a pressed key from its virtual-key code. The clipboard's text
/// is used for a paste only.
pub fn translate_key(code: i32, modifiers: KeyboardInputModifiers, clipboard: Option<String>) -> (press: KeyPress)
    ensures
        press == key_of(code, modifiers, clipboard),
{
    if code == VK_A || code == VK_C || code == VK_V || code == VK_X || code == VK_Y || code == VK_Z {
        if !modifiers.ctrl {
            KeyPress::Ignored
        } else if code == VK_A {
            KeyPress::Key(KeyboardInputType::Ctrl_A)
        } else if code == VK_C {
            KeyPress::Key(KeyboardInputType::Ctrl_C)
        } else if code == VK_V {
            KeyPress::Key(KeyboardInputType::Ctrl_V(clipboard))
        } else if code == VK_X {
            KeyPress::Key(KeyboardInputType::Ctrl_X)
        } else if code == VK_Y {
            KeyPress::Key(KeyboardInputType::Ctrl_Y)
        } else {
            KeyPress::Key(KeyboardInputType::Ctrl_Z)
        }
    } else if code == VK_ESCAPE {
        KeyPress::Key(KeyboardInputType::Escape)
    } else if code == VK_BACK {
        KeyPress::Key(KeyboardInputType::Back)
    } else if code == VK_DELETE {
        KeyPress::Key(KeyboardInputType::Delete)
    } else if code == VK_SHIFT {
        KeyPress::Key(KeyboardInputType::Shift)
    } else if code == VK_CONTROL {
        KeyPress::Key(KeyboardInputType::Ctrl)
    } else if code == VK_MENU {
        KeyPress::Key(KeyboardInputType::Alt)
    } else if code == VK_CAPITAL {
        KeyPress::Key(KeyboardInputType::CapsLock)
    } else if code == VK_LEFT {
        KeyPress::Key(KeyboardInputType::ArrowLeft(modifiers))
    } else if code == VK_UP {
        KeyPress::Key(KeyboardInputType::ArrowUp(modifiers))
    } else if code == VK_RIGHT {
        KeyPress::Key(KeyboardInputType::ArrowRight(modifiers))
    } else if code == VK_DOWN {
        KeyPress::Key(KeyboardInputType::ArrowDown(modifiers))
    } else if code == VK_HOME {
        KeyPress::Key(KeyboardInputType::Home(modifiers))
    } else if code == VK_END {
        KeyPress::Key(KeyboardInputType::End(modifiers))
    } else {
        KeyPress::Unknown
    }
}

/// The character whose code point is the code unit. There is one unless the
/// unit is half of a surrogate pair.
pub open spec fn char_of_unit(unit: u16) -> char {
    choose|c: char| #[trigger] code_point(c) == unit
}



/// Translates a typed character from its UTF-16 code unit: it is sent to the
/// controls unless ctrl is held, the unit is half of a surrogate pair, or the
/// character is a control code (U+0000 to U+001F, U+007F to U+009F).
pub fn translate_char(unit: u16, modifiers: KeyboardInputModifiers) -> (key: Option<KeyboardInputType>)
    ensures
        key is Some <==> !modifiers.ctrl && !(0xD800 <= unit <= 0xDFFF) && !(unit <= 0x1F || 0x7F <= unit <= 0x9F),
        key matches Some(k) ==> k == KeyboardInputType::Char(char_of_unit(unit)) && code_point(char_of_unit(unit)) == unit,
{
    if modifiers.ctrl {
        return None;
    }
    match char_from_u32(unit as u32) {
        Some(c) => {
            assert(code_point(c) == unit);
            if char_is_control(c) {
                None
            } else {
                Some(KeyboardInputType::Char(c))
            }
        },
        None => None,
    }
}

/// What a key press asks of the host.
#[derive(Debug)]
pub struct KeyOutcome {
    /// Whether to draw the window anew.
    pub redraw: bool,
    /// The text to write to the clipboard, if any.
    pub clipboard: Option<String>,
}

/// What a key does to the text field that has the focus.
pub open spec fn key_effect(state: TextState, key: KeyboardInputType, has_clipboard: bool) -> TextState {
    match key {
        KeyboardInputType::Char(c) => state.insert_char(c),
        KeyboardInputType::Back => state.delete_back(),
        KeyboardInputType::Delete => state.delete(),
        KeyboardInputType::Ctrl_A => state.select_all(),
        KeyboardInputType::Ctrl_V(text) => state.insert_text(
            match text {
                Some(t) => Some(t@),
                None => None,
            },
        ),
        KeyboardInputType::Ctrl_X => if has_clipboard {
            state.delete()
        } else {
            state
        },
        KeyboardInputType::ArrowLeft(modifiers) => state.arrow_left(modifiers),
        KeyboardInputType::ArrowRight(modifiers) => state.arrow_right(modifiers),
        KeyboardInputType::Home(modifiers) => state.home(modifiers),
        KeyboardInputType::End(modifiers) => state.end(modifiers),
        _ => state,
    }
}

/// The text that a key sends to the clipboard from the text field that has
/// the focus: for a copy or a cut, the selected text or else the whole text,
/// if there is a clipboard.
pub open spec fn key_clipboard(state: TextState, key: KeyboardInputType, has_clipboard: bool) -> Option<Seq<char>> {
    match key {
        KeyboardInputType::Ctrl_C => if has_clipboard {
            Some(state.selected_text())
        } else {
            None
        },
        KeyboardInputType::Ctrl_X => if has_clipboard {
            Some(state.selected_text())
        } else {
            None
        },
        _ => None,
    }
}

/// The index of the first active text field at or after `i`, or the number
/// of fields where there is none.
pub open spec fn first_active_from(textboxes: Seq<TextBox>, i: int) -> int
    decreases textboxes.len() - i,
{
    if i >= textboxes.len() {
        textboxes.len() as int
    } else if i >= 0 && textboxes[i].active {
        i
    } else {
        first_active_from(textboxes, i + 1)
    }
}

/// Sends a key to the first active text field, if there is one: it is the
/// field that has the focus. No other control changes.
pub fn handle_keyboard_keydown(gui: &mut Gui, keytype: KeyboardInputType) -> (outcome: KeyOutcome)
    ensures
        final(gui).cursor == old(gui).cursor,
        final(gui).has_clipboard == old(gui).has_clipboard,
        final(gui).buttons == old(gui).buttons,
        final(gui).textboxes@.len() == old(gui).textboxes@.len(),
        forall|i: int|
            0 <= i < old(gui).textboxes@.len() && i != first_active_from(old(gui).textboxes@, 0)
                ==> #[trigger] final(gui).textboxes@[i] == old(gui).textboxes@[i],
        first_active_from(old(gui).textboxes@, 0) < old(gui).textboxes@.len() ==> {
            let i = first_active_from(old(gui).textboxes@, 0);
            &&& final(gui).textboxes@[i]@ == key_effect(old(gui).textboxes@[i]@, keytype, old(gui).has_clipboard)
            &&& final(gui).textboxes@[i].same_frame(&old(gui).textboxes@[i])
            &&& (match outcome.clipboard {
                Some(s) => Some(s@),
                None => None,
            }) == key_clipboard(old(gui).textboxes@[i]@, keytype, old(gui).has_clipboard)
        },
        first_active_from(old(gui).textboxes@, 0) >= old(gui).textboxes@.len() ==> outcome.clipboard is None,
        outcome.redraw == keytype.redraws(),
{
    let redraw: bool = keytype.needs_redraw();
    let count: usize = gui.textboxes.len();
    let mut i: usize = 0;
    while i < count && !gui.textboxes[i].active
        invariant
            i <= count,
            count == gui.textboxes@.len(),
            *gui == *old(gui),
            first_active_from(gui.textboxes@, 0) == first_active_from(gui.textboxes@, i as int),
        decreases count - i,
    {
        i = i + 1;
    }
    if i >= count {
        return KeyOutcome { redraw: redraw, clipboard: None };
    }
    let has_clipboard: bool = gui.has_clipboard;
    let mut clipboard: Option<String> = None;
    match keytype {
        KeyboardInputType::Char(c) => gui.textboxes[i].insert_char(c),
        KeyboardInputType::Back => gui.textboxes[i].delete_back(),
        KeyboardInputType::Delete => gui.textboxes[i].delete(),
        KeyboardInputType::Ctrl_A => gui.textboxes[i].select_all(),
        KeyboardInputType::Ctrl_C => {
            clipboard = gui.textboxes[i].copy_to_clipboard(has_clipboard);
        },
        KeyboardInputType::Ctrl_V(text) => gui.textboxes[i].insert_text(text),
        KeyboardInputType::Ctrl_X => {
            clipboard = gui.textboxes[i].cut_to_clipboard(has_clipboard);
        },
        KeyboardInputType::ArrowLeft(modifiers) => gui.textboxes[i].arrow_left(modifiers),
        KeyboardInputType::ArrowRight(modifiers) => gui.textboxes[i].arrow_right(modifiers),
        KeyboardInputType::Home(modifiers) => gui.textboxes[i].home(modifiers),
        KeyboardInputType::End(modifiers) => gui.textboxes[i].end(modifiers),
        _ => {},
    }
    KeyOutcome { redraw: redraw, clipboard: clipboard }
}

} // verus!

//! The editable text field.

use vstd::prelude::*;
use vstd::slice::slice_subrange;
use crate::control::Control;
use crate::geometry::{is_point_in_rect, Rect};
use crate::keyboard::KeyboardInputModifiers;
use crate::style::BoxStyle;
use crate::text_state::{classify, word_jump_index, TextState};

verus! {

/// Calls `String::from_iter` on the characters, which gives the string that
/// holds them in their order.
#[verifier::external_body]
pub(crate) fn string_from_chars(chars: &[char]) -> (s: String)
    ensures
        s@ == chars@,
{
    String::from_iter(chars)
}

/// A single-line text field with a cursor and an optional selection.
pub struct TextBox {
    pub text: Vec<char>,
    pub placeholder: &'static str,
    pub bounds: Rect,
    pub hot: bool,
    pub active: bool,
    /// The index of the character that the cursor stands before; the length
    /// of the text where it stands after the last one.
    pub cursor_index: usize,
    /// The other end of the selection, if one is open.
    pub selection_index: Option<usize>,
    pub style: BoxStyle,
}

impl View for TextBox {
    type V = TextState;

    open spec fn view(&self) -> TextState {
        TextState {
            text: self.text@,
            cursor: self.cursor_index as int,
            anchor: match self.selection_index {
                Some(a) => Some(a as int),
                None => None,
            },
        }
    }
}

impl TextBox {
    /// Whether the two fields agree in all but their text, cursor and
    /// selection.
    pub open spec fn same_frame(&self, other: &TextBox) -> bool {
        &&& self.placeholder == other.placeholder
        &&& self.bounds == other.bounds
        &&& self.hot == other.hot
        &&& self.active == other.active
        &&& self.style == other.style
    }

    /// The field with new hot and active states, and nothing else changed.
    pub open spec fn with_state(self, hot: bool, active: bool) -> TextBox {
        TextBox { hot: hot, active: active, ..self }
    }

    /// An empty text field that is neither hot nor active.
    pub fn new(placeholder: &'static str, bounds: Rect, style: BoxStyle) -> (textbox: TextBox)
        ensures
            textbox@ == (TextState { text: Seq::<char>::empty(), cursor: 0, anchor: None }),
            textbox@.wf(),
            textbox.placeholder == placeholder,
            textbox.bounds == bounds,
            textbox.style == style,
            !textbox.hot,
            !textbox.active,
    {
        TextBox {
            text: Vec::new(),
            placeholder: placeholder,
            bounds: bounds,
            hot: false,
            active: false,
            cursor_index: 0,
            selection_index: None,
            style: style,
        }
    }

    /// Brings the cursor and the anchor back into the text.
    fn clamp_indices(&mut self)
        ensures
            final(self)@ == old(self)@.clamped(),
            final(self)@.wf(),
            final(self).text == old(self).text,
            final(self).same_frame(old(self)),
    {
        let len: usize = self.text.len();
        if self.cursor_index > len {
            self.cursor_index = len;
        }
        match self.selection_index {
            Some(a) => {
                if a > len {
                    self.selection_index = Some(len);
                }
            },
            None => {},
        }
    }

    /// The selected text, or the whole text where no selection is open. The
    /// field stays as it is.
    pub fn get_text(&self) -> (s: String)
        ensures
            s@ == self@.selected_text(),
    {
        let len: usize = self.text.len();
        let cursor: usize = if self.cursor_index > len { len } else { self.cursor_index };
        let (start, end) = match self.selection_index {
            Some(a) => {
                let anchor: usize = if a > len { len } else { a };
                if cursor <= anchor {
                    (cursor, anchor)
                } else {
                    (anchor, cursor)
                }
            },
            None => (0, len),
        };
        string_from_chars(slice_subrange(self.text.as_slice(), start, end))
    }

    /// The whole text, whether or not a selection is open.
    pub fn whole_text(&self) -> (s: String)
        ensures
            s@ == self.text@,
    {
        string_from_chars(self.text.as_slice())
    }

    /// The selected text, and nothing where no selection is open.
    pub fn selection_text(&self) -> (selected: Option<String>)
        ensures
            selected is Some <==> self.selection_index is Some,
            selected matches Some(s) ==> s@ == self@.selected_text(),
    {
        if self.selection_index.is_some() {
            Some(self.get_text())
        } else {
            None
        }
    }

    /// Replaces the whole text, puts the cursor at its start and closes the
    /// selection.
    pub fn set_text(&mut self, text: &str)
        ensures
            final(self)@ == old(self)@.set_text(text@),
            final(self)@.wf(),
            final(self).same_frame(old(self)),
    {
        self.text.clear();
        self.cursor_index = 0;
        self.insert_at_cursor(text);
        self.cursor_index = 0;
        assert(self.text@ =~= text@);
    }

    /// Puts `text` in place of the selection, or at the cursor where no
    /// selection is open, and leaves the cursor after it. No text counts as
    /// the empty text.
    pub fn insert_text(&mut self, text: Option<String>)
        ensures
            final(self)@ == old(self)@.insert_text(
                match text {
                    Some(t) => Some(t@),
                    None => None,
                },
            ),
            final(self)@.wf(),
            final(self).same_frame(old(self)),
    {
        if self.selection_index.is_some() {
            self.delete();
        }
        match text {
            Some(t) => {
                self.insert_at_cursor(t.as_str());
            },
            None => {
                self.clamp_indices();
                self.selection_index = None;
                assert(self.text@ =~= self.text@.subrange(0, self.cursor_index as int) + Seq::<char>::empty()
                    + self.text@.subrange(self.cursor_index as int, self.text@.len() as int));
            },
        }
    }

    /// Puts the characters of `text` in at the cursor, one after the other,
    /// and closes the selection.
    fn insert_at_cursor(&mut self, text: &str)
        ensures
            final(self)@ == old(self)@.insert_at_cursor(text@),
            final(self)@.wf(),
            final(self).same_frame(old(self)),
    {
        self.clamp_indices();
        let ghost before = self.text@;
        let ghost at = self.cursor_index as int;
        assert(self.text@ =~= before.subrange(0, at) + text@.take(0) + before.subrange(at, before.len() as int));
        for c in it: text.chars()
            invariant
                it.seq() == text@,
                0 <= at <= before.len(),
                self.cursor_index == at + it.index(),
                self.text@ == before.subrange(0, at) + it.seq().take(it.index()) + before.subrange(at, before.len() as int),
                self.same_frame(old(self)),
        {
            self.text.insert(self.cursor_index, c);
            assert(self.cursor_index < self.text.len());
            self.cursor_index = self.cursor_index + 1;
            assert(self.text@ =~= before.subrange(0, at) + it.seq().take(it.index() + 1) + before.subrange(
                at,
                before.len() as int,
            ));
        }
        self.selection_index = None;
        assert(text@.take(text@.len() as int) =~= text@);
    }

    /// Puts one character in at the cursor and moves the cursor after it. The
    /// selection is closed.
    pub fn insert_char(&mut self, c: char)
        ensures
            final(self)@ == old(self)@.insert_char(c),
            final(self)@.wf(),
            final(self).same_frame(old(self)),
    {
        self.clamp_indices();
        let ghost before = self.text@;
        self.text.insert(self.cursor_index, c);
        assert(self.cursor_index < self.text.len());
        self.cursor_index = self.cursor_index + 1;
        self.selection_index = None;
        assert(self.text@ =~= before.subrange(0, self.cursor_index - 1) + seq![c] + before.subrange(
            self.cursor_index - 1,
            before.len() as int,
        ));
    }

    /// Takes out the selection and puts the cursor at its start; without a
    /// selection, takes out the character at the cursor, if there is one.
    pub fn delete(&mut self)
        ensures
            final(self)@ == old(self)@.delete(),
            final(self)@.wf(),
            final(self).same_frame(old(self)),
    {
        self.clamp_indices();
        match self.selection_index {
            None => {
                if self.cursor_index < self.text.len() {
                    self.text.remove(self.cursor_index);
                }
            },
            Some(anchor) => {
                let start: usize = if self.cursor_index <= anchor { self.cursor_index } else { anchor };
                let end: usize = if self.cursor_index <= anchor { anchor } else { self.cursor_index };
                let ghost before = self.text@;
                let mut k: usize = start;
                assert(self.text@ =~= before.subrange(0, start as int) + before.subrange(k as int, before.len() as int));
                while k < end
                    invariant
                        start <= k <= end <= before.len(),
                        self.text@ == before.subrange(0, start as int) + before.subrange(k as int, before.len() as int),
                        self.same_frame(old(self)),
                    decreases end - k,
                {
                    self.text.remove(start);
                    k = k + 1;
                    assert(self.text@ =~= before.subrange(0, start as int) + before.subrange(k as int, before.len() as int));
                }
                self.cursor_index = start;
                self.selection_index = None;
            },
        }
    }

    /// Backspace: takes out the selection, or else the character before the
    /// cursor, if there is one.
    pub fn delete_back(&mut self)
        ensures
            final(self)@ == old(self)@.delete_back(),
            final(self)@.wf(),
            final(self).same_frame(old(self)),
    {
        if self.selection_index.is_none() {
            if self.decrement_cursor_index() {
                self.delete();
            }
        } else {
            self.delete();
        }
    }

    /// Puts the cursor at index `i`, or at the end where `i` lies past it.
    pub fn set_cursor_index(&mut self, i: usize)
        ensures
            final(self)@ == old(self)@.set_cursor(i as int),
            final(self)@.wf(),
            final(self).same_frame(old(self)),
    {
        self.clamp_indices();
        self.cursor_index = i;
        if self.cursor_index > self.text.len() {
            self.cursor_index = self.text.len();
        }
    }

    /// Moves the cursor one to the right, if it is not at the end.
    pub fn increment_cursor_index(&mut self)
        ensures
            final(self)@ == old(self)@.increment(),
            final(self)@.wf(),
            final(self).same_frame(old(self)),
    {
        self.clamp_indices();
        if self.cursor_index < self.text.len() {
            self.cursor_index = self.cursor_index + 1;
        }
    }

    /// Moves the cursor one to the left, if it is not at the start, and tells
    /// whether it moved.
    pub fn decrement_cursor_index(&mut self) -> (moved: bool)
        ensures
            final(self)@ == old(self)@.decrement(),
            final(self)@.wf(),
            final(self).same_frame(old(self)),
            moved == (old(self)@.clamped().cursor > 0),
    {
        self.clamp_indices();
        if self.cursor_index > 0 {
            self.cursor_index = self.cursor_index - 1;
            return true;
        }
        false
    }

    /// Selects the whole text, with the cursor at its start.
    pub fn select_all(&mut self)
        ensures
            final(self)@ == old(self)@.select_all(),
            final(self)@.wf(),
            final(self).same_frame(old(self)),
    {
        self.cursor_index = 0;
        self.selection_index = Some(self.text.len());
    }

    /// The right arrow key, with the modifiers held.
    pub fn arrow_right(&mut self, modifiers: KeyboardInputModifiers)
        ensures
            final(self)@ == old(self)@.arrow_right(modifiers),
            final(self)@.wf(),
            final(self).same_frame(old(self)),
    {
        self.update_selection_index(modifiers);
        if modifiers.ctrl {
            self.ctrl_jump_cursor(true);
            self.increment_cursor_index();
        } else {
            self.increment_cursor_index();
        }
    }

    /// The left arrow key, with the modifiers held.
    pub fn arrow_left(&mut self, modifiers: KeyboardInputModifiers)
        ensures
            final(self)@ == old(self)@.arrow_left(modifiers),
            final(self)@.wf(),
            final(self).same_frame(old(self)),
    {
        self.update_selection_index(modifiers);
        if modifiers.ctrl {
            self.ctrl_jump_cursor(false);
        } else {
            self.decrement_cursor_index();
        }
    }

    /// The home key, with the modifiers held.
    pub fn home(&mut self, modifiers: KeyboardInputModifiers)
        ensures
            final(self)@ == old(self)@.home(modifiers),
            final(self)@.wf(),
            final(self).same_frame(old(self)),
    {
        self.update_selection_index(modifiers);
        self.cursor_index = 0;
    }

    /// The end key, with the modifiers held.
    pub fn end(&mut self, modifiers: KeyboardInputModifiers)
        ensures
            final(self)@ == old(self)@.end(modifiers),
            final(self)@.wf(),
            final(self).same_frame(old(self)),
    {
        self.update_selection_index(modifiers);
        self.cursor_index = self.text.len();
    }

    /// A press of the left mouse button at `(mouse_x, mouse_y)`: the field is
    /// hot and active exactly if the pointer is inside it.
    pub fn left_mouse_button_down(&mut self, mouse_x: i32, mouse_y: i32)
        ensures
            *final(self) == old(self).with_state(
                old(self).bounds.contains(mouse_x as int, mouse_y as int),
                old(self).bounds.contains(mouse_x as int, mouse_y as int),
            ),
    {
        let hit: bool = is_point_in_rect(mouse_x, mouse_y, self.bounds);
        self.hot = hit;
        self.active = hit;
    }

    /// The text to hand to the clipboard for a copy: what `get_text` gives,
    /// or nothing where there is no clipboard.
    pub fn copy_to_clipboard(&self, has_clipboard: bool) -> (copied: Option<String>)
        ensures
            copied is Some <==> has_clipboard,
            copied matches Some(s) ==> s@ == self@.selected_text(),
    {
        if has_clipboard {
            Some(self.get_text())
        } else {
            None
        }
    }

    /// The text to hand to the clipboard for a cut: what `get_text` gives,
    /// which is then deleted as `delete` does. Where there is no clipboard,
    /// nothing is handed out and nothing is deleted.
    pub fn cut_to_clipboard(&mut self, has_clipboard: bool) -> (cut: Option<String>)
        ensures
            cut is Some <==> has_clipboard,
            cut matches Some(s) ==> s@ == old(self)@.selected_text(),
            has_clipboard ==> final(self)@ == old(self)@.delete() && final(self)@.wf(),
            !has_clipboard ==> *final(self) == *old(self),
            final(self).same_frame(old(self)),
    {
        if has_clipboard {
            let text: String = self.get_text();
            self.delete();
            Some(text)
        } else {
            None
        }
    }

    /// Opens, keeps or closes the selection before the cursor moves.
    fn update_selection_index(&mut self, modifiers: KeyboardInputModifiers)
        ensures
            final(self)@ == old(self)@.update_selection(modifiers.shift),
            final(self)@.wf(),
            final(self).text == old(self).text,
            final(self).same_frame(old(self)),
    {
        self.clamp_indices();
        if modifiers.shift && self.selection_index.is_none() {
            self.selection_index = Some(self.cursor_index);
        } else if !modifiers.shift {
            self.selection_index = None;
        }
    }

    /// Moves the cursor to the end of the word in the direction of travel.
    fn ctrl_jump_cursor(&mut self, forward: bool)
        ensures
            final(self)@ == old(self)@.jump(forward),
            final(self)@.wf(),
            final(self).same_frame(old(self)),
    {
        self.clamp_indices();
        let word: Vec<bool> = classify(&self.text);
        self.cursor_index = word_jump_index(&word, self.cursor_index, forward);
    }
}

impl Control for TextBox {
    open spec fn bounds_of(&self) -> Rect {
        self.bounds
    }

    open spec fn is_hot(&self) -> bool {
        self.hot
    }

    open spec fn with_hot(self, hit: bool) -> TextBox {
        TextBox { hot: hit, ..self }
    }

    open spec fn resolved(&self) -> BoxStyle {
        self.style
    }

    fn get_bounds(&self) -> (bounds: Rect) {
        self.bounds
    }

    fn get_hot(&self) -> (hot: bool) {
        self.hot
    }

    fn set_hot(&mut self, hit: bool) {
        self.hot = hit
    }

    /// A text field has one style for all its states.
    fn get_style<'a>(&'a self) -> (style: &'a BoxStyle) {
        &self.style
    }
}

} // verus!

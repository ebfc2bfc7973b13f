//! The editing model of a text field: a sequence of code points, a cursor and
//! an optional selection anchor.

use vstd::prelude::*;
use crate::keyboard::KeyboardInputModifiers;

verus! {

/// Whether Unicode counts the character as a letter or a number.
pub uninterp spec fn is_alphanumeric(c: char) -> bool;

/// Calls `char::is_alphanumeric`, which tells whether the character is
/// alphabetic or numeric by the Unicode character tables.
#[verifier::external_body]
fn char_is_alphanumeric(c: char) -> (alphanumeric: bool)
    ensures
        alphanumeric == is_alphanumeric(c),
{
    c.is_alphanumeric()
}

/// For each character of a text, whether it is alphanumeric.
pub open spec fn word_flags(text: Seq<char>) -> Seq<bool> {
    Seq::new(text.len(), |i: int| is_alphanumeric(text[i]))
}

/// Tells for each character of `text` whether it is alphanumeric.
pub fn classify(text: &Vec<char>) -> (word: Vec<bool>)
    ensures
        word@ == word_flags(text@),
{
    let mut word: Vec<bool> = Vec::new();
    let count: usize = text.len();
    let mut i: usize = 0;
    while i < count
        invariant
            count == text@.len(),
            i <= count,
            word@.len() == i,
            forall|k: int| 0 <= k < i ==> word@[k] == is_alphanumeric(text@[k]),
        decreases count - i,
    {
        word.push(char_is_alphanumeric(text[i]));
        i = i + 1;
    }
    assert(word@ =~= word_flags(text@));
    word
}

/// Where a scan for the end of a word stops that stands at index `i` and moves
/// forward or backward: at the first index whose character is alphanumeric
/// while the next one in the direction of travel is not, or at the end of the
/// text that the scan runs into.
pub open spec fn jump_from(word: Seq<bool>, i: int, forward: bool) -> int
    decreases (if forward { word.len() - i } else { i }),
{
    let next = if forward { i + 1 } else { i - 1 };
    if i <= 0 {
        0
    } else if next >= word.len() {
        word.len() as int
    } else if word[i] && !word[next] {
        i
    } else {
        jump_from(word, next, forward)
    }
}

/// Where a word jump from `cursor` lands: the scan starts one step away from
/// the cursor.
pub open spec fn word_jump(word: Seq<bool>, cursor: int, forward: bool) -> int {
    jump_from(word, if forward { cursor + 1 } else { cursor - 1 }, forward)
}

/// A word jump always lands on an index of the text or just after it.
pub proof fn lemma_jump_in_range(word: Seq<bool>, i: int, forward: bool)
    ensures
        0 <= jump_from(word, i, forward) <= word.len(),
    decreases (if forward { word.len() - i } else { i }),
{
    let next = if forward { i + 1 } else { i - 1 };
    if i <= 0 {
    } else if next >= word.len() {
    } else if word[i] && !word[next] {
    } else {
        lemma_jump_in_range(word, next, forward);
    }
}

/// Finds where a word jump from `cursor` lands, given for each character
/// whether it belongs to a word. A cursor past the end counts as at the end.
pub fn word_jump_index(word: &Vec<bool>, cursor: usize, forward: bool) -> (target: usize)
    ensures
        target == word_jump(word@, if cursor <= word@.len() { cursor as int } else { word@.len() as int }, forward),
        target <= word@.len(),
{
    let len: usize = word.len();
    let start: usize = if cursor <= len { cursor } else { len };
    proof {
        lemma_jump_in_range(word@, if forward { start + 1 } else { start - 1 }, forward);
    }
    if forward {
        if start >= len {
            return len;
        }
        let mut i: usize = start + 1;
        loop
            invariant
                len == word@.len(),
                start == (if cursor <= len { cursor } else { len }),
                forward,
                1 <= i <= len,
                jump_from(word@, i as int, true) == word_jump(word@, start as int, true),
            decreases len - i,
        {
            if i >= len - 1 {
                return len;
            }
            if word[i] && !word[i + 1] {
                return i;
            }
            i = i + 1;
        }
    } else {
        if start == 0 {
            return 0;
        }
        let mut i: usize = start - 1;
        loop
            invariant
                len == word@.len(),
                start == (if cursor <= len { cursor } else { len }),
                !forward,
                i < len,
                jump_from(word@, i as int, false) == word_jump(word@, start as int, false),
            decreases i,
        {
            if i == 0 {
                return 0;
            }
            if word[i] && !word[i - 1] {
                return i;
            }
            i = i - 1;
        }
    }
}

/// What a text field holds: its characters, the index of the cursor and the
/// selection anchor, if a selection is open. The selection lies between the
/// cursor and the anchor, whichever comes first.
pub struct TextState {
    pub text: Seq<char>,
    pub cursor: int,
    pub anchor: Option<int>,
}

/// The smaller of two indices.
pub open spec fn lower(a: int, b: int) -> int {
    if a <= b { a } else { b }
}

/// The greater of two indices.
pub open spec fn upper(a: int, b: int) -> int {
    if a <= b { b } else { a }
}

impl TextState {
    /// The number of characters.
    pub open spec fn len(self) -> int {
        self.text.len() as int
    }

    /// The cursor and the anchor, if set, are indices of the text or the
    /// index just after it.
    pub open spec fn wf(self) -> bool {
        &&& 0 <= self.cursor <= self.len()
        &&& self.anchor matches Some(a) ==> 0 <= a <= self.len()
    }

    /// The state with the cursor and the anchor brought back into range.
    pub open spec fn clamped(self) -> TextState {
        TextState {
            text: self.text,
            cursor: upper(0, lower(self.cursor, self.len())),
            anchor: match self.anchor {
                Some(a) => Some(upper(0, lower(a, self.len()))),
                None => None,
            },
        }
    }

    /// The first index of the selection, or 0 where none is open.
    pub open spec fn range_start(self) -> int {
        match self.clamped().anchor {
            Some(a) => lower(self.clamped().cursor, a),
            None => 0,
        }
    }

    /// The index just after the selection, or the length where none is open.
    pub open spec fn range_end(self) -> int {
        match self.clamped().anchor {
            Some(a) => upper(self.clamped().cursor, a),
            None => self.len(),
        }
    }

    /// The selected characters, or the whole text where no selection is open.
    pub open spec fn selected_text(self) -> Seq<char> {
        self.text.subrange(self.range_start(), self.range_end())
    }

    /// A new text with the cursor at its start and no selection.
    pub open spec fn set_text(self, text: Seq<char>) -> TextState {
        TextState { text: text, cursor: 0, anchor: None }
    }

    /// The characters `s` put in at the cursor, which ends up after them; the
    /// selection is closed.
    pub open spec fn insert_at_cursor(self, s: Seq<char>) -> TextState {
        let c = self.clamped().cursor;
        TextState { text: self.text.subrange(0, c) + s + self.text.subrange(c, self.len()), cursor: c + s.len(), anchor: None }
    }

    /// With a selection open, the selection taken out and the cursor put at
    /// its start. Without one, the character at the cursor taken out, if there
    /// is one.
    pub open spec fn delete(self) -> TextState {
        let c = self.clamped().cursor;
        match self.anchor {
            Some(_) => TextState {
                text: self.text.subrange(0, self.range_start()) + self.text.subrange(self.range_end(), self.len()),
                cursor: self.range_start(),
                anchor: None,
            },
            None => if c < self.len() {
                TextState { text: self.text.remove(c), cursor: c, anchor: None }
            } else {
                self.clamped()
            },
        }
    }

    /// With a selection open, the same as `delete`. Without one, the
    /// character before the cursor taken out, if there is one, and the cursor
    /// moved back by one.
    pub open spec fn delete_back(self) -> TextState {
        let c = self.clamped().cursor;
        match self.anchor {
            Some(_) => self.delete(),
            None => if c > 0 {
                TextState { text: self.text.remove(c - 1), cursor: c - 1, anchor: None }
            } else {
                self.clamped()
            },
        }
    }

    /// The text `s` put in place of the selection, or at the cursor where no
    /// selection is open. No text counts as the empty text.
    pub open spec fn insert_text(self, s: Option<Seq<char>>) -> TextState {
        let s = match s {
            Some(s) => s,
            None => Seq::<char>::empty(),
        };
        match self.anchor {
            Some(_) => self.delete().insert_at_cursor(s),
            None => self.insert_at_cursor(s),
        }
    }

    /// One character put in at the cursor, which ends up after it; the
    /// selection is closed.
    pub open spec fn insert_char(self, c: char) -> TextState {
        self.insert_at_cursor(seq![c])
    }

    /// The cursor at the start and the anchor at the end of the text.
    pub open spec fn select_all(self) -> TextState {
        TextState { text: self.text, cursor: 0, anchor: Some(self.len()) }
    }

    /// The cursor at index `i`, or at the end where `i` lies past it.
    pub open spec fn set_cursor(self, i: int) -> TextState {
        TextState { cursor: lower(i, self.len()), ..self.clamped() }
    }

    /// The cursor one to the right, if it is not at the end.
    pub open spec fn increment(self) -> TextState {
        let s = self.clamped();
        TextState { cursor: lower(s.cursor + 1, s.len()), ..s }
    }

    /// The cursor one to the left, if it is not at the start.
    pub open spec fn decrement(self) -> TextState {
        let s = self.clamped();
        TextState { cursor: upper(s.cursor - 1, 0), ..s }
    }

    /// With shift held, the anchor dropped at the cursor unless one is set;
    /// without, the selection closed.
    pub open spec fn update_selection(self, shift: bool) -> TextState {
        let s = self.clamped();
        if shift {
            match s.anchor {
                Some(_) => s,
                None => TextState { anchor: Some(s.cursor), ..s },
            }
        } else {
            TextState { anchor: None, ..s }
        }
    }

    /// The cursor moved to where a word jump lands.
    pub open spec fn jump(self, forward: bool) -> TextState {
        let s = self.clamped();
        TextState { cursor: word_jump(word_flags(s.text), s.cursor, forward), ..s }
    }

    /// The left arrow: the selection updated, then the cursor moved back by a
    /// word with ctrl held and by one character without.
    pub open spec fn arrow_left(self, modifiers: KeyboardInputModifiers) -> TextState {
        let s = self.update_selection(modifiers.shift);
        if modifiers.ctrl {
            s.jump(false)
        } else {
            s.decrement()
        }
    }

    /// The right arrow: the selection updated, then the cursor moved forward
    /// by one character, after a word jump with ctrl held.
    pub open spec fn arrow_right(self, modifiers: KeyboardInputModifiers) -> TextState {
        let s = self.update_selection(modifiers.shift);
        if modifiers.ctrl {
            s.jump(true).increment()
        } else {
            s.increment()
        }
    }

    /// The home key: the selection updated, then the cursor put at the start.
    pub open spec fn home(self, modifiers: KeyboardInputModifiers) -> TextState {
        TextState { cursor: 0, ..self.update_selection(modifiers.shift) }
    }

    /// The end key: the selection updated, then the cursor put at the end.
    pub open spec fn end(self, modifiers: KeyboardInputModifiers) -> TextState {
        TextState { cursor: self.len(), ..self.update_selection(modifiers.shift) }
    }
}

/// One of the edits that a key makes to a text.
pub enum EditOp {
    InsertChar(char),
    Delete,
    DeleteBack,
}

impl TextState {
    /// The state after one edit.
    pub open spec fn edit(self, op: EditOp) -> TextState {
        match op {
            EditOp::InsertChar(c) => self.insert_char(c),
            EditOp::Delete => self.delete(),
            EditOp::DeleteBack => self.delete_back(),
        }
    }

    /// The state after the first `n` of the edits, made one after the other.
    pub open spec fn edits(self, ops: Seq<EditOp>, n: int) -> TextState
        decreases n,
    {
        if n <= 0 {
            self
        } else {
            self.edits(ops, n - 1).edit(ops[n - 1])
        }
    }
}

/// After any single edit, whatever the state before it, the cursor and the
/// anchor lie in the text.
pub proof fn lemma_edit_keeps_indices_in_range(state: TextState, op: EditOp)
    ensures
        state.edit(op).wf(),
{
}

/// Through any sequence of insertions and deletions, the cursor stays between
/// zero and the length of the text, and so does the anchor while it is set.
pub proof fn lemma_edits_keep_indices_in_range(state: TextState, ops: Seq<EditOp>, n: int)
    requires
        state.wf(),
        0 <= n <= ops.len(),
    ensures
        state.edits(ops, n).wf(),
        0 <= state.edits(ops, n).cursor <= state.edits(ops, n).len(),
        state.edits(ops, n).anchor matches Some(a) ==> 0 <= a <= state.edits(ops, n).len(),
    decreases n,
{
    if n > 0 {
        lemma_edits_keep_indices_in_range(state, ops, n - 1);
        lemma_edit_keeps_indices_in_range(state.edits(ops, n - 1), ops[n - 1]);
    }
}

/// Every cursor movement and selection change leaves the cursor and the
/// anchor in the text, whatever the state before it.
pub proof fn lemma_moves_keep_indices_in_range(state: TextState, i: int, shift: bool, forward: bool)
    requires
        0 <= i,
    ensures
        state.clamped().wf(),
        state.select_all().wf(),
        state.set_cursor(i).wf(),
        state.increment().wf(),
        state.decrement().wf(),
        state.update_selection(shift).wf(),
        state.jump(forward).wf(),
{
    let s = state.clamped();
    lemma_jump_in_range(word_flags(s.text), if forward { s.cursor + 1 } else { s.cursor - 1 }, forward);
}

/// Where no selection is open, inserting no text or the empty text changes
/// nothing.
pub proof fn lemma_insert_nothing(state: TextState)
    requires
        state.wf(),
        state.anchor is None,
    ensures
        state.insert_text(None) == state,
        state.insert_text(Some(Seq::<char>::empty())) == state,
{
    let c = state.cursor;
    assert(state.text.subrange(0, c) + Seq::<char>::empty() + state.text.subrange(c, state.len()) =~= state.text);
}

/// Where a selection is open, inserting a text puts it in place of exactly
/// the selected characters, leaves the cursor after it and closes the
/// selection.
pub proof fn lemma_insert_replaces_selection(state: TextState, anchor: int, s: Seq<char>)
    requires
        state.wf(),
        state.anchor == Some(anchor),
    ensures
        state.insert_text(Some(s)) == (TextState {
            text: state.text.subrange(0, lower(state.cursor, anchor)) + s + state.text.subrange(
                upper(state.cursor, anchor),
                state.len(),
            ),
            cursor: lower(state.cursor, anchor) + s.len(),
            anchor: None,
        }),
{
    let lo = lower(state.cursor, anchor);
    let hi = upper(state.cursor, anchor);
    let cut = state.delete();
    assert(cut.text.subrange(0, lo) =~= state.text.subrange(0, lo));
    assert(cut.text.subrange(lo, cut.len()) =~= state.text.subrange(hi, state.len()));
}

/// Reading the text that a selection covers does not depend on which of its
/// two ends the cursor is.
pub proof fn lemma_selection_is_unordered(text: Seq<char>, i: int, j: int)
    ensures
        (TextState { text: text, cursor: i, anchor: Some(j) }).selected_text() == (TextState {
            text: text,
            cursor: j,
            anchor: Some(i),
        }).selected_text(),
{
}

} // verus!

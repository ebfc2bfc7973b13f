//! Pointer input: presses, releases and moves of the mouse.

use vstd::prelude::*;
use crate::button::Button;
use crate::control::{Control, Cursor};
use crate::state::Gui;
use crate::textbox::TextBox;

verus! {

/// A completed click: the index of the button and the handler to call for it.
#[derive(Debug, Copy, Clone, PartialEq, Eq, Structural)]
pub struct Click {
    pub button: usize,
    pub handler: usize,
}

/// Whether the pointer at `(x, y)` is inside one of the first `n` text
/// fields.
pub open spec fn any_textbox_hit(textboxes: Seq<TextBox>, n: int, x: int, y: int) -> bool
    decreases n,
{
    n > 0 && (any_textbox_hit(textboxes, n - 1, x, y) || textboxes[n - 1].bounds.contains(x, y))
}

/// Whether the pointer at `(x, y)` is inside one of the first `n` buttons.
pub open spec fn any_button_hit(buttons: Seq<Button>, n: int, x: int, y: int) -> bool
    decreases n,
{
    n > 0 && (any_button_hit(buttons, n - 1, x, y) || buttons[n - 1].bounds.contains(x, y))
}

/// Whether a hit test at `(x, y)` changes the hot state of one of the first
/// `n` buttons.
pub open spec fn any_button_changes(buttons: Seq<Button>, n: int, x: int, y: int) -> bool
    decreases n,
{
    n > 0 && (any_button_changes(buttons, n - 1, x, y) || buttons[n - 1].hot != buttons[n - 1].bounds.contains(x, y))
}

/// Whether a hit test at `(x, y)` changes the hot state of one of the first
/// `n` text fields.
pub open spec fn any_textbox_changes(textboxes: Seq<TextBox>, n: int, x: int, y: int) -> bool
    decreases n,
{
    n > 0 && (any_textbox_changes(textboxes, n - 1, x, y) || textboxes[n - 1].hot != textboxes[n - 1].bounds.contains(
        x,
        y,
    ))
}

/// The clicks that a release at `(x, y)` completes among the first `n`
/// buttons, in the order of the buttons.
pub open spec fn clicks_of(buttons: Seq<Button>, n: int, x: int, y: int) -> Seq<Click>
    decreases n,
{
    if n <= 0 {
        Seq::empty()
    } else {
        match buttons[n - 1].click(buttons[n - 1].bounds.contains(x, y)) {
            Some(handler) => clicks_of(buttons, n - 1, x, y).push(Click { button: (n - 1) as usize, handler: handler }),
            None => clicks_of(buttons, n - 1, x, y),
        }
    }
}

/// The pointer icon for a pointer over a button, over a text field, or over
/// neither.
pub open spec fn cursor_for(over_button: bool, over_textbox: bool) -> Cursor {
    if over_button {
        Cursor::Hand
    } else if over_textbox {
        Cursor::IBeam
    } else {
        Cursor::Arrow
    }
}

/// A text field that the pointer is inside lies among the first `n` once `n`
/// is past it.
pub proof fn lemma_hit_is_found(textboxes: Seq<TextBox>, i: int, n: int, x: int, y: int)
    requires
        0 <= i < n,
        textboxes[i].bounds.contains(x, y),
    ensures
        any_textbox_hit(textboxes, n, x, y),
    decreases n,
{
    if i < n - 1 {
        lemma_hit_is_found(textboxes, i, n - 1, x, y);
    }
}

/// A press of the left mouse button. Every button is hot and active exactly
/// if the pointer is inside it. Every text field is hot exactly if the
/// pointer is inside it, and the first such field alone is active: no two
/// fields have the focus.
pub fn handle_left_mouse_button_down(gui: &mut Gui, mouse_x: i32, mouse_y: i32)
    ensures
        final(gui).cursor == old(gui).cursor,
        final(gui).has_clipboard == old(gui).has_clipboard,
        final(gui).buttons@.len() == old(gui).buttons@.len(),
        final(gui).textboxes@.len() == old(gui).textboxes@.len(),
        forall|i: int|
            0 <= i < old(gui).buttons@.len() ==> #[trigger] final(gui).buttons@[i] == old(gui).buttons@[i].with_state(
                old(gui).buttons@[i].bounds.contains(mouse_x as int, mouse_y as int),
                old(gui).buttons@[i].bounds.contains(mouse_x as int, mouse_y as int),
            ),
        forall|i: int|
            0 <= i < old(gui).textboxes@.len() ==> #[trigger] final(gui).textboxes@[i] == old(gui).textboxes@[i].with_state(
                old(gui).textboxes@[i].bounds.contains(mouse_x as int, mouse_y as int),
                old(gui).textboxes@[i].bounds.contains(mouse_x as int, mouse_y as int) && !any_textbox_hit(
                    old(gui).textboxes@,
                    i,
                    mouse_x as int,
                    mouse_y as int,
                ),
            ),
        forall|i: int, j: int|
            0 <= i < j < final(gui).textboxes@.len() ==> !(final(gui).textboxes@[i].active && final(gui).textboxes@[j].active),
{
    let button_count: usize = gui.buttons.len();
    let mut i: usize = 0;
    while i < button_count
        invariant
            i <= button_count,
            button_count == old(gui).buttons@.len(),
            gui.buttons@.len() == button_count,
            gui.cursor == old(gui).cursor,
            gui.has_clipboard == old(gui).has_clipboard,
            gui.textboxes == old(gui).textboxes,
            forall|k: int|
                0 <= k < i ==> #[trigger] gui.buttons@[k] == old(gui).buttons@[k].with_state(
                    old(gui).buttons@[k].bounds.contains(mouse_x as int, mouse_y as int),
                    old(gui).buttons@[k].bounds.contains(mouse_x as int, mouse_y as int),
                ),
            forall|k: int| i <= k < button_count ==> gui.buttons@[k] == old(gui).buttons@[k],
        decreases button_count - i,
    {
        gui.buttons[i].handle_mouse_button_down(mouse_x, mouse_y);
        i = i + 1;
    }
    let textbox_count: usize = gui.textboxes.len();
    let mut found: bool = false;
    let mut j: usize = 0;
    while j < textbox_count
        invariant
            j <= textbox_count,
            textbox_count == old(gui).textboxes@.len(),
            gui.textboxes@.len() == textbox_count,
            gui.cursor == old(gui).cursor,
            gui.has_clipboard == old(gui).has_clipboard,
            gui.buttons@.len() == old(gui).buttons@.len(),
            forall|k: int|
                0 <= k < old(gui).buttons@.len() ==> #[trigger] gui.buttons@[k] == old(gui).buttons@[k].with_state(
                    old(gui).buttons@[k].bounds.contains(mouse_x as int, mouse_y as int),
                    old(gui).buttons@[k].bounds.contains(mouse_x as int, mouse_y as int),
                ),
            found == any_textbox_hit(old(gui).textboxes@, j as int, mouse_x as int, mouse_y as int),
            forall|k: int|
                0 <= k < j ==> #[trigger] gui.textboxes@[k] == old(gui).textboxes@[k].with_state(
                    old(gui).textboxes@[k].bounds.contains(mouse_x as int, mouse_y as int),
                    old(gui).textboxes@[k].bounds.contains(mouse_x as int, mouse_y as int) && !any_textbox_hit(
                        old(gui).textboxes@,
                        k,
                        mouse_x as int,
                        mouse_y as int,
                    ),
                ),
            forall|k: int| j <= k < textbox_count ==> gui.textboxes@[k] == old(gui).textboxes@[k],
        decreases textbox_count - j,
    {
        gui.textboxes[j].left_mouse_button_down(mouse_x, mouse_y);
        if found {
            gui.textboxes[j].active = false;
        } else if gui.textboxes[j].active {
            found = true;
        }
        j = j + 1;
    }
    assert forall|a: int, b: int| 0 <= a < b < gui.textboxes@.len() implies !(gui.textboxes@[a].active
        && gui.textboxes@[b].active) by {
        if gui.textboxes@[a].active {
            lemma_hit_is_found(old(gui).textboxes@, a, b, mouse_x as int, mouse_y as int);
        }
    }
}

/// A release of the left mouse button. Every button is hot exactly if the
/// pointer is inside it, and none is active any more. Returns the clicks
/// that the release completes, for the application to act on: one for each
/// button that was pressed, has the pointer inside it and has a handler.
pub fn handle_left_mouse_button_up(gui: &mut Gui, mouse_x: i32, mouse_y: i32) -> (clicks: Vec<Click>)
    ensures
        final(gui).cursor == old(gui).cursor,
        final(gui).has_clipboard == old(gui).has_clipboard,
        final(gui).textboxes == old(gui).textboxes,
        final(gui).buttons@.len() == old(gui).buttons@.len(),
        forall|i: int|
            0 <= i < old(gui).buttons@.len() ==> #[trigger] final(gui).buttons@[i] == old(gui).buttons@[i].with_state(
                old(gui).buttons@[i].bounds.contains(mouse_x as int, mouse_y as int),
                false,
            ),
        clicks@ == clicks_of(old(gui).buttons@, old(gui).buttons@.len() as int, mouse_x as int, mouse_y as int),
{
    let mut clicks: Vec<Click> = Vec::new();
    let button_count: usize = gui.buttons.len();
    let mut i: usize = 0;
    while i < button_count
        invariant
            i <= button_count,
            button_count == old(gui).buttons@.len(),
            gui.buttons@.len() == button_count,
            gui.cursor == old(gui).cursor,
            gui.has_clipboard == old(gui).has_clipboard,
            gui.textboxes == old(gui).textboxes,
            forall|k: int|
                0 <= k < i ==> #[trigger] gui.buttons@[k] == old(gui).buttons@[k].with_state(
                    old(gui).buttons@[k].bounds.contains(mouse_x as int, mouse_y as int),
                    false,
                ),
            forall|k: int| i <= k < button_count ==> gui.buttons@[k] == old(gui).buttons@[k],
            clicks@ == clicks_of(old(gui).buttons@, i as int, mouse_x as int, mouse_y as int),
        decreases button_count - i,
    {
        match gui.buttons[i].handle_button_mouse_up(mouse_x, mouse_y) {
            Some(handler) => {
                clicks.push(Click { button: i, handler: handler });
            },
            None => {},
        }
        i = i + 1;
    }
    clicks
}

/// A move of the pointer. Every control is hot exactly if the pointer is
/// inside it. Returns the pointer icon to show (a hand over a button, else an
/// I-beam over a text field, else an arrow) and whether any hot state
/// changed, which calls for a redraw.
pub fn handle_mouse_move(gui: &mut Gui, mouse_x: i32, mouse_y: i32) -> (result: (Cursor, bool))
    ensures
        final(gui).cursor == old(gui).cursor,
        final(gui).has_clipboard == old(gui).has_clipboard,
        final(gui).buttons@.len() == old(gui).buttons@.len(),
        final(gui).textboxes@.len() == old(gui).textboxes@.len(),
        forall|i: int|
            0 <= i < old(gui).buttons@.len() ==> #[trigger] final(gui).buttons@[i] == old(gui).buttons@[i].with_state(
                old(gui).buttons@[i].bounds.contains(mouse_x as int, mouse_y as int),
                old(gui).buttons@[i].active,
            ),
        forall|i: int|
            0 <= i < old(gui).textboxes@.len() ==> #[trigger] final(gui).textboxes@[i] == old(gui).textboxes@[i].with_state(
                old(gui).textboxes@[i].bounds.contains(mouse_x as int, mouse_y as int),
                old(gui).textboxes@[i].active,
            ),
        result.0 == cursor_for(
            any_button_hit(old(gui).buttons@, old(gui).buttons@.len() as int, mouse_x as int, mouse_y as int),
            any_textbox_hit(old(gui).textboxes@, old(gui).textboxes@.len() as int, mouse_x as int, mouse_y as int),
        ),
        result.1 == (any_button_changes(old(gui).buttons@, old(gui).buttons@.len() as int, mouse_x as int, mouse_y as int)
            || any_textbox_changes(old(gui).textboxes@, old(gui).textboxes@.len() as int, mouse_x as int, mouse_y as int)),
{
    let mut is_button_hot: bool = false;
    let mut is_textbox_hot: bool = false;
    let mut should_update_window: bool = false;
    let button_count: usize = gui.buttons.len();
    let mut i: usize = 0;
    while i < button_count
        invariant
            i <= button_count,
            button_count == old(gui).buttons@.len(),
            gui.buttons@.len() == button_count,
            gui.cursor == old(gui).cursor,
            gui.has_clipboard == old(gui).has_clipboard,
            gui.textboxes == old(gui).textboxes,
            is_button_hot == any_button_hit(old(gui).buttons@, i as int, mouse_x as int, mouse_y as int),
            should_update_window == any_button_changes(old(gui).buttons@, i as int, mouse_x as int, mouse_y as int),
            forall|k: int|
                0 <= k < i ==> #[trigger] gui.buttons@[k] == old(gui).buttons@[k].with_state(
                    old(gui).buttons@[k].bounds.contains(mouse_x as int, mouse_y as int),
                    old(gui).buttons@[k].active,
                ),
            forall|k: int| i <= k < button_count ==> gui.buttons@[k] == old(gui).buttons@[k],
        decreases button_count - i,
    {
        let (hot_changed, is_hot) = gui.buttons[i].hit_check(mouse_x, mouse_y);
        if hot_changed {
            should_update_window = true;
        }
        if is_hot {
            is_button_hot = true;
        }
        i = i + 1;
    }
    let ghost buttons_changed = should_update_window;
    let textbox_count: usize = gui.textboxes.len();
    let mut j: usize = 0;
    while j < textbox_count
        invariant
            j <= textbox_count,
            textbox_count == old(gui).textboxes@.len(),
            gui.textboxes@.len() == textbox_count,
            gui.cursor == old(gui).cursor,
            gui.has_clipboard == old(gui).has_clipboard,
            gui.buttons@.len() == old(gui).buttons@.len(),
            forall|k: int|
                0 <= k < old(gui).buttons@.len() ==> #[trigger] gui.buttons@[k] == old(gui).buttons@[k].with_state(
                    old(gui).buttons@[k].bounds.contains(mouse_x as int, mouse_y as int),
                    old(gui).buttons@[k].active,
                ),
            is_textbox_hot == any_textbox_hit(old(gui).textboxes@, j as int, mouse_x as int, mouse_y as int),
            should_update_window == (buttons_changed || any_textbox_changes(
                old(gui).textboxes@,
                j as int,
                mouse_x as int,
                mouse_y as int,
            )),
            forall|k: int|
                0 <= k < j ==> #[trigger] gui.textboxes@[k] == old(gui).textboxes@[k].with_state(
                    old(gui).textboxes@[k].bounds.contains(mouse_x as int, mouse_y as int),
                    old(gui).textboxes@[k].active,
                ),
            forall|k: int| j <= k < textbox_count ==> gui.textboxes@[k] == old(gui).textboxes@[k],
        decreases textbox_count - j,
    {
        let (hot_changed, is_hot) = gui.textboxes[j].hit_check(mouse_x, mouse_y);
        if hot_changed {
            should_update_window = true;
        }
        if is_hot {
            is_textbox_hot = true;
        }
        j = j + 1;
    }
    if is_button_hot {
        (Cursor::Hand, should_update_window)
    } else if is_textbox_hot {
        (Cursor::IBeam, should_update_window)
    } else {
        (Cursor::Arrow, should_update_window)
    }
}

/// The pointer icon to ask the host for: `cursor` while the pointer is well
/// inside the client area, more than two pixels from each edge, and the
/// host's own choice near the edges, where it shows its resize icons.
pub fn pointer_cursor(
    cursor: Cursor,
    mouse_x: i32,
    mouse_y: i32,
    client_left: i32,
    client_top: i32,
    client_right: i32,
    client_bottom: i32,
) -> (shown: Cursor)
    ensures
        shown == (if client_left + 2 < mouse_x < client_right - 2 && client_top + 2 < mouse_y < client_bottom - 2 {
            cursor
        } else {
            Cursor::NotSet
        }),
{
    let inside: bool = mouse_x as i64 > client_left as i64 + 2 && (mouse_x as i64) < client_right as i64 - 2 && mouse_y as i64
        > client_top as i64 + 2 && (mouse_y as i64) < client_bottom as i64 - 2;
    if inside {
        cursor
    } else {
        Cursor::NotSet
    }
}

} // verus!

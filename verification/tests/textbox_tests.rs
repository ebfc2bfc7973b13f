use pixel_gui::geometry::Rect;
use pixel_gui::style::BoxStyle;
use pixel_gui::text_state::{classify, word_jump_index};
use pixel_gui::textbox::TextBox;

const TEXT: &str = "1234567890";

fn create_textbox_for_test() -> TextBox {
    let mut x = TextBox {
        text: Vec::new(),
        placeholder: "placeholder",
        bounds: Rect { x: 10, y: 10, w: 500, h: 100 },
        hot: false,
        active: false,
        cursor_index: 0,
        selection_index: None,
        style: BoxStyle::textbox_default(),
    };
    x.set_text(TEXT);
    x
}

#[test]
fn test_delete() {
    let mut textbox = create_textbox_for_test();

    // delete single character at index 3 which should be the 4
    textbox.cursor_index = 3;
    textbox.delete();
    assert_eq!(textbox.cursor_index, 3);
    assert_eq!(textbox.selection_index, None);
    assert_eq!(textbox.get_text(), "123567890");

    // delete range of characters from index 3 to 6
    textbox.selection_index = Some(6);
    textbox.delete();
    assert_eq!(textbox.cursor_index, 3);
    assert_eq!(textbox.selection_index, None);
    assert_eq!(textbox.get_text(), "123890");
}

#[test]
fn test_select_all() {
    let mut textbox = create_textbox_for_test();

    textbox.select_all();
    assert_eq!(textbox.cursor_index, 0);
    assert_eq!(textbox.selection_index, Some(10));
    assert_eq!(textbox.get_text(), TEXT);
}

#[test]
fn test_get_test_selection() {
    let mut textbox = create_textbox_for_test();

    textbox.cursor_index = 2;
    textbox.selection_index = Some(7);
    assert_eq!(textbox.get_text(), "34567");
    // get_text leaves the indices alone
    assert_eq!(textbox.cursor_index, 2);
    assert_eq!(textbox.selection_index, Some(7));

    textbox.cursor_index = 8;
    textbox.selection_index = Some(1);
    assert_eq!(textbox.get_text(), "2345678");
}

fn modifiers(ctrl: bool, shift: bool) -> pixel_gui::keyboard::KeyboardInputModifiers {
    pixel_gui::keyboard::KeyboardInputModifiers { ctrl, alt: false, shift }
}

fn textbox_with(text: &str) -> TextBox {
    let mut textbox = TextBox::new("placeholder", Rect { x: 10, y: 10, w: 500, h: 100 }, BoxStyle::textbox_default());
    textbox.set_text(text);
    textbox
}

fn whole_text(textbox: &TextBox) -> String {
    textbox.text.iter().collect()
}

#[test]
fn new_textbox_is_empty_and_idle() {
    let textbox = TextBox::new("name", Rect { x: 1, y: 2, w: 3, h: 4 }, BoxStyle::textbox_default());
    assert!(textbox.text.is_empty());
    assert_eq!(textbox.cursor_index, 0);
    assert_eq!(textbox.selection_index, None);
    assert!(!textbox.hot);
    assert!(!textbox.active);
    assert_eq!(textbox.placeholder, "name");
    assert_eq!(textbox.bounds, Rect { x: 1, y: 2, w: 3, h: 4 });
}

#[test]
fn set_text_puts_cursor_at_start_and_closes_selection() {
    let mut textbox = textbox_with("abc");
    textbox.cursor_index = 2;
    textbox.selection_index = Some(3);
    textbox.set_text("1234567890");
    assert_eq!(whole_text(&textbox), "1234567890");
    assert_eq!(textbox.cursor_index, 0);
    assert_eq!(textbox.selection_index, None);
    textbox.set_text("");
    assert_eq!(whole_text(&textbox), "");
    assert_eq!(textbox.cursor_index, 0);
}

#[test]
fn edits_keep_cursor_and_anchor_in_range() {
    let mut textbox = textbox_with("hello");
    textbox.cursor_index = 5;
    let steps: [u8; 24] = [0, 1, 2, 2, 2, 0, 0, 1, 1, 1, 2, 2, 2, 2, 2, 2, 0, 2, 1, 0, 0, 1, 2, 0];
    for (n, step) in steps.iter().enumerate() {
        if n == 7 {
            textbox.select_all();
        }
        if n == 15 {
            textbox.cursor_index = 1;
            textbox.selection_index = Some(0);
        }
        match step {
            0 => textbox.insert_char('x'),
            1 => textbox.delete(),
            _ => textbox.delete_back(),
        }
        assert!(textbox.cursor_index <= textbox.text.len());
        if let Some(anchor) = textbox.selection_index {
            assert!(anchor <= textbox.text.len());
        }
    }
}

#[test]
fn insert_char_goes_in_at_cursor_and_advances() {
    let mut textbox = textbox_with("ac");
    textbox.cursor_index = 1;
    textbox.insert_char('b');
    assert_eq!(whole_text(&textbox), "abc");
    assert_eq!(textbox.cursor_index, 2);
    textbox.cursor_index = 3;
    textbox.insert_char('d');
    assert_eq!(whole_text(&textbox), "abcd");
    assert_eq!(textbox.cursor_index, 4);
}

#[test]
fn insert_char_clamps_cursor_first() {
    let mut textbox = textbox_with("ab");
    textbox.cursor_index = 99;
    textbox.insert_char('c');
    assert_eq!(whole_text(&textbox), "abc");
    assert_eq!(textbox.cursor_index, 3);
}

#[test]
fn insert_char_closes_selection() {
    let mut textbox = textbox_with("abcd");
    textbox.cursor_index = 1;
    textbox.selection_index = Some(3);
    textbox.insert_char('X');
    assert_eq!(whole_text(&textbox), "aXbcd");
    assert_eq!(textbox.cursor_index, 2);
    assert_eq!(textbox.selection_index, None);
}

#[test]
fn delete_at_end_without_selection_does_nothing() {
    let mut textbox = textbox_with("abc");
    textbox.cursor_index = 3;
    textbox.delete();
    assert_eq!(whole_text(&textbox), "abc");
    assert_eq!(textbox.cursor_index, 3);
    assert_eq!(textbox.selection_index, None);
}

#[test]
fn delete_range_anchors_on_smaller_index() {
    let mut textbox = textbox_with("1234567890");
    textbox.cursor_index = 6;
    textbox.selection_index = Some(3);
    textbox.delete();
    assert_eq!(whole_text(&textbox), "1237890");
    assert_eq!(textbox.cursor_index, 3);
    assert_eq!(textbox.selection_index, None);
}

#[test]
fn delete_clamps_stray_indices() {
    let mut textbox = textbox_with("abcdef");
    textbox.cursor_index = 4;
    textbox.selection_index = Some(1000);
    textbox.delete();
    assert_eq!(whole_text(&textbox), "abcd");
    assert_eq!(textbox.cursor_index, 4);
    assert_eq!(textbox.selection_index, None);
}

#[test]
fn delete_back_removes_character_before_cursor() {
    let mut textbox = textbox_with("abc");
    textbox.cursor_index = 2;
    textbox.delete_back();
    assert_eq!(whole_text(&textbox), "ac");
    assert_eq!(textbox.cursor_index, 1);
}

#[test]
fn delete_back_at_start_does_nothing() {
    let mut textbox = textbox_with("abc");
    textbox.cursor_index = 0;
    textbox.delete_back();
    assert_eq!(whole_text(&textbox), "abc");
    assert_eq!(textbox.cursor_index, 0);
}

#[test]
fn delete_back_with_selection_deletes_selection() {
    let mut textbox = textbox_with("abcdef");
    textbox.cursor_index = 5;
    textbox.selection_index = Some(2);
    textbox.delete_back();
    assert_eq!(whole_text(&textbox), "abf");
    assert_eq!(textbox.cursor_index, 2);
    assert_eq!(textbox.selection_index, None);
}

#[test]
fn get_text_without_selection_is_whole_text() {
    let mut textbox = textbox_with("héllo");
    textbox.cursor_index = 3;
    assert_eq!(textbox.get_text(), "héllo");
    assert_eq!(textbox.cursor_index, 3);
}

#[test]
fn get_text_of_empty_selection_is_empty() {
    let mut textbox = textbox_with("hello");
    textbox.cursor_index = 2;
    textbox.selection_index = Some(2);
    assert_eq!(textbox.get_text(), "");
}

#[test]
fn insert_text_none_is_a_no_op() {
    let mut textbox = textbox_with("hello");
    textbox.cursor_index = 2;
    textbox.insert_text(None);
    assert_eq!(whole_text(&textbox), "hello");
    assert_eq!(textbox.cursor_index, 2);
    assert_eq!(textbox.selection_index, None);
}

#[test]
fn insert_text_empty_is_a_no_op() {
    let mut textbox = textbox_with("hello");
    textbox.cursor_index = 4;
    textbox.insert_text(Some(String::new()));
    assert_eq!(whole_text(&textbox), "hello");
    assert_eq!(textbox.cursor_index, 4);
    assert_eq!(textbox.selection_index, None);
}

#[test]
fn insert_text_at_cursor() {
    let mut textbox = textbox_with("held");
    textbox.cursor_index = 3;
    textbox.insert_text(Some(String::from("lo wor")));
    assert_eq!(whole_text(&textbox), "hello word");
    assert_eq!(textbox.cursor_index, 9);
    assert_eq!(textbox.selection_index, None);
}

#[test]
fn insert_text_replaces_exactly_the_selection() {
    let mut textbox = textbox_with("1234567890");
    textbox.cursor_index = 7;
    textbox.selection_index = Some(2);
    textbox.insert_text(Some(String::from("ab")));
    assert_eq!(whole_text(&textbox), "12ab890");
    assert_eq!(textbox.cursor_index, 4);
    assert_eq!(textbox.selection_index, None);
}

#[test]
fn insert_text_none_into_selection_deletes_it() {
    let mut textbox = textbox_with("1234567890");
    textbox.cursor_index = 2;
    textbox.selection_index = Some(4);
    textbox.insert_text(None);
    assert_eq!(whole_text(&textbox), "12567890");
    assert_eq!(textbox.cursor_index, 2);
    assert_eq!(textbox.selection_index, None);
}

#[test]
fn set_cursor_index_clamps() {
    let mut textbox = textbox_with("abc");
    textbox.set_cursor_index(2);
    assert_eq!(textbox.cursor_index, 2);
    textbox.set_cursor_index(3);
    assert_eq!(textbox.cursor_index, 3);
    textbox.set_cursor_index(4);
    assert_eq!(textbox.cursor_index, 3);
    textbox.set_cursor_index(usize::MAX);
    assert_eq!(textbox.cursor_index, 3);
}

#[test]
fn increment_and_decrement_saturate() {
    let mut textbox = textbox_with("ab");
    assert!(!textbox.decrement_cursor_index());
    assert_eq!(textbox.cursor_index, 0);
    textbox.increment_cursor_index();
    assert_eq!(textbox.cursor_index, 1);
    textbox.increment_cursor_index();
    assert_eq!(textbox.cursor_index, 2);
    textbox.increment_cursor_index();
    assert_eq!(textbox.cursor_index, 2);
    assert!(textbox.decrement_cursor_index());
    assert_eq!(textbox.cursor_index, 1);
}

#[test]
fn word_jump_right_and_left() {
    let mut textbox = textbox_with("foo bar");
    textbox.cursor_index = 0;
    textbox.arrow_right(modifiers(true, false));
    assert_eq!(textbox.cursor_index, 3);
    textbox.arrow_right(modifiers(true, false));
    assert_eq!(textbox.cursor_index, 7);
    textbox.arrow_left(modifiers(true, false));
    assert_eq!(textbox.cursor_index, 4);
    textbox.arrow_left(modifiers(true, false));
    assert_eq!(textbox.cursor_index, 0);
}

#[test]
fn word_jump_uses_unicode_letters_and_digits() {
    let mut textbox = textbox_with("añ9, +x");
    textbox.cursor_index = 0;
    textbox.arrow_right(modifiers(true, false));
    assert_eq!(textbox.cursor_index, 3);
    textbox.cursor_index = 7;
    textbox.arrow_left(modifiers(true, false));
    assert_eq!(textbox.cursor_index, 6);
    textbox.arrow_left(modifiers(true, false));
    assert_eq!(textbox.cursor_index, 0);
}

#[test]
fn word_jump_in_empty_text_stays() {
    let mut textbox = textbox_with("");
    textbox.arrow_right(modifiers(true, false));
    assert_eq!(textbox.cursor_index, 0);
    textbox.arrow_left(modifiers(true, false));
    assert_eq!(textbox.cursor_index, 0);
}

#[test]
fn arrows_move_by_one_without_ctrl() {
    let mut textbox = textbox_with("abc");
    textbox.arrow_right(modifiers(false, false));
    assert_eq!(textbox.cursor_index, 1);
    textbox.arrow_left(modifiers(false, false));
    assert_eq!(textbox.cursor_index, 0);
    textbox.arrow_left(modifiers(false, false));
    assert_eq!(textbox.cursor_index, 0);
}

#[test]
fn shift_arrow_opens_and_extends_selection() {
    let mut textbox = textbox_with("abcdef");
    textbox.cursor_index = 2;
    textbox.arrow_right(modifiers(false, true));
    assert_eq!(textbox.selection_index, Some(2));
    assert_eq!(textbox.cursor_index, 3);
    textbox.arrow_right(modifiers(false, true));
    assert_eq!(textbox.selection_index, Some(2));
    assert_eq!(textbox.cursor_index, 4);
    assert_eq!(textbox.get_text(), "cd");
    textbox.arrow_left(modifiers(false, false));
    assert_eq!(textbox.selection_index, None);
    assert_eq!(textbox.cursor_index, 3);
}

#[test]
fn home_and_end_move_and_select() {
    let mut textbox = textbox_with("abcdef");
    textbox.cursor_index = 2;
    textbox.end(modifiers(false, false));
    assert_eq!(textbox.cursor_index, 6);
    assert_eq!(textbox.selection_index, None);
    textbox.home(modifiers(false, true));
    assert_eq!(textbox.cursor_index, 0);
    assert_eq!(textbox.selection_index, Some(6));
    textbox.home(modifiers(false, false));
    assert_eq!(textbox.selection_index, None);
}

#[test]
fn textbox_mouse_down_sets_hot_and_active_by_hit() {
    let mut textbox = textbox_with("abc");
    textbox.left_mouse_button_down(11, 11);
    assert!(textbox.hot);
    assert!(textbox.active);
    textbox.left_mouse_button_down(10, 11);
    assert!(!textbox.hot);
    assert!(!textbox.active);
    assert_eq!(whole_text(&textbox), "abc");
}

#[test]
fn copy_hands_out_selection_and_keeps_text() {
    let mut textbox = textbox_with("1234567890");
    textbox.cursor_index = 2;
    textbox.selection_index = Some(7);
    assert_eq!(textbox.copy_to_clipboard(true), Some(String::from("34567")));
    assert_eq!(textbox.copy_to_clipboard(false), None);
    assert_eq!(whole_text(&textbox), "1234567890");
    assert_eq!(textbox.cursor_index, 2);
    assert_eq!(textbox.selection_index, Some(7));
}

#[test]
fn cut_hands_out_selection_and_deletes_it() {
    let mut textbox = textbox_with("1234567890");
    textbox.cursor_index = 7;
    textbox.selection_index = Some(2);
    assert_eq!(textbox.cut_to_clipboard(true), Some(String::from("34567")));
    assert_eq!(whole_text(&textbox), "12890");
    assert_eq!(textbox.cursor_index, 2);
    assert_eq!(textbox.selection_index, None);
}

#[test]
fn cut_without_clipboard_does_nothing() {
    let mut textbox = textbox_with("1234567890");
    textbox.cursor_index = 7;
    textbox.selection_index = Some(2);
    assert_eq!(textbox.cut_to_clipboard(false), None);
    assert_eq!(whole_text(&textbox), "1234567890");
    assert_eq!(textbox.cursor_index, 7);
    assert_eq!(textbox.selection_index, Some(2));
}

#[test]
fn word_jump_index_on_flags() {
    let word = vec![true, true, true, false, true, true, true];
    assert_eq!(word_jump_index(&word, 0, true), 2);
    assert_eq!(word_jump_index(&word, 2, true), 7);
    assert_eq!(word_jump_index(&word, 3, true), 7);
    assert_eq!(word_jump_index(&word, 7, true), 7);
    assert_eq!(word_jump_index(&word, 100, true), 7);
    assert_eq!(word_jump_index(&word, 7, false), 4);
    assert_eq!(word_jump_index(&word, 4, false), 0);
    assert_eq!(word_jump_index(&word, 0, false), 0);
    assert_eq!(word_jump_index(&Vec::new(), 0, true), 0);
    assert_eq!(word_jump_index(&Vec::new(), 0, false), 0);
}

#[test]
fn classify_marks_letters_and_digits() {
    let text: Vec<char> = "a1 -é٣_".chars().collect();
    assert_eq!(classify(&text), vec![true, true, false, false, true, true, false]);
}

#[test]
fn whole_text_ignores_the_selection() {
    let mut textbox = textbox_with("1234567890");
    textbox.cursor_index = 2;
    textbox.selection_index = Some(7);
    assert_eq!(textbox.whole_text(), "1234567890");
    assert_eq!(textbox.selection_text(), Some(String::from("34567")));
    textbox.selection_index = None;
    assert_eq!(textbox.whole_text(), "1234567890");
    assert_eq!(textbox.selection_text(), None);
    textbox.selection_index = Some(2);
    assert_eq!(textbox.selection_text(), Some(String::new()));
}

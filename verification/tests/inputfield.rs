use neo_ai::inputfield::{BoxData, InputField, InputMode};

fn field_with(text: &str) -> InputField {
    let mut field = InputField::new();
    for c in text.chars() {
        field.enter_char(c);
    }
    field
}

#[test]
fn new_box_is_one_by_one() {
    assert_eq!(
        BoxData::new(),
        BoxData { max_char_per_line: 1, max_line: 1, nb_line: 0, scroll_offset: 0 }
    );
}

#[test]
fn new_field_is_empty() {
    let mut field = InputField::new();
    assert_eq!(field.input, "");
    assert_eq!(field.input_mode, InputMode::Normal);
    assert_eq!(field.cursor_index(), 0);
    assert_eq!(field.input_data, BoxData::new());
    assert_eq!(field.input_len(), 0);
}

#[test]
fn characters_are_entered_at_the_cursor() {
    let mut field = field_with("ac");
    assert_eq!(field.cursor_index(), 2);
    field.move_cursor_left();
    field.enter_char('b');
    assert_eq!(field.input, "abc");
    assert_eq!(field.cursor_index(), 2);
    field.reset_char_index();
    field.enter_char('\u{e9}');
    assert_eq!(field.input, "\u{e9}abc");
    assert_eq!(field.cursor_index(), 1);
    field.enter_char('x');
    assert_eq!(field.input, "\u{e9}xabc");
    assert_eq!(field.input_len(), 5);
}

#[test]
fn cursor_stays_inside_the_text() {
    let mut field = field_with("ab");
    field.move_cursor_right();
    assert_eq!(field.cursor_index(), 2);
    field.move_cursor_left();
    field.move_cursor_left();
    field.move_cursor_left();
    assert_eq!(field.cursor_index(), 0);
    field.move_cursor_right();
    assert_eq!(field.cursor_index(), 1);
    assert_eq!(field.clamp_cursor(0), 0);
    assert_eq!(field.clamp_cursor(2), 2);
    assert_eq!(field.clamp_cursor(9), 2);
}

#[test]
fn cursor_follows_a_text_that_was_cut() {
    let mut field = field_with("abcdef");
    field.input = "ab".to_string();
    field.move_cursor_left();
    assert_eq!(field.cursor_index(), 2);
    let mut field = field_with("abcdef");
    field.input = "ab".to_string();
    field.enter_char('z');
    assert_eq!(field.input, "abz");
    assert_eq!(field.cursor_index(), 3);
    let mut field = field_with("abcdef");
    field.input = "ab".to_string();
    field.delete_char();
    assert_eq!(field.input, "ab");
    assert_eq!(field.cursor_index(), 2);
}

#[test]
fn delete_removes_the_character_before_the_cursor() {
    let mut field = field_with("h\u{e9}llo");
    field.delete_char();
    assert_eq!(field.input, "h\u{e9}ll");
    assert_eq!(field.cursor_index(), 4);
    field.move_cursor_left();
    field.move_cursor_left();
    field.delete_char();
    assert_eq!(field.input, "hll");
    assert_eq!(field.cursor_index(), 1);
    field.delete_char();
    assert_eq!(field.input, "ll");
    assert_eq!(field.cursor_index(), 0);
    field.delete_char();
    assert_eq!(field.input, "ll");
    assert_eq!(field.cursor_index(), 0);
}

#[test]
fn reset_puts_cursor_and_scroll_at_the_start() {
    let mut field = field_with("abc");
    field.input_data.scroll_offset = 4;
    field.input_data.nb_line = 7;
    field.reset_char_index();
    assert_eq!(field.cursor_index(), 0);
    assert_eq!(field.input_data.scroll_offset, 0);
    assert_eq!(field.input_data.nb_line, 7);
    assert_eq!(field.input, "abc");
}

#[test]
fn box_is_measured_inside_the_border() {
    let mut field = field_with("abcdefghij");
    field.update_max(7, 5);
    assert_eq!(field.input_data.max_char_per_line, 5);
    assert_eq!(field.input_data.max_line, 3);
    field.update_max(80, 1);
    assert_eq!(field.input_data.max_char_per_line, 10);
    assert_eq!(field.input_data.max_line, 0);
    field.update_max(2, 2);
    assert_eq!(field.input_data.max_char_per_line, 0);
    assert_eq!(field.input_data.max_line, 0);
}

#[test]
fn lines_are_counted_rounding_up() {
    let mut field = field_with("abcdefghij");
    field.update_nb_line(7);
    assert_eq!(field.input_data.nb_line, 2);
    field.update_nb_line(6);
    assert_eq!(field.input_data.nb_line, 3);
    field.update_nb_line(12);
    assert_eq!(field.input_data.nb_line, 1);
    field.update_nb_line(13);
    assert_eq!(field.input_data.nb_line, 1);
    field.update_nb_line(3);
    assert_eq!(field.input_data.nb_line, 10);
    let mut empty = InputField::new();
    empty.update_nb_line(40);
    assert_eq!(empty.input_data.nb_line, 0);
}

#[test]
fn lines_at_width_zero() {
    let mut field = field_with("a");
    field.update_nb_line(2);
    assert_eq!(field.input_data.nb_line, usize::MAX);
    field.update_nb_line(0);
    assert_eq!(field.input_data.nb_line, usize::MAX);
    let mut empty = InputField::new();
    empty.update_nb_line(1);
    assert_eq!(empty.input_data.nb_line, 0);
}

#[test]
fn lines_agree_with_the_rounded_quotient() {
    for count in 0..40usize {
        for width in 0..12u16 {
            let mut field = field_with(&"x".repeat(count));
            field.update_nb_line(width);
            let inner = width.saturating_sub(2);
            let expected = (count as f64 / inner as f64).ceil() as usize;
            assert_eq!(field.input_data.nb_line, expected, "{} at {}", count, width);
        }
    }
}

#[test]
fn cursor_moves_by_lines_in_a_wrapped_text() {
    let mut field = field_with("abcdefghijkl");
    field.update_nb_line(7);
    field.update_max(7, 6);
    assert_eq!(field.input_data.nb_line, 3);
    assert_eq!(field.input_data.max_char_per_line, 5);
    field.move_cursor_up();
    assert_eq!(field.cursor_index(), 7);
    field.move_cursor_up();
    assert_eq!(field.cursor_index(), 2);
    field.move_cursor_up();
    assert_eq!(field.cursor_index(), 0);
    field.move_cursor_down();
    assert_eq!(field.cursor_index(), 5);
    field.move_cursor_down();
    assert_eq!(field.cursor_index(), 10);
    field.move_cursor_down();
    assert_eq!(field.cursor_index(), 10);
    field.move_cursor_right();
    field.move_cursor_right();
    field.move_cursor_down();
    assert_eq!(field.cursor_index(), 12);
}

#[test]
fn cursor_does_not_move_by_lines_in_a_single_line() {
    let mut field = field_with("abc");
    field.update_nb_line(40);
    field.update_max(40, 5);
    field.move_cursor_up();
    assert_eq!(field.cursor_index(), 3);
    field.reset_char_index();
    field.move_cursor_down();
    assert_eq!(field.cursor_index(), 0);
}

#[test]
fn cursor_is_drawn_where_it_stands() {
    let mut field = field_with("abcdefghijkl");
    field.update_nb_line(7);
    field.update_max(7, 6);
    assert_eq!(field.cursor_x(), 2);
    assert_eq!(field.cursor_y(), 3);
    assert_eq!(field.input_data.scroll_offset, 0);
    field.reset_char_index();
    assert_eq!(field.cursor_x(), 0);
    assert_eq!(field.cursor_y(), 1);
    let mut short = field_with("abc");
    short.update_nb_line(40);
    short.update_max(40, 5);
    assert_eq!(short.cursor_x(), 3);
    assert_eq!(short.cursor_y(), 1);
}

#[test]
fn box_scrolls_to_the_cursor() {
    let mut field = field_with("abcdefghijklmnopqrstuvwxy");
    field.update_nb_line(7);
    field.update_max(7, 4);
    assert_eq!(field.input_data.nb_line, 5);
    assert_eq!(field.input_data.max_line, 2);
    assert_eq!(field.cursor_y(), 2);
    assert_eq!(field.input_data.scroll_offset, 2);
    assert_eq!(field.cursor_x(), 0);
    field.reset_char_index();
    field.input_data.scroll_offset = 3;
    assert_eq!(field.cursor_y(), 1);
    assert_eq!(field.input_data.scroll_offset, 1);
}

#[test]
fn box_without_rows_draws_the_cursor_in_row_one() {
    let mut field = field_with("abcdefghij");
    field.update_nb_line(7);
    field.update_max(7, 2);
    assert_eq!(field.input_data.max_line, 0);
    assert_eq!(field.cursor_y(), 1);
    assert_eq!(field.input_data.scroll_offset, 0);
}

#[test]
fn message_box_scrolls_inside_its_lines() {
    let mut data = BoxData { max_char_per_line: 10, max_line: 3, nb_line: 5, scroll_offset: 0 };
    data.scroll_up();
    assert_eq!(data.scroll_offset, 0);
    data.scroll_down();
    assert_eq!(data.scroll_offset, 1);
    data.scroll_down();
    assert_eq!(data.scroll_offset, 2);
    data.scroll_down();
    assert_eq!(data.scroll_offset, 2);
    data.scroll_up();
    assert_eq!(data.scroll_offset, 1);
    assert_eq!((data.max_char_per_line, data.max_line, data.nb_line), (10, 3, 5));
}

#[test]
fn message_box_that_shows_everything_does_not_scroll() {
    let mut data = BoxData { max_char_per_line: 10, max_line: 5, nb_line: 5, scroll_offset: 2 };
    data.scroll_up();
    assert_eq!(data.scroll_offset, 2);
    data.scroll_down();
    assert_eq!(data.scroll_offset, 2);
    let mut far = BoxData { max_char_per_line: 1, max_line: 0, nb_line: 3, scroll_offset: 9 };
    far.scroll_down();
    assert_eq!(far.scroll_offset, 9);
}

#[test]
fn submit_hands_the_text_over() {
    let mut field = field_with("hello");
    field.input_mode = InputMode::Editing;
    field.input_data.scroll_offset = 2;
    assert_eq!(field.submit(), Some("hello".to_string()));
    assert_eq!(field.input, "");
    assert_eq!(field.input_mode, InputMode::Normal);
    assert_eq!(field.cursor_index(), 0);
    assert_eq!(field.input_data.scroll_offset, 0);
}

#[test]
fn empty_field_submits_nothing() {
    let mut field = InputField::new();
    field.input_mode = InputMode::Editing;
    assert_eq!(field.submit(), None);
    assert_eq!(field.input_mode, InputMode::Editing);
}

#[test]
fn cell_is_column_and_row() {
    let mut field = field_with("abcdefghijkl");
    field.update_nb_line(7);
    field.update_max(7, 6);
    assert_eq!(field.cursor_cell(), Some((2, 3)));
    let mut short = field_with("abc");
    assert_eq!(short.cursor_cell(), Some((3, 1)));
}

#[test]
fn cursor_has_no_cell_in_lines_without_characters() {
    let mut field = field_with("abc");
    field.update_nb_line(2);
    field.update_max(2, 5);
    assert_eq!(field.input_data.nb_line, usize::MAX);
    assert_eq!(field.input_data.max_char_per_line, 0);
    let before = field.input_data;
    assert_eq!(field.cursor_cell(), None);
    assert_eq!(field.input_data, before);
}

#[test]
fn mode_is_read_and_set() {
    let mut field = InputField::new();
    assert_eq!(field.mode(), InputMode::Normal);
    field.set_mode(InputMode::Editing);
    assert_eq!(field.mode(), InputMode::Editing);
    assert_eq!(field.input_mode, InputMode::Editing);
}

//! Tests of the compose editor: motions, edits, modes, and the position
//! model's conversions.

use hermes::app::{App, ComposeField, ComposeMode, Mode};
use hermes::position::{cursor_from_line_col, line_col_from_cursor};

fn new_app() -> App {
    App::new(Vec::new())
}

fn type_str(app: &mut App, s: &str) {
    for ch in s.chars() {
        app.compose_push_char(ch);
    }
}

/// Starts a compose session and fills the body with `s`, leaving the
/// editor in Normal mode on the body field with the cursor at the end.
fn compose_with_body(s: &str) -> App {
    let mut app = new_app();
    app.start_compose();
    app.compose_next_field();
    app.compose_next_field();
    assert!(matches!(app.compose_field, ComposeField::Body));
    app.compose_enter_insert();
    type_str(&mut app, s);
    app.compose_exit_insert();
    app
}

#[test]
fn cursor_line_col_round_trip() {
    let text: Vec<char> = "ab\ncde\nf".chars().collect();
    for cur in 0..=text.len() {
        let (line, col) = line_col_from_cursor(&text, cur);
        let back = cursor_from_line_col(&text, line, col);
        assert_eq!(back, cur, "round trip at offset {}", cur);
    }
}

#[test]
fn cursor_round_trip_clamps_after_trailing_newline() {
    // The one excluded position: the end of a text ending in a newline
    // lies past the last line, so the backward map clamps it.
    let text: Vec<char> = "ab\n".chars().collect();
    let (line, col) = line_col_from_cursor(&text, 3);
    assert_eq!((line, col), (1, 0));
    assert_eq!(cursor_from_line_col(&text, line, col), 0);
}

#[test]
fn line_col_examples() {
    let text: Vec<char> = "ab\ncde\nf".chars().collect();
    assert_eq!(line_col_from_cursor(&text, 0), (0, 0));
    assert_eq!(line_col_from_cursor(&text, 2), (0, 2));
    assert_eq!(line_col_from_cursor(&text, 3), (1, 0));
    assert_eq!(line_col_from_cursor(&text, 5), (1, 2));
    assert_eq!(line_col_from_cursor(&text, 7), (2, 0));
    assert_eq!(line_col_from_cursor(&text, 8), (2, 1));
    // An out-of-range line clamps to the last line, the column to the
    // line's length; an empty text yields 0.
    assert_eq!(cursor_from_line_col(&text, 9, 1), (8));
    assert_eq!(cursor_from_line_col(&text, 1, 99), (6));
    let empty: Vec<char> = Vec::new();
    assert_eq!(cursor_from_line_col(&empty, 5, 5), 0);
}

#[test]
fn word_motion_example() {
    let mut app = new_app();
    app.start_compose();
    app.compose_enter_insert();
    type_str(&mut app, "hello world  foo");
    app.compose_exit_insert();
    app.compose_move_line_start();
    assert_eq!(app.compose_cursor, 0);

    app.compose_move_word_forward();
    assert_eq!(app.compose_cursor, 6, "start of \"world\"");
    app.compose_move_word_forward();
    assert_eq!(app.compose_cursor, 13, "start of \"foo\"");
    app.compose_move_word_forward();
    assert_eq!(app.compose_cursor, 16, "end of text");

    app.compose_move_word_backward();
    assert_eq!(app.compose_cursor, 13);
    app.compose_move_word_backward();
    assert_eq!(app.compose_cursor, 6);
    app.compose_move_word_backward();
    assert_eq!(app.compose_cursor, 0);
    // At the start it stays put.
    app.compose_move_word_backward();
    assert_eq!(app.compose_cursor, 0);
}

#[test]
fn insert_then_backspace_restores_text_and_cursor() {
    let mut app = compose_with_body("ab\ncd");
    app.compose_move_up();
    let text_before = app.compose_body.clone();
    let cursor_before = app.compose_cursor;
    app.compose_enter_insert();
    app.compose_push_char('x');
    app.compose_pop_char();
    assert_eq!(app.compose_body, text_before);
    assert_eq!(app.compose_cursor, cursor_before);
}

#[test]
fn visual_delete_range() {
    let mut app = compose_with_body("abcdef");
    app.compose_move_line_start();
    app.compose_move_right();
    assert_eq!(app.compose_cursor, 1);
    app.compose_enter_visual();
    app.compose_move_right();
    app.compose_move_right();
    app.compose_move_right();
    assert_eq!(app.compose_cursor, 4);
    app.compose_delete_visual();
    let body: String = app.compose_body.iter().collect();
    assert_eq!(body, "aef");
    assert_eq!(app.compose_cursor, 1);
    assert!(matches!(app.compose_mode, ComposeMode::Normal));
    assert!(app.compose_visual_start.is_none());
}

#[test]
fn vertical_motion_clamps_column() {
    let mut app = compose_with_body("ab\ncde\nf");
    app.compose_move_line_start();
    app.compose_move_up();
    app.compose_move_up();
    assert_eq!((app.compose_line, app.compose_col), (0, 0));
    app.compose_move_right();
    assert_eq!((app.compose_line, app.compose_col), (0, 1));

    app.compose_move_down();
    assert_eq!((app.compose_line, app.compose_col), (1, 1));
    assert_eq!(app.compose_cursor, 4, "on 'd'");

    app.compose_move_down();
    assert_eq!((app.compose_line, app.compose_col), (2, 1));
    assert_eq!(app.compose_cursor, 8, "end of \"f\"");

    // Past the last line it stays.
    app.compose_move_down();
    assert_eq!((app.compose_line, app.compose_col), (2, 1));
}

#[test]
fn field_cycling_is_circular() {
    let mut app = new_app();
    app.start_compose();
    assert!(matches!(app.compose_field, ComposeField::To));
    app.compose_next_field();
    assert!(matches!(app.compose_field, ComposeField::Subject));
    app.compose_next_field();
    assert!(matches!(app.compose_field, ComposeField::Body));
    app.compose_next_field();
    assert!(matches!(app.compose_field, ComposeField::To));
    app.compose_prev_field();
    assert!(matches!(app.compose_field, ComposeField::Body));
}

#[test]
fn field_switch_resets_cursor_and_skips_insert_mode() {
    let mut app = new_app();
    app.start_compose();
    app.compose_enter_insert();
    type_str(&mut app, "someone");
    app.compose_exit_insert();
    assert_eq!(app.compose_cursor, 7);
    app.compose_next_field();
    assert_eq!(app.compose_cursor, 0);
    assert!(matches!(app.compose_field, ComposeField::Subject));

    // No field switch from Insert mode.
    app.compose_enter_insert();
    app.compose_next_field();
    assert!(matches!(app.compose_field, ComposeField::Subject));
    app.compose_prev_field();
    assert!(matches!(app.compose_field, ComposeField::Subject));
}

#[test]
fn mode_transitions() {
    let mut app = compose_with_body("hello");
    assert!(matches!(app.compose_mode, ComposeMode::Normal));

    app.compose_enter_visual();
    assert!(matches!(app.compose_mode, ComposeMode::Visual));
    assert_eq!(app.compose_visual_start, Some(app.compose_cursor));
    app.compose_exit_visual();
    assert!(matches!(app.compose_mode, ComposeMode::Normal));
    assert!(app.compose_visual_start.is_none());

    let cursor = app.compose_cursor;
    app.compose_enter_insert();
    assert!(matches!(app.compose_mode, ComposeMode::Insert));
    app.compose_exit_insert();
    assert!(matches!(app.compose_mode, ComposeMode::Normal));
    assert_eq!(app.compose_cursor, cursor);
}

#[test]
fn open_below_appends_line_at_end() {
    let mut app = compose_with_body("ab");
    app.compose_open_below();
    let body: String = app.compose_body.iter().collect();
    assert_eq!(body, "ab\n");
    assert_eq!(app.compose_cursor, 3);
    assert_eq!((app.compose_line, app.compose_col), (1, 0));
    assert!(matches!(app.compose_mode, ComposeMode::Insert));
}

#[test]
fn open_above_inserts_line_at_line_start() {
    let mut app = compose_with_body("ab\ncd");
    assert_eq!(app.compose_line, 1);
    app.compose_open_above();
    let body: String = app.compose_body.iter().collect();
    assert_eq!(body, "ab\n\ncd");
    assert_eq!(app.compose_cursor, 3);
    assert_eq!((app.compose_line, app.compose_col), (1, 0));
    assert!(matches!(app.compose_mode, ComposeMode::Insert));
}

#[test]
fn append_variants() {
    let mut app = compose_with_body("ab\ncd");
    app.compose_move_up();
    app.compose_move_line_start();
    app.compose_append();
    assert_eq!(app.compose_cursor, 1);
    assert!(matches!(app.compose_mode, ComposeMode::Insert));
    app.compose_exit_insert();

    app.compose_append_end();
    assert_eq!(app.compose_cursor, 2, "end of first line");
    assert!(matches!(app.compose_mode, ComposeMode::Insert));
    app.compose_exit_insert();

    app.compose_insert_start();
    assert_eq!(app.compose_cursor, 0);
    assert!(matches!(app.compose_mode, ComposeMode::Insert));
}

#[test]
fn delete_char_and_delete_line() {
    let mut app = compose_with_body("abc");
    app.compose_move_line_start();
    app.compose_move_right();
    app.compose_delete_char();
    let body: String = app.compose_body.iter().collect();
    assert_eq!(body, "ac");
    assert_eq!(app.compose_cursor, 1);

    // At the end of the text nothing is under the cursor.
    app.compose_move_line_end();
    app.compose_delete_char();
    let body: String = app.compose_body.iter().collect();
    assert_eq!(body, "ac");

    app.compose_delete_line();
    assert!(app.compose_body.is_empty());
    assert_eq!(app.compose_cursor, 0);
    assert_eq!((app.compose_line, app.compose_col), (0, 0));
}

#[test]
fn indent_right_and_left() {
    let mut app = compose_with_body("xy");
    assert_eq!(app.compose_cursor, 2);
    app.compose_indent_right();
    let body: String = app.compose_body.iter().collect();
    assert_eq!(body, "  xy");
    assert_eq!(app.compose_cursor, 4);

    app.compose_indent_left();
    let body: String = app.compose_body.iter().collect();
    assert_eq!(body, "xy");
    assert_eq!(app.compose_cursor, 2);

    // Without the two-space prefix nothing changes.
    app.compose_indent_left();
    let body: String = app.compose_body.iter().collect();
    assert_eq!(body, "xy");
    assert_eq!(app.compose_cursor, 2);

    // The cursor never goes below 0.
    app.compose_move_line_start();
    app.compose_indent_right();
    app.compose_move_line_start();
    app.compose_indent_left();
    assert_eq!(app.compose_cursor, 0);
}

#[test]
fn char_motions_at_boundaries() {
    let mut app = compose_with_body("ab\ncd");
    // Left from the start of a line reaches the previous line's end.
    app.compose_move_down();
    app.compose_move_line_start();
    assert_eq!(app.compose_cursor, 3);
    app.compose_move_left();
    assert_eq!(app.compose_cursor, 2);
    assert_eq!((app.compose_line, app.compose_col), (0, 2));
    // Right from a line's end wraps to the next line's start.
    app.compose_move_right();
    assert_eq!(app.compose_cursor, 3);
    assert_eq!((app.compose_line, app.compose_col), (1, 0));
    // At the whole text's boundaries both stop.
    app.compose_move_line_end();
    app.compose_move_right();
    assert_eq!(app.compose_cursor, 5);
    app.compose_move_up();
    app.compose_move_line_start();
    app.compose_move_left();
    assert_eq!(app.compose_cursor, 0);
}

#[test]
fn moving_up_from_first_body_line_switches_field() {
    let mut app = compose_with_body("ab");
    app.compose_move_up();
    assert!(matches!(app.compose_field, ComposeField::Subject));
    assert_eq!(app.compose_cursor, 0);
}

#[test]
fn multibyte_text_positions_count_code_points() {
    let mut app = new_app();
    app.start_compose();
    app.compose_enter_insert();
    type_str(&mut app, "héllo");
    assert_eq!(app.compose_cursor, 5);
    app.compose_pop_char();
    app.compose_pop_char();
    app.compose_pop_char();
    app.compose_pop_char();
    let to: String = app.compose_to.iter().collect();
    assert_eq!(to, "h");
    assert_eq!(app.compose_cursor, 1);
    app.compose_exit_insert();
    app.compose_move_left();
    assert_eq!(app.compose_cursor, 0);
}

#[test]
fn get_compose_data_returns_field_texts() {
    let mut app = new_app();
    app.start_compose();
    app.compose_enter_insert();
    type_str(&mut app, "a@b.c");
    app.compose_exit_insert();
    app.compose_next_field();
    app.compose_enter_insert();
    type_str(&mut app, "hi");
    app.compose_exit_insert();
    app.compose_next_field();
    app.compose_enter_insert();
    type_str(&mut app, "line1\nliné2");
    let (to, subject, body) = app.get_compose_data();
    assert_eq!(to, "a@b.c");
    assert_eq!(subject, "hi");
    assert_eq!(body, "line1\nliné2");
}

#[test]
fn start_compose_resets_everything() {
    let mut app = compose_with_body("old");
    app.compose_enter_visual();
    app.start_compose();
    assert!(app.compose_to.is_empty());
    assert!(app.compose_subject.is_empty());
    assert!(app.compose_body.is_empty());
    assert!(matches!(app.compose_field, ComposeField::To));
    assert!(matches!(app.compose_mode, ComposeMode::Normal));
    assert_eq!(app.compose_cursor, 0);
    assert!(app.compose_visual_start.is_none());
    assert!(matches!(app.mode, Mode::Compose));
}

#[test]
fn word_motion_crosses_lines() {
    // A newline is whitespace to word motion, so the motion crosses it.
    let mut app = compose_with_body("ab\ncd ef");
    app.compose_move_up();
    app.compose_move_line_start();
    assert_eq!(app.compose_cursor, 0);
    app.compose_move_word_forward();
    assert_eq!(app.compose_cursor, 3, "start of \"cd\" on the next line");
    assert_eq!((app.compose_line, app.compose_col), (1, 0));
    app.compose_move_word_backward();
    assert_eq!(app.compose_cursor, 0);
}

#[test]
fn word_motion_treats_unicode_whitespace_as_space() {
    // U+00A0 (no-break space) has the White_Space property, as
    // char::is_whitespace sees it.
    let mut app = new_app();
    app.start_compose();
    app.compose_enter_insert();
    type_str(&mut app, "ab\u{a0}cd");
    app.compose_exit_insert();
    app.compose_move_line_start();
    app.compose_move_word_forward();
    assert_eq!(app.compose_cursor, 3);
}

#[test]
fn right_motion_stops_before_a_trailing_newline() {
    // With the body ending in a newline, its last line ends at that
    // newline and there is no further line to wrap onto.
    let mut app = compose_with_body("ab");
    app.compose_open_below();
    app.compose_exit_insert();
    assert_eq!(app.compose_cursor, 3);
    app.compose_move_up();
    app.compose_move_line_end();
    assert_eq!(app.compose_cursor, 2);
    app.compose_move_right();
    assert_eq!(app.compose_cursor, 2, "no next segment to wrap onto");
}

#[test]
fn cursor_stays_in_bounds_through_arbitrary_operations() {
    let mut app = compose_with_body("ab\ncde\nf");
    let check = |app: &App| {
        let len = match app.compose_field {
            ComposeField::To => app.compose_to.len(),
            ComposeField::Subject => app.compose_subject.len(),
            ComposeField::Body => app.compose_body.len(),
        };
        assert!(app.compose_cursor <= len);
    };
    app.compose_move_word_forward();
    check(&app);
    app.compose_enter_visual();
    app.compose_next_field();
    check(&app);
    app.compose_delete_visual();
    check(&app);
    app.compose_prev_field();
    check(&app);
    app.compose_delete_line();
    check(&app);
    app.compose_open_below();
    check(&app);
    app.compose_pop_char();
    check(&app);
    app.compose_exit_insert();
    app.compose_indent_right();
    check(&app);
    app.compose_move_line_end();
    check(&app);
}

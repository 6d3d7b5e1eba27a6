use wxtop::input::Input;

fn input(text: &str, cursor: usize) -> Input {
    Input { user_input: text.to_string(), character_index: cursor }
}

#[test]
fn typing_appends_and_moves_cursor() {
    let mut i = Input::default();
    i.enter_char('a');
    i.enter_char('b');
    i.enter_char('c');
    assert_eq!(i.user_input, "abc");
    assert_eq!(i.character_index, 3);
}

#[test]
fn typing_inserts_at_cursor() {
    let mut i = input("ac", 1);
    i.enter_char('b');
    assert_eq!(i.user_input, "abc");
    assert_eq!(i.character_index, 2);
}

#[test]
fn typing_with_cursor_past_end_appends() {
    let mut i = input("ab", 7);
    i.enter_char('c');
    assert_eq!(i.user_input, "abc");
    assert_eq!(i.character_index, 3);
}

#[test]
fn typing_between_multibyte_chars() {
    let mut i = input("é日😀", 2);
    i.enter_char('x');
    assert_eq!(i.user_input, "é日x😀");
    assert_eq!(i.character_index, 3);
}

#[test]
fn byte_index_counts_utf8_bytes() {
    assert_eq!(input("é日😀z", 0).byte_index(), 0);
    assert_eq!(input("é日😀z", 1).byte_index(), 2);
    assert_eq!(input("é日😀z", 2).byte_index(), 5);
    assert_eq!(input("é日😀z", 3).byte_index(), 9);
    assert_eq!(input("é日😀z", 4).byte_index(), 10);
    assert_eq!(input("é日😀z", 99).byte_index(), 10);
    assert_eq!(input("", 3).byte_index(), 0);
}

#[test]
fn delete_removes_char_before_cursor() {
    let mut i = input("abc", 2);
    i.delete_char();
    assert_eq!(i.user_input, "ac");
    assert_eq!(i.character_index, 1);
}

#[test]
fn delete_multibyte_char() {
    let mut i = input("é日😀", 3);
    i.delete_char();
    assert_eq!(i.user_input, "é日");
    assert_eq!(i.character_index, 2);
}

#[test]
fn delete_at_start_does_nothing() {
    let mut i = input("abc", 0);
    i.delete_char();
    assert_eq!(i.user_input, "abc");
    assert_eq!(i.character_index, 0);
}

#[test]
fn delete_with_cursor_far_past_end_keeps_text() {
    let mut i = input("abc", 9);
    i.delete_char();
    assert_eq!(i.user_input, "abc");
    assert_eq!(i.character_index, 3);
}

#[test]
fn delete_with_cursor_one_past_end_keeps_text() {
    let mut i = input("abc", 4);
    i.delete_char();
    assert_eq!(i.user_input, "abc");
    assert_eq!(i.character_index, 3);
}

#[test]
fn cursor_moves_stop_at_the_ends() {
    let mut i = input("ab", 0);
    i.move_cursor_left();
    assert_eq!(i.character_index, 0);
    i.move_cursor_right();
    i.move_cursor_right();
    i.move_cursor_right();
    assert_eq!(i.character_index, 2);
    i.move_cursor_left();
    assert_eq!(i.character_index, 1);
}

#[test]
fn cursor_at_max_moves_to_end() {
    let mut i = input("ab", usize::MAX);
    i.move_cursor_right();
    assert_eq!(i.character_index, 2);
    let mut j = input("ab", usize::MAX);
    j.move_cursor_left();
    assert_eq!(j.character_index, 2);
}

#[test]
fn clamp_cursor_limits_to_char_count() {
    let i = input("日本", 0);
    assert_eq!(i.clamp_cursor(0), 0);
    assert_eq!(i.clamp_cursor(1), 1);
    assert_eq!(i.clamp_cursor(2), 2);
    assert_eq!(i.clamp_cursor(3), 2);
    assert_eq!(i.clamp_cursor(usize::MAX), 2);
}

#[test]
fn reset_cursor_goes_to_start() {
    let mut i = input("abc", 2);
    i.reset_cursor();
    assert_eq!(i.character_index, 0);
    assert_eq!(i.user_input, "abc");
}

#[test]
fn law_delete_undoes_enter_on_values() {
    for cursor in 0..=3 {
        let mut i = input("a日c", cursor);
        i.enter_char('😀');
        i.delete_char();
        assert_eq!(i.user_input, "a日c");
        assert_eq!(i.character_index, cursor);
    }
}

#[test]
fn law_delete_undoes_enter_fails_past_end() {
    let mut i = input("", 5);
    i.enter_char('x');
    i.delete_char();
    assert_eq!(i.user_input, "");
    assert_eq!(i.character_index, 0);
}

#[test]
fn law_cursor_moves_are_inverse_on_values() {
    let mut i = input("abc", 1);
    i.move_cursor_right();
    i.move_cursor_left();
    assert_eq!(i.character_index, 1);
    let mut j = input("abc", 3);
    j.move_cursor_left();
    j.move_cursor_right();
    assert_eq!(j.character_index, 3);
}

#[test]
fn law_cursor_stays_in_text_on_values() {
    let mut i = input("ab", 40);
    i.delete_char();
    assert!(i.character_index <= i.user_input.chars().count());
    i.enter_char('z');
    assert!(i.character_index <= i.user_input.chars().count());
}

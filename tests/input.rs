use hkb::{action_for, Action, CharClass, EditEntry, Input, InputState, Key, Mode};

fn state_with(text: &str, width: u16) -> InputState {
    let input = Input::new("test");
    let mut state = InputState::default();
    state.buffer = text.chars().collect();
    input.recompute_on_resize(&mut state, width);
    state
}

fn pos(state: &InputState) -> usize {
    state.window_start() + state.cursor_column() as usize
}

fn text(state: &InputState) -> String {
    state.buffer.iter().collect()
}

#[test]
fn fresh_state_is_empty_and_unfocused() {
    let state = InputState::default();
    assert!(state.buffer.is_empty());
    assert_eq!(0, state.cursor_column());
    assert_eq!(0, state.window_start());
    assert_eq!(0, state.last_width());
    assert!(!state.is_focused());
    assert!(state.is_positioned());
}

#[test]
fn focus_and_blur_toggle_focus() {
    let mut state = InputState::default();
    state.focus();
    assert!(state.is_focused());
    state.blur();
    assert!(!state.is_focused());
}

#[test]
fn title_is_kept() {
    let input = Input::new("Note");
    assert_eq!("Note", input.title());
}

#[test]
fn jump_line_end_shows_the_last_word() {
    let input = Input::new("t");
    let mut state = state_with("hello world", 5);
    input.go_far_right(&mut state);
    assert_eq!(6, state.window_start());
    assert_eq!(4, state.cursor_column());
    let visible: String = input.trimmed_buffer(&state, 5).into_iter().collect();
    assert_eq!("world", visible);
}

#[test]
fn jump_line_end_on_short_buffer() {
    let input = Input::new("t");
    let mut state = state_with("abc", 10);
    input.go_far_right(&mut state);
    assert_eq!(0, state.window_start());
    assert_eq!(3, state.cursor_column());
}

#[test]
fn jump_line_start_is_a_fixed_point() {
    let input = Input::new("t");
    let mut state = state_with("hello world", 5);
    input.go_far_right(&mut state);
    input.go_far_left(&mut state);
    assert_eq!((0, 0), (state.window_start(), state.cursor_column()));
    input.go_far_left(&mut state);
    assert_eq!((0, 0), (state.window_start(), state.cursor_column()));
}

#[test]
fn jump_line_end_is_a_fixed_point() {
    let input = Input::new("t");
    let mut state = state_with("hello world", 5);
    input.go_far_right(&mut state);
    let first = (state.window_start(), state.cursor_column());
    input.go_far_right(&mut state);
    assert_eq!(first, (state.window_start(), state.cursor_column()));
}

#[test]
fn insert_between_characters_advances() {
    let input = Input::new("t");
    let mut state = state_with("ab", 10);
    input.go_right(&mut state);
    assert_eq!(1, pos(&state));
    let mode = input.handle_key(&mut state, Mode::Editing, Key::Char('x'));
    assert_eq!(Mode::Editing, mode);
    assert_eq!("axb", text(&state));
    assert_eq!(2, pos(&state));
}

#[test]
fn insert_on_last_column_scrolls() {
    let input = Input::new("t");
    let mut state = state_with("abcdefghij", 5);
    input.go_far_left(&mut state);
    for _ in 0..4 {
        input.go_right(&mut state);
    }
    assert_eq!(4, state.cursor_column());
    input.insert_char(&mut state, 'x');
    assert_eq!("abcdxefghij", text(&state));
    assert_eq!(5, pos(&state));
    assert_eq!(1, state.window_start());
    assert_eq!(4, state.cursor_column());
}

#[test]
fn backspace_on_empty_buffer_changes_nothing() {
    let input = Input::new("t");
    let mut state = state_with("", 5);
    let mode = input.handle_key(&mut state, Mode::Editing, Key::Backspace);
    assert_eq!(Mode::Editing, mode);
    assert!(state.buffer.is_empty());
    assert_eq!((0, 0), (state.window_start(), state.cursor_column()));
}

#[test]
fn backspace_removes_previous_character() {
    let input = Input::new("t");
    let mut state = state_with("abc", 10);
    input.go_far_right(&mut state);
    input.delete_back(&mut state);
    assert_eq!("ab", text(&state));
    assert_eq!(2, pos(&state));
}

#[test]
fn backspace_at_first_column_scrolls_back() {
    let input = Input::new("t");
    let mut state = state_with("hello world", 5);
    input.go_far_right(&mut state);
    for _ in 0..4 {
        input.go_left(&mut state);
    }
    assert_eq!((6, 0), (state.window_start(), state.cursor_column()));
    input.delete_back(&mut state);
    assert_eq!("helloworld", text(&state));
    assert_eq!((5, 0), (state.window_start(), state.cursor_column()));
}

#[test]
fn end_of_word_walks_words() {
    let input = Input::new("t");
    let mut state = state_with("foo bar", 20);
    input.go_end_of_word(&mut state);
    assert_eq!(2, pos(&state));
    input.go_end_of_word(&mut state);
    assert_eq!(6, pos(&state));
}

#[test]
fn end_of_word_stops_at_punctuation() {
    let input = Input::new("t");
    let mut state = state_with("ab,,cd", 20);
    input.go_end_of_word(&mut state);
    assert_eq!(1, pos(&state));
    input.go_end_of_word(&mut state);
    assert_eq!(3, pos(&state));
    input.go_end_of_word(&mut state);
    assert_eq!(5, pos(&state));
}

#[test]
fn end_of_word_scrolls_the_window() {
    let input = Input::new("t");
    let mut state = state_with("ab cdefghij", 4);
    input.go_end_of_word(&mut state);
    assert_eq!((0, 1), (state.window_start(), state.cursor_column()));
    input.go_end_of_word(&mut state);
    assert_eq!(10, pos(&state));
    assert_eq!((7, 3), (state.window_start(), state.cursor_column()));
}

#[test]
fn back_word_stops_before_the_word() {
    let input = Input::new("t");
    let mut state = state_with("foo bar", 20);
    input.go_far_right(&mut state);
    assert_eq!(7, pos(&state));
    input.go_back_word(&mut state);
    assert_eq!(3, pos(&state));
    input.go_back_word(&mut state);
    assert_eq!(0, pos(&state));
}

#[test]
fn back_word_left_of_window_moves_window() {
    let input = Input::new("t");
    let mut state = state_with("abc defghijk", 4);
    input.go_far_right(&mut state);
    assert_eq!((8, 3), (state.window_start(), state.cursor_column()));
    input.go_back_word(&mut state);
    assert_eq!((3, 0), (state.window_start(), state.cursor_column()));
}

#[test]
fn move_left_at_start_is_a_no_op() {
    let input = Input::new("t");
    let mut state = state_with("abc", 10);
    input.go_left(&mut state);
    assert_eq!((0, 0), (state.window_start(), state.cursor_column()));
}

#[test]
fn move_right_at_end_is_a_no_op() {
    let input = Input::new("t");
    let mut state = state_with("abc", 10);
    input.go_far_right(&mut state);
    input.go_right(&mut state);
    assert_eq!(3, pos(&state));
    assert_eq!(3, state.cursor_column());
}

#[test]
fn move_right_scrolls_at_last_column() {
    let input = Input::new("t");
    let mut state = state_with("abcdefgh", 3);
    input.go_right(&mut state);
    input.go_right(&mut state);
    assert_eq!((0, 2), (state.window_start(), state.cursor_column()));
    input.go_right(&mut state);
    assert_eq!((1, 2), (state.window_start(), state.cursor_column()));
}

fn shrunk_state(input: &Input) -> InputState {
    let mut state = state_with("abcdefghijklmnopqrstuvwxy", 10);
    input.go_far_right(&mut state);
    assert_eq!((15, 9), (state.window_start(), state.cursor_column()));
    for _ in 0..5 {
        input.delete_back(&mut state);
    }
    assert_eq!(20, state.buffer.len());
    input.go_right(&mut state);
    assert_eq!((15, 5), (state.window_start(), state.cursor_column()));
    input.recompute_on_resize(&mut state, 5);
    assert_eq!(5, state.cursor_column());
    state
}

#[test]
fn move_left_after_shrink_reclamps() {
    let input = Input::new("t");
    let mut state = shrunk_state(&input);
    input.go_left(&mut state);
    assert!(state.cursor_column() < 5);
    assert_eq!(19, pos(&state));
    assert_eq!((16, 3), (state.window_start(), state.cursor_column()));
}

#[test]
fn move_right_after_shrink_reclamps() {
    let input = Input::new("t");
    let mut state = shrunk_state(&input);
    input.go_right(&mut state);
    assert!(state.cursor_column() < 5);
    assert_eq!(20, pos(&state));
    assert_eq!((16, 4), (state.window_start(), state.cursor_column()));
}

#[test]
fn char_classes() {
    let input = Input::new("t");
    let chars: Vec<char> = "a ,\t".chars().collect();
    assert_eq!(CharClass::Word, input.get_char_class(0, &chars));
    assert_eq!(CharClass::Whitespace, input.get_char_class(1, &chars));
    assert_eq!(CharClass::Punctuation, input.get_char_class(2, &chars));
    assert_eq!(CharClass::Whitespace, input.get_char_class(3, &chars));
    assert_eq!(CharClass::OutOfBounds, input.get_char_class(4, &chars));
}

#[test]
fn max_right_cursor_position() {
    let input = Input::new("t");
    let state = state_with("abc", 10);
    assert_eq!(3, input.get_max_right_cursor_pos(&state));
    let state = state_with("abcdefghijkl", 10);
    assert_eq!(9, input.get_max_right_cursor_pos(&state));
    let state = state_with("abc", 0);
    assert_eq!(0, input.get_max_right_cursor_pos(&state));
}

#[test]
fn bindings_in_navigation() {
    assert_eq!(Some(Action::MoveLeft), action_for(Mode::Navigation, false, Key::Char('h')));
    assert_eq!(Some(Action::MoveRight), action_for(Mode::Navigation, false, Key::Char('l')));
    assert_eq!(Some(Action::JumpStart), action_for(Mode::Navigation, false, Key::Char('^')));
    assert_eq!(Some(Action::JumpEnd), action_for(Mode::Navigation, false, Key::Char('$')));
    assert_eq!(Some(Action::WordForward), action_for(Mode::Navigation, false, Key::Char('e')));
    assert_eq!(Some(Action::WordBack), action_for(Mode::Navigation, false, Key::Char('b')));
    assert_eq!(None, action_for(Mode::Navigation, false, Key::Char('i')));
    assert_eq!(
        Some(Action::EnterEditing(EditEntry::InPlace)),
        action_for(Mode::Navigation, true, Key::Char('i'))
    );
    assert_eq!(
        Some(Action::EnterEditing(EditEntry::AtLineEnd)),
        action_for(Mode::Navigation, true, Key::Char('A'))
    );
    assert_eq!(None, action_for(Mode::Navigation, true, Key::Backspace));
    assert_eq!(Some(Action::Cancel), action_for(Mode::Navigation, false, Key::Esc));
}

#[test]
fn bindings_in_editing() {
    assert_eq!(Some(Action::InsertChar('h')), action_for(Mode::Editing, true, Key::Char('h')));
    assert_eq!(Some(Action::MoveLeft), action_for(Mode::Editing, true, Key::Left));
    assert_eq!(Some(Action::MoveRight), action_for(Mode::Editing, true, Key::Right));
    assert_eq!(Some(Action::DeleteBack), action_for(Mode::Editing, true, Key::Backspace));
    assert_eq!(Some(Action::Cancel), action_for(Mode::Editing, false, Key::Esc));
}

#[test]
fn entering_editing_after_cursor() {
    let input = Input::new("t");
    let mut state = state_with("ab", 10);
    state.focus();
    let mode = input.handle_key(&mut state, Mode::Navigation, Key::Char('a'));
    assert_eq!(Mode::Editing, mode);
    assert_eq!(1, pos(&state));
    let mode = input.handle_key(&mut state, Mode::Navigation, Key::Char('I'));
    assert_eq!(Mode::Editing, mode);
    assert_eq!(0, pos(&state));
}

#[test]
fn unfocused_widget_does_not_enter_editing() {
    let input = Input::new("t");
    let mut state = state_with("ab", 10);
    let mode = input.handle_key(&mut state, Mode::Navigation, Key::Char('A'));
    assert_eq!(Mode::Navigation, mode);
    assert_eq!(0, pos(&state));
}

#[test]
fn update_applies_keys_in_order() {
    let input = Input::new("t");
    let mut state = state_with("", 10);
    state.focus();
    let keys = vec![
        Key::Char('i'),
        Key::Char('h'),
        Key::Char('i'),
        Key::Left,
        Key::Char('x'),
        Key::Esc,
        Key::Char('l'),
    ];
    let mode = input.update(&mut state, Mode::Navigation, &keys);
    assert_eq!(Mode::Navigation, mode);
    assert_eq!("hxi", text(&state));
    assert_eq!(3, pos(&state));
}

#[test]
fn render_projects_visible_text_and_caret() {
    let input = Input::new("t");
    let mut state = state_with("hello world", 0);
    state.focus();
    let keys = vec![Key::Char('$')];
    let out = input.render(&mut state, Mode::Navigation, &keys, 0, 0, 5);
    assert_eq!(Mode::Navigation, out.mode);
    assert_eq!(5, state.last_width());
    let out = input.render(&mut state, out.mode, &keys, 2, 3, 5);
    assert_eq!((6, 4), (state.window_start(), state.cursor_column()));
    let visible: String = out.visible.into_iter().collect();
    assert_eq!("world", visible);
    assert_eq!(Some((6, 3)), out.caret);
}

#[test]
fn render_without_focus_ignores_keys() {
    let input = Input::new("t");
    let mut state = state_with("hello", 3);
    let keys = vec![Key::Char('$')];
    let out = input.render(&mut state, Mode::Navigation, &keys, 0, 0, 3);
    assert_eq!((0, 0), (state.window_start(), state.cursor_column()));
    let visible: String = out.visible.into_iter().collect();
    assert_eq!("hel", visible);
    assert_eq!(None, out.caret);
}

use thndrs_ui::state::input::InputState;

#[test]
fn input_test_input_state() {
    let mut input = InputState::new();

    input.insert_char('H');
    assert_eq!(input.buffer, "H");
    assert_eq!(input.cursor, 1);

    input.insert_char('i');
    assert_eq!(input.buffer, "Hi");
    assert_eq!(input.cursor, 2);

    input.backspace();
    assert_eq!(input.buffer, "H");
    assert_eq!(input.cursor, 1);

    input.move_home();
    assert_eq!(input.cursor, 0);

    input.move_end();
    assert_eq!(input.cursor, 1);

    let taken = input.take();
    assert_eq!(taken, "H");
    assert_eq!(input.buffer, "");
    assert_eq!(input.cursor, 0);
}

#[test]
fn input_test_input_state_navigation() {
    let mut input = InputState::new();

    input.insert_char('A');
    input.insert_char('B');
    input.insert_char('C');

    assert_eq!(input.buffer, "ABC");
    assert_eq!(input.cursor, 3);

    input.move_left();
    assert_eq!(input.cursor, 2);

    input.move_left();
    assert_eq!(input.cursor, 1);

    input.insert_char('X');
    assert_eq!(input.buffer, "AXBC");
    assert_eq!(input.cursor, 2);

    input.delete();
    assert_eq!(input.buffer, "AXC");
    assert_eq!(input.cursor, 2);
}

#[test]
fn input_test_input_state_history_navigation() {
    let mut input = InputState::new();

    input.navigate_up();
    input.navigate_down();
    assert_eq!(input.buffer, "");
    assert!(input.history_index.is_none());

    input.add_to_history("first message".to_string());
    input.add_to_history("second message".to_string());
    input.add_to_history("third message".to_string());

    input.buffer = "current new message".to_string();
    input.cursor = input.buffer.len();

    input.navigate_up();
    assert_eq!(input.buffer, "third message");
    assert_eq!(input.history_index, Some(2));
    assert_eq!(input.temp_buffer, Some("current new message".to_string()));

    input.navigate_up();
    assert_eq!(input.buffer, "second message");
    assert_eq!(input.history_index, Some(1));

    input.navigate_up();
    assert_eq!(input.buffer, "first message");
    assert_eq!(input.history_index, Some(0));

    input.navigate_up();
    assert_eq!(input.buffer, "first message");
    assert_eq!(input.history_index, Some(0));

    input.navigate_down();
    assert_eq!(input.buffer, "second message");
    assert_eq!(input.history_index, Some(1));

    input.navigate_down();
    assert_eq!(input.buffer, "third message");
    assert_eq!(input.history_index, Some(2));

    input.navigate_down();
    assert_eq!(input.buffer, "current new message");
    assert_eq!(input.history_index, None);
    assert_eq!(input.temp_buffer, None);

    input.navigate_down();
    assert_eq!(input.buffer, "current new message");
    assert_eq!(input.history_index, None);
}

#[test]
fn input_test_input_state_history_without_temp_buffer() {
    let mut input = InputState::new();

    input.add_to_history("single message".to_string());
    input.navigate_up();

    assert_eq!(input.buffer, "single message");
    assert_eq!(input.history_index, Some(0));
    assert!(input.temp_buffer.is_none());

    input.navigate_down();
    assert_eq!(input.buffer, "");
    assert_eq!(input.history_index, None);
}

#[test]
fn input_test_input_state_add_to_history_prevents_duplicates() {
    let mut input = InputState::new();

    input.add_to_history("test message".to_string());
    input.add_to_history("test message".to_string());
    input.add_to_history("different message".to_string());

    assert_eq!(input.message_history.len(), 2);
    assert_eq!(input.message_history[0], "test message");
    assert_eq!(input.message_history[1], "different message");
}

#[test]
fn input_test_input_state_reset_history_navigation() {
    let mut input = InputState::new();

    input.add_to_history("message".to_string());

    input.buffer = "current message".to_string();
    input.navigate_up();
    assert!(input.is_navigating_history());
    assert!(input.temp_buffer.is_some());

    input.reset_history_navigation();
    assert!(!input.is_navigating_history());
    assert!(input.temp_buffer.is_none());
}

#[test]
fn input_test_input_state_history_position() {
    let mut input = InputState::new();

    assert!(input.history_position().is_none());

    input.add_to_history("first".to_string());
    input.add_to_history("second".to_string());
    input.add_to_history("third".to_string());

    input.navigate_up();
    assert_eq!(input.history_position(), Some("3/3".to_string()));

    input.navigate_up();
    assert_eq!(input.history_position(), Some("2/3".to_string()));

    input.navigate_up();
    assert_eq!(input.history_position(), Some("1/3".to_string()));

    input.navigate_down();
    assert_eq!(input.history_position(), Some("2/3".to_string()));

    input.navigate_down();
    assert_eq!(input.history_position(), Some("3/3".to_string()));

    input.navigate_down();
    assert!(input.history_position().is_none());
}

#[test]
fn input_test_input_state_edit_history_message() {
    let mut input = InputState::new();

    input.add_to_history("original message".to_string());
    input.navigate_up();

    input.buffer = "modified message".to_string();
    input.cursor = input.buffer.len();

    let sent = input.take();
    assert_eq!(sent, "modified message");

    input.add_to_history(sent);
    assert_eq!(input.message_history.last(), Some(&"modified message".to_string()));
}

#[test]
fn test_input_state_fork_mode_enter_exit() {
    let mut input = InputState::new();

    input.add_to_history("msg1".to_string());
    input.add_to_history("msg2".to_string());
    input.navigate_up();

    assert_eq!(input.history_index, Some(1));
    assert!(!input.is_fork_mode);

    input.enter_fork_mode();

    assert!(input.is_fork_mode);
    assert_eq!(input.fork_point_index, Some(1));

    input.exit_fork_mode();

    assert!(!input.is_fork_mode);
    assert!(input.fork_point_index.is_none());
}

#[test]
fn test_input_state_fork_mode_requires_history_index() {
    let mut input = InputState::new();
    input.enter_fork_mode();
    assert!(!input.is_fork_mode);
    assert!(input.fork_point_index.is_none());
}

#[test]
fn test_input_state_replace_history_entry() {
    let mut input = InputState::new();

    input.add_to_history("first".to_string());
    input.add_to_history("second".to_string());
    input.add_to_history("third".to_string());

    let old = input.replace_history_entry(1, "second-edited".to_string());
    assert_eq!(old, Some("second".to_string()));
    assert_eq!(input.message_history[1], "second-edited");
}

#[test]
fn test_input_state_replace_history_entry_out_of_bounds() {
    let mut input = InputState::new();

    input.add_to_history("msg".to_string());
    let result = input.replace_history_entry(5, "new".to_string());
    assert!(result.is_none());
    assert_eq!(input.message_history.len(), 1);
}

#[test]
fn test_input_state_truncate_history_from() {
    let mut input = InputState::new();

    input.add_to_history("m1".to_string());
    input.add_to_history("m2".to_string());
    input.add_to_history("m3".to_string());
    input.add_to_history("m4".to_string());

    assert_eq!(input.message_history.len(), 4);

    input.truncate_history_from(1);

    assert_eq!(input.message_history.len(), 2);
    assert_eq!(input.message_history[0], "m1");
    assert_eq!(input.message_history[1], "m2");
}

#[test]
fn test_input_state_take_with_history_update_in_fork_mode() {
    let mut input = InputState::new();

    input.add_to_history("original".to_string());
    input.navigate_up();

    input.enter_fork_mode();
    input.buffer = "edited".to_string();

    let taken = input.take_with_history_update();

    assert_eq!(taken, "edited");
    assert!(!input.is_fork_mode);
    assert_eq!(input.message_history[0], "edited");
}

#[test]
fn test_input_state_take_normal_mode() {
    let mut input = InputState::new();

    input.buffer = "test message".to_string();
    input.cursor = 12;

    assert!(!input.is_fork_mode);

    let taken = input.take_with_history_update();

    assert_eq!(taken, "test message");
    assert!(!input.is_fork_mode);
    assert!(input.fork_point_index.is_none());
}

#[test]
fn state_test_input_state() {
    let mut input = InputState::new();

    input.insert_char('H');
    assert_eq!(input.buffer, "H");
    assert_eq!(input.cursor, 1);

    input.insert_char('i');
    assert_eq!(input.buffer, "Hi");
    assert_eq!(input.cursor, 2);

    input.backspace();
    assert_eq!(input.buffer, "H");
    assert_eq!(input.cursor, 1);

    input.move_home();
    assert_eq!(input.cursor, 0);

    input.move_end();
    assert_eq!(input.cursor, 1);

    let taken = input.take();
    assert_eq!(taken, "H");
    assert_eq!(input.buffer, "");
    assert_eq!(input.cursor, 0);
}

#[test]
fn state_test_input_state_navigation() {
    let mut input = InputState::new();

    input.insert_char('A');
    input.insert_char('B');
    input.insert_char('C');

    assert_eq!(input.buffer, "ABC");
    assert_eq!(input.cursor, 3);

    input.move_left();
    assert_eq!(input.cursor, 2);

    input.move_left();
    assert_eq!(input.cursor, 1);

    input.insert_char('X');
    assert_eq!(input.buffer, "AXBC");
    assert_eq!(input.cursor, 2);

    input.delete();
    assert_eq!(input.buffer, "AXC");
    assert_eq!(input.cursor, 2);
}

#[test]
fn state_test_input_state_history_navigation() {
    let mut input = InputState::new();

    input.navigate_up();
    input.navigate_down();
    assert_eq!(input.buffer, "");
    assert!(input.history_index.is_none());

    input.add_to_history("first message".to_string());
    input.add_to_history("second message".to_string());
    input.add_to_history("third message".to_string());

    input.buffer = "current new message".to_string();
    input.cursor = input.buffer.len();

    input.navigate_up();
    assert_eq!(input.buffer, "third message");
    assert_eq!(input.history_index, Some(2));
    assert_eq!(input.temp_buffer, Some("current new message".to_string()));

    input.navigate_up();
    assert_eq!(input.buffer, "second message");
    assert_eq!(input.history_index, Some(1));

    input.navigate_up();
    assert_eq!(input.buffer, "first message");
    assert_eq!(input.history_index, Some(0));

    input.navigate_up();
    assert_eq!(input.buffer, "first message");
    assert_eq!(input.history_index, Some(0));

    input.navigate_down();
    assert_eq!(input.buffer, "second message");
    assert_eq!(input.history_index, Some(1));

    input.navigate_down();
    assert_eq!(input.buffer, "third message");
    assert_eq!(input.history_index, Some(2));

    input.navigate_down();
    assert_eq!(input.buffer, "current new message");
    assert_eq!(input.history_index, None);
    assert_eq!(input.temp_buffer, None);

    input.navigate_down();
    assert_eq!(input.buffer, "current new message");
    assert_eq!(input.history_index, None);
}

#[test]
fn state_test_input_state_history_without_temp_buffer() {
    let mut input = InputState::new();

    input.add_to_history("single message".to_string());
    input.navigate_up();

    assert_eq!(input.buffer, "single message");
    assert_eq!(input.history_index, Some(0));
    assert!(input.temp_buffer.is_none());

    input.navigate_down();
    assert_eq!(input.buffer, "");
    assert_eq!(input.history_index, None);
}

#[test]
fn state_test_input_state_add_to_history_prevents_duplicates() {
    let mut input = InputState::new();

    input.add_to_history("test message".to_string());
    input.add_to_history("test message".to_string()); // Duplicate
    input.add_to_history("different message".to_string());

    assert_eq!(input.message_history.len(), 2);
    assert_eq!(input.message_history[0], "test message");
    assert_eq!(input.message_history[1], "different message");
}

#[test]
fn state_test_input_state_reset_history_navigation() {
    let mut input = InputState::new();

    input.add_to_history("message".to_string());

    input.buffer = "current message".to_string();
    input.navigate_up();
    assert!(input.is_navigating_history());
    assert!(input.temp_buffer.is_some());

    input.reset_history_navigation();
    assert!(!input.is_navigating_history());
    assert!(input.temp_buffer.is_none());
}

#[test]
fn state_test_input_state_history_position() {
    let mut input = InputState::new();

    assert!(input.history_position().is_none());

    input.add_to_history("first".to_string());
    input.add_to_history("second".to_string());
    input.add_to_history("third".to_string());

    input.navigate_up();
    assert_eq!(input.history_position(), Some("3/3".to_string()));

    input.navigate_up();
    assert_eq!(input.history_position(), Some("2/3".to_string()));

    input.navigate_up();
    assert_eq!(input.history_position(), Some("1/3".to_string()));

    input.navigate_down();
    assert_eq!(input.history_position(), Some("2/3".to_string()));

    input.navigate_down();
    assert_eq!(input.history_position(), Some("3/3".to_string()));

    input.navigate_down(); // Back to new message
    assert!(input.history_position().is_none());
}

#[test]
fn state_test_input_state_edit_history_message() {
    let mut input = InputState::new();

    input.add_to_history("original message".to_string());
    input.navigate_up();

    input.buffer = "modified message".to_string();
    input.cursor = input.buffer.len();

    let sent = input.take();
    assert_eq!(sent, "modified message");

    input.add_to_history(sent);
    assert_eq!(input.message_history.last(), Some(&"modified message".to_string()));
}

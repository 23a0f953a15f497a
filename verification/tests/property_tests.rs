use line_input::char_idx_to_byte_idx;
use line_input::InputState;
use line_input::Message;
use line_input::ViewWindow;

#[test]
fn focus_twice_equals_once() {
    let mut once = InputState::default();
    once.handle_message(Message::Focus);
    let mut twice = InputState::default();
    twice.handle_message(Message::Focus);
    twice.handle_message(Message::Focus);
    assert_eq!(once, twice);

    once.handle_message(Message::RemoveFocus);
    twice.handle_message(Message::RemoveFocus);
    twice.handle_message(Message::RemoveFocus);
    assert_eq!(once, twice);
}

#[test]
fn toggle_mode_twice_restores_mode() {
    let mut state = InputState::default();
    let before = state.insert_mode;
    state.handle_message(Message::ToggleInsertMode);
    state.handle_message(Message::ToggleInsertMode);
    assert_eq!(state.insert_mode, before);
}

#[test]
fn cursor_stays_in_bounds() {
    let mut state = InputState::default();
    let messages = [
        Message::Char('ž'),
        Message::Char('🐈'),
        Message::MoveLeft,
        Message::MoveLeft,
        Message::MoveLeft,
        Message::Paste(String::from("đš")),
        Message::JumpToEnd,
        Message::MoveRight,
        Message::DeleteBeforeCursor,
        Message::JumpToStart,
        Message::DeleteOnCursor,
        Message::MoveRightWithSelection,
        Message::CutToClipboard,
    ];
    for msg in messages {
        state.handle_message(msg);
        let len = state.text().chars().count();
        assert!(state.cursor_char_idx() <= len);
    }
}

#[test]
fn non_extending_operations_clear_selection() {
    let non_extending = [
        Message::DeleteOnCursor,
        Message::DeleteBeforeCursor,
        Message::MoveLeft,
        Message::MoveRight,
        Message::JumpToStart,
        Message::JumpToEnd,
        Message::Char('x'),
        Message::Paste(String::from("yz")),
        Message::CutToClipboard,
    ];
    for msg in non_extending {
        let mut state = InputState {
            value: String::from("foo bar"),
            cursor_char_idx: 4,
            selection_start_char_idx: Some(2),
            ..Default::default()
        };
        state.handle_message(msg);
        assert!(state.selection().is_none());
    }
}

#[test]
fn round_trip_insert_select_delete() {
    let mut state = InputState {
        value: String::from("ab"),
        cursor_char_idx: 2,
        ..Default::default()
    };

    state.handle_message(Message::Paste(String::from("žđ")));
    assert_eq!(state.text(), "abžđ");
    assert_eq!(state.cursor_char_idx(), 4);

    // Select exactly the two inserted code points.
    state.handle_message(Message::MoveLeftWithSelection);
    state.handle_message(Message::MoveLeftWithSelection);
    assert_eq!(state.selection().unwrap().text, "žđ");

    state.handle_message(Message::DeleteOnCursor);
    assert_eq!(state.text(), "ab");
    assert_eq!(state.cursor_char_idx(), 2);
}

#[test]
fn boundary_moves_are_noops() {
    let at_end = InputState {
        value: String::from("žđ"),
        cursor_char_idx: 2,
        ..Default::default()
    };
    let mut state = InputState {
        value: String::from("žđ"),
        cursor_char_idx: 2,
        ..Default::default()
    };
    state.handle_message(Message::MoveRight);
    assert_eq!(state, at_end);

    let at_start = InputState {
        value: String::from("žđ"),
        ..Default::default()
    };
    let mut state = InputState {
        value: String::from("žđ"),
        ..Default::default()
    };
    state.handle_message(Message::MoveLeft);
    assert_eq!(state, at_start);
}

#[test]
fn end_to_end_scenario() {
    let mut state = InputState::default();

    state.handle_message(Message::Char('0'));
    state.handle_message(Message::Char('1'));
    assert_eq!(state.text(), "01");
    assert_eq!(state.cursor_char_idx(), 2);

    state.handle_message(Message::MoveLeftWithSelection);
    state.handle_message(Message::MoveLeftWithSelection);
    let selection = state.selection().unwrap();
    assert_eq!(selection.char_range, 0..2);
    assert_eq!(state.cursor_char_idx(), 0);

    state.handle_message(Message::DeleteOnCursor);
    assert_eq!(state.text(), "");
    assert_eq!(state.cursor_char_idx(), 0);
    assert!(state.selection().is_none());
}

#[test]
fn selection_reports_char_and_byte_ranges() {
    let state = InputState {
        value: String::from("žđšćč🐈🐨🐓"),
        cursor_char_idx: 6,
        selection_start_char_idx: Some(5),
        ..Default::default()
    };

    let selection = state.selection().unwrap();
    assert_eq!(selection.char_range, 5..7);
    // The first five code points take two bytes each, the cats four.
    assert_eq!(selection.byte_range, 10..18);
    assert_eq!(selection.text, "🐈🐨");
}

#[test]
fn byte_index_walks_code_points() {
    let text = "žđšćč🐈🐨🐓";
    assert_eq!(char_idx_to_byte_idx(text, 0), 0);
    assert_eq!(char_idx_to_byte_idx(text, 1), 2);
    assert_eq!(char_idx_to_byte_idx(text, 5), 10);
    assert_eq!(char_idx_to_byte_idx(text, 6), 14);
    assert_eq!(char_idx_to_byte_idx(text, 8), 22);
    assert_eq!(char_idx_to_byte_idx(text, 99), 22);
    assert_eq!(char_idx_to_byte_idx("plain", 3), 3);
}

#[test]
fn clipboard_text_prefers_selection() {
    let state = InputState {
        value: String::from("foo bar"),
        cursor_char_idx: 4,
        selection_start_char_idx: Some(2),
        ..Default::default()
    };
    assert_eq!(state.clipboard_text(), "o b");

    let state = InputState {
        value: String::from("foo bar"),
        cursor_char_idx: 4,
        ..Default::default()
    };
    assert_eq!(state.clipboard_text(), "foo bar");
}

#[test]
fn copy_leaves_state_unchanged() {
    let before = InputState {
        value: String::from("foo bar"),
        cursor_char_idx: 4,
        selection_start_char_idx: Some(2),
        ..Default::default()
    };
    let mut state = InputState {
        value: String::from("foo bar"),
        cursor_char_idx: 4,
        selection_start_char_idx: Some(2),
        ..Default::default()
    };
    state.handle_message(Message::CopyToClipboard);
    assert_eq!(state, before);
}

#[test]
fn cut_removes_selection_or_everything() {
    let mut state = InputState {
        value: String::from("foo bar"),
        cursor_char_idx: 4,
        selection_start_char_idx: Some(2),
        ..Default::default()
    };
    state.handle_message(Message::CutToClipboard);
    assert_eq!(state.text(), "foar");
    assert_eq!(state.cursor_char_idx(), 2);
    assert!(state.selection().is_none());

    let mut state = InputState {
        value: String::from("foo bar"),
        cursor_char_idx: 4,
        view_window: ViewWindow {
            width: 3,
            offset: 2,
        },
        ..Default::default()
    };
    state.handle_message(Message::CutToClipboard);
    assert_eq!(state.text(), "");
    assert_eq!(state.cursor_char_idx(), 0);
    assert_eq!(state.view_window.offset, 0);
}

#[test]
fn extend_right_at_end_is_noop() {
    let before = InputState {
        value: String::from("žđ"),
        cursor_char_idx: 2,
        ..Default::default()
    };
    let mut state = InputState {
        value: String::from("žđ"),
        cursor_char_idx: 2,
        ..Default::default()
    };
    state.handle_message(Message::MoveRightWithSelection);
    assert_eq!(state, before);
}

#[test]
fn extend_left_from_end_selects_last_character() {
    let mut state = InputState {
        value: String::from("žđ"),
        cursor_char_idx: 2,
        ..Default::default()
    };
    state.handle_message(Message::MoveLeftWithSelection);
    assert_eq!(state.cursor_char_idx(), 1);
    assert_eq!(state.selection().unwrap().text, "đ");
}

#[test]
fn overwrite_replaces_code_point_under_cursor() {
    let mut state = InputState {
        value: String::from("a🐈c"),
        cursor_char_idx: 1,
        insert_mode: true,
        ..Default::default()
    };
    state.handle_message(Message::Char('b'));
    assert_eq!(state.text(), "abc");
    assert_eq!(state.cursor_char_idx(), 2);
}

use line_input::InputState;
use line_input::Message;
use line_input::ViewWindow;

fn rendered(state: &InputState, mask: Option<char>) -> String {
    state.visible_cells(mask).iter().map(|cell| cell.symbol).collect()
}

fn cursor_column(state: &InputState) -> Option<usize> {
    state.visible_cells(None).iter().position(|cell| cell.on_cursor)
}

#[test]
fn view_window_increase() {
    let mut state = InputState::default();

    state.resize_view(10);

    assert_eq!(
        state.view_window,
        ViewWindow {
            width: 10,
            offset: 0
        }
    )
}

#[test]
fn cursor_highlight() {
    let mut state = InputState::default();

    state.resize_view(5);

    let cells = state.visible_cells(None);
    assert_eq!(rendered(&state, None), "     ");
    assert_eq!(cursor_column(&state), Some(0));
    assert!(cells.iter().all(|cell| !cell.selected));
}

#[test]
fn autoscroll_moving_right_on_paste() {
    let mut state = InputState::default();

    state.handle_message(Message::Paste(String::from("foo bar")));

    state.resize_view(5);

    assert_eq!(state.text(), "foo bar");
    assert_eq!(
        state.view_window,
        ViewWindow {
            width: 5,
            offset: 3
        }
    );
    assert_eq!(rendered(&state, None), " bar ");
    assert_eq!(cursor_column(&state), Some(4));
}

#[test]
fn autoscrolling_moving_right_on_input() {
    let mut state = InputState::default();

    state.handle_message(Message::Char('f'));
    state.handle_message(Message::Char('o'));
    state.handle_message(Message::Char('o'));
    state.handle_message(Message::Char(' '));
    state.handle_message(Message::Char('b'));
    state.handle_message(Message::Char('a'));
    state.handle_message(Message::Char('r'));

    state.resize_view(5);

    assert_eq!(state.text(), "foo bar");
    assert_eq!(state.cursor_char_idx(), 7);
    assert_eq!(
        state.view_window,
        ViewWindow {
            width: 5,
            offset: 3
        }
    );
    assert_eq!(rendered(&state, None), " bar ");
    assert_eq!(cursor_column(&state), Some(4));
}

#[test]
fn view_window_shrink_to_cursor() {
    // An 11-code-point buffer seen through a window of width 7 at offset 3,
    // cursor at index 9: shrinking to width 5 must land the right edge just
    // past the cursor, so the cursor is the rightmost visible column.
    let mut state = InputState {
        value: String::from("0123456789a"),
        cursor_char_idx: 9,
        view_window: ViewWindow {
            width: 7,
            offset: 3,
        },
        ..Default::default()
    };

    state.resize_view(5);

    assert_eq!(
        state.view_window,
        ViewWindow {
            width: 5,
            offset: 5
        }
    );
    assert_eq!(cursor_column(&state), Some(4));
}

#[test]
fn view_window_grow_reveals_left_first() {
    let mut state = InputState {
        value: String::from("0123456789a"),
        cursor_char_idx: 9,
        view_window: ViewWindow {
            width: 3,
            offset: 7,
        },
        ..Default::default()
    };

    state.resize_view(6);

    // Growth by 3 is first taken from the left.
    assert_eq!(
        state.view_window,
        ViewWindow {
            width: 6,
            offset: 4
        }
    );
}

#[test]
fn contains_covers_exactly_the_window() {
    let window = ViewWindow {
        width: 3,
        offset: 2,
    };
    assert!(!window.contains(1));
    assert!(window.contains(2));
    assert!(window.contains(4));
    assert!(!window.contains(5));
}

#[test]
fn resize_to_same_width_changes_nothing() {
    let mut state = InputState {
        value: String::from("0123456789a"),
        cursor_char_idx: 5,
        view_window: ViewWindow {
            width: 4,
            offset: 3,
        },
        ..Default::default()
    };
    state.resize_view(4);
    assert_eq!(
        state.view_window,
        ViewWindow {
            width: 4,
            offset: 3
        }
    );
}

#[test]
fn shrink_near_start_stops_at_offset_zero() {
    // Cursor at index 1, shrinking to width 4: the right edge cannot land at
    // cursor + 1 without a negative offset, so the window starts at 0.
    let mut state = InputState {
        value: String::from("0123456789a"),
        cursor_char_idx: 1,
        view_window: ViewWindow {
            width: 6,
            offset: 0,
        },
        ..Default::default()
    };
    state.resize_view(4);
    assert_eq!(
        state.view_window,
        ViewWindow {
            width: 4,
            offset: 0
        }
    );
}

#[test]
fn window_from_range() {
    assert_eq!(
        ViewWindow::from(2..5),
        ViewWindow {
            width: 3,
            offset: 2
        }
    );
    assert_eq!(
        ViewWindow::from(5..2),
        ViewWindow {
            width: 0,
            offset: 5
        }
    );
}

#[test]
fn masking_hides_text_but_not_cursor() {
    let mut state = InputState {
        value: String::from("secret"),
        cursor_char_idx: 2,
        selection_start_char_idx: Some(4),
        view_window: ViewWindow {
            width: 8,
            offset: 0,
        },
        ..Default::default()
    };
    state.resize_view(8);

    assert_eq!(rendered(&state, Some('*')), "******  ");
    assert_eq!(cursor_column(&state), Some(2));

    // Masking leaves the selection highlighting untouched: code points 2..=4.
    let masked = state.visible_cells(Some('*'));
    let plain = state.visible_cells(None);
    for (m, p) in masked.iter().zip(plain.iter()) {
        assert_eq!(m.selected, p.selected);
        assert_eq!(m.on_cursor, p.on_cursor);
    }
    let selected: Vec<usize> = plain
        .iter()
        .enumerate()
        .filter(|(_, cell)| cell.selected)
        .map(|(i, _)| i)
        .collect();
    assert_eq!(selected, vec![2, 3, 4]);
}

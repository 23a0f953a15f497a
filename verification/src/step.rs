use vstd::prelude::*;

use crate::message::Message;
use crate::state::spliced;
use crate::state::InputState;

verus! {

/// One buffer edit: the code points of `[from, to)` are replaced by `repl`,
/// the cursor lands on `new_cursor`, the selection is gone, the flags are
/// untouched, and the window is clamped so the new cursor stays visible. The
/// new buffer lives in a machine string, so its code-point count fits `usize`.
pub open spec fn edited(
    pre: InputState,
    from: int,
    to: int,
    repl: Seq<char>,
    new_cursor: int,
    post: InputState,
) -> bool {
    &&& post.value@ == spliced(pre.value@, from, to, repl)
    &&& post.value@.len() <= usize::MAX
    &&& post.cursor_char_idx == new_cursor
    &&& post.selection_start_char_idx is None
    &&& post.in_focus == pre.in_focus
    &&& post.insert_mode == pre.insert_mode
    &&& post.view_window == pre.view_window.clamped(new_cursor)
}

/// A pure cursor move: the buffer and flags stay, the selection collapses in
/// place, the window is clamped to the new cursor.
pub open spec fn moved(pre: InputState, new_cursor: int, post: InputState) -> bool {
    post == (InputState {
        cursor_char_idx: new_cursor as usize,
        selection_start_char_idx: None,
        view_window: pre.view_window.clamped(new_cursor),
        ..pre
    })
}

/// The anchor a fresh selection starts from: the current cursor position,
/// boundary-adjusted onto the last character when the cursor sits at the
/// one-past-end virtual position (a selection covers actual characters).
pub open spec fn fresh_anchor(pre: InputState) -> Option<usize>
    recommends
        pre.cursor_char_idx > 0 || pre.cursor_char_idx < pre.text_len(),
{
    if pre.cursor_char_idx == pre.text_len() {
        Some((pre.cursor_char_idx - 1) as usize)
    } else {
        Some(pre.cursor_char_idx)
    }
}

/// The anchor after extending the selection one step to the left: an existing
/// anchor stays unless the cursor comes back onto it (the selection is then
/// cancelled); otherwise a fresh, boundary-adjusted anchor is set.
pub open spec fn anchor_after_extend_left(pre: InputState) -> Option<usize> {
    match pre.selection_start_char_idx {
        Some(a) => if a as int == pre.cursor_char_idx - 1 {
            None
        } else {
            Some(a)
        },
        None => fresh_anchor(pre),
    }
}

/// The anchor after extending the selection one step to the right: an
/// existing anchor stays unless the cursor comes back onto it; otherwise the
/// selection starts at the current cursor position.
pub open spec fn anchor_after_extend_right(pre: InputState) -> Option<usize> {
    match pre.selection_start_char_idx {
        Some(a) => if a as int == pre.cursor_char_idx + 1 {
            None
        } else {
            Some(a)
        },
        None => Some(pre.cursor_char_idx),
    }
}

/// The transition relation of the engine: `step(pre, msg, post)` holds when
/// applying `msg` to `pre` yields `post`. [`crate::InputState::handle_message`]
/// is proved to realise it; operations that would cross a buffer boundary
/// leave the state unchanged.
pub open spec fn step(pre: InputState, msg: Message, post: InputState) -> bool {
    match msg {
        Message::Empty => post == pre,
        Message::Focus => post == (InputState { in_focus: true, ..pre }),
        Message::RemoveFocus => post == (InputState { in_focus: false, ..pre }),
        Message::ToggleInsertMode => post == (InputState {
            insert_mode: !pre.insert_mode,
            ..pre
        }),
        Message::DeleteOnCursor => if pre.has_selection() {
            edited(pre, pre.sel_lo(), pre.sel_hi(), Seq::<char>::empty(), pre.sel_lo(), post)
        } else if pre.cursor_char_idx == pre.text_len() {
            post == pre
        } else {
            let c = pre.cursor_char_idx as int;
            edited(pre, c, c + 1, Seq::<char>::empty(), c, post)
        },
        Message::DeleteBeforeCursor => if pre.has_selection() {
            edited(pre, pre.sel_lo(), pre.sel_hi(), Seq::<char>::empty(), pre.sel_lo(), post)
        } else if pre.cursor_char_idx == 0 {
            post == pre
        } else {
            let c = pre.cursor_char_idx as int;
            edited(pre, c - 1, c, Seq::<char>::empty(), c - 1, post)
        },
        Message::MoveLeft => if pre.cursor_char_idx == 0 {
            post == (InputState { selection_start_char_idx: None, ..pre })
        } else {
            moved(pre, pre.cursor_char_idx - 1, post)
        },
        Message::MoveRight => if pre.cursor_char_idx == pre.text_len() {
            post == (InputState { selection_start_char_idx: None, ..pre })
        } else {
            moved(pre, pre.cursor_char_idx + 1, post)
        },
        Message::JumpToStart => moved(pre, 0, post),
        Message::JumpToEnd => moved(pre, pre.text_len(), post),
        Message::MoveLeftWithSelection => if pre.cursor_char_idx == 0 {
            post == pre
        } else {
            post == (InputState {
                cursor_char_idx: (pre.cursor_char_idx - 1) as usize,
                selection_start_char_idx: anchor_after_extend_left(pre),
                view_window: pre.view_window.clamped(pre.cursor_char_idx - 1),
                ..pre
            })
        },
        Message::MoveRightWithSelection => if pre.cursor_char_idx + 1 >= pre.text_len() {
            post == pre
        } else {
            post == (InputState {
                cursor_char_idx: (pre.cursor_char_idx + 1) as usize,
                selection_start_char_idx: anchor_after_extend_right(pre),
                view_window: pre.view_window.clamped(pre.cursor_char_idx + 1),
                ..pre
            })
        },
        Message::JumpToEndWithSelection => if pre.cursor_char_idx == pre.text_len() {
            post == pre
        } else {
            post == (InputState {
                cursor_char_idx: (pre.text_len() - 1) as usize,
                selection_start_char_idx: if pre.has_selection() {
                    pre.selection_start_char_idx
                } else {
                    Some(pre.cursor_char_idx)
                },
                view_window: pre.view_window.clamped(pre.text_len() - 1),
                ..pre
            })
        },
        Message::JumpToStartWithSelection => if pre.cursor_char_idx == 0 {
            post == pre
        } else {
            post == (InputState {
                cursor_char_idx: 0,
                selection_start_char_idx: if pre.has_selection() {
                    pre.selection_start_char_idx
                } else {
                    fresh_anchor(pre)
                },
                view_window: pre.view_window.clamped(0),
                ..pre
            })
        },
        Message::Char(c) => if pre.has_selection() {
            edited(pre, pre.sel_lo(), pre.sel_hi(), seq![c], pre.sel_lo() + 1, post)
        } else {
            let cur = pre.cursor_char_idx as int;
            if cur == pre.text_len() {
                edited(pre, cur, cur, seq![c], cur + 1, post)
            } else if pre.insert_mode {
                edited(pre, cur, cur + 1, seq![c], cur + 1, post)
            } else {
                edited(pre, cur, cur, seq![c], cur + 1, post)
            }
        },
        Message::Paste(s) => if pre.has_selection() {
            edited(pre, pre.sel_lo(), pre.sel_hi(), s@, pre.sel_lo() + s@.len(), post)
        } else {
            let cur = pre.cursor_char_idx as int;
            edited(pre, cur, cur, s@, cur + s@.len(), post)
        },
        Message::CopyToClipboard => post == pre,
        Message::CutToClipboard => if pre.has_selection() {
            edited(pre, pre.sel_lo(), pre.sel_hi(), Seq::<char>::empty(), pre.sel_lo(), post)
        } else {
            edited(pre, 0, pre.text_len(), Seq::<char>::empty(), 0, post)
        },
    }
}

} // verus!

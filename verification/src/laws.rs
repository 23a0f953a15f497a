use vstd::prelude::*;

use crate::message::Message;
use crate::state::InputState;
use crate::step::step;

verus! {

broadcast use vstd::seq::group_seq_axioms;

/// Applying `Focus` twice in a row leaves exactly the state that applying it
/// once leaves.
pub proof fn lemma_focus_idempotent(s0: InputState, s1: InputState, s2: InputState)
    requires
        step(s0, Message::Focus, s1),
        step(s1, Message::Focus, s2),
    ensures
        s2 == s1,
{
}

/// Applying `RemoveFocus` twice in a row leaves exactly the state that
/// applying it once leaves.
pub proof fn lemma_remove_focus_idempotent(s0: InputState, s1: InputState, s2: InputState)
    requires
        step(s0, Message::RemoveFocus, s1),
        step(s1, Message::RemoveFocus, s2),
    ensures
        s2 == s1,
{
}

/// Toggling the insert mode twice returns to the original state.
pub proof fn lemma_toggle_insert_mode_involutive(s0: InputState, s1: InputState, s2: InputState)
    requires
        step(s0, Message::ToggleInsertMode, s1),
        step(s1, Message::ToggleInsertMode, s2),
    ensures
        s2 == s0,
{
}

/// The per-edit clamp yields a usable window that shows the cursor.
proof fn lemma_clamped_wf(w: crate::window::ViewWindow, cursor: int)
    requires
        w.wf(),
        0 <= cursor <= usize::MAX,
    ensures
        w.clamped(cursor).wf(),
        w.clamped(cursor).spec_contains(cursor),
{
}

/// Every operation preserves well-formedness: in particular, starting from a
/// well-formed state, the cursor index stays within `[0, len]` across any
/// sequence of operations.
pub proof fn lemma_step_preserves_wf(pre: InputState, msg: Message, post: InputState)
    requires
        pre.wf(),
        step(pre, msg, post),
    ensures
        post.wf(),
        0 <= post.cursor_char_idx <= post.value@.len(),
{
    match msg {
        Message::Empty => {},
        Message::Focus => {},
        Message::RemoveFocus => {},
        Message::ToggleInsertMode => {},
        Message::CopyToClipboard => {},
        Message::DeleteOnCursor => {
            if pre.has_selection() {
                lemma_clamped_wf(pre.view_window, pre.sel_lo());
            } else if pre.cursor_char_idx < pre.text_len() {
                lemma_clamped_wf(pre.view_window, pre.cursor_char_idx as int);
            }
        },
        Message::DeleteBeforeCursor => {
            if pre.has_selection() {
                lemma_clamped_wf(pre.view_window, pre.sel_lo());
            } else if pre.cursor_char_idx > 0 {
                lemma_clamped_wf(pre.view_window, pre.cursor_char_idx - 1);
            }
        },
        Message::MoveLeft => {
            if pre.cursor_char_idx > 0 {
                lemma_clamped_wf(pre.view_window, pre.cursor_char_idx - 1);
            }
        },
        Message::MoveRight => {
            if pre.cursor_char_idx < pre.text_len() {
                lemma_clamped_wf(pre.view_window, pre.cursor_char_idx + 1);
            }
        },
        Message::JumpToStart => {
            lemma_clamped_wf(pre.view_window, 0);
        },
        Message::JumpToEnd => {
            lemma_clamped_wf(pre.view_window, pre.text_len());
        },
        Message::MoveLeftWithSelection => {
            if pre.cursor_char_idx > 0 {
                lemma_clamped_wf(pre.view_window, pre.cursor_char_idx - 1);
            }
        },
        Message::MoveRightWithSelection => {
            if pre.cursor_char_idx + 1 < pre.text_len() {
                lemma_clamped_wf(pre.view_window, pre.cursor_char_idx + 1);
            }
        },
        Message::JumpToStartWithSelection => {
            if pre.cursor_char_idx > 0 {
                lemma_clamped_wf(pre.view_window, 0);
            }
        },
        Message::JumpToEndWithSelection => {
            if pre.cursor_char_idx != pre.text_len() {
                lemma_clamped_wf(pre.view_window, pre.text_len() - 1);
            }
        },
        Message::Char(_) => {
            if pre.has_selection() {
                lemma_clamped_wf(pre.view_window, pre.sel_lo() + 1);
            } else {
                lemma_clamped_wf(pre.view_window, pre.cursor_char_idx + 1);
            }
        },
        Message::Paste(s) => {
            if pre.has_selection() {
                lemma_clamped_wf(pre.view_window, pre.sel_lo() + s@.len());
            } else {
                lemma_clamped_wf(pre.view_window, pre.cursor_char_idx + s@.len());
            }
        },
        Message::CutToClipboard => {
            if pre.has_selection() {
                lemma_clamped_wf(pre.view_window, pre.sel_lo());
            } else {
                lemma_clamped_wf(pre.view_window, 0);
            }
        },
    }
}

/// The operations that are not selection-extending. (Focus, mode toggling,
/// the empty operation and Copy leave an active selection untouched; every
/// operation below clears it.)
pub open spec fn clears_selection(msg: Message) -> bool {
    match msg {
        Message::DeleteOnCursor => true,
        Message::DeleteBeforeCursor => true,
        Message::MoveLeft => true,
        Message::MoveRight => true,
        Message::JumpToStart => true,
        Message::JumpToEnd => true,
        Message::Char(_) => true,
        Message::Paste(_) => true,
        Message::CutToClipboard => true,
        _ => false,
    }
}

/// After any non-extending operation the selection is absent. (A no-op at a
/// buffer boundary can only arise with no selection active, so the conclusion
/// holds there too.)
pub proof fn lemma_non_extending_clears_selection(
    pre: InputState,
    msg: Message,
    post: InputState,
)
    requires
        step(pre, msg, post),
        clears_selection(msg),
    ensures
        post.selection_start_char_idx is None,
{
}

/// Inserting text at the end of the buffer, then selecting exactly the
/// inserted code points and deleting the selection, restores the original
/// buffer and cursor.
pub proof fn lemma_insert_select_delete_round_trip(
    pre: InputState,
    s: String,
    mid: InputState,
    sel: InputState,
    post: InputState,
)
    requires
        pre.wf(),
        !pre.has_selection(),
        pre.cursor_char_idx == pre.value@.len(),
        s@.len() > 0,
        step(pre, Message::Paste(s), mid),
        sel.value@ == mid.value@,
        sel.has_selection(),
        sel.sel_lo() == pre.cursor_char_idx,
        sel.sel_hi() == mid.value@.len(),
        step(sel, Message::DeleteOnCursor, post),
    ensures
        post.value@ == pre.value@,
        post.cursor_char_idx == pre.cursor_char_idx,
{
    assert(mid.value@ =~= pre.value@ + s@);
    assert(post.value@ =~= pre.value@);
}

/// `MoveRight` with the cursor at the one-past-end position is a no-op when
/// no selection is active.
pub proof fn lemma_move_right_at_end_noop(pre: InputState, post: InputState)
    requires
        !pre.has_selection(),
        pre.cursor_char_idx == pre.value@.len(),
        step(pre, Message::MoveRight, post),
    ensures
        post == pre,
{
}

/// `MoveLeft` with the cursor at index 0 is a no-op when no selection is
/// active.
pub proof fn lemma_move_left_at_start_noop(pre: InputState, post: InputState)
    requires
        !pre.has_selection(),
        pre.cursor_char_idx == 0,
        step(pre, Message::MoveLeft, post),
    ensures
        post == pre,
{
}

} // verus!

use vstd::prelude::*;
use vstd::string::StrSliceExecFns;
use vstd::string::StringExecFns;

use crate::message::Message;
use crate::state::splice_char;
use crate::state::splice_str;
use crate::state::spliced;
use crate::state::InputState;
use crate::step::step;

verus! {

impl InputState {
    /// Update the state with the given message. Every operation is total:
    /// boundary-violating operations are no-ops, never errors. The effect is
    /// exactly the transition relation [`step`].
    pub fn handle_message(&mut self, msg: Message)
        requires
            old(self).wf(),
        ensures
            final(self).wf(),
            step(*old(self), msg, *final(self)),
    {
        match msg {
            Message::Empty => {},
            Message::Focus => {
                self.in_focus = true;
            },
            Message::RemoveFocus => {
                self.in_focus = false;
            },
            Message::ToggleInsertMode => {
                self.insert_mode = !self.insert_mode;
            },
            Message::DeleteOnCursor => {
                self.delete_on_cursor();
            },
            Message::DeleteBeforeCursor => {
                self.delete_before_cursor();
            },
            Message::MoveLeft => {
                self.move_left();
            },
            Message::MoveRight => {
                self.move_right();
            },
            Message::JumpToStart => {
                self.jump_to_start();
            },
            Message::JumpToEnd => {
                self.jump_to_end();
            },
            Message::MoveLeftWithSelection => {
                self.move_left_with_selection();
            },
            Message::MoveRightWithSelection => {
                self.move_right_with_selection();
            },
            Message::JumpToStartWithSelection => {
                self.jump_to_start_with_selection();
            },
            Message::JumpToEndWithSelection => {
                self.jump_to_end_with_selection();
            },
            Message::Char(c) => {
                self.apply_char(c);
            },
            Message::Paste(s) => {
                self.apply_paste(s);
            },
            Message::CopyToClipboard => {},
            Message::CutToClipboard => {
                self.cut_to_clipboard();
            },
        }
    }

    /// Remove the selected code points; the cursor lands on the first index
    /// of the former selection.
    fn delete_selection(&mut self)
        requires
            old(self).wf(),
            old(self).has_selection(),
        ensures
            final(self).wf(),
            crate::step::edited(
                *old(self),
                old(self).sel_lo(),
                old(self).sel_hi(),
                Seq::<char>::empty(),
                old(self).sel_lo(),
                *final(self),
            ),
    {
        proof {
            reveal_strlit("");
        }
        let a = self.selection_start_char_idx.unwrap();
        let lo = if a < self.cursor_char_idx {
            a
        } else {
            self.cursor_char_idx
        };
        let hi = (if a < self.cursor_char_idx {
            self.cursor_char_idx
        } else {
            a
        }) + 1;
        let nv = splice_str(self.value.as_str(), lo, hi, "");
        self.value = nv;
        self.cursor_char_idx = lo;
        self.selection_start_char_idx = None;
        self.view_window.clamp_after_edit(lo);
        proof {
            assert(""@ =~= Seq::<char>::empty());
            assert(self.value@ =~= spliced(
                old(self).value@,
                lo as int,
                hi as int,
                Seq::<char>::empty(),
            ));
        }
    }

    /// Delete the character under the cursor, or the selection; at the
    /// one-past-end position there is nothing to delete.
    fn delete_on_cursor(&mut self)
        requires
            old(self).wf(),
        ensures
            final(self).wf(),
            step(*old(self), Message::DeleteOnCursor, *final(self)),
    {
        if self.selection_start_char_idx.is_some() {
            self.delete_selection();
        } else {
            let n = self.value.as_str().unicode_len();
            if self.cursor_char_idx < n {
                proof {
                    reveal_strlit("");
                    assert(""@ =~= Seq::<char>::empty());
                }
                let c = self.cursor_char_idx;
                let nv = splice_str(self.value.as_str(), c, c + 1, "");
                self.value = nv;
                self.view_window.clamp_after_edit(self.cursor_char_idx);
            }
        }
    }

    /// Delete the character before the cursor, or the selection; at index 0
    /// there is nothing before the cursor.
    fn delete_before_cursor(&mut self)
        requires
            old(self).wf(),
        ensures
            final(self).wf(),
            step(*old(self), Message::DeleteBeforeCursor, *final(self)),
    {
        if self.selection_start_char_idx.is_some() {
            self.delete_selection();
        } else {
            if self.cursor_char_idx > 0 {
                proof {
                    reveal_strlit("");
                    assert(""@ =~= Seq::<char>::empty());
                }
                let c = self.cursor_char_idx;
                let nv = splice_str(self.value.as_str(), c - 1, c, "");
                self.value = nv;
                self.cursor_char_idx = c - 1;
                self.view_window.clamp_after_edit(self.cursor_char_idx);
            }
        }
    }

    /// Move the cursor one position to the left; a selection collapses in
    /// place.
    fn move_left(&mut self)
        requires
            old(self).wf(),
        ensures
            final(self).wf(),
            step(*old(self), Message::MoveLeft, *final(self)),
    {
        self.selection_start_char_idx = None;
        if self.cursor_char_idx > 0 {
            self.cursor_char_idx = self.cursor_char_idx - 1;
            self.view_window.clamp_after_edit(self.cursor_char_idx);
        }
    }

    /// Move the cursor one position to the right; a selection collapses in
    /// place.
    fn move_right(&mut self)
        requires
            old(self).wf(),
        ensures
            final(self).wf(),
            step(*old(self), Message::MoveRight, *final(self)),
    {
        self.selection_start_char_idx = None;
        let n = self.value.as_str().unicode_len();
        if self.cursor_char_idx < n {
            self.cursor_char_idx = self.cursor_char_idx + 1;
            self.view_window.clamp_after_edit(self.cursor_char_idx);
        }
    }

    /// Jump the cursor to index 0; a selection collapses in place.
    fn jump_to_start(&mut self)
        requires
            old(self).wf(),
        ensures
            final(self).wf(),
            step(*old(self), Message::JumpToStart, *final(self)),
    {
        self.selection_start_char_idx = None;
        self.cursor_char_idx = 0;
        self.view_window.clamp_after_edit(0);
    }

    /// Jump the cursor to the one-past-end position; a selection collapses
    /// in place.
    fn jump_to_end(&mut self)
        requires
            old(self).wf(),
        ensures
            final(self).wf(),
            step(*old(self), Message::JumpToEnd, *final(self)),
    {
        self.selection_start_char_idx = None;
        let n = self.value.as_str().unicode_len();
        self.cursor_char_idx = n;
        self.view_window.clamp_after_edit(self.cursor_char_idx);
    }

    /// Move left while extending the selection from a fixed anchor; a fresh
    /// anchor is boundary-adjusted at the one-past-end position, and the
    /// selection is cancelled when the cursor returns onto the anchor.
    fn move_left_with_selection(&mut self)
        requires
            old(self).wf(),
        ensures
            final(self).wf(),
            step(*old(self), Message::MoveLeftWithSelection, *final(self)),
    {
        if self.cursor_char_idx > 0 {
            let n = self.value.as_str().unicode_len();
            self.selection_start_char_idx = match self.selection_start_char_idx {
                Some(a) => if a == self.cursor_char_idx - 1 {
                    None
                } else {
                    Some(a)
                },
                None => if self.cursor_char_idx == n {
                    Some(self.cursor_char_idx - 1)
                } else {
                    Some(self.cursor_char_idx)
                },
            };
            self.cursor_char_idx = self.cursor_char_idx - 1;
            self.view_window.clamp_after_edit(self.cursor_char_idx);
        }
    }

    /// Move right while extending the selection from a fixed anchor. The
    /// cursor never leaves the characters of the buffer while a selection is
    /// being built, so the move stops at the last character.
    fn move_right_with_selection(&mut self)
        requires
            old(self).wf(),
        ensures
            final(self).wf(),
            step(*old(self), Message::MoveRightWithSelection, *final(self)),
    {
        let n = self.value.as_str().unicode_len();
        if n > 0 && self.cursor_char_idx < n - 1 {
            self.selection_start_char_idx = match self.selection_start_char_idx {
                Some(a) => if self.cursor_char_idx + 1 == a {
                    None
                } else {
                    Some(a)
                },
                None => Some(self.cursor_char_idx),
            };
            self.cursor_char_idx = self.cursor_char_idx + 1;
            self.view_window.clamp_after_edit(self.cursor_char_idx);
        }
    }

    /// Jump to index 0 while selecting everything between the start and the
    /// previous cursor position.
    fn jump_to_start_with_selection(&mut self)
        requires
            old(self).wf(),
        ensures
            final(self).wf(),
            step(*old(self), Message::JumpToStartWithSelection, *final(self)),
    {
        if self.cursor_char_idx > 0 {
            if self.selection_start_char_idx.is_none() {
                let n = self.value.as_str().unicode_len();
                self.selection_start_char_idx = if self.cursor_char_idx == n {
                    Some(self.cursor_char_idx - 1)
                } else {
                    Some(self.cursor_char_idx)
                };
            }
            self.cursor_char_idx = 0;
            self.view_window.clamp_after_edit(0);
        }
    }

    /// Jump onto the last character while selecting everything between the
    /// previous cursor position and the end.
    fn jump_to_end_with_selection(&mut self)
        requires
            old(self).wf(),
        ensures
            final(self).wf(),
            step(*old(self), Message::JumpToEndWithSelection, *final(self)),
    {
        let n = self.value.as_str().unicode_len();
        if self.cursor_char_idx != n {
            if self.selection_start_char_idx.is_none() {
                self.selection_start_char_idx = Some(self.cursor_char_idx);
            }
            self.cursor_char_idx = n - 1;
            self.view_window.clamp_after_edit(self.cursor_char_idx);
        }
    }

    /// Merge one character into the buffer: append at the one-past-end
    /// position, replace the code point under the cursor in overwrite mode,
    /// insert before the cursor otherwise; an active selection is replaced by
    /// the character.
    fn apply_char(&mut self, c: char)
        requires
            old(self).wf(),
        ensures
            final(self).wf(),
            step(*old(self), Message::Char(c), *final(self)),
    {
        match self.selection_start_char_idx {
            Some(a) => {
                let lo = if a < self.cursor_char_idx {
                    a
                } else {
                    self.cursor_char_idx
                };
                let hi = (if a < self.cursor_char_idx {
                    self.cursor_char_idx
                } else {
                    a
                }) + 1;
                let nv = splice_char(self.value.as_str(), lo, hi, c);
                self.value = nv;
                self.cursor_char_idx = lo + 1;
                self.selection_start_char_idx = None;
                self.view_window.clamp_after_edit(self.cursor_char_idx);
            },
            None => {
                let n = self.value.as_str().unicode_len();
                let cur = self.cursor_char_idx;
                if cur == n {
                    let nv = splice_char(self.value.as_str(), n, n, c);
                    self.value = nv;
                    let new_n = self.value.as_str().unicode_len();
                    self.cursor_char_idx = new_n;
                    self.view_window.clamp_after_edit(self.cursor_char_idx);
                } else if self.insert_mode {
                    let nv = splice_char(self.value.as_str(), cur, cur + 1, c);
                    self.value = nv;
                    self.cursor_char_idx = cur + 1;
                    self.view_window.clamp_after_edit(self.cursor_char_idx);
                } else {
                    let nv = splice_char(self.value.as_str(), cur, cur, c);
                    self.value = nv;
                    let new_n = self.value.as_str().unicode_len();
                    self.cursor_char_idx = cur + 1;
                    self.view_window.clamp_after_edit(self.cursor_char_idx);
                }
            },
        }
    }

    /// Insert a string before the cursor, or replace an active selection with
    /// it; the cursor lands just after the inserted code points.
    fn apply_paste(&mut self, s: String)
        requires
            old(self).wf(),
        ensures
            final(self).wf(),
            step(*old(self), Message::Paste(s), *final(self)),
    {
        let s_n = s.as_str().unicode_len();
        match self.selection_start_char_idx {
            Some(a) => {
                let lo = if a < self.cursor_char_idx {
                    a
                } else {
                    self.cursor_char_idx
                };
                let hi = (if a < self.cursor_char_idx {
                    self.cursor_char_idx
                } else {
                    a
                }) + 1;
                let nv = splice_str(self.value.as_str(), lo, hi, s.as_str());
                self.value = nv;
                let new_n = self.value.as_str().unicode_len();
                self.cursor_char_idx = lo + s_n;
                self.selection_start_char_idx = None;
                self.view_window.clamp_after_edit(self.cursor_char_idx);
            },
            None => {
                let cur = self.cursor_char_idx;
                let nv = splice_str(self.value.as_str(), cur, cur, s.as_str());
                self.value = nv;
                let new_n = self.value.as_str().unicode_len();
                self.cursor_char_idx = cur + s_n;
                self.view_window.clamp_after_edit(self.cursor_char_idx);
            },
        }
    }

    /// Delete what was handed to the clipboard: the selection when one is
    /// active, the whole buffer otherwise.
    fn cut_to_clipboard(&mut self)
        requires
            old(self).wf(),
        ensures
            final(self).wf(),
            step(*old(self), Message::CutToClipboard, *final(self)),
    {
        if self.selection_start_char_idx.is_some() {
            self.delete_selection();
        } else {
            self.value = String::new();
            self.cursor_char_idx = 0;
            self.view_window.clamp_after_edit(0);
            proof {
                assert(self.value@ =~= spliced(
                    old(self).value@,
                    0,
                    old(self).value@.len() as int,
                    Seq::<char>::empty(),
                ));
            }
        }
    }
}

} // verus!

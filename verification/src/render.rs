use vstd::prelude::*;
use vstd::string::StrSliceExecFns;

use crate::state::InputState;

verus! {

broadcast use vstd::seq::group_seq_axioms;

/// What a renderer paints into one display column: the character to show
/// (a blank filler past the end of the buffer), whether the column holds the
/// cursor, and whether it lies inside the selection span. An optional mask
/// substitutes every visible character with a fixed symbol (for secret input)
/// without touching the cursor and selection flags.
#[derive(Debug, Clone, Copy, PartialEq, Eq, Structural)]
pub struct RenderCell {
    /// The character for this column.
    pub symbol: char,
    /// This column holds the cursor.
    pub on_cursor: bool,
    /// This column lies inside the selection span.
    pub selected: bool,
}

impl InputState {
    /// The cell owed to visible column `i` of the view window.
    pub open spec fn cell_at(self, i: int, mask: Option<char>) -> RenderCell {
        let pos = self.view_window.offset + i;
        RenderCell {
            symbol: if pos < self.text_len() {
                match mask {
                    Some(m) => m,
                    None => self.value@[pos],
                }
            } else {
                ' '
            },
            on_cursor: pos == self.cursor_char_idx,
            selected: self.has_selection() && self.sel_lo() <= pos < self.sel_hi(),
        }
    }

    /// Read-only projection for a renderer: one cell per visible column of
    /// the view window, in display order.
    pub fn visible_cells(&self, mask: Option<char>) -> (cells: Vec<RenderCell>)
        requires
            self.wf(),
        ensures
            cells@.len() == self.view_window.width,
            forall|i: int| 0 <= i < cells@.len() ==> cells@[i] == self.cell_at(i, mask),
    {
        let n = self.value.as_str().unicode_len();
        let width = self.view_window.width;
        let offset = self.view_window.offset;
        let mut cells: Vec<RenderCell> = Vec::new();
        let mut i: usize = 0;
        while i < width
            invariant
                self.wf(),
                i <= width,
                width == self.view_window.width,
                offset == self.view_window.offset,
                n == self.text_len(),
                cells@.len() == i,
                forall|k: int| 0 <= k < i ==> cells@[k] == self.cell_at(k, mask),
            decreases width - i,
        {
            let in_text = i < n - offset;
            let symbol = if in_text {
                match mask {
                    Some(m) => m,
                    None => self.value.as_str().get_char(offset + i),
                }
            } else {
                ' '
            };
            let on_cursor = self.cursor_char_idx >= offset && i == self.cursor_char_idx - offset;
            let selected = match self.selection_start_char_idx {
                Some(a) => {
                    let lo = if a < self.cursor_char_idx {
                        a
                    } else {
                        self.cursor_char_idx
                    };
                    let hi = (if a < self.cursor_char_idx {
                        self.cursor_char_idx
                    } else {
                        a
                    }) + 1;
                    in_text && offset + i >= lo && offset + i < hi
                },
                None => false,
            };
            let cell = RenderCell { symbol, on_cursor, selected };
            let ghost pre_cells = cells@;
            cells.push(cell);
            proof {
                vstd::seq::axiom_seq_push_len(pre_cells, cell);
                vstd::seq::axiom_seq_push_index_same(pre_cells, cell, i as int);
                assert forall|k: int| 0 <= k < i + 1 implies cells@[k] == self.cell_at(
                    k,
                    mask,
                ) by {
                    if k < i {
                        vstd::seq::axiom_seq_push_index_different(pre_cells, cell, k);
                    }
                }
            }
            i = i + 1;
        }
        cells
    }
}

} // verus!

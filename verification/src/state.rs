use core::ops::Range;

use vstd::prelude::*;
use vstd::string::StrSliceExecFns;
use vstd::string::StringExecFns;

use crate::index::byte_index_of;
use crate::index::char_idx_to_byte_idx;
use crate::index::lemma_byte_index_split;
use crate::window::ViewWindow;

verus! {

/// The character sequence `s` with the code points of `[from, to)` replaced
/// by `repl`. Every buffer edit of the engine is an instance of this.
pub open spec fn spliced(s: Seq<char>, from: int, to: int, repl: Seq<char>) -> Seq<char>
    recommends
        0 <= from <= to <= s.len(),
{
    s.subrange(0, from) + repl + s.subrange(to, s.len() as int)
}

/// Relies on `String::push`: appends the given character to the end of the
/// string, leaving the preceding code points unchanged.
#[verifier::external_body]
fn push_char(s: &mut String, c: char)
    ensures
        final(s)@ == old(s)@.push(c),
{
    s.push(c);
}

/// A new string: `s` with the code points of `[from, to)` replaced by `repl`.
pub(crate) fn splice_str(s: &str, from: usize, to: usize, repl: &str) -> (r: String)
    requires
        from <= to <= s@.len(),
    ensures
        r@ == spliced(s@, from as int, to as int, repl@),
{
    let n = s.unicode_len();
    let mut r = String::from_str(s.substring_char(0, from));
    r.append(repl);
    r.append(s.substring_char(to, n));
    proof {
        assert(r@ =~= spliced(s@, from as int, to as int, repl@));
    }
    r
}

/// A new string: `s` with the code points of `[from, to)` replaced by the
/// single character `c`.
pub(crate) fn splice_char(s: &str, from: usize, to: usize, c: char) -> (r: String)
    requires
        from <= to <= s@.len(),
    ensures
        r@ == spliced(s@, from as int, to as int, seq![c]),
{
    let n = s.unicode_len();
    let mut r = String::from_str(s.substring_char(0, from));
    push_char(&mut r, c);
    r.append(s.substring_char(to, n));
    proof {
        assert(r@ =~= spliced(s@, from as int, to as int, seq![c]));
    }
    r
}

/// State of the single-line input control: the text buffer, the cursor, the
/// optional selection anchor, the insert/overwrite mode, the focus flag and
/// the view window.
///
/// All indices are code-point indices into the buffer, never byte offsets.
/// The cursor ranges over `[0, len]`: the one-past-end position is valid and
/// means "after the last character". A selection exists exactly when
/// `selection_start_char_idx` is set; it covers the code points from
/// `min(anchor, cursor)` through `max(anchor, cursor)` inclusive, written as
/// the half-open range `[min, max + 1)`.
#[derive(Debug, PartialEq, Eq)]
pub struct InputState {
    /// The text being edited.
    pub value: String,
    /// Cursor position as a code-point index in `[0, len]`.
    pub cursor_char_idx: usize,
    /// Whether the control currently receives input.
    pub in_focus: bool,
    /// When set, character input overwrites the code point under the cursor
    /// instead of inserting before it.
    pub insert_mode: bool,
    /// Fixed endpoint of the selection; the cursor is the moving endpoint.
    pub selection_start_char_idx: Option<usize>,
    /// The window of code points currently visible.
    pub view_window: ViewWindow,
}

impl InputState {
    /// Number of code points in the buffer.
    pub open spec fn text_len(self) -> int {
        self.value@.len() as int
    }

    /// A selection is active.
    pub open spec fn has_selection(self) -> bool {
        self.selection_start_char_idx is Some
    }

    /// First selected code-point index (the lower of anchor and cursor).
    pub open spec fn sel_lo(self) -> int
        recommends
            self.has_selection(),
    {
        let a = self.selection_start_char_idx->0 as int;
        let c = self.cursor_char_idx as int;
        if a < c {
            a
        } else {
            c
        }
    }

    /// One past the last selected code-point index (the higher of anchor and
    /// cursor, plus one: the code point under the higher endpoint is part of
    /// the selection).
    pub open spec fn sel_hi(self) -> int
        recommends
            self.has_selection(),
    {
        let a = self.selection_start_char_idx->0 as int;
        let c = self.cursor_char_idx as int;
        (if a < c {
            c
        } else {
            a
        }) + 1
    }

    /// The selected code points.
    pub open spec fn sel_chars(self) -> Seq<char>
        recommends
            self.has_selection(),
            self.wf(),
    {
        self.value@.subrange(self.sel_lo(), self.sel_hi())
    }

    /// Internal consistency: the cursor stays in `[0, len]`, an anchor only
    /// exists while both endpoints sit on actual characters, the buffer's
    /// code-point count fits the machine, and the cursor is visible in a
    /// window of positive width.
    pub open spec fn wf(self) -> bool {
        &&& self.cursor_char_idx <= self.text_len()
        &&& self.value@.len() <= usize::MAX
        &&& match self.selection_start_char_idx {
            Some(a) => a < self.text_len() && self.cursor_char_idx < self.text_len(),
            None => true,
        }
        &&& self.view_window.wf()
        &&& self.view_window.spec_contains(self.cursor_char_idx as int)
    }

    /// Current value of the input.
    pub fn text(&self) -> (r: String)
        ensures
            r@ == self.value@,
    {
        self.value.clone()
    }

    /// Cursor position as a code-point index.
    pub fn cursor_char_idx(&self) -> (r: usize)
        ensures
            r == self.cursor_char_idx,
    {
        self.cursor_char_idx
    }

    /// Cursor position as a byte offset into the UTF-8 encoding of the
    /// buffer, derived on demand from the code-point index.
    pub fn cursor_byte_idx(&self) -> (r: usize)
        requires
            self.wf(),
        ensures
            r == byte_index_of(self.value@, self.cursor_char_idx as int),
    {
        char_idx_to_byte_idx(self.value.as_str(), self.cursor_char_idx)
    }

    /// Snapshot of the currently selected text, or `None` when no selection
    /// is active: the covered code-point range, the corresponding byte range,
    /// and an owned copy of the selected characters.
    pub fn selection(&self) -> (r: Option<Selection>)
        requires
            self.wf(),
        ensures
            r is Some <==> self.has_selection(),
            match r {
                Some(sel) => {
                    &&& sel.char_range.start == self.sel_lo()
                    &&& sel.char_range.end == self.sel_hi()
                    &&& sel.byte_range.start == byte_index_of(self.value@, self.sel_lo())
                    &&& sel.byte_range.end == byte_index_of(self.value@, self.sel_hi())
                    &&& sel.byte_range.start <= sel.byte_range.end
                    &&& sel.byte_range.end - sel.byte_range.start == vstd::utf8::encode_utf8(
                        self.sel_chars(),
                    ).len()
                    &&& sel.text@ == self.sel_chars()
                },
                None => true,
            },
    {
        match self.selection_start_char_idx {
            Some(a) => {
                let lo = if a < self.cursor_char_idx {
                    a
                } else {
                    self.cursor_char_idx
                };
                let hi = (if a < self.cursor_char_idx {
                    self.cursor_char_idx
                } else {
                    a
                }) + 1;
                let byte_lo = char_idx_to_byte_idx(self.value.as_str(), lo);
                let byte_hi = char_idx_to_byte_idx(self.value.as_str(), hi);
                proof {
                    lemma_byte_index_split(self.value@, lo as int, hi as int);
                }
                let text = String::from_str(self.value.as_str().substring_char(lo, hi));
                Some(
                    Selection {
                        char_range: Range { start: lo, end: hi },
                        byte_range: Range { start: byte_lo, end: byte_hi },
                        text,
                    },
                )
            },
            None => None,
        }
    }

    /// The text that Copy and Cut hand to the clipboard capability: the
    /// selected characters, or the whole value when nothing is selected.
    pub fn clipboard_text(&self) -> (r: String)
        requires
            self.wf(),
        ensures
            r@ == if self.has_selection() {
                self.sel_chars()
            } else {
                self.value@
            },
    {
        match self.selection_start_char_idx {
            Some(a) => {
                let lo = if a < self.cursor_char_idx {
                    a
                } else {
                    self.cursor_char_idx
                };
                let hi = (if a < self.cursor_char_idx {
                    self.cursor_char_idx
                } else {
                    a
                }) + 1;
                String::from_str(self.value.as_str().substring_char(lo, hi))
            },
            None => self.value.clone(),
        }
    }

    /// Adopt a new display width before a render pass: the view window is
    /// recomputed as [`ViewWindow::resized`] describes; nothing else changes
    /// and the cursor stays visible.
    pub fn resize_view(&mut self, new_width: usize)
        requires
            old(self).wf(),
            new_width >= 1,
        ensures
            final(self).wf(),
            *final(self) == (InputState {
                view_window: old(self).view_window.resized(
                    new_width as int,
                    old(self).cursor_char_idx as int,
                ),
                ..*old(self)
            }),
    {
        let cursor = self.cursor_char_idx;
        self.view_window.resize(new_width, cursor);
    }
}

/// Snapshot of the selected text inside the [`InputState`]: the code-point
/// range, the byte range of its UTF-8 encoding, and an owned copy of the
/// selected characters. The snapshot stays valid across later mutations; it
/// never aliases the buffer.
#[derive(Debug)]
pub struct Selection {
    /// Selected code-point indices, as the half-open range `[lo, hi)`.
    pub char_range: Range<usize>,
    /// Byte offsets of the selected span inside the encoded buffer.
    pub byte_range: Range<usize>,
    /// Owned copy of the selected characters.
    pub text: String,
}

impl Default for InputState {
    /// An empty buffer with the cursor at 0, no selection, insert behaviour,
    /// no focus, and a one-column window at offset 0.
    fn default() -> (r: Self)
        ensures
            r.value@ == Seq::<char>::empty(),
            r.cursor_char_idx == 0,
            !r.in_focus,
            !r.insert_mode,
            r.selection_start_char_idx is None,
            r.view_window == (ViewWindow { width: 1, offset: 0 }),
            r.wf(),
    {
        InputState {
            value: String::new(),
            cursor_char_idx: 0,
            in_focus: false,
            insert_mode: false,
            selection_start_char_idx: None,
            view_window: ViewWindow { width: 1, offset: 0 },
        }
    }
}

} // verus!

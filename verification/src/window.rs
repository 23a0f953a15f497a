use core::ops::Range;

use vstd::prelude::*;

verus! {

/// Horizontally scrolling view over the text buffer: the half-open range of
/// code-point indices `[offset, offset + width)` is currently visible.
///
/// The window is never clamped to the buffer length on the right: trailing
/// blank cells are valid. Whenever the cursor moves, [`ViewWindow::clamp_after_edit`]
/// pulls the offset so that the cursor index lies inside the window; when the
/// display width changes, [`ViewWindow::resize`] recomputes the window.
#[derive(Debug, Clone, Copy, PartialEq, Eq, Structural)]
pub struct ViewWindow {
    /// Number of code points the display can show.
    pub width: usize,
    /// Index of the leftmost visible code point.
    pub offset: usize,
}

impl ViewWindow {
    /// A usable window shows at least one column.
    pub open spec fn wf(self) -> bool {
        self.width >= 1
    }

    /// The code-point index `idx` falls inside the visible range.
    pub open spec fn spec_contains(self, idx: int) -> bool {
        self.offset <= idx < self.offset + self.width
    }

    /// Whether the code-point index `idx` is currently visible.
    pub fn contains(&self, idx: usize) -> (r: bool)
        ensures
            r == self.spec_contains(idx as int),
    {
        idx >= self.offset && idx - self.offset < self.width
    }

    /// The window after the cheap per-edit adjustment: if the cursor left the
    /// visible range, the offset moves just far enough to show it again; the
    /// width never changes.
    pub open spec fn clamped(self, cursor: int) -> ViewWindow {
        if cursor < self.offset {
            ViewWindow { width: self.width, offset: cursor as usize }
        } else if cursor >= self.offset + self.width {
            ViewWindow { width: self.width, offset: (cursor + 1 - self.width) as usize }
        } else {
            self
        }
    }

    /// Pull the offset so the (possibly moved) cursor is visible again.
    /// Called after any cursor-changing or buffer-shrinking operation that is
    /// not a display resize.
    pub fn clamp_after_edit(&mut self, cursor: usize)
        requires
            old(self).wf(),
        ensures
            *final(self) == old(self).clamped(cursor as int),
            final(self).wf(),
            final(self).spec_contains(cursor as int),
    {
        if cursor < self.offset {
            self.offset = cursor;
        } else if cursor - self.offset >= self.width {
            self.offset = cursor - (self.width - 1);
        }
    }

    /// The window after the display width changed. Growth first reveals more
    /// context on the left (never past index 0), the rest appears on the
    /// right; shrinking keeps the cursor as the rightmost visible column so
    /// that the cursor survives even an aggressive shrink.
    pub open spec fn resized(self, new_width: int, cursor: int) -> ViewWindow {
        if new_width > self.width {
            let grown = new_width - self.width;
            let back = if self.offset < grown { self.offset as int } else { grown };
            ViewWindow { width: new_width as usize, offset: (self.offset - back) as usize }
        } else if new_width < self.width {
            let off = if cursor + 1 >= new_width { cursor + 1 - new_width } else { 0 };
            ViewWindow { width: new_width as usize, offset: off as usize }
        } else {
            self
        }
    }

    /// Adopt a new display width, adjusting the offset as [`ViewWindow::resized`]
    /// describes. A cursor that was visible before stays visible.
    pub fn resize(&mut self, new_width: usize, cursor: usize)
        requires
            old(self).wf(),
            new_width >= 1,
        ensures
            *final(self) == old(self).resized(new_width as int, cursor as int),
            final(self).wf(),
            old(self).spec_contains(cursor as int) ==> final(self).spec_contains(cursor as int),
            new_width < old(self).width ==> final(self).spec_contains(cursor as int),
    {
        if new_width > self.width {
            let grown = new_width - self.width;
            let back = if self.offset < grown { self.offset } else { grown };
            self.offset = self.offset - back;
        } else if new_width < self.width {
            self.offset = if cursor >= new_width { cursor - (new_width - 1) } else { 0 };
        }
        self.width = new_width;
    }
}

impl From<Range<usize>> for ViewWindow {
    /// The window showing exactly the code-point indices of `value`; an empty
    /// or reversed range gives a window of width 0.
    fn from(value: Range<usize>) -> (r: ViewWindow) {
        ViewWindow {
            offset: value.start,
            width: if value.end >= value.start {
                value.end - value.start
            } else {
                0
            },
        }
    }
}

impl vstd::std_specs::convert::FromSpecImpl<Range<usize>> for ViewWindow {
    open spec fn obeys_from_spec() -> bool {
        true
    }

    open spec fn from_spec(value: Range<usize>) -> ViewWindow {
        ViewWindow {
            offset: value.start,
            width: if value.end >= value.start {
                (value.end - value.start) as usize
            } else {
                0
            },
        }
    }
}

} // verus!

//! The scrolling window: which of the cached lines are on screen.

use vstd::prelude::*;
use crate::cursor::Cursor;

verus! {

/// The visible range of lines, `[start, start + size)`, counted from the
/// first line that the cache holds.
#[derive(Clone, Copy, Debug)]
pub struct Window {
    start: u64,
    size: u16,
    dirty: bool,
}

/// Where a window of `height` lines starts once it is fitted to a document of
/// `nb_lines` lines around the line `cursor`, coming from `candidate`.
///
/// A window that would end after the last line is moved up to end on it (to
/// the top when the document is shorter than the window). After that the
/// cursor decides: a cursor above the window pulls its first line onto the
/// cursor, a cursor below it pulls its last line onto the cursor.
pub open spec fn fitted_start(candidate: int, height: int, cursor: int, nb_lines: int) -> int {
    let bounded = if candidate + height > nb_lines {
        if nb_lines < height {
            0
        } else {
            nb_lines - height
        }
    } else {
        candidate
    };
    followed_start(bounded, height, cursor)
}

/// Where a window starts after its height changed from `size` to `height`:
/// the middle of the window stays in place as far as the document and the
/// cursor allow.
pub open spec fn resized_start(start: int, size: int, height: int, cursor: int, nb_lines: int) -> int {
    let centered = if height > 2 * start + size {
        0
    } else {
        (2 * start + size - height) / 2
    };
    fitted_start(centered, height, cursor, nb_lines)
}

/// Where a window starts after it followed the cursor to `line`: it moves by
/// the least amount that brings the line into view.
pub open spec fn followed_start(start: int, size: int, line: int) -> int {
    if line < start {
        line
    } else if line >= start + size {
        line - size + 1
    } else {
        start
    }
}

impl Window {
    /// The first visible line.
    pub closed spec fn spec_start(&self) -> int {
        self.start as int
    }

    /// The number of visible lines.
    pub closed spec fn spec_size(&self) -> int {
        self.size as int
    }

    /// Whether the window moved or changed size since it was last drawn.
    pub closed spec fn spec_dirty(&self) -> bool {
        self.dirty
    }

    /// The line after the last visible one.
    pub open spec fn spec_end(&self) -> int {
        self.spec_start() + self.spec_size()
    }

    /// The window ends at a line number that fits in 64 bits.
    pub open spec fn wf(&self) -> bool {
        self.spec_end() <= u64::MAX
    }

    /// Whether the line `index` is visible.
    pub open spec fn contains(&self, index: int) -> bool {
        self.spec_start() <= index < self.spec_end()
    }

    /// An empty window at the top of the document.
    pub fn new() -> (window: Self)
        ensures
            window.wf(),
            window.spec_start() == 0,
            window.spec_size() == 0,
            window.spec_dirty(),
    {
        Window { start: 0, size: 0, dirty: true }
    }

    /// Whether the window moved or changed size since it was last drawn.
    pub fn is_dirty(&self) -> (dirty: bool)
        ensures
            dirty == self.spec_dirty(),
    {
        self.dirty
    }

    /// Notes that the window is drawn as it is now.
    pub fn mark_clean(&mut self)
        ensures
            !final(self).spec_dirty(),
            final(self).spec_start() == old(self).spec_start(),
            final(self).spec_size() == old(self).spec_size(),
    {
        self.dirty = false;
    }

    /// The number of visible lines.
    pub fn size(&self) -> (size: u16)
        ensures
            size == self.spec_size(),
    {
        self.size
    }

    /// The first visible line.
    pub fn start(&self) -> (start: u64)
        ensures
            start == self.spec_start(),
    {
        self.start
    }

    /// The line after the last visible one.
    pub fn end(&self) -> (end: u64)
        requires
            self.wf(),
        ensures
            end == self.spec_end(),
    {
        self.size as u64 + self.start
    }

    /// Whether the line `index` is visible.
    pub fn is_within_window(&self, index: u64) -> (within: bool)
        requires
            self.wf(),
        ensures
            within == self.contains(index as int),
    {
        self.start <= index && index < self.end()
    }

    /// The row of the line `index` on screen, counted from the first visible
    /// line; `None` for a line that is not visible.
    pub fn offset(&self, index: u64) -> (row: Option<u16>)
        requires
            self.wf(),
        ensures
            row is Some <==> self.contains(index as int),
            row is Some ==> row->0 as int == index - self.spec_start(),
    {
        if !self.is_within_window(index) {
            return None;
        }
        Some((index - self.start) as u16)
    }

    /// Gives the window the height `height` and leaves its first line where
    /// it is, as far as line numbers reach.
    pub fn set_height(&mut self, height: u16)
        ensures
            final(self).wf(),
            final(self).spec_size() == height,
            final(self).spec_start() == (if old(self).spec_start() + height > u64::MAX {
                u64::MAX - height
            } else {
                old(self).spec_start()
            }),
            final(self).spec_dirty() == (old(self).spec_dirty() || final(self).spec_size() != old(
                self,
            ).spec_size() || final(self).spec_start() != old(self).spec_start()),
    {
        if self.start > u64::MAX - height as u64 {
            self.start = u64::MAX - height as u64;
            self.dirty = true;
        }
        if self.size != height {
            self.size = height;
            self.dirty = true;
        }
    }

    /// Scrolls by the least amount that brings the cursor's line into view:
    /// up to the line when it lies above the window, down until it is the last
    /// visible line when it lies below, not at all when it is visible. The
    /// window is marked dirty when it moved.
    pub fn set_cursor(&mut self, cursor: &Cursor)
        requires
            old(self).wf(),
            cursor.line < u64::MAX,
        ensures
            final(self).wf(),
            final(self).spec_size() == old(self).spec_size(),
            final(self).spec_start() == followed_start(
                old(self).spec_start(),
                old(self).spec_size(),
                cursor.line as int,
            ),
            final(self).spec_dirty() == (old(self).spec_dirty() || final(self).spec_start() != old(
                self,
            ).spec_start()),
            final(self).spec_size() > 0 ==> final(self).contains(cursor.line as int),
    {
        if cursor.line < self.start {
            self.start = cursor.line;
            self.dirty = true;
        } else if cursor.line >= self.end() {
            self.start = cursor.line - self.size as u64 + 1;
            self.dirty = true;
        }
    }

    /// Gives the window the height `height`, for a document of `nb_lines`
    /// cached lines with the cursor on line `cursor`.
    ///
    /// Nothing happens when the height is unchanged. Otherwise the window
    /// grows or shrinks evenly at both ends, is then kept inside the document,
    /// and last of all is moved so that the cursor's line is visible. The
    /// window is marked dirty.
    pub fn resize(&mut self, height: u16, cursor: u64, nb_lines: u64)
        requires
            old(self).wf(),
            cursor < u64::MAX,
        ensures
            final(self).wf(),
            height as int == old(self).spec_size() ==> *final(self) == *old(self),
            height as int != old(self).spec_size() ==> {
                &&& final(self).spec_size() == height
                &&& final(self).spec_start() == resized_start(
                    old(self).spec_start(),
                    old(self).spec_size(),
                    height as int,
                    cursor as int,
                    nb_lines as int,
                )
                &&& final(self).spec_dirty()
                &&& height > 0 ==> final(self).contains(cursor as int)
            },
    {
        if self.size == height {
            return;
        }
        let doubled: u128 = 2 * (self.start as u128) + self.size as u128;
        let centered: u64 = if height as u128 > doubled {
            0
        } else {
            ((doubled - height as u128) / 2) as u64
        };
        self.start = Self::fit(centered, height, cursor, nb_lines);
        self.size = height;
        self.dirty = true;
    }

    /// Fits the window, at its present height, to a document of `nb_lines`
    /// cached lines with the cursor on line `cursor`: the window is kept
    /// inside the document and then moved so that the cursor's line is
    /// visible. The window is marked dirty when it moved.
    pub fn update(&mut self, cursor: u64, nb_lines: u64)
        requires
            old(self).wf(),
            cursor < u64::MAX,
        ensures
            final(self).wf(),
            final(self).spec_size() == old(self).spec_size(),
            final(self).spec_start() == fitted_start(
                old(self).spec_start(),
                old(self).spec_size(),
                cursor as int,
                nb_lines as int,
            ),
            final(self).spec_dirty() == (old(self).spec_dirty() || final(self).spec_start() != old(
                self,
            ).spec_start()),
            final(self).spec_size() > 0 ==> final(self).contains(cursor as int),
    {
        let new_start = Self::fit(self.start, self.size, cursor, nb_lines);
        if new_start != self.start {
            self.start = new_start;
            self.dirty = true;
        }
    }

    /// Where a window of `height` lines starts once it is fitted, coming from
    /// `candidate`.
    fn fit(candidate: u64, height: u16, cursor: u64, nb_lines: u64) -> (start: u64)
        requires
            cursor < u64::MAX,
        ensures
            start as int == fitted_start(
                candidate as int,
                height as int,
                cursor as int,
                nb_lines as int,
            ),
            start + height <= u64::MAX,
    {
        let height = height as u64;
        let mut start = candidate;
        if candidate as u128 + height as u128 > nb_lines as u128 {
            if nb_lines < height {
                start = 0;
            } else {
                start = nb_lines - height;
            }
        }
        if cursor < start {
            start = cursor;
        } else if cursor >= start + height {
            start = cursor - height + 1;
        }
        start
    }
}

/// A window that followed the cursor shows the cursor's line, unless it has
/// no height.
pub proof fn lemma_followed_window_shows_cursor(start: int, size: int, line: int)
    requires
        size > 0,
    ensures
        followed_start(start, size, line) <= line < followed_start(start, size, line) + size,
{
}

/// A window that was given a new height shows the cursor's line, unless the
/// new height is zero; the size of the document does not matter.
pub proof fn lemma_resized_window_shows_cursor(
    start: int,
    size: int,
    height: int,
    cursor: int,
    nb_lines: int,
)
    requires
        height > 0,
    ensures
        resized_start(start, size, height, cursor, nb_lines) <= cursor < resized_start(
            start,
            size,
            height,
            cursor,
            nb_lines,
        ) + height,
{
}

} // verus!

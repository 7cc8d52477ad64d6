//! Page arithmetic: which stretch of a list is visible for a given cursor.
//!
//! Nothing here stores a "current page". Every quantity is derived from the
//! cursor and the length of the list, so the focused entry can never fall
//! outside the page that is shown.

use vstd::prelude::*;

verus! {

/// Number of entries on a full page.
pub const PAGE_SIZE: usize = 5;

/// Index of the first entry of the page that holds `cursor`.
pub open spec fn page_start(cursor: int) -> int {
    (cursor / PAGE_SIZE as int) * PAGE_SIZE as int
}

/// One past the last entry of the page that holds `cursor`, in a list of
/// `len` entries. The last page is cut short at the end of the list.
pub open spec fn page_end(cursor: int, len: int) -> int {
    if page_start(cursor) + PAGE_SIZE as int <= len {
        page_start(cursor) + PAGE_SIZE as int
    } else {
        len
    }
}

/// Position of `cursor` counted from the start of its page.
pub open spec fn page_focus(cursor: int) -> int {
    cursor - page_start(cursor)
}

/// The visible stretch `[start, end)` of a list and the position of the
/// focused entry inside it.
#[derive(Clone, Copy, Debug, PartialEq, Eq, Structural)]
pub struct Window {
    pub start: usize,
    pub end: usize,
    pub focus: usize,
}

impl Window {
    /// The window that a cursor at `cursor` selects in a list of `len` entries.
    pub open spec fn at(cursor: int, len: int) -> Window {
        Window {
            start: page_start(cursor) as usize,
            end: page_end(cursor, len) as usize,
            focus: page_focus(cursor) as usize,
        }
    }

    /// Number of entries in the window.
    pub open spec fn len(self) -> int {
        self.end - self.start
    }

    /// Index, in the whole list, of the focused entry.
    pub open spec fn focused(self) -> int {
        self.start + self.focus
    }

    /// The window for `cursor` in a list of `len` entries, or nothing when
    /// the cursor does not point into the list (as with every cursor when
    /// the list is empty).
    pub fn locate(cursor: usize, len: usize) -> (window: Option<Window>)
        ensures
            cursor < len ==> window == Some(Window::at(cursor as int, len as int)),
            cursor >= len ==> window is None,
    {
        if cursor < len {
            Some(window_of(cursor, len))
        } else {
            None
        }
    }
}

/// The window for a cursor that is known to point into the list.
pub(crate) fn window_of(cursor: usize, len: usize) -> (window: Window)
    requires
        cursor < len,
    ensures
        window == Window::at(cursor as int, len as int),
{
    let page: usize = cursor / PAGE_SIZE;
    let start: usize = page * PAGE_SIZE;
    let end: usize = if len - start >= PAGE_SIZE {
        start + PAGE_SIZE
    } else {
        len
    };
    Window { start, end, focus: cursor - start }
}

/// Every cursor inside a non-empty list selects a window that contains the
/// cursor, holds at most a page of entries and stays inside the list.
pub proof fn lemma_window_holds_cursor(cursor: int, len: int)
    requires
        0 <= cursor < len,
    ensures
        0 <= page_start(cursor) <= cursor < page_end(cursor, len) <= len,
        1 <= page_end(cursor, len) - page_start(cursor) <= PAGE_SIZE,
        0 <= page_focus(cursor) < page_end(cursor, len) - page_start(cursor),
        page_start(cursor) + page_focus(cursor) == cursor,
        page_start(cursor) % PAGE_SIZE as int == 0,
{
}

} // verus!

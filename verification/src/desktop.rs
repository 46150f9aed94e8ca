//! The model of the platform state that the queries run against: the open
//! top-level windows in the order the window manager reports them, the
//! primary display, the cursor, and the desktop drawing surface.
//!
//! The platform is the ground truth for every value here; an operation
//! never caches or retains any of it past its own return.

use vstd::prelude::*;

use crate::geometry::{Point, Position, Size};

verus! {

/// One open top-level window: its exact title and its bounding box.
#[derive(Debug)]
pub struct Window {
    pub title: String,
    pub bounds: Position,
}

/// The windowing environment at the instant of one query: the window
/// registry, the primary display's dimensions, its pixels row by row, the
/// global cursor, and which window (if any) holds the foreground.
#[derive(Debug)]
pub struct Desktop {
    pub windows: Vec<Window>,
    pub screen: Size,
    pub pixels: Vec<u32>,
    pub cursor: Point,
    pub foreground: Option<usize>,
}

impl Desktop {
    /// What the platform guarantees of its own report: non-negative display
    /// dimensions, one packed 24-bit color per pixel of the primary display,
    /// ordered edges on every window rectangle, and a foreground index that
    /// refers into the registry when present.
    pub open spec fn wf(self) -> bool {
        &&& self.screen.width >= 0
        &&& self.screen.height >= 0
        &&& self.pixels@.len() == self.screen.width * self.screen.height
        &&& forall|i: int|
            0 <= i < self.pixels@.len() ==> (#[trigger] self.pixels@[i]) < 0x1000000
        &&& forall|i: int|
            0 <= i < self.windows@.len() ==> (#[trigger] self.windows@[i]).bounds.wf()
        &&& match self.foreground {
            Some(i) => i < self.windows@.len(),
            None => true,
        }
    }

    /// Whether `p` lies on the primary display.
    pub open spec fn in_screen(self, p: Point) -> bool {
        &&& 0 <= p.x < self.screen.width
        &&& 0 <= p.y < self.screen.height
    }

    /// The packed color of the desktop drawing surface at `p`, reading the
    /// pixel rows top to bottom.
    pub open spec fn pixel_at(self, p: Point) -> u32 {
        self.pixels@[p.y * self.screen.width + p.x]
    }

}

/// No window in `ws` is titled exactly `title`.
pub open spec fn no_match(ws: Seq<Window>, title: Seq<char>) -> bool {
    forall|j: int| 0 <= j < ws.len() ==> (#[trigger] ws[j]).title@ != title
}

/// Index `i` holds the first window in `ws` titled exactly `title`.
pub open spec fn is_first_match(ws: Seq<Window>, title: Seq<char>, i: int) -> bool {
    &&& 0 <= i < ws.len()
    &&& ws[i].title@ == title
    &&& forall|j: int| 0 <= j < i ==> (#[trigger] ws[j]).title@ != title
}

/// The bounds of the first window titled `title`, or the zeroed rectangle
/// when no window matches.
pub open spec fn rect_or_default(ws: Seq<Window>, title: Seq<char>) -> Position
    decreases ws.len(),
{
    if ws.len() == 0 {
        Position::zeroed()
    } else if ws[0].title@ == title {
        ws[0].bounds
    } else {
        rect_or_default(ws.drop_first(), title)
    }
}

/// The width the size query reports for `title`: the width of the first
/// matching window, or zero when no window matches.
pub open spec fn reported_width(ws: Seq<Window>, title: Seq<char>) -> int
    decreases ws.len(),
{
    if ws.len() == 0 {
        0
    } else if ws[0].title@ == title {
        ws[0].bounds.right - ws[0].bounds.left
    } else {
        reported_width(ws.drop_first(), title)
    }
}

/// The height the size query reports for `title`: the height of the first
/// matching window, or zero when no window matches.
pub open spec fn reported_height(ws: Seq<Window>, title: Seq<char>) -> int
    decreases ws.len(),
{
    if ws.len() == 0 {
        0
    } else if ws[0].title@ == title {
        ws[0].bounds.bottom - ws[0].bounds.top
    } else {
        reported_height(ws.drop_first(), title)
    }
}

/// A first match at index `i` pins `rect_or_default` to that window's bounds.
pub proof fn lemma_rect_of_first_match(ws: Seq<Window>, title: Seq<char>, i: int)
    requires
        is_first_match(ws, title, i),
    ensures
        rect_or_default(ws, title) == ws[i].bounds,
    decreases ws.len(),
{
    if ws[0].title@ == title {
        assert(i == 0);
    } else {
        assert(is_first_match(ws.drop_first(), title, i - 1));
        lemma_rect_of_first_match(ws.drop_first(), title, i - 1);
    }
}

/// With no match anywhere, `rect_or_default` is the zeroed rectangle.
pub proof fn lemma_rect_of_no_match(ws: Seq<Window>, title: Seq<char>)
    requires
        no_match(ws, title),
    ensures
        rect_or_default(ws, title) == Position::zeroed(),
    decreases ws.len(),
{
    if ws.len() > 0 {
        assert(no_match(ws.drop_first(), title));
        lemma_rect_of_no_match(ws.drop_first(), title);
    }
}

/// The size the queries report for a title always agrees with the rectangle
/// they report for it: width is right minus left and height is bottom minus
/// top, whether or not any window matches.
pub proof fn lemma_size_matches_position(ws: Seq<Window>, title: Seq<char>)
    ensures
        reported_width(ws, title) == rect_or_default(ws, title).right - rect_or_default(
            ws,
            title,
        ).left,
        reported_height(ws, title) == rect_or_default(ws, title).bottom - rect_or_default(
            ws,
            title,
        ).top,
    decreases ws.len(),
{
    if ws.len() > 0 && ws[0].title@ != title {
        lemma_size_matches_position(ws.drop_first(), title);
    }
}

} // verus!

//! The query operations: stateless, synchronous compositions of the window
//! lookup, the display metrics, the cursor, and the pixel sampler over the
//! desktop model, each one issued exactly once per call with no retry and
//! no state kept between calls.

use vstd::prelude::*;

use crate::desktop::{
    Desktop, is_first_match, lemma_rect_of_first_match, lemma_rect_of_no_match,
    lemma_size_matches_position, no_match, rect_or_default, reported_height, reported_width,
};
use crate::geometry::{Point, Position, Size};
use crate::hex::{color_hex, color_hex_string};

verus! {

/// One coordinate after the platform's own clamping of the cursor to the
/// primary display: pinned to the display when the display has any extent,
/// to zero otherwise.
pub open spec fn clamp_coord(v: int, limit: int) -> int {
    if limit <= 0 {
        0
    } else if v < 0 {
        0
    } else if v >= limit {
        limit - 1
    } else {
        v
    }
}

/// Where the cursor lands when it is asked to move to `p` on a display of
/// size `s`: the requested point, clamped to the display by the platform.
pub open spec fn cursor_landing(p: Point, s: Size) -> Point {
    Point {
        x: clamp_coord(p.x as int, s.width as int) as i32,
        y: clamp_coord(p.y as int, s.height as int) as i32,
    }
}

/// The handle of the first open window titled exactly `title`, or nothing
/// when no open window carries that title. A handle is valid only for the
/// single operation that resolved it; nothing is retained across calls.
fn _window_get(d: &Desktop, title: &String) -> (r: Option<usize>)
    ensures
        match r {
            Some(i) => is_first_match(d.windows@, title@, i as int),
            None => no_match(d.windows@, title@),
        },
{
    let mut i: usize = 0;
    while i < d.windows.len()
        invariant
            i <= d.windows@.len(),
            forall|j: int| 0 <= j < i ==> (#[trigger] d.windows@[j]).title@ != title@,
        decreases d.windows@.len() - i,
    {
        if d.windows[i].title == *title {
            return Some(i);
        }
        i = i + 1;
    }
    None
}

/// The bounds of the first open window titled exactly `title`, or nothing
/// when the lookup fails.
fn _window_rect(d: &Desktop, title: &String) -> (r: Option<Position>)
    requires
        d.wf(),
    ensures
        match r {
            Some(rect) => {
                &&& exists|i: int|
                    is_first_match(d.windows@, title@, i) && rect == d.windows@[i].bounds
                &&& rect.wf()
            },
            None => no_match(d.windows@, title@),
        },
{
    match _window_get(d, title) {
        Some(i) => {
            let rect = d.windows[i].bounds;
            proof {
                assert(is_first_match(d.windows@, title@, i as int) && rect == d.windows@[i as int].bounds);
            }
            Some(rect)
        },
        None => None,
    }
}

/// The primary display's dimensions, exactly as the platform reports them.
pub fn screen_size(d: &Desktop) -> (r: Size)
    ensures
        r == d.screen,
{
    Size::new(d.screen.width, d.screen.height)
}

/// The bounding box of the first open window titled exactly `title`, or the
/// zeroed rectangle when no open window carries that title.
pub fn window_pos(d: &Desktop, title: &String) -> (r: Position)
    requires
        d.wf(),
    ensures
        r == rect_or_default(d.windows@, title@),
{
    match _window_rect(d, title) {
        Some(rect) => {
            proof {
                let i = choose|i: int|
                    is_first_match(d.windows@, title@, i) && rect == d.windows@[i].bounds;
                lemma_rect_of_first_match(d.windows@, title@, i);
            }
            rect
        },
        None => {
            proof {
                lemma_rect_of_no_match(d.windows@, title@);
            }
            Position::new(0, 0, 0, 0)
        },
    }
}

/// The width and height of the first open window titled exactly `title`,
/// derived from its bounding box as right minus left and bottom minus top;
/// both are zero when no open window carries that title.
pub fn window_size(d: &Desktop, title: &String) -> (r: Size)
    requires
        d.wf(),
    ensures
        r.width == reported_width(d.windows@, title@),
        r.height == reported_height(d.windows@, title@),
{
    proof {
        lemma_size_matches_position(d.windows@, title@);
    }
    match _window_rect(d, title) {
        Some(rect) => {
            proof {
                let i = choose|i: int|
                    is_first_match(d.windows@, title@, i) && rect == d.windows@[i].bounds;
                lemma_rect_of_first_match(d.windows@, title@, i);
            }
            Size::new(rect.right - rect.left, rect.bottom - rect.top)
        },
        None => {
            proof {
                lemma_rect_of_no_match(d.windows@, title@);
            }
            Size::new(0, 0)
        },
    }
}

/// Brings the first open window titled exactly `title` to the foreground.
/// When no open window carries that title, the unresolved handle is passed
/// through and the platform treats the request as a no-op; nothing else
/// about the desktop changes either way.
pub fn window_focus(d: &mut Desktop, title: &String)
    requires
        old(d).wf(),
    ensures
        final(d).wf(),
        final(d).windows@ == old(d).windows@,
        final(d).screen == old(d).screen,
        final(d).pixels@ == old(d).pixels@,
        final(d).cursor == old(d).cursor,
        forall|i: int|
            is_first_match(old(d).windows@, title@, i) ==> final(d).foreground == Some(i as usize),
        no_match(old(d).windows@, title@) ==> final(d).foreground == old(d).foreground,
{
    match _window_get(d, title) {
        Some(i) => {
            d.foreground = Some(i);
        },
        None => {},
    }
}

/// The global cursor position, exactly as the platform reports it.
pub fn cursor_pos_get(d: &Desktop) -> (r: Point)
    ensures
        r == d.cursor,
{
    d.cursor
}

/// Moves the global cursor to `p`. The point is forwarded without bounds
/// checking; the platform's own clamping to the primary display decides
/// where the cursor lands. Nothing else about the desktop changes.
pub fn cursor_pos_set(d: &mut Desktop, p: Point)
    requires
        old(d).wf(),
    ensures
        final(d).wf(),
        final(d).cursor == cursor_landing(p, old(d).screen),
        final(d).windows@ == old(d).windows@,
        final(d).screen == old(d).screen,
        final(d).pixels@ == old(d).pixels@,
        final(d).foreground == old(d).foreground,
{
    let x = clamp_coord_exec(p.x, d.screen.width);
    let y = clamp_coord_exec(p.y, d.screen.height);
    d.cursor = Point::new(x, y);
}

/// One coordinate of the platform's cursor clamping.
fn clamp_coord_exec(v: i32, limit: i32) -> (r: i32)
    ensures
        r as int == clamp_coord(v as int, limit as int),
{
    if limit <= 0 {
        0
    } else if v < 0 {
        0
    } else if v >= limit {
        limit - 1
    } else {
        v
    }
}

/// Setting the cursor to any point within the primary display's bounds and
/// reading it straight back, with no intervening movement, yields exactly
/// that point: in-bounds points pass through the platform's clamping
/// unchanged.
pub proof fn lemma_cursor_round_trip(d: Desktop, p: Point)
    requires
        d.wf(),
        0 <= p.x < d.screen.width,
        0 <= p.y < d.screen.height,
    ensures
        cursor_landing(p, d.screen) == p,
{
}

/// The color of the desktop drawing surface at `p`, formatted as `0x` and
/// six lowercase hexadecimal digits, most significant nibble first.
pub fn pixel_color_get(d: &Desktop, p: Point) -> (r: String)
    requires
        d.wf(),
        d.in_screen(p),
    ensures
        r@ == color_hex(d.pixel_at(p) as int),
{
    let n = d.pixels.len();
    proof {
        let w = d.screen.width as int;
        let h = d.screen.height as int;
        let x = p.x as int;
        let y = p.y as int;
        assert(0 <= y * w && y * w + x < w * h) by (nonlinear_arith)
            requires
                0 <= x < w,
                0 <= y < h,
        ;
    }
    let idx: usize = (p.y as usize) * (d.screen.width as usize) + (p.x as usize);
    let c = d.pixels[idx];
    color_hex_string(c)
}

/// Resolves the search area for a pixel scan: the caller's bounds when
/// given, the full primary display otherwise.
fn search_bounds(d: &Desktop, bounds: Option<Size>) -> (r: Size)
    ensures
        match bounds {
            Some(b) => r == b,
            None => r == d.screen,
        },
{
    match bounds {
        Some(b) => b,
        None => Size::new(d.screen.width, d.screen.height),
    }
}

/// Accepts an optional search area, defaulting to the full primary display,
/// but performs no scan: whatever the input, the reported location is the
/// origin. Callers must not read any pixel match into the result.
pub fn pixel_color_search(d: &Desktop, bounds: Option<Size>) -> (r: Point)
    ensures
        r.x == 0,
        r.y == 0,
{
    let _area = search_bounds(d, bounds);
    Point::new(0, 0)
}

} // verus!

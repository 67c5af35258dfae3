//! The requests that the overlay makes of a windowing-protocol client.

use vstd::prelude::*;
use crate::frame::Frame;
use crate::timing::Interval;

verus! {

/// Side of the square that is erased after a frame, unless the frame is larger.
pub const CLEAR_EXTENT: u16 = 2000;

/// Start of every arc, in 64ths of a degree.
pub const ARC_START: i16 = 0;

/// Sweep of every arc, in 64ths of a degree: a full circle.
pub const ARC_SWEEP: i16 = 23040;

/// A rectangle of the overlay surface.
#[derive(Clone, Copy, Debug, PartialEq, Eq, Structural)]
pub struct Region {
    pub x: i16,
    pub y: i16,
    pub width: u16,
    pub height: u16,
}

/// One request, for the client to carry out as it stands.
#[derive(Clone, Copy, Debug, PartialEq, Eq, Structural)]
pub enum Command {
    /// Create a colormap for the visual at `visual_index` among the visuals of
    /// the depth at `depth_index` among the screen's allowed depths.
    CreateColormap { depth_index: usize, visual_index: usize },
    /// Create a square 32-bit-deep window of side `size` at the screen's
    /// origin: no border, override-redirect, exposure events, transparent
    /// background and border pixel, with the colormap created before.
    CreateWindow { size: u16 },
    /// Create the graphics context that strokes the circles.
    CreateGraphicsContext { color: u32, line_width: u32 },
    /// Release the colormap.
    FreeColormap,
    /// Replace the window's type by "splash".
    SetWindowType,
    /// Append "stays on top" to the window's state.
    SetStayOnTop,
    /// Show the window.
    MapWindow,
    /// Send what has been requested so far.
    Flush,
    /// Block until the next event arrives, and report it.
    WaitForEvent,
    /// Ask where the pointer is, and report it.
    QueryPointer,
    /// Move the window's top-left corner.
    MoveWindow { x: u32, y: u32 },
    /// Stroke the full circle inscribed in the frame.
    Draw(Frame),
    /// Erase a rectangle.
    Clear(Region),
    /// Block for the given time.
    Sleep(Interval),
}

/// The rectangle erased after `frame`: from the frame's corner, `CLEAR_EXTENT`
/// each way or the frame's own extent where that is larger.
pub open spec fn clear_region_spec(frame: Frame) -> Region {
    Region {
        x: frame.x,
        y: frame.y,
        width: if frame.width > CLEAR_EXTENT {
            frame.width
        } else {
            CLEAR_EXTENT
        },
        height: if frame.height > CLEAR_EXTENT {
            frame.height
        } else {
            CLEAR_EXTENT
        },
    }
}

/// Computes the rectangle erased after `frame`.
pub fn clear_region(frame: Frame) -> (r: Region)
    ensures
        r == clear_region_spec(frame),
        r.x == frame.x && r.y == frame.y,
        r.width >= frame.width && r.height >= frame.height,
{
    let width: u16 = if frame.width > CLEAR_EXTENT {
        frame.width
    } else {
        CLEAR_EXTENT
    };
    let height: u16 = if frame.height > CLEAR_EXTENT {
        frame.height
    } else {
        CLEAR_EXTENT
    };
    Region { x: frame.x, y: frame.y, width, height }
}

/// Time spent blocked by a list of requests, in nanoseconds.
pub open spec fn sleep_nanos(commands: Seq<Command>) -> int
    decreases commands.len(),
{
    if commands.len() == 0 {
        0
    } else {
        sleep_nanos(commands.drop_last()) + (match commands.last() {
            Command::Sleep(t) => t.total_nanos(),
            _ => 0,
        })
    }
}

/// Number of circles stroked by a list of requests.
pub open spec fn draw_count(commands: Seq<Command>) -> int
    decreases commands.len(),
{
    if commands.len() == 0 {
        0
    } else {
        draw_count(commands.drop_last()) + (match commands.last() {
            Command::Draw(_) => 1int,
            _ => 0int,
        })
    }
}

/// Blocked time and stroked circles add up over a list in two parts.
pub proof fn lemma_totals_additive(first: Seq<Command>, second: Seq<Command>)
    ensures
        sleep_nanos(first + second) == sleep_nanos(first) + sleep_nanos(second),
        draw_count(first + second) == draw_count(first) + draw_count(second),
    decreases second.len(),
{
    if second.len() == 0 {
        assert(first + second =~= first);
    } else {
        lemma_totals_additive(first, second.drop_last());
        assert((first + second).drop_last() =~= first + second.drop_last());
        assert((first + second).last() == second.last());
    }
}

} // verus!

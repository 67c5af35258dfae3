//! Where the overlay goes on the screen.

use vstd::prelude::*;

verus! {

/// The pointer's position on the root window, read once when the overlay has
/// become visible.
#[derive(Clone, Copy, Debug, PartialEq, Eq, Structural)]
pub struct PointerPosition {
    pub x: i16,
    pub y: i16,
}

/// One coordinate of the overlay's top-left corner: half a surface before the
/// pointer, and never off the screen's near edge.
pub open spec fn origin_spec(pointer: i16, surface_size: u16) -> int {
    let o = pointer - surface_size / 2;
    if o < 0 {
        0
    } else {
        o
    }
}

/// Computes one coordinate of the overlay's top-left corner.
pub fn axis_origin(pointer: i16, surface_size: u16) -> (o: u32)
    ensures
        o == origin_spec(pointer, surface_size),
        o >= 0,
        o <= 0x7FFF,
{
    let half: i32 = (surface_size / 2) as i32;
    let o: i32 = pointer as i32 - half;
    if o < 0 {
        0
    } else {
        o as u32
    }
}

/// Computes the top-left corner at which a square surface of side
/// `surface_size` is centred on the pointer, each axis held at zero or above.
pub fn window_origin(surface_size: u16, pointer: PointerPosition) -> (origin: (u32, u32))
    ensures
        origin.0 == origin_spec(pointer.x, surface_size),
        origin.1 == origin_spec(pointer.y, surface_size),
        origin.0 >= 0 && origin.1 >= 0,
{
    (axis_origin(pointer.x, surface_size), axis_origin(pointer.y, surface_size))
}

/// The corner is never negative; it is `pointer - surface_size / 2` wherever
/// that is not negative, and zero elsewhere.
pub proof fn lemma_origin_clamped(pointer: i16, surface_size: u16)
    ensures
        origin_spec(pointer, surface_size) >= 0,
        pointer - surface_size / 2 >= 0 ==> origin_spec(pointer, surface_size) == pointer
            - surface_size / 2,
        pointer - surface_size / 2 < 0 ==> origin_spec(pointer, surface_size) == 0,
        origin_spec(pointer, surface_size) <= i16::MAX,
{
}

} // verus!

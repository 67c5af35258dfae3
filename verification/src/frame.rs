//! The circle drawn at each step of the animation, and the sequence of them.

use vstd::prelude::*;
use crate::config::{ConfigError, Kind};

verus! {

/// Bounding box of one circle, relative to the overlay's top-left corner.
#[derive(Clone, Copy, Debug, PartialEq, Eq, Structural)]
pub struct Frame {
    pub x: i16,
    pub y: i16,
    pub width: u16,
    pub height: u16,
}

/// Diameter of the circle with index `i`: the full size less `i` steps of
/// `max_size / frame_count`, and never below zero.
pub open spec fn edge_at(max_size: int, frame_count: int, i: int) -> int {
    let e = max_size - (max_size / frame_count) * i;
    if e < 0 {
        0
    } else {
        e
    }
}

/// Distance of the circle with index `i` from the overlay's top-left corner:
/// `i` steps of `max_size / (2 * frame_count)`, held to what an `i16` can carry.
pub open spec fn offset_at(max_size: int, frame_count: int, i: int) -> int {
    let o = max_size / (2 * frame_count) * i;
    if o > i16::MAX {
        i16::MAX as int
    } else {
        o
    }
}

/// The circle with index `i` of an animation of `frame_count` circles.
pub open spec fn frame_spec(max_size: u16, frame_count: u16, i: u16) -> Frame {
    Frame {
        x: offset_at(max_size as int, frame_count as int, i as int) as i16,
        y: offset_at(max_size as int, frame_count as int, i as int) as i16,
        width: edge_at(max_size as int, frame_count as int, i as int) as u16,
        height: edge_at(max_size as int, frame_count as int, i as int) as u16,
    }
}

/// The circles for the given indices, in the order of the indices.
pub open spec fn frames_of(max_size: u16, frame_count: u16, indices: Seq<u16>) -> Seq<Frame> {
    Seq::new(indices.len(), |k: int| frame_spec(max_size, frame_count, indices[k]))
}

/// The order in which a kind walks the indices `0 .. frame_count`: a growing
/// animation starts at the last index, whose circle is the smallest.
pub open spec fn indices_for(kind: Kind, frame_count: u16) -> Seq<u16> {
    Seq::new(
        frame_count as nat,
        |k: int|
            if kind.grows() {
                (frame_count - 1 - k) as u16
            } else {
                k as u16
            },
    )
}

/// The frames of a whole animation, in playback order.
pub open spec fn sequence_spec(max_size: u16, frame_count: u16, kind: Kind) -> Seq<Frame> {
    frames_of(max_size, frame_count, indices_for(kind, frame_count))
}

/// What generating an animation returns: the frames in playback order, or
/// `InvalidFrameCount` exactly where no frame was asked for.
pub open spec fn generated(
    max_size: u16,
    frame_count: u16,
    kind: Kind,
    r: Result<Vec<Frame>, ConfigError>,
) -> bool {
    match r {
        Ok(frames) => frame_count > 0 && frames@ == sequence_spec(max_size, frame_count, kind),
        Err(e) => frame_count == 0 && e == ConfigError::InvalidFrameCount,
    }
}

/// Both measures of a circle are within their types, whatever the index.
pub proof fn lemma_frame_bounds(max_size: u16, frame_count: u16, i: u16)
    requires
        frame_count > 0,
    ensures
        0 <= edge_at(max_size as int, frame_count as int, i as int) <= max_size,
        0 <= offset_at(max_size as int, frame_count as int, i as int) <= i16::MAX,
{
    let step = max_size as int / frame_count as int;
    let half = max_size as int / (2 * frame_count as int);
    assert(0 <= step * i) by (nonlinear_arith)
        requires
            0 <= step,
            0 <= i,
    ;
    assert(0 <= half * i) by (nonlinear_arith)
        requires
            0 <= half,
            0 <= i,
    ;
}

/// Within an animation's own indices nothing is cut off: the diameter is
/// `max_size - (max_size / frame_count) * i`, at least one step wide, and the
/// offset is `max_size / (2 * frame_count) * i`, at most half the size.
pub proof fn lemma_frame_exact(max_size: u16, frame_count: u16, i: u16)
    requires
        i < frame_count,
    ensures
        edge_at(max_size as int, frame_count as int, i as int) == max_size - (max_size as int
            / frame_count as int) * i,
        edge_at(max_size as int, frame_count as int, i as int) >= max_size as int
            / frame_count as int,
        offset_at(max_size as int, frame_count as int, i as int) == max_size as int / (2
            * frame_count as int) * i,
        2 * offset_at(max_size as int, frame_count as int, i as int) <= max_size,
{
    let m = max_size as int;
    let n = frame_count as int;
    let step = m / n;
    let half = m / (2 * n);
    assert(step * n <= m && half * (2 * n) <= m) by (nonlinear_arith)
        requires
            step == m / n,
            half == m / (2 * n),
            0 <= m,
            0 < n,
    ;
    assert(step * i + step <= step * n && 0 <= half * i && 2 * (half * i) <= half * (2 * n))
        by (nonlinear_arith)
        requires
            0 <= step,
            0 <= half,
            0 <= i < n,
    ;
}

/// Computes the circle with index `i`.
pub fn frame_at(max_size: u16, frame_count: u16, i: u16) -> (f: Frame)
    requires
        frame_count > 0,
    ensures
        f == frame_spec(max_size, frame_count, i),
        f.width == edge_at(max_size as int, frame_count as int, i as int),
        f.x == offset_at(max_size as int, frame_count as int, i as int),
        f.height == f.width && f.y == f.x,
        f.width <= max_size && f.x >= 0,
{
    let step: u32 = (max_size / frame_count) as u32;
    let half: u32 = max_size as u32 / (2 * frame_count as u32);
    proof {
        lemma_frame_bounds(max_size, frame_count, i);
        vstd::arithmetic::div_mod::lemma_div_is_ordered_by_denominator(
            max_size as int,
            2,
            2 * frame_count as int,
        );
    }
    assert(step * i <= 0xFFFF * 0xFFFF && half * i <= 0x7FFF * 0xFFFF) by (nonlinear_arith)
        requires
            0 <= step <= 0xFFFF,
            0 <= half <= 0x7FFF,
            0 <= i <= 0xFFFF,
    ;
    let shrunk: u32 = step * i as u32;
    let moved: u32 = half * i as u32;
    let edge: u16 = if shrunk >= max_size as u32 {
        0
    } else {
        (max_size as u32 - shrunk) as u16
    };
    let offset: i16 = if moved > 0x7FFF {
        0x7FFF
    } else {
        moved as i16
    };
    Frame { x: offset, y: offset, width: edge, height: edge }
}

/// Computes the frames of an animation in playback order: `frame_count`
/// circles, the smallest first for a growing kind and the largest first for a
/// shrinking one. A frame count of zero is rejected.
pub fn frame_sequence(max_size: u16, frame_count: u16, kind: Kind) -> (r: Result<
    Vec<Frame>,
    ConfigError,
>)
    ensures
        generated(max_size, frame_count, kind, r),
        r matches Ok(frames) ==> frames@.len() == frame_count && forall|k: int|
            0 <= k < frame_count ==> (#[trigger] frames@[k]).width == frames@[k].height
                && frames@[k].width <= max_size,
{
    if frame_count == 0 {
        return Err(ConfigError::InvalidFrameCount);
    }
    let grows: bool = kind.is_growing();
    let mut frames: Vec<Frame> = Vec::new();
    let mut k: u16 = 0;
    while k < frame_count
        invariant
            0 < frame_count,
            k <= frame_count,
            grows == kind.grows(),
            frames@.len() == k,
            forall|j: int|
                0 <= j < k ==> frames@[j] == frame_spec(
                    max_size,
                    frame_count,
                    #[trigger] indices_for(kind, frame_count)[j],
                ),
        decreases frame_count - k,
    {
        let i: u16 = if grows {
            frame_count - 1 - k
        } else {
            k
        };
        frames.push(frame_at(max_size, frame_count, i));
        k = k + 1;
    }
    assert(frames@ =~= sequence_spec(max_size, frame_count, kind));
    proof {
        lemma_sequence_shape(max_size, frame_count, kind);
    }
    Ok(frames)
}

/// An animation has exactly `frame_count` frames; each is as high as it is
/// wide, and none is wider than `max_size`.
pub proof fn lemma_sequence_shape(max_size: u16, frame_count: u16, kind: Kind)
    requires
        frame_count >= 1,
    ensures
        sequence_spec(max_size, frame_count, kind).len() == frame_count,
        forall|k: int|
            0 <= k < frame_count ==> {
                let f = #[trigger] sequence_spec(max_size, frame_count, kind)[k];
                f.width == f.height && f.width <= max_size && f.x == f.y
            },
{
    let s = sequence_spec(max_size, frame_count, kind);
    assert forall|k: int| 0 <= k < frame_count implies ({
        let f = #[trigger] s[k];
        f.width == f.height && f.width <= max_size && f.x == f.y
    }) by {
        lemma_frame_bounds(max_size, frame_count, indices_for(kind, frame_count)[k]);
    }
}

/// With the same parameters a growing and a shrinking animation show the same
/// circles in opposite order.
pub proof fn lemma_grow_reverses_shrink(max_size: u16, frame_count: u16, grow: Kind, shrink: Kind)
    requires
        grow.grows(),
        !shrink.grows(),
    ensures
        forall|i: int|
            0 <= i < frame_count ==> #[trigger] sequence_spec(max_size, frame_count, grow)[i]
                == sequence_spec(max_size, frame_count, shrink)[frame_count - 1 - i],
        sequence_spec(max_size, frame_count, grow) == sequence_spec(
            max_size,
            frame_count,
            shrink,
        ).reverse(),
{
    assert(sequence_spec(max_size, frame_count, grow) =~= sequence_spec(
        max_size,
        frame_count,
        shrink,
    ).reverse());
}

/// Widths never decrease along a growing animation and never increase along a
/// shrinking one.
pub proof fn lemma_widths_monotonic(max_size: u16, frame_count: u16, kind: Kind, a: int, b: int)
    requires
        0 <= a <= b < frame_count,
    ensures
        kind.grows() ==> sequence_spec(max_size, frame_count, kind)[a].width <= sequence_spec(
            max_size,
            frame_count,
            kind,
        )[b].width,
        !kind.grows() ==> sequence_spec(max_size, frame_count, kind)[a].width >= sequence_spec(
            max_size,
            frame_count,
            kind,
        )[b].width,
{
    let ia = indices_for(kind, frame_count)[a];
    let ib = indices_for(kind, frame_count)[b];
    let step = max_size as int / frame_count as int;
    lemma_frame_exact(max_size, frame_count, ia);
    lemma_frame_exact(max_size, frame_count, ib);
    if kind.grows() {
        assert(step * ib <= step * ia) by (nonlinear_arith)
            requires
                0 <= step,
                ib <= ia,
        ;
    } else {
        assert(step * ia <= step * ib) by (nonlinear_arith)
            requires
                0 <= step,
                ia <= ib,
        ;
    }
}

/// Generating is a function of its inputs: two results for the same
/// parameters succeed or fail together and hold the same frames.
pub proof fn lemma_generation_repeatable(
    max_size: u16,
    frame_count: u16,
    kind: Kind,
    first: Result<Vec<Frame>, ConfigError>,
    second: Result<Vec<Frame>, ConfigError>,
)
    requires
        generated(max_size, frame_count, kind, first),
        generated(max_size, frame_count, kind, second),
    ensures
        first.is_ok() == second.is_ok(),
        first.is_ok() ==> first.unwrap()@ == second.unwrap()@,
        first.is_err() ==> first.unwrap_err() == second.unwrap_err(),
{
}

} // verus!

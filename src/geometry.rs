//! Placement of the overlay card relative to the pointer, in whole logical
//! screen units.
use vstd::prelude::*;

verus! {

/// Horizontal distance from the card's left edge to the anchor point.
pub const GRIP_MARGIN: i64 = 20;

/// Height assumed when the window's current size cannot be read.
pub const FALLBACK_HEIGHT: u32 = 36;

/// Left edge of a card anchored at horizontal position `x`.
pub open spec fn card_left(x: int) -> int {
    x - GRIP_MARGIN
}

/// Top edge of a card of height `h` vertically centred on `y`.
/// An odd height leaves the extra unit below the anchor.
pub open spec fn card_top(y: int, h: int) -> int {
    y - h / 2
}

/// Top-left corner of the overlay window.
#[derive(Clone, Copy, Debug, PartialEq, Eq, Structural)]
pub struct Origin {
    pub left: i64,
    pub top: i64,
}

/// Position and size of the overlay window.
#[derive(Clone, Copy, Debug, PartialEq, Eq, Structural)]
pub struct Frame {
    pub left: i64,
    pub top: i64,
    pub width: u32,
    pub height: u32,
}

/// The frame of a card of size `width` by `height` anchored at `(x, y)`.
pub open spec fn anchored_frame(x: i32, y: i32, width: u32, height: u32) -> Frame {
    Frame {
        left: card_left(x as int) as i64,
        top: card_top(y as int, height as int) as i64,
        width,
        height,
    }
}

/// The origin of a card whose height reads `observed_height` (or is unknown)
/// anchored at `(x, y)`.
pub open spec fn follow_origin_of(x: i32, y: i32, observed_height: Option<u32>) -> Origin {
    let h = match observed_height {
        Some(h) => h,
        None => FALLBACK_HEIGHT,
    };
    Origin { left: card_left(x as int) as i64, top: card_top(y as int, h as int) as i64 }
}

/// The origin that puts a card of height `height` beside the anchor `(x, y)`.
pub fn anchored_origin(x: i32, y: i32, height: u32) -> (r: Origin)
    ensures
        r.left == card_left(x as int),
        r.top == card_top(y as int, height as int),
{
    Origin { left: x as i64 - GRIP_MARGIN, top: y as i64 - (height / 2) as i64 }
}

/// The frame of a freshly created card of the given size anchored at `(x, y)`.
pub fn card_frame(x: i32, y: i32, width: u32, height: u32) -> (r: Frame)
    ensures
        r.left == card_left(x as int),
        r.top == card_top(y as int, height as int),
        r.width == width,
        r.height == height,
        r == anchored_frame(x, y, width, height),
{
    let o = anchored_origin(x, y, height);
    Frame { left: o.left, top: o.top, width, height }
}

/// The origin for moving an existing card to the anchor `(x, y)`, given the
/// height read back from the window, or `None` where it could not be read.
pub fn follow_origin(x: i32, y: i32, observed_height: Option<u32>) -> (r: Origin)
    ensures
        r.left == card_left(x as int),
        r.top == card_top(
            y as int,
            match observed_height {
                Some(h) => h as int,
                None => FALLBACK_HEIGHT as int,
            },
        ),
        r == follow_origin_of(x, y, observed_height),
{
    let h = match observed_height {
        Some(h) => h,
        None => FALLBACK_HEIGHT,
    };
    anchored_origin(x, y, h)
}

} // verus!

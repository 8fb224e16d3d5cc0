//! Properties of the overlay slot over several requests.
use vstd::prelude::*;
use crate::geometry::{anchored_frame, follow_origin_of, Frame, Origin, FALLBACK_HEIGHT};
use crate::overlay::{after_create, after_destroy, after_move, Shown};

verus! {

/// One create request as the slot sees it: the label, the anchor `x` and
/// `y`, the width and height, and whether the toolkit carried it out.
pub type CreateCall = (Seq<char>, i32, i32, u32, u32, bool);

/// The slot after one create request: `begin_create` empties it, and
/// `finish_create` fills it on success.
pub open spec fn create_step(slot: Option<Shown>, call: CreateCall) -> Option<Shown> {
    after_create(call.0, anchored_frame(call.1, call.2, call.3, call.4), call.5)
}

/// The slot after a run of create requests, starting from `start`.
pub open spec fn after_creates(start: Option<Shown>, calls: Seq<CreateCall>) -> Option<Shown>
    decreases calls.len(),
{
    if calls.len() == 0 {
        start
    } else {
        create_step(after_creates(start, calls.drop_last()), calls.last())
    }
}

/// After any run of create requests there is at most one overlay, and it is
/// the one of the last request, shown as asked; where that request failed,
/// there is none.
pub proof fn lemma_last_create_wins(start: Option<Shown>, calls: Seq<CreateCall>)
    requires
        calls.len() > 0,
    ensures
        ({
            let (label, x, y, w, h, ok) = calls.last();
            &&& ok ==> after_creates(start, calls) == Some(
                (label, anchored_frame(x, y, w, h)),
            )
            &&& !ok ==> after_creates(start, calls) is None
        }),
{
}

/// Closing the overlay when there is none leaves the slot empty, and closing
/// twice is the same as closing once.
pub proof fn lemma_destroy_idempotent(slot: Option<Shown>)
    ensures
        after_destroy(None) is None,
        after_destroy(after_destroy(slot)) == after_destroy(slot),
{
}

/// Moving when there is no overlay changes nothing, whatever the toolkit
/// reported.
pub proof fn lemma_move_when_absent_is_noop(to: Origin, ok: bool)
    ensures
        after_move(None, to, ok) is None,
{
}

/// A created overlay's top-left corner is 20 units left of the anchor and
/// half its height above it; a later move puts it 20 units left of the new
/// anchor and half the observed height above it, and keeps its size and
/// label.
pub proof fn lemma_positioning(
    label: Seq<char>,
    x: i32,
    y: i32,
    width: u32,
    height: u32,
    x2: i32,
    y2: i32,
    observed_height: Option<u32>,
)
    ensures
        ({
            let frame = anchored_frame(x, y, width, height);
            let to = follow_origin_of(x2, y2, observed_height);
            let h2 = match observed_height {
                Some(h) => h as int,
                None => FALLBACK_HEIGHT as int,
            };
            let created = after_create(label, frame, true);
            &&& created == Some((label, frame))
            &&& frame.left == x - 20
            &&& frame.top == y - height / 2
            &&& frame.width == width
            &&& frame.height == height
            &&& after_move(created, to, true) == Some(
                (label, Frame { left: to.left, top: to.top, width, height }),
            )
            &&& to.left == x2 - 20
            &&& to.top == y2 - h2 / 2
        }),
{
}

} // verus!

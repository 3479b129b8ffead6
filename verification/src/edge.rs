//! Cursor-at-screen-edge detection for edge switching: which edge a
//! pointer x coordinate is at, and a debounce that reports an edge once
//! per arrival rather than on every poll while the cursor rests there.
//! Reading the pointer position is the caller's job.

use vstd::prelude::*;

verus! {

/// A screen edge a peer can be assigned to.
#[derive(Debug, Clone, Copy, PartialEq, Eq, Hash, Structural)]
pub enum ScreenEdge {
    Left,
    Right,
}

impl ScreenEdge {
    /// The user-facing name of the edge.
    pub fn label(self) -> (text: &'static str)
        ensures
            self == ScreenEdge::Left ==> text@ == "Left edge"@,
            self == ScreenEdge::Right ==> text@ == "Right edge"@,
    {
        match self {
            ScreenEdge::Left => "Left edge",
            ScreenEdge::Right => "Right edge",
        }
    }
}

/// The edge at pointer position `x` on a screen `screen_width` wide: left
/// at or below 0, right at or beyond the last column.
pub open spec fn spec_edge_for_x(x: i16, screen_width: i16) -> Option<ScreenEdge> {
    if x <= 0 {
        Some(ScreenEdge::Left)
    } else if x >= screen_width - 1 {
        Some(ScreenEdge::Right)
    } else {
        None
    }
}

/// Which edge, if any, the pointer is at.
pub fn edge_for_x(x: i16, screen_width: i16) -> (edge: Option<ScreenEdge>)
    requires
        screen_width > i16::MIN,
    ensures
        edge == spec_edge_for_x(x, screen_width),
{
    if x <= 0 {
        Some(ScreenEdge::Left)
    } else if x >= screen_width - 1 {
        Some(ScreenEdge::Right)
    } else {
        None
    }
}

/// One poll: given the edge of the previous poll and the pointer at `x`,
/// the edge now, and the edge reported (the edge now, if it is one and
/// differs from the previous poll's).
pub open spec fn spec_poll(last: Option<ScreenEdge>, x: i16, screen_width: i16) -> (
    Option<ScreenEdge>,
    Option<ScreenEdge>,
) {
    let now = spec_edge_for_x(x, screen_width);
    (
        now,
        if now is Some && now != last {
            now
        } else {
            None
        },
    )
}

/// Remembers where the pointer was at the previous poll.
pub struct EdgeTracker {
    was_at_edge: Option<ScreenEdge>,
}

impl EdgeTracker {
    /// The edge the pointer was at on the last poll.
    pub closed spec fn last_edge(&self) -> Option<ScreenEdge> {
        self.was_at_edge
    }

    /// No poll yet.
    pub fn new() -> (tracker: EdgeTracker)
        ensures
            tracker.last_edge() is None,
    {
        EdgeTracker { was_at_edge: None }
    }

    /// One poll of the pointer at `x`: reports the edge the moment the
    /// pointer arrives at it, and nothing while it stays there.
    pub fn poll(&mut self, x: i16, screen_width: i16) -> (crossed: Option<ScreenEdge>)
        requires
            screen_width > i16::MIN,
        ensures
            (final(self).last_edge(), crossed) == spec_poll(old(self).last_edge(), x, screen_width),
    {
        let at_edge = edge_for_x(x, screen_width);
        let crossed = match (at_edge, self.was_at_edge) {
            (Some(e), Some(w)) => if e != w {
                Some(e)
            } else {
                None
            },
            (Some(e), None) => Some(e),
            (None, _) => None,
        };
        self.was_at_edge = at_edge;
        crossed
    }
}

/// A pointer resting at an edge is reported once: after a poll at an
/// edge, a further poll at the same edge reports nothing, whatever came
/// before.
pub proof fn lemma_edge_reported_once(
    last: Option<ScreenEdge>,
    x1: i16,
    x2: i16,
    screen_width: i16,
)
    requires
        spec_edge_for_x(x1, screen_width) == spec_edge_for_x(x2, screen_width),
    ensures
        spec_poll(spec_poll(last, x1, screen_width).0, x2, screen_width).1 is None,
{
}

/// Arriving at an edge from the middle of the screen is always reported.
pub proof fn lemma_edge_arrival_reported(x1: i16, x2: i16, screen_width: i16)
    requires
        spec_edge_for_x(x1, screen_width) is None,
        spec_edge_for_x(x2, screen_width) is Some,
    ensures
        spec_poll(None, x1, screen_width).1 is None,
        spec_poll(spec_poll(None, x1, screen_width).0, x2, screen_width).1 == spec_edge_for_x(
            x2,
            screen_width,
        ),
{
}

/// Where the edges are: at or left of column 0 is the left edge; at or
/// right of the last column (`screen_width - 1`) is the right edge, unless
/// the pointer is also at column 0 or less; strictly between is no edge.
pub proof fn lemma_edges(x: i16, screen_width: i16)
    requires
        screen_width > i16::MIN,
    ensures
        x <= 0 ==> spec_edge_for_x(x, screen_width) == Some(ScreenEdge::Left),
        x > 0 && x >= screen_width - 1 ==> spec_edge_for_x(x, screen_width) == Some(
            ScreenEdge::Right,
        ),
        0 < x < screen_width - 1 ==> spec_edge_for_x(x, screen_width) is None,
{
}

} // verus!

//! The sliding window of recently drawn trail strokes.

use vstd::prelude::*;

use crate::geometry::{
    spec_intersects, spec_loop_box, loop_box, BoundingBox, Line, Point, MAX_LINE_LEN_SQ,
};

verus! {

/// An ordered sequence of strokes, oldest first.  Once the game has started
/// the window always holds at least one stroke, and after the post-extend
/// trim step never more than four.
pub struct Trail {
    pub lines: Vec<Line>,
}

impl Trail {
    /// The window holds at least one stroke.
    pub open spec fn wf(self) -> bool {
        1 <= self.lines@.len()
    }

    /// The single zero-length stroke a reset leaves behind.
    pub open spec fn spec_reset(anchor: Point) -> Seq<Line> {
        seq![Line { from: anchor, to: anchor }]
    }

    /// One extension step: a reset to the current position when the newest
    /// stroke is overlong; otherwise a brand-new stroke on an axis change, or
    /// the newest stroke's endpoint moved to the current position.
    pub open spec fn spec_extend(lines: Seq<Line>, cur: Point, prev: Point, axis_changed: bool) -> Seq<Line>
        recommends
            lines.len() >= 1,
    {
        if lines.last().spec_len_sq() > MAX_LINE_LEN_SQ {
            Self::spec_reset(cur)
        } else if axis_changed {
            lines.push(Line { from: prev, to: cur })
        } else {
            lines.update(lines.len() - 1, Line { from: lines.last().from, to: cur })
        }
    }

    /// The post-extend trim: the oldest stroke is dropped once the window
    /// exceeds four strokes.
    pub open spec fn spec_trim(lines: Seq<Line>) -> Seq<Line> {
        if lines.len() > 4 {
            lines.drop_first()
        } else {
            lines
        }
    }

    /// Loop closure: the window is full and the newest stroke intersects the
    /// oldest retained one.
    pub open spec fn spec_closes(lines: Seq<Line>) -> bool {
        lines.len() >= 4 && spec_intersects(lines.last(), lines.first())
    }

    /// A fresh trail: one zero-length stroke at the anchor.
    pub fn new(anchor: Point) -> (t: Trail)
        ensures
            t.lines@ == Self::spec_reset(anchor),
            t.wf(),
    {
        let mut lines: Vec<Line> = Vec::new();
        lines.push(Line { from: anchor, to: anchor });
        proof {
            assert(lines@ =~= Self::spec_reset(anchor));
        }
        Trail { lines }
    }

    /// Clears all strokes, leaving a single zero-length stroke at the anchor.
    pub fn reset(&mut self, anchor: Point)
        ensures
            final(self).lines@ == Self::spec_reset(anchor),
            final(self).wf(),
    {
        self.lines.clear();
        self.lines.push(Line { from: anchor, to: anchor });
        proof {
            assert(self.lines@ =~= Self::spec_reset(anchor));
        }
    }

    /// Extends the trail for one frame of movement: resets it when the newest
    /// stroke is overlong, starts a new stroke on an axis change, and
    /// otherwise moves the newest stroke's endpoint to the current position.
    pub fn extend_or_branch(&mut self, cur: Point, prev: Point, axis_changed: bool)
        requires
            old(self).wf(),
        ensures
            final(self).lines@ == Self::spec_extend(old(self).lines@, cur, prev, axis_changed),
            final(self).wf(),
    {
        let n = self.lines.len();
        let last = self.lines[n - 1];
        if last.len_sq() > MAX_LINE_LEN_SQ {
            self.reset(cur);
        } else if axis_changed {
            self.lines.push(Line { from: prev, to: cur });
        } else {
            let ghost lines0 = self.lines@;
            self.lines.pop();
            self.lines.push(Line { from: last.from, to: cur });
            proof {
                assert(self.lines@ =~= lines0.update(lines0.len() - 1, Line { from: last.from, to: cur }));
            }
        }
    }

    /// Drops the oldest stroke once the window exceeds four strokes.
    pub fn trim(&mut self)
        ensures
            final(self).lines@ == Self::spec_trim(old(self).lines@),
    {
        if self.lines.len() > 4 {
            let ghost lines0 = self.lines@;
            self.lines.remove(0);
            proof {
                assert(self.lines@ =~= lines0.drop_first());
            }
        }
    }

    /// Tests the newest stroke against the oldest for a closed loop; on a
    /// hit, returns the bounding box spanning the four endpoints of the two
    /// strokes.  Only a full window of four or more strokes is ever tested.
    pub fn closes_loop(&self) -> (r: Option<BoundingBox>)
        requires
            self.wf(),
        ensures
            Self::spec_closes(self.lines@) ==> r == Some(
                spec_loop_box(self.lines@.first(), self.lines@.last()),
            ),
            !Self::spec_closes(self.lines@) ==> r is None,
    {
        if self.lines.len() >= 4 {
            let first = self.lines[0];
            let last = self.lines[self.lines.len() - 1];
            if last.intersects(&first) {
                Some(loop_box(&first, &last))
            } else {
                None
            }
        } else {
            None
        }
    }
}

/// Extending without an axis change never grows the window; an axis change
/// grows it by exactly one; the overlength reset collapses it to a single
/// stroke.
pub proof fn lemma_extend_count(lines: Seq<Line>, cur: Point, prev: Point, axis_changed: bool)
    requires
        lines.len() >= 1,
    ensures
        lines.last().spec_len_sq() > MAX_LINE_LEN_SQ ==> Trail::spec_extend(
            lines,
            cur,
            prev,
            axis_changed,
        ).len() == 1,
        lines.last().spec_len_sq() <= MAX_LINE_LEN_SQ && !axis_changed ==> Trail::spec_extend(
            lines,
            cur,
            prev,
            axis_changed,
        ).len() == lines.len(),
        lines.last().spec_len_sq() <= MAX_LINE_LEN_SQ && axis_changed ==> Trail::spec_extend(
            lines,
            cur,
            prev,
            axis_changed,
        ).len() == lines.len() + 1,
{
}

/// After the post-extend trim step the window never holds more than four
/// strokes.
pub proof fn lemma_extend_then_trim_bound(lines: Seq<Line>, cur: Point, prev: Point, axis_changed: bool)
    requires
        1 <= lines.len() <= 4,
    ensures
        Trail::spec_trim(Trail::spec_extend(lines, cur, prev, axis_changed)).len() <= 4,
        Trail::spec_trim(Trail::spec_extend(lines, cur, prev, axis_changed)).len() >= 1,
{
}

} // verus!

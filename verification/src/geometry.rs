//! Points, line segments, orientation and the segment-intersection test.

use vstd::prelude::*;

verus! {

/// Squared length above which a trail stroke triggers a reset
/// (300 distance units).
pub const MAX_LINE_LEN_SQ: i128 = 90000;

/// Squared length at which a stroke is flagged as a warning
/// (225 units, three quarters of the maximum).
pub const WARN_LINE_LEN_SQ: i128 = 50625;

/// The playfield size, supplied once by the shell at startup.
#[derive(Clone, Copy, Debug, PartialEq, Eq, Structural)]
pub struct Size {
    pub width: i32,
    pub height: i32,
}

/// A playfield size within the working coordinate range.
pub open spec fn wf_size(s: Size) -> bool {
    0 <= s.width <= 1000000000 && 0 <= s.height <= 1000000000
}

/// An integer 2D coordinate on the playfield.
#[derive(Clone, Copy, Debug, PartialEq, Eq, Structural)]
pub struct Point {
    pub x: i32,
    pub y: i32,
}

/// One drawn trail stroke.
#[derive(Clone, Copy, Debug, PartialEq, Eq, Structural)]
pub struct Line {
    pub from: Point,
    pub to: Point,
}

/// Turn direction of a point triple.
#[derive(Clone, Copy, Debug, PartialEq, Eq, Structural)]
pub enum Orientation {
    Collinear,
    Clockwise,
    CounterClockwise,
}

/// The smaller of two integers.
pub open spec fn min2(a: int, b: int) -> int {
    if a <= b {
        a
    } else {
        b
    }
}

/// The larger of two integers.
pub open spec fn max2(a: int, b: int) -> int {
    if a >= b {
        a
    } else {
        b
    }
}

/// Absolute difference of two integers.
pub open spec fn abs_delta(a: int, b: int) -> int {
    if a >= b {
        a - b
    } else {
        b - a
    }
}

/// A coordinate the engine works with: well inside the i32 range, so the
/// per-frame steps of at most two units cannot overflow.
pub open spec fn wf_coord(v: int) -> bool {
    -1000000000 <= v <= 1000000000
}

/// Both coordinates of a point are within the working range.
pub open spec fn wf_point(p: Point) -> bool {
    wf_coord(p.x as int) && wf_coord(p.y as int)
}

impl Line {
    /// Squared Euclidean distance between the endpoints.
    pub open spec fn spec_len_sq(self) -> int {
        let dx = abs_delta(self.from.x as int, self.to.x as int);
        let dy = abs_delta(self.from.y as int, self.to.y as int);
        dx * dx + dy * dy
    }

    pub fn new(from: Point, to: Point) -> (l: Line)
        ensures
            l == (Line { from, to }),
    {
        Line { from, to }
    }

    pub fn get_from(self) -> (p: Point)
        ensures
            p == self.from,
    {
        self.from
    }

    pub fn get_to(self) -> (p: Point)
        ensures
            p == self.to,
    {
        self.to
    }

    pub fn set_to(&mut self, to: Point)
        ensures
            *final(self) == (Line { from: old(self).from, to }),
    {
        self.to = to;
    }

    /// Squared length of the stroke; never negative, zero exactly when the
    /// endpoints coincide.
    pub fn len_sq(&self) -> (r: i128)
        ensures
            r == self.spec_len_sq(),
            r >= 0,
    {
        let dx0: i128 = (self.from.x as i128) - (self.to.x as i128);
        let dy0: i128 = (self.from.y as i128) - (self.to.y as i128);
        let dx: i128 = if dx0 < 0 {
            -dx0
        } else {
            dx0
        };
        let dy: i128 = if dy0 < 0 {
            -dy0
        } else {
            dy0
        };
        proof {
            assert(0 <= dx * dx <= 0x10000000000000000int) by (nonlinear_arith)
                requires
                    0 <= dx <= 0x100000000int,
            ;
            assert(0 <= dy * dy <= 0x10000000000000000int) by (nonlinear_arith)
                requires
                    0 <= dy <= 0x100000000int,
            ;
        }
        dx * dx + dy * dy
    }

    /// The most-recent stroke is drawn in the warning colour once its length
    /// reaches three quarters of the maximum.
    pub fn is_warning(&self) -> (r: bool)
        ensures
            r == (self.spec_len_sq() >= WARN_LINE_LEN_SQ),
    {
        self.len_sq() >= WARN_LINE_LEN_SQ
    }

    /// Segment-intersection test between this stroke and another.
    pub fn intersects(&self, line: &Line) -> (r: bool)
        ensures
            r == spec_intersects(*self, *line),
    {
        let o1 = orientation(self.from, self.to, line.from);
        let o2 = orientation(self.from, self.to, line.to);
        let o3 = orientation(line.from, line.to, self.from);
        let o4 = orientation(line.from, line.to, self.to);

        if o1 != o2 && o3 != o4 {
            return true;
        }
        if o1 == Orientation::Collinear && on_segment(self.from, line.to, self.to) {
            return true;
        }
        if o2 == Orientation::Collinear && on_segment(self.from, line.to, self.to) {
            return true;
        }
        if o3 == Orientation::Collinear && on_segment(line.from, self.from, line.to) {
            return true;
        }
        if o4 == Orientation::Collinear && on_segment(line.from, self.to, line.to) {
            return true;
        }
        false
    }
}

/// Cross product (q - p) x (r - q); its sign classifies the turn of the
/// triple (p, q, r).
pub open spec fn cross_val(p: Point, q: Point, r: Point) -> int {
    (q.y - p.y) * (r.x - q.x) - (q.x - p.x) * (r.y - q.y)
}

/// Orientation of the triple (p, q, r): the sign of the cross product,
/// with zero mapped to collinear.
pub open spec fn spec_orientation(p: Point, q: Point, r: Point) -> Orientation {
    let v = cross_val(p, q, r);
    if v == 0 {
        Orientation::Collinear
    } else if v > 0 {
        Orientation::Clockwise
    } else {
        Orientation::CounterClockwise
    }
}

/// q lies within the closed axis-aligned box spanned by p and r.
pub open spec fn spec_on_segment(p: Point, q: Point, r: Point) -> bool {
    &&& q.x <= max2(p.x as int, r.x as int)
    &&& q.x >= min2(p.x as int, r.x as int)
    &&& q.y <= max2(p.y as int, r.y as int)
    &&& q.y >= min2(p.y as int, r.y as int)
}

/// The segment-intersection relation: a proper crossing (the two orientation
/// pairs both differ), or one of the designated collinear-overlap cases.
/// The collinear branches test a fixed subset of endpoint triples on purpose:
/// the game's loop-closure feel depends on this exact set.
pub open spec fn spec_intersects(a: Line, b: Line) -> bool {
    let o1 = spec_orientation(a.from, a.to, b.from);
    let o2 = spec_orientation(a.from, a.to, b.to);
    let o3 = spec_orientation(b.from, b.to, a.from);
    let o4 = spec_orientation(b.from, b.to, a.to);
    ||| (o1 != o2 && o3 != o4)
    ||| (o1 == Orientation::Collinear && spec_on_segment(a.from, b.to, a.to))
    ||| (o2 == Orientation::Collinear && spec_on_segment(a.from, b.to, a.to))
    ||| (o3 == Orientation::Collinear && spec_on_segment(b.from, a.from, b.to))
    ||| (o4 == Orientation::Collinear && spec_on_segment(b.from, a.to, b.to))
}

/// Orientation of the triple (p, q, r).
pub fn orientation(p: Point, q: Point, r: Point) -> (o: Orientation)
    ensures
        o == spec_orientation(p, q, r),
{
    let a: i128 = (q.y as i128) - (p.y as i128);
    let b: i128 = (r.x as i128) - (q.x as i128);
    let c: i128 = (q.x as i128) - (p.x as i128);
    let d: i128 = (r.y as i128) - (q.y as i128);
    proof {
        assert(-0x10000000000000000int <= a * b <= 0x10000000000000000int) by (nonlinear_arith)
            requires
                -0x100000000int <= a <= 0x100000000int,
                -0x100000000int <= b <= 0x100000000int,
        ;
        assert(-0x10000000000000000int <= c * d <= 0x10000000000000000int) by (nonlinear_arith)
            requires
                -0x100000000int <= c <= 0x100000000int,
                -0x100000000int <= d <= 0x100000000int,
        ;
    }
    let v: i128 = a * b - c * d;
    if v == 0 {
        Orientation::Collinear
    } else if v > 0 {
        Orientation::Clockwise
    } else {
        Orientation::CounterClockwise
    }
}

/// Whether q lies within the closed axis-aligned box spanned by p and r.
pub fn on_segment(p: Point, q: Point, r: Point) -> (b: bool)
    ensures
        b == spec_on_segment(p, q, r),
{
    let max_x = if p.x >= r.x {
        p.x
    } else {
        r.x
    };
    let min_x = if p.x <= r.x {
        p.x
    } else {
        r.x
    };
    let max_y = if p.y >= r.y {
        p.y
    } else {
        r.y
    };
    let min_y = if p.y <= r.y {
        p.y
    } else {
        r.y
    };
    q.x <= max_x && q.x >= min_x && q.y <= max_y && q.y >= min_y
}

/// The squared length of a stroke is zero exactly when its endpoints
/// coincide.
pub proof fn lemma_len_sq_zero_iff(l: Line)
    ensures
        l.spec_len_sq() == 0 <==> l.from == l.to,
{
    let dx = abs_delta(l.from.x as int, l.to.x as int);
    let dy = abs_delta(l.from.y as int, l.to.y as int);
    assert(dx * dx + dy * dy == 0 <==> dx == 0 && dy == 0) by (nonlinear_arith)
        requires
            dx >= 0,
            dy >= 0,
    ;
}

/// The squared length is unchanged when the endpoints are swapped.
pub proof fn lemma_len_sq_symmetric(l: Line)
    ensures
        l.spec_len_sq() == (Line { from: l.to, to: l.from }).spec_len_sq(),
{
}

/// For a proper crossing, where both orientation pairs differ, the
/// intersection test holds in either argument order.
pub proof fn lemma_intersects_symmetric_proper(a: Line, b: Line)
    requires
        spec_orientation(a.from, a.to, b.from) != spec_orientation(a.from, a.to, b.to),
        spec_orientation(b.from, b.to, a.from) != spec_orientation(b.from, b.to, a.to),
    ensures
        spec_intersects(a, b),
        spec_intersects(b, a),
        spec_intersects(a, b) == spec_intersects(b, a),
{
}

/// The axis-aligned box a closed loop spans: the coordinate extremes of the
/// four endpoints of the first and last retained stroke.
#[derive(Clone, Copy, Debug, PartialEq, Eq, Structural)]
pub struct BoundingBox {
    pub min_x: i32,
    pub min_y: i32,
    pub max_x: i32,
    pub max_y: i32,
}

/// The smallest of four integers.
pub open spec fn min4(a: int, b: int, c: int, d: int) -> int {
    min2(min2(a, b), min2(c, d))
}

/// The largest of four integers.
pub open spec fn max4(a: int, b: int, c: int, d: int) -> int {
    max2(max2(a, b), max2(c, d))
}

/// The bounding box of the four endpoints of two strokes.
pub open spec fn spec_loop_box(first: Line, last: Line) -> BoundingBox {
    BoundingBox {
        min_x: min4(first.from.x as int, first.to.x as int, last.from.x as int, last.to.x as int) as i32,
        min_y: min4(first.from.y as int, first.to.y as int, last.from.y as int, last.to.y as int) as i32,
        max_x: max4(first.from.x as int, first.to.x as int, last.from.x as int, last.to.x as int) as i32,
        max_y: max4(first.from.y as int, first.to.y as int, last.from.y as int, last.to.y as int) as i32,
    }
}

impl BoundingBox {
    /// Containment, inclusive on all four edges.
    pub open spec fn spec_contains(self, p: Point) -> bool {
        self.min_x <= p.x <= self.max_x && self.min_y <= p.y <= self.max_y
    }

    /// Whether a point lies within the box, inclusive on all four edges.
    pub fn contains(&self, p: Point) -> (r: bool)
        ensures
            r == self.spec_contains(p),
    {
        self.min_x <= p.x && p.x <= self.max_x && self.min_y <= p.y && p.y <= self.max_y
    }
}

/// A point strictly inside the box on both axes is contained.
pub proof fn lemma_strictly_inside_contained(bb: BoundingBox, p: Point)
    requires
        bb.min_x < p.x < bb.max_x,
        bb.min_y < p.y < bb.max_y,
    ensures
        bb.spec_contains(p),
{
}

/// A point strictly outside the box on either axis is not contained.
pub proof fn lemma_strictly_outside_not_contained(bb: BoundingBox, p: Point)
    requires
        p.x < bb.min_x || p.x > bb.max_x || p.y < bb.min_y || p.y > bb.max_y,
    ensures
        !bb.spec_contains(p),
{
}

/// The bounding box of the first and last stroke of a closed loop.
pub fn loop_box(first: &Line, last: &Line) -> (bb: BoundingBox)
    ensures
        bb == spec_loop_box(*first, *last),
{
    let min_x = min4_i32(first.from.x, first.to.x, last.from.x, last.to.x);
    let min_y = min4_i32(first.from.y, first.to.y, last.from.y, last.to.y);
    let max_x = max4_i32(first.from.x, first.to.x, last.from.x, last.to.x);
    let max_y = max4_i32(first.from.y, first.to.y, last.from.y, last.to.y);
    BoundingBox { min_x, min_y, max_x, max_y }
}

/// The smallest of four i32 values.
fn min4_i32(a: i32, b: i32, c: i32, d: i32) -> (r: i32)
    ensures
        r == min4(a as int, b as int, c as int, d as int),
{
    let ab = if a <= b {
        a
    } else {
        b
    };
    let cd = if c <= d {
        c
    } else {
        d
    };
    if ab <= cd {
        ab
    } else {
        cd
    }
}

/// The largest of four i32 values.
fn max4_i32(a: i32, b: i32, c: i32, d: i32) -> (r: i32)
    ensures
        r == max4(a as int, b as int, c as int, d as int),
{
    let ab = if a >= b {
        a
    } else {
        b
    };
    let cd = if c >= d {
        c
    } else {
        d
    };
    if ab >= cd {
        ab
    } else {
        cd
    }
}

} // verus!

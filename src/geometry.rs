//! Axis-aligned boxes and the side on which one box touches another.
use vstd::prelude::*;

verus! {

/// A point or a displacement on the playfield, in sub-pixel units.
#[derive(Clone, Copy, Debug, PartialEq, Eq, Structural)]
pub struct Vec2 {
    pub x: i64,
    pub y: i64,
}

/// The full width and height of a box.
#[derive(Clone, Copy, Debug, PartialEq, Eq, Structural)]
pub struct Size {
    pub w: u64,
    pub h: u64,
}

/// An axis-aligned box given by its center and its full extent.
#[derive(Clone, Copy, Debug, PartialEq, Eq, Structural)]
pub struct Aabb {
    pub center: Vec2,
    pub size: Size,
}

/// The side of the second box on which the first box touches it, seen from
/// the first box: `Left` means the first box came in over the second box's
/// left edge (it lies to the left of the second box).
#[derive(Clone, Copy, Debug, PartialEq, Eq, Structural)]
pub enum Collision {
    Left,
    Right,
    Top,
    Bottom,
    Inside,
}

// All bounds below are doubled coordinates (2 * center -/+ extent), so that a
// box of odd extent keeps exact edges.

/// Doubled low edge of a span.
pub open spec fn lo(center: int, extent: int) -> int {
    2 * center - extent
}

/// Doubled high edge of a span.
pub open spec fn hi(center: int, extent: int) -> int {
    2 * center + extent
}

/// Two open spans share a point.
pub open spec fn spans_overlap(a_lo: int, a_hi: int, b_lo: int, b_hi: int) -> bool {
    a_lo < b_hi && a_hi > b_lo
}

/// Span `a` reaches into span `b` over `b`'s low edge only.
pub open spec fn enters_low(a_lo: int, a_hi: int, b_lo: int, b_hi: int) -> bool {
    a_lo < b_lo && a_hi > b_lo && a_hi < b_hi
}

/// Span `a` reaches into span `b` over `b`'s high edge only.
pub open spec fn enters_high(a_lo: int, a_hi: int, b_lo: int, b_hi: int) -> bool {
    a_lo > b_lo && a_lo < b_hi && a_hi > b_hi
}

/// Span `a` reaches into span `b` over exactly one of `b`'s edges.
pub open spec fn crosses_edge(a_lo: int, a_hi: int, b_lo: int, b_hi: int) -> bool {
    enters_low(a_lo, a_hi, b_lo, b_hi) || enters_high(a_lo, a_hi, b_lo, b_hi)
}

/// How far (doubled) span `a` reaches past the edge of `b` that it crosses.
pub open spec fn edge_depth(a_lo: int, a_hi: int, b_lo: int, b_hi: int) -> int {
    if enters_low(a_lo, a_hi, b_lo, b_hi) {
        a_hi - b_lo
    } else {
        b_hi - a_lo
    }
}

pub open spec fn x_lo(b: Aabb) -> int {
    lo(b.center.x as int, b.size.w as int)
}

pub open spec fn x_hi(b: Aabb) -> int {
    hi(b.center.x as int, b.size.w as int)
}

pub open spec fn y_lo(b: Aabb) -> int {
    lo(b.center.y as int, b.size.h as int)
}

pub open spec fn y_hi(b: Aabb) -> int {
    hi(b.center.y as int, b.size.h as int)
}

/// The interiors of the two boxes intersect.
pub open spec fn overlaps(a: Aabb, b: Aabb) -> bool {
    spans_overlap(x_lo(a), x_hi(a), x_lo(b), x_hi(b)) && spans_overlap(
        y_lo(a),
        y_hi(a),
        y_lo(b),
        y_hi(b),
    )
}

pub open spec fn crosses_x(a: Aabb, b: Aabb) -> bool {
    crosses_edge(x_lo(a), x_hi(a), x_lo(b), x_hi(b))
}

pub open spec fn crosses_y(a: Aabb, b: Aabb) -> bool {
    crosses_edge(y_lo(a), y_hi(a), y_lo(b), y_hi(b))
}

pub open spec fn depth_x(a: Aabb, b: Aabb) -> int {
    edge_depth(x_lo(a), x_hi(a), x_lo(b), x_hi(b))
}

pub open spec fn depth_y(a: Aabb, b: Aabb) -> int {
    edge_depth(y_lo(a), y_hi(a), y_lo(b), y_hi(b))
}

/// The horizontal classification: the edge of `b` that `a` crosses, if one.
pub open spec fn x_side(a: Aabb, b: Aabb) -> Collision {
    if enters_low(x_lo(a), x_hi(a), x_lo(b), x_hi(b)) {
        Collision::Left
    } else if enters_high(x_lo(a), x_hi(a), x_lo(b), x_hi(b)) {
        Collision::Right
    } else {
        Collision::Inside
    }
}

/// The vertical classification: the edge of `b` that `a` crosses, if one.
pub open spec fn y_side(a: Aabb, b: Aabb) -> Collision {
    if enters_low(y_lo(a), y_hi(a), y_lo(b), y_hi(b)) {
        Collision::Bottom
    } else if enters_high(y_lo(a), y_hi(a), y_lo(b), y_hi(b)) {
        Collision::Top
    } else {
        Collision::Inside
    }
}

/// The contact of `a` with `b`: none without overlap; else the axis whose
/// crossed edge is penetrated least wins. An axis on which no single edge is
/// crossed never wins over one on which an edge is; with equal depths, or with
/// no edge crossed on either axis, the horizontal classification stands.
pub open spec fn collision_of(a: Aabb, b: Aabb) -> Option<Collision> {
    if !overlaps(a, b) {
        None
    } else if crosses_y(a, b) && (!crosses_x(a, b) || depth_y(a, b) < depth_x(a, b)) {
        Some(y_side(a, b))
    } else {
        Some(x_side(a, b))
    }
}

/// Every doubled edge of a box lies well within `i128`.
pub open spec fn edge_bounded(v: int) -> bool {
    -0x4_0000_0000_0000_0000 <= v <= 0x4_0000_0000_0000_0000
}

/// Doubled low and high edges of a span, exactly.
fn span(center: i64, extent: u64) -> (r: (i128, i128))
    ensures
        r.0 == lo(center as int, extent as int),
        r.1 == hi(center as int, extent as int),
        edge_bounded(r.0 as int),
        edge_bounded(r.1 as int),
{
    let c = center as i128;
    let e = extent as i128;
    (2 * c - e, 2 * c + e)
}

/// Classifies one axis: 0 when no single edge is crossed, -1 when the low
/// edge is, 1 when the high edge is; with the depth in the last two cases.
fn classify_axis(a_lo: i128, a_hi: i128, b_lo: i128, b_hi: i128) -> (r: (i8, i128))
    requires
        edge_bounded(a_lo as int),
        edge_bounded(a_hi as int),
        edge_bounded(b_lo as int),
        edge_bounded(b_hi as int),
    ensures
        r.0 == -1 <==> enters_low(a_lo as int, a_hi as int, b_lo as int, b_hi as int),
        r.0 == 1 <==> !enters_low(a_lo as int, a_hi as int, b_lo as int, b_hi as int)
            && enters_high(a_lo as int, a_hi as int, b_lo as int, b_hi as int),
        r.0 == 0 <==> !crosses_edge(a_lo as int, a_hi as int, b_lo as int, b_hi as int),
        r.0 != 0 ==> r.1 == edge_depth(a_lo as int, a_hi as int, b_lo as int, b_hi as int),
{
    if a_lo < b_lo && a_hi > b_lo && a_hi < b_hi {
        (-1, a_hi - b_lo)
    } else if a_lo > b_lo && a_lo < b_hi && a_hi > b_hi {
        (1, b_hi - a_lo)
    } else {
        (0, 0)
    }
}

/// Whether box `a` overlaps box `b`, and if so on which side of `b` it
/// touches it (see `collision_of`). Boxes of zero size are allowed: a point
/// overlaps a box whose interior holds it.
pub fn collide(a: &Aabb, b: &Aabb) -> (r: Option<Collision>)
    ensures
        r == collision_of(*a, *b),
        r is None <==> !overlaps(*a, *b),
        overlaps(*a, *b) && crosses_x(*a, *b) && crosses_y(*a, *b) ==> (r == Some(y_side(*a, *b))
            <==> depth_y(*a, *b) < depth_x(*a, *b)),
{
    let (ax_lo, ax_hi) = span(a.center.x, a.size.w);
    let (ay_lo, ay_hi) = span(a.center.y, a.size.h);
    let (bx_lo, bx_hi) = span(b.center.x, b.size.w);
    let (by_lo, by_hi) = span(b.center.y, b.size.h);
    if !(ax_lo < bx_hi && ax_hi > bx_lo && ay_lo < by_hi && ay_hi > by_lo) {
        return None;
    }
    let (xs, xd) = classify_axis(ax_lo, ax_hi, bx_lo, bx_hi);
    let (ys, yd) = classify_axis(ay_lo, ay_hi, by_lo, by_hi);
    if ys != 0 && (xs == 0 || yd < xd) {
        if ys < 0 {
            Some(Collision::Bottom)
        } else {
            Some(Collision::Top)
        }
    } else if xs < 0 {
        Some(Collision::Left)
    } else if xs > 0 {
        Some(Collision::Right)
    } else {
        Some(Collision::Inside)
    }
}

/// Boxes that are apart on either axis (touching edges included) never
/// collide.
pub proof fn lemma_apart_no_collision(a: Aabb, b: Aabb)
    requires
        x_hi(a) <= x_lo(b) || x_hi(b) <= x_lo(a) || y_hi(a) <= y_lo(b) || y_hi(b) <= y_lo(a),
    ensures
        !overlaps(a, b),
        collision_of(a, b) is None,
{
}

/// For overlapping boxes, the side reported is that of the axis with the
/// smaller penetration: where both axes cross an edge, the vertical side wins
/// exactly when its depth is the smaller, the horizontal one otherwise; where
/// only one axis crosses an edge, that axis' side is reported; where neither
/// does, the contact is `Inside`.
pub proof fn lemma_smaller_depth_wins(a: Aabb, b: Aabb)
    requires
        overlaps(a, b),
    ensures
        crosses_x(a, b) && crosses_y(a, b) && depth_y(a, b) < depth_x(a, b) ==> collision_of(a, b)
            == Some(y_side(a, b)),
        crosses_x(a, b) && crosses_y(a, b) && depth_x(a, b) <= depth_y(a, b) ==> collision_of(a, b)
            == Some(x_side(a, b)),
        crosses_x(a, b) && !crosses_y(a, b) ==> collision_of(a, b) == Some(x_side(a, b)),
        !crosses_x(a, b) && crosses_y(a, b) ==> collision_of(a, b) == Some(y_side(a, b)),
        !crosses_x(a, b) && !crosses_y(a, b) ==> collision_of(a, b) == Some(Collision::Inside),
        crosses_x(a, b) ==> x_side(a, b) != Collision::Inside && 0 < depth_x(a, b),
        crosses_y(a, b) ==> y_side(a, b) != Collision::Inside && 0 < depth_y(a, b),
{
}

} // verus!

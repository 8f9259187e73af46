//! Axis-aligned geometry: 2-D integer vectors and the box overlap test
//! with side classification.

use vstd::prelude::*;

verus! {

/// Sub-units per world unit.  Equal to the number of simulation ticks per
/// second, so that a speed of `v` world units per second advances a body
/// exactly `v` sub-units per tick.
pub const SUBUNITS_PER_UNIT: i64 = 60;

/// Largest coordinate magnitude the world can represent, in sub-units.
/// Far beyond any arena; ball motion saturates here instead of wrapping.
pub const POS_LIMIT: i64 = 0x100_0000_0000;

/// Largest velocity component magnitude, in sub-units per tick.
pub const VEL_LIMIT: i64 = 0x1_0000_0000;

/// Largest half-extent of a bounding box, in sub-units.
pub const HALF_LIMIT: i64 = 0x1_0000_0000;

/// A 2-D vector of sub-unit coordinates.
#[derive(Clone, Copy, Debug, PartialEq, Eq, Structural)]
pub struct Vec2 {
    pub x: i64,
    pub y: i64,
}

/// Mathematical model of a [`Vec2`]: the same point over unbounded integers.
#[verifier::ext_equal]
pub struct V2 {
    pub x: int,
    pub y: int,
}

impl View for Vec2 {
    type V = V2;

    open spec fn view(&self) -> V2 {
        V2 { x: self.x as int, y: self.y as int }
    }
}

/// Which face of box B the box A is striking, or `Inside` when neither box
/// straddles a face of the other (one contains the other).
#[derive(Clone, Copy, Debug, PartialEq, Eq, Structural)]
pub enum Side {
    Left,
    Right,
    Top,
    Bottom,
    Inside,
}

/// The point lies within the representable world.
pub open spec fn pos_ok(v: V2) -> bool {
    &&& -POS_LIMIT <= v.x <= POS_LIMIT
    &&& -POS_LIMIT <= v.y <= POS_LIMIT
}

/// Well-formed half-extent of a bounding box.
pub open spec fn half_ok(h: V2) -> bool {
    &&& 0 <= h.x <= HALF_LIMIT
    &&& 0 <= h.y <= HALF_LIMIT
}

/// Well-formed velocity vector.
pub open spec fn vel_ok(v: V2) -> bool {
    &&& -VEL_LIMIT <= v.x <= VEL_LIMIT
    &&& -VEL_LIMIT <= v.y <= VEL_LIMIT
}

/// The open boxes centred at `ap` and `bp` with half-extents `ah` and `bh`
/// intersect.  Touching edges do not count as overlap.
pub open spec fn boxes_overlap(ap: V2, ah: V2, bp: V2, bh: V2) -> bool {
    &&& ap.x - ah.x < bp.x + bh.x
    &&& ap.x + ah.x > bp.x - bh.x
    &&& ap.y - ah.y < bp.y + bh.y
    &&& ap.y + ah.y > bp.y - bh.y
}

/// Horizontal classification: `Some((side, depth))` when A straddles the
/// left or right face of B, with the penetration depth along x; `None`
/// when, on the x axis, one interval contains the other.
pub open spec fn x_strike(ap: V2, ah: V2, bp: V2, bh: V2) -> Option<(Side, int)> {
    let amin = ap.x - ah.x;
    let amax = ap.x + ah.x;
    let bmin = bp.x - bh.x;
    let bmax = bp.x + bh.x;
    if amin < bmin && amax > bmin && amax < bmax {
        Some((Side::Left, amax - bmin))
    } else if amin > bmin && amin < bmax && amax > bmax {
        Some((Side::Right, bmax - amin))
    } else {
        None
    }
}

/// Vertical classification: `Some((side, depth))` when A straddles the
/// bottom or top face of B, with the penetration depth along y.
pub open spec fn y_strike(ap: V2, ah: V2, bp: V2, bh: V2) -> Option<(Side, int)> {
    let amin = ap.y - ah.y;
    let amax = ap.y + ah.y;
    let bmin = bp.y - bh.y;
    let bmax = bp.y + bh.y;
    if amin < bmin && amax > bmin && amax < bmax {
        Some((Side::Bottom, amax - bmin))
    } else if amin > bmin && amin < bmax && amax > bmax {
        Some((Side::Top, bmax - amin))
    } else {
        None
    }
}

/// The face of B that A is most likely striking, assuming the boxes
/// overlap: the axis with the shallower penetration wins, the horizontal
/// side on a tie, and `Inside` when neither axis straddles a face.
pub open spec fn strike_side(ap: V2, ah: V2, bp: V2, bh: V2) -> Side {
    match (x_strike(ap, ah, bp, bh), y_strike(ap, ah, bp, bh)) {
        (Some((xs, xd)), Some((ys, yd))) => if yd < xd {
            ys
        } else {
            xs
        },
        (Some((xs, _xd)), None) => xs,
        (None, Some((ys, _yd))) => ys,
        (None, None) => Side::Inside,
    }
}

/// Full contract of the overlap test: `None` for disjoint boxes, otherwise
/// the classified side.
pub open spec fn spec_overlap(ap: V2, ah: V2, bp: V2, bh: V2) -> Option<Side> {
    if boxes_overlap(ap, ah, bp, bh) {
        Some(strike_side(ap, ah, bp, bh))
    } else {
        None
    }
}

/// Tests whether the box centred at `a_pos` with half-extent `a_half`
/// overlaps the box at `b_pos` with half-extent `b_half`, and if so which
/// side of B the box A strikes.  Pure and deterministic.
pub fn test_overlap(a_pos: Vec2, a_half: Vec2, b_pos: Vec2, b_half: Vec2) -> (r: Option<Side>)
    requires
        pos_ok(a_pos@),
        pos_ok(b_pos@),
        half_ok(a_half@),
        half_ok(b_half@),
    ensures
        r == spec_overlap(a_pos@, a_half@, b_pos@, b_half@),
{
    let a_min_x = a_pos.x - a_half.x;
    let a_max_x = a_pos.x + a_half.x;
    let b_min_x = b_pos.x - b_half.x;
    let b_max_x = b_pos.x + b_half.x;
    let a_min_y = a_pos.y - a_half.y;
    let a_max_y = a_pos.y + a_half.y;
    let b_min_y = b_pos.y - b_half.y;
    let b_max_y = b_pos.y + b_half.y;
    if a_min_x < b_max_x && a_max_x > b_min_x && a_min_y < b_max_y && a_max_y > b_min_y {
        let x_side: Option<(Side, i64)> = if a_min_x < b_min_x && a_max_x > b_min_x && a_max_x
            < b_max_x {
            Some((Side::Left, a_max_x - b_min_x))
        } else if a_min_x > b_min_x && a_min_x < b_max_x && a_max_x > b_max_x {
            Some((Side::Right, b_max_x - a_min_x))
        } else {
            None
        };
        let y_side: Option<(Side, i64)> = if a_min_y < b_min_y && a_max_y > b_min_y && a_max_y
            < b_max_y {
            Some((Side::Bottom, a_max_y - b_min_y))
        } else if a_min_y > b_min_y && a_min_y < b_max_y && a_max_y > b_max_y {
            Some((Side::Top, b_max_y - a_min_y))
        } else {
            None
        };
        match (x_side, y_side) {
            (Some((xs, xd)), Some((ys, yd))) => if yd < xd {
                Some(ys)
            } else {
                Some(xs)
            },
            (Some((xs, _)), None) => Some(xs),
            (None, Some((ys, _))) => Some(ys),
            (None, None) => Some(Side::Inside),
        }
    } else {
        None
    }
}

/// The box at `inner_p` lies strictly within the box at `outer_p`: every
/// face of the inner box is strictly past the matching face of the outer.
pub open spec fn strictly_contains(outer_p: V2, outer_h: V2, inner_p: V2, inner_h: V2) -> bool {
    &&& outer_p.x - outer_h.x < inner_p.x - inner_h.x
    &&& inner_p.x + inner_h.x < outer_p.x + outer_h.x
    &&& outer_p.y - outer_h.y < inner_p.y - inner_h.y
    &&& inner_p.y + inner_h.y < outer_p.y + outer_h.y
}

/// The overlap test reports a collision exactly when the boxes intersect:
/// disjoint box pairs always give `None`.
pub proof fn lemma_overlap_iff_intersecting(ap: V2, ah: V2, bp: V2, bh: V2)
    ensures
        spec_overlap(ap, ah, bp, bh) is None <==> !boxes_overlap(ap, ah, bp, bh),
{
}

/// When one box strictly contains the other, the overlap test reports
/// `Inside`: no face is struck, so collision resolution treats the pair
/// as a no-op.
pub proof fn lemma_containment_is_inside(ap: V2, ah: V2, bp: V2, bh: V2)
    requires
        0 <= ah.x && 0 <= ah.y && 0 <= bh.x && 0 <= bh.y,
        strictly_contains(ap, ah, bp, bh) || strictly_contains(bp, bh, ap, ah),
    ensures
        spec_overlap(ap, ah, bp, bh) == Some(Side::Inside),
{
}

} // verus!

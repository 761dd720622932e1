use vstd::prelude::*;

verus! {

/// How quickly a corner of the cursor trail follows the cursor: `Fast`
/// corners lead the motion, `Slow` ones trail behind, `Norm` ones lie between.
#[derive(Clone, Copy, PartialEq, Eq, Debug, Structural)]
pub enum Pace {
    Fast,
    Norm,
    Slow,
}

/// The pace of each corner of the trail, clockwise from the top left.
#[derive(Clone, Copy, PartialEq, Eq, Debug, Structural)]
pub struct CornerPaces {
    pub top_left: Pace,
    pub top_right: Pace,
    pub bottom_right: Pace,
    pub bottom_left: Pace,
}

pub open spec fn corners(tl: Pace, tr: Pace, br: Pace, bl: Pace) -> CornerPaces {
    CornerPaces { top_left: tl, top_right: tr, bottom_right: br, bottom_left: bl }
}

pub open spec fn abs_int(x: int) -> int {
    if x < 0 {
        -x
    } else {
        x
    }
}

/// The paces of the corners for a move by (`dx`, `dy`) onto a cursor of the
/// given size (y grows downwards).
/// - A move shorter than the cursor is wide is vertical: the edge in the
///   direction of travel (bottom when moving down, else top) is fast.
/// - Otherwise a move shorter than the cursor is tall is horizontal: the
///   right edge is fast when moving right, else the left edge.
/// - Otherwise the move is diagonal: the corner it heads to is fast, the
///   opposite corner slow and the other two normal.
pub open spec fn corner_paces_spec(dx: int, dy: int, width: int, height: int) -> CornerPaces {
    if abs_int(dx) < width {
        if dy > 0 {
            corners(Pace::Slow, Pace::Slow, Pace::Fast, Pace::Fast)
        } else {
            corners(Pace::Fast, Pace::Fast, Pace::Slow, Pace::Slow)
        }
    } else if abs_int(dy) < height {
        if dx > 0 {
            corners(Pace::Slow, Pace::Fast, Pace::Fast, Pace::Slow)
        } else {
            corners(Pace::Fast, Pace::Slow, Pace::Slow, Pace::Fast)
        }
    } else if dx > 0 {
        if dy > 0 {
            corners(Pace::Slow, Pace::Norm, Pace::Fast, Pace::Norm)
        } else {
            corners(Pace::Norm, Pace::Fast, Pace::Norm, Pace::Slow)
        }
    } else if dy > 0 {
        corners(Pace::Norm, Pace::Slow, Pace::Norm, Pace::Fast)
    } else {
        corners(Pace::Fast, Pace::Norm, Pace::Slow, Pace::Norm)
    }
}

/// Whether `|d| < bound`, without computing `|d|`.
fn shorter_than(d: i128, bound: i128) -> (r: bool)
    ensures
        r == (abs_int(d as int) < bound),
{
    bound > 0 && d < bound && d > -bound
}

/// Chooses the pace of each corner of the trail left by a move of
/// (`dx`, `dy`) pixels onto a cursor `width` by `height` pixels large.
pub fn corner_paces(dx: i128, dy: i128, width: i128, height: i128) -> (p: CornerPaces)
    ensures
        p == corner_paces_spec(dx as int, dy as int, width as int, height as int),
{
    if shorter_than(dx, width) {
        if dy > 0 {
            CornerPaces { top_left: Pace::Slow, top_right: Pace::Slow, bottom_right: Pace::Fast, bottom_left: Pace::Fast }
        } else {
            CornerPaces { top_left: Pace::Fast, top_right: Pace::Fast, bottom_right: Pace::Slow, bottom_left: Pace::Slow }
        }
    } else if shorter_than(dy, height) {
        if dx > 0 {
            CornerPaces { top_left: Pace::Slow, top_right: Pace::Fast, bottom_right: Pace::Fast, bottom_left: Pace::Slow }
        } else {
            CornerPaces { top_left: Pace::Fast, top_right: Pace::Slow, bottom_right: Pace::Slow, bottom_left: Pace::Fast }
        }
    } else if dx > 0 {
        if dy > 0 {
            CornerPaces { top_left: Pace::Slow, top_right: Pace::Norm, bottom_right: Pace::Fast, bottom_left: Pace::Norm }
        } else {
            CornerPaces { top_left: Pace::Norm, top_right: Pace::Fast, bottom_right: Pace::Norm, bottom_left: Pace::Slow }
        }
    } else if dy > 0 {
        CornerPaces { top_left: Pace::Norm, top_right: Pace::Slow, bottom_right: Pace::Norm, bottom_left: Pace::Fast }
    } else {
        CornerPaces { top_left: Pace::Fast, top_right: Pace::Norm, bottom_right: Pace::Slow, bottom_left: Pace::Norm }
    }
}

/// The paces seen in a mirror held upright: left and right corners swap.
pub open spec fn mirror_left_right(p: CornerPaces) -> CornerPaces {
    corners(p.top_right, p.top_left, p.bottom_left, p.bottom_right)
}

/// The paces seen in a mirror held flat: top and bottom corners swap.
pub open spec fn mirror_top_bottom(p: CornerPaces) -> CornerPaces {
    corners(p.bottom_left, p.bottom_right, p.top_right, p.top_left)
}

/// The pace that trails a given pace: fast and slow exchange, normal stays.
pub open spec fn counterpart(p: Pace) -> Pace {
    match p {
        Pace::Fast => Pace::Slow,
        Pace::Norm => Pace::Norm,
        Pace::Slow => Pace::Fast,
    }
}

/// Reversing the horizontal direction of a move mirrors the trail left to
/// right, for every move with a horizontal component.
pub proof fn lemma_paces_mirror_horizontal(dx: int, dy: int, width: int, height: int)
    requires
        dx != 0,
    ensures
        corner_paces_spec(-dx, dy, width, height) == mirror_left_right(
            corner_paces_spec(dx, dy, width, height),
        ),
{
}

/// Reversing the vertical direction of a move mirrors the trail top to
/// bottom, for every move with a vertical component.
pub proof fn lemma_paces_mirror_vertical(dx: int, dy: int, width: int, height: int)
    requires
        dy != 0,
    ensures
        corner_paces_spec(dx, -dy, width, height) == mirror_top_bottom(
            corner_paces_spec(dx, dy, width, height),
        ),
{
}

/// Opposite corners always move at counterpart paces: the corner across
/// from a fast one is slow, and normal corners face each other.
pub proof fn lemma_paces_opposite_corners(dx: int, dy: int, width: int, height: int)
    ensures
        ({
            let p = corner_paces_spec(dx, dy, width, height);
            &&& p.bottom_right == counterpart(p.top_left)
            &&& p.bottom_left == counterpart(p.top_right)
        }),
{
}

/// Every trail has a leading fast corner and a trailing slow one.
pub proof fn lemma_paces_lead_and_trail(dx: int, dy: int, width: int, height: int)
    ensures
        ({
            let p = corner_paces_spec(dx, dy, width, height);
            &&& (p.top_left == Pace::Fast || p.top_right == Pace::Fast || p.bottom_right == Pace::Fast
                || p.bottom_left == Pace::Fast)
            &&& (p.top_left == Pace::Slow || p.top_right == Pace::Slow || p.bottom_right == Pace::Slow
                || p.bottom_left == Pace::Slow)
        }),
{
}

/// A move shorter than the cursor is wide is vertical, however far it goes
/// up or down: moving down, the bottom corners lead and the top ones trail;
/// otherwise the top corners lead.
pub proof fn lemma_narrow_moves_are_vertical(dx: int, dy: int, width: int, height: int)
    requires
        -width < dx < width,
    ensures
        ({
            let p = corner_paces_spec(dx, dy, width, height);
            &&& dy > 0 ==> p.top_left == Pace::Slow && p.top_right == Pace::Slow && p.bottom_right
                == Pace::Fast && p.bottom_left == Pace::Fast
            &&& dy <= 0 ==> p.top_left == Pace::Fast && p.top_right == Pace::Fast && p.bottom_right
                == Pace::Slow && p.bottom_left == Pace::Slow
        }),
{
}

/// A move at least as wide as the cursor but shorter than it is tall is
/// horizontal: moving right, the right corners lead and the left ones
/// trail; otherwise the left corners lead.
pub proof fn lemma_flat_moves_are_horizontal(dx: int, dy: int, width: int, height: int)
    requires
        !(-width < dx < width),
        -height < dy < height,
    ensures
        ({
            let p = corner_paces_spec(dx, dy, width, height);
            &&& dx > 0 ==> p.top_left == Pace::Slow && p.top_right == Pace::Fast && p.bottom_right
                == Pace::Fast && p.bottom_left == Pace::Slow
            &&& dx <= 0 ==> p.top_left == Pace::Fast && p.top_right == Pace::Slow && p.bottom_right
                == Pace::Slow && p.bottom_left == Pace::Fast
        }),
{
}

/// A move at least as wide and as tall as the cursor is diagonal: the
/// corner it heads to leads, the opposite one trails, the other two keep
/// the normal pace.
pub proof fn lemma_long_moves_are_diagonal(dx: int, dy: int, width: int, height: int)
    requires
        !(-width < dx < width),
        !(-height < dy < height),
    ensures
        ({
            let p = corner_paces_spec(dx, dy, width, height);
            &&& (dx > 0 && dy > 0) ==> p.top_left == Pace::Slow && p.top_right == Pace::Norm
                && p.bottom_right == Pace::Fast && p.bottom_left == Pace::Norm
            &&& (dx > 0 && dy <= 0) ==> p.top_left == Pace::Norm && p.top_right == Pace::Fast
                && p.bottom_right == Pace::Norm && p.bottom_left == Pace::Slow
            &&& (dx <= 0 && dy > 0) ==> p.top_left == Pace::Norm && p.top_right == Pace::Slow
                && p.bottom_right == Pace::Norm && p.bottom_left == Pace::Fast
            &&& (dx <= 0 && dy <= 0) ==> p.top_left == Pace::Fast && p.top_right == Pace::Norm
                && p.bottom_right == Pace::Slow && p.bottom_left == Pace::Norm
        }),
{
}

} // verus!

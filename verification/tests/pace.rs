use lolipop::pace::{corner_paces, CornerPaces, Pace};

fn paces(tl: Pace, tr: Pace, br: Pace, bl: Pace) -> CornerPaces {
    CornerPaces { top_left: tl, top_right: tr, bottom_right: br, bottom_left: bl }
}

use Pace::{Fast, Norm, Slow};

#[test]
fn vertical_moves_lead_with_the_edge_they_head_to() {
    // down by a line, no horizontal move wider than the cursor
    assert_eq!(corner_paces(0, 20, 8, 16), paces(Slow, Slow, Fast, Fast));
    assert_eq!(corner_paces(7, 20, 8, 16), paces(Slow, Slow, Fast, Fast));
    // up
    assert_eq!(corner_paces(-7, -20, 8, 16), paces(Fast, Fast, Slow, Slow));
    // no vertical motion counts as up
    assert_eq!(corner_paces(3, 0, 8, 16), paces(Fast, Fast, Slow, Slow));
}

#[test]
fn horizontal_moves_lead_with_the_side_they_head_to() {
    assert_eq!(corner_paces(40, 3, 8, 16), paces(Slow, Fast, Fast, Slow));
    assert_eq!(corner_paces(-40, -3, 8, 16), paces(Fast, Slow, Slow, Fast));
    // exactly one cursor width away is no longer vertical
    assert_eq!(corner_paces(8, 0, 8, 16), paces(Slow, Fast, Fast, Slow));
}

#[test]
fn diagonal_moves_lead_with_the_corner_they_head_to() {
    assert_eq!(corner_paces(40, 40, 8, 16), paces(Slow, Norm, Fast, Norm));
    assert_eq!(corner_paces(40, -40, 8, 16), paces(Norm, Fast, Norm, Slow));
    assert_eq!(corner_paces(-40, 40, 8, 16), paces(Norm, Slow, Norm, Fast));
    assert_eq!(corner_paces(-40, -40, 8, 16), paces(Fast, Norm, Slow, Norm));
    // exactly one cursor height down is diagonal
    assert_eq!(corner_paces(40, 16, 8, 16), paces(Slow, Norm, Fast, Norm));
}

#[test]
fn empty_cursor_makes_every_move_diagonal() {
    assert_eq!(corner_paces(0, 0, 0, 0), paces(Fast, Norm, Slow, Norm));
    assert_eq!(corner_paces(1, 1, -5, -5), paces(Slow, Norm, Fast, Norm));
}

#[test]
fn extreme_offsets_do_not_overflow() {
    assert_eq!(corner_paces(i128::MIN, 0, i128::MAX, 1), paces(Fast, Slow, Slow, Fast));
    assert_eq!(corner_paces(i128::MAX, i128::MIN, i128::MIN, i128::MIN), paces(Norm, Fast, Norm, Slow));
}

fn mirror_lr(p: CornerPaces) -> CornerPaces {
    paces(p.top_right, p.top_left, p.bottom_left, p.bottom_right)
}

fn mirror_tb(p: CornerPaces) -> CornerPaces {
    paces(p.bottom_left, p.bottom_right, p.top_right, p.top_left)
}

fn counterpart(p: Pace) -> Pace {
    match p {
        Fast => Slow,
        Norm => Norm,
        Slow => Fast,
    }
}

#[test]
fn mirrored_moves_give_mirrored_trails() {
    for dx in [-30i128, -8, -3, 3, 8, 30] {
        for dy in [-30i128, -16, -2, 0, 2, 16, 30] {
            assert_eq!(corner_paces(-dx, dy, 8, 16), mirror_lr(corner_paces(dx, dy, 8, 16)));
        }
    }
    for dx in [-30i128, -8, -3, 0, 3, 8, 30] {
        for dy in [-30i128, -16, -2, 2, 16, 30] {
            assert_eq!(corner_paces(dx, -dy, 8, 16), mirror_tb(corner_paces(dx, dy, 8, 16)));
        }
    }
}

#[test]
fn opposite_corners_are_counterparts() {
    for dx in [-30i128, -8, 0, 8, 30] {
        for dy in [-30i128, -16, 0, 16, 30] {
            let p = corner_paces(dx, dy, 8, 16);
            assert_eq!(p.bottom_right, counterpart(p.top_left));
            assert_eq!(p.bottom_left, counterpart(p.top_right));
        }
    }
}

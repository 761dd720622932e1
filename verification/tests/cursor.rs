use lolipop::cursor::{Color, CursorState, Point, Rect, Size, Trail};
use lolipop::pace::{CornerPaces, Pace};
use lolipop::queue::MAX_ANIMATIONS;

fn at(x: i64, y: i64) -> Point {
    Point { x, y }
}

fn size(width: i64, height: i64) -> Size {
    Size { width, height }
}

/// Runs one cursor update the way the module does, with layer creation
/// succeeding or failing as told; returns the trail that was drawn.
fn update(
    state: &mut CursorState<u32>,
    window: usize,
    position: Point,
    geometry: Size,
    render: bool,
    creation_succeeds: bool,
) -> Option<Trail> {
    let created = state.needs_compositor(window) && creation_succeeds;
    let trail = state.plan_update(window, position, geometry, render, created);
    let drawn = trail.map(|_| 7);
    state.update(window, position, geometry, render, created, drawn);
    trail
}

#[test]
fn initial_state_is_white_and_detached() {
    let s: CursorState<u32> = CursorState::new();
    assert_eq!(s.window(), 0);
    assert!(!s.attached());
    assert!(!s.active());
    assert_eq!(s.previous_position(), at(0, 0));
    assert_eq!(s.previous_geometry(), size(0, 0));
    assert_eq!(s.color(), Color { a: 255, r: 255, g: 255, b: 255 });
    assert!(s.animations().is_empty());
    let d: CursorState<u32> = Default::default();
    assert_eq!(d.color(), s.color());
    assert!(!d.attached());
}

#[test]
fn first_update_after_setup_draws_nothing() {
    let mut s = CursorState::new();
    assert_eq!(update(&mut s, 7, at(10, 20), size(8, 16), true, true), None);
    assert_eq!(s.window(), 7);
    assert!(s.attached());
    assert!(s.active());
    assert_eq!(s.previous_position(), at(10, 20));
    assert!(!s.needs_compositor(7));
}

#[test]
fn a_move_draws_a_trail_from_the_last_cursor() {
    let mut s = CursorState::new();
    update(&mut s, 7, at(10, 20), size(8, 16), true, true);
    let trail = update(&mut s, 7, at(50, 20), size(9, 16), true, true);
    assert_eq!(
        trail,
        Some(Trail {
            from: Rect { origin: at(10, 20), size: size(8, 16) },
            to: Rect { origin: at(50, 20), size: size(9, 16) },
            dx: 40,
            dy: 0,
            paces: CornerPaces {
                top_left: Pace::Slow,
                top_right: Pace::Fast,
                bottom_right: Pace::Fast,
                bottom_left: Pace::Slow,
            },
        })
    );
    assert_eq!(s.animations().len(), 1);
    assert_eq!(s.previous_position(), at(50, 20));
    assert_eq!(s.previous_geometry(), size(9, 16));
}

#[test]
fn staying_put_draws_nothing() {
    let mut s = CursorState::new();
    update(&mut s, 7, at(10, 20), size(8, 16), true, true);
    assert_eq!(update(&mut s, 7, at(10, 20), size(30, 30), true, true), None);
    assert_eq!(s.previous_geometry(), size(30, 30));
    assert!(s.animations().is_empty());
}

#[test]
fn without_render_the_cursor_is_only_followed() {
    let mut s = CursorState::new();
    update(&mut s, 7, at(10, 20), size(8, 16), true, true);
    assert_eq!(update(&mut s, 7, at(90, 90), size(8, 16), false, true), None);
    assert_eq!(s.previous_position(), at(90, 90));
    let trail = update(&mut s, 7, at(90, 60), size(8, 16), true, true).unwrap();
    assert_eq!(trail.from.origin, at(90, 90));
    assert_eq!(trail.dy, -30);
}

#[test]
fn switching_window_starts_over() {
    let mut s = CursorState::new();
    update(&mut s, 7, at(10, 20), size(8, 16), true, true);
    update(&mut s, 7, at(40, 20), size(8, 16), true, true);
    assert_eq!(s.animations().len(), 1);
    // the first update in another window draws nothing and drops the animations
    assert_eq!(update(&mut s, 9, at(80, 80), size(8, 16), true, true), None);
    assert_eq!(s.window(), 9);
    assert!(s.animations().is_empty());
}

#[test]
fn failed_setup_keeps_the_old_layer() {
    let mut s = CursorState::new();
    update(&mut s, 7, at(10, 20), size(8, 16), true, true);
    // creating a layer for window 9 fails: the window is recorded anyway
    assert_eq!(update(&mut s, 9, at(80, 80), size(8, 16), true, false), None);
    assert_eq!(s.window(), 9);
    assert!(s.attached());
    assert_eq!(s.previous_position(), at(10, 20));
    // the old layer is then used for window 9 without a new attempt
    assert!(!s.needs_compositor(9));
    let trail = update(&mut s, 9, at(80, 80), size(8, 16), true, false);
    assert!(trail.is_some());
}

#[test]
fn failed_first_setup_retries() {
    let mut s = CursorState::new();
    assert_eq!(update(&mut s, 7, at(10, 20), size(8, 16), true, false), None);
    assert!(!s.attached());
    assert!(!s.active());
    assert!(s.needs_compositor(7));
}

#[test]
fn animations_are_capped() {
    let mut s = CursorState::new();
    update(&mut s, 7, at(0, 0), size(8, 16), true, true);
    for i in 1..=250 {
        update(&mut s, 7, at(i, 0), size(8, 16), true, true);
        assert!(s.animations().len() <= MAX_ANIMATIONS);
    }
    assert_eq!(s.animations().len(), MAX_ANIMATIONS);
    s.cleanup_finished_animations();
    assert_eq!(s.animations().len(), MAX_ANIMATIONS);
}

#[test]
fn color_is_kept() {
    let mut s: CursorState<u32> = CursorState::new();
    let c = Color { a: 255, r: 12, g: 34, b: 56 };
    s.set_color(c);
    assert_eq!(s.color(), c);
}

#[test]
fn rect_edges() {
    let r = Rect { origin: at(-5, 7), size: size(10, 20) };
    assert_eq!(r.min_x(), -5);
    assert_eq!(r.max_x(), 5);
    assert_eq!(r.min_y(), 7);
    assert_eq!(r.max_y(), 27);
    let big = Rect { origin: at(i64::MAX, i64::MAX), size: size(i64::MAX, 1) };
    assert_eq!(big.max_x(), 2 * i64::MAX as i128);
    assert_eq!(big.max_y(), i64::MAX as i128 + 1);
}

#[test]
fn diagonal_trail_paces() {
    let mut s = CursorState::new();
    update(&mut s, 3, at(100, 100), size(8, 16), true, true);
    let t = update(&mut s, 3, at(50, 40), size(8, 16), true, true).unwrap();
    assert_eq!((t.dx, t.dy), (-50, -60));
    assert_eq!(
        t.paces,
        CornerPaces { top_left: Pace::Fast, top_right: Pace::Norm, bottom_right: Pace::Slow, bottom_left: Pace::Norm }
    );
}

#[test]
fn failed_drawing_leaves_the_cursor_unsettled() {
    let mut s: CursorState<u32> = CursorState::new();
    update(&mut s, 7, at(10, 20), size(8, 16), true, true);
    // a trail is planned, but drawing it fails: nothing is recorded or settled
    assert!(!s.ensure_compositor(7));
    let trail = s.plan_trail(at(60, 20), size(8, 16), true);
    assert!(trail.is_some());
    assert_eq!(s.previous_position(), at(10, 20));
    assert!(s.animations().is_empty());
    // so the next update still starts its trail from the last settled cursor
    let t = update(&mut s, 7, at(70, 20), size(8, 16), true, true).unwrap();
    assert_eq!(t.from.origin, at(10, 20));
    assert_eq!(t.dx, 60);
}

#[test]
fn a_position_is_only_seen_on_a_layer() {
    let mut s: CursorState<u32> = CursorState::new();
    update(&mut s, 7, at(10, 20), size(8, 16), true, false);
    assert!(!s.active() && !s.attached());
    update(&mut s, 7, at(10, 20), size(8, 16), true, true);
    assert!(s.active() && s.attached());
}

#[test]
fn steps_one_by_one_match_the_whole_update() {
    let mut whole: CursorState<u32> = CursorState::new();
    let mut steps: CursorState<u32> = CursorState::new();
    for (i, (x, render)) in [(5i64, true), (5, true), (40, false), (90, true)].iter().enumerate() {
        let p = at(*x, 3);
        update(&mut whole, 4, p, size(8, 16), *render, true);
        if steps.ensure_compositor(4) {
            steps.compositor_created();
        }
        if steps.plan_trail(p, size(8, 16), *render).is_some() {
            steps.record_animation(i as u32);
        }
        steps.settle(p, size(8, 16));
        assert_eq!(whole.previous_position(), steps.previous_position());
        assert_eq!(whole.active(), steps.active());
        assert_eq!(whole.animations().len(), steps.animations().len());
    }
    assert_eq!(whole.animations().len(), 1);
}

#[test]
fn update_without_render_still_sets_up_the_layer() {
    let mut s: CursorState<u32> = CursorState::new();
    update(&mut s, 2, at(1, 1), size(8, 16), true, true);
    update(&mut s, 2, at(50, 1), size(8, 16), true, true);
    assert_eq!(s.animations().len(), 1);
    // without rendering, a new foreground window still gets a layer and
    // the animations of the old one are dropped, but nothing is drawn
    assert_eq!(update(&mut s, 5, at(60, 60), size(8, 16), false, true), None);
    assert_eq!(s.window(), 5);
    assert!(s.attached());
    assert!(s.animations().is_empty());
    assert_eq!(s.previous_position(), at(60, 60));
}

#[test]
fn coordinates_beyond_i32_are_kept_exactly() {
    let mut s: CursorState<u32> = CursorState::new();
    let far = 5_000_000_000i64;
    update(&mut s, 1, at(far, 0), size(8, 16), true, true);
    let t = update(&mut s, 1, at(far + 1, 0), size(8, 16), true, true).unwrap();
    assert_eq!(t.dx, 1);
    let t = update(&mut s, 1, at(i64::MIN, i64::MAX), size(8, 16), true, true).unwrap();
    assert_eq!(t.dx, i64::MIN as i128 - (far + 1) as i128);
    assert_eq!(t.dy, i64::MAX as i128);
}

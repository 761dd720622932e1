use lolipop::cursor::{Color, Point, Size};
use lolipop::scene::{
    demo_animation_scene, test_animation_scene, CubicBezier, PointKey, ScalarKey, ScaleKey, SQUARE_COUNT,
};
use lolipop::timing::TimeSpan;

fn ms(n: i64) -> TimeSpan {
    TimeSpan { duration: n * 10_000 }
}

const PALETTE: [(u8, u8, u8); 5] =
    [(255, 100, 100), (100, 255, 100), (100, 100, 255), (255, 255, 100), (255, 100, 255)];

#[test]
fn test_scene_layout() {
    let s = test_animation_scene();
    assert!(!s.topmost);
    assert!(s.title.is_none());
    assert_eq!(s.squares.len(), SQUARE_COUNT);
    for (i, sq) in s.squares.iter().enumerate() {
        let x = 50 + 100 * i as i32;
        let (r, g, b) = PALETTE[i];
        assert_eq!(sq.color, Color { a: 255, r, g, b });
        assert_eq!(sq.side, 80);
        assert_eq!(sq.center, 40);
        assert_eq!(sq.start, Point { x: x as i64, y: 200 });
        assert_eq!(sq.bounce.duration, ms(1500));
        assert_eq!(sq.bounce.delay, Some(ms(100 * i as i64)));
        let ys: Vec<(u32, i32, i32)> = sq.bounce.keys.iter().map(|k| (k.progress, k.x, k.y)).collect();
        assert_eq!(ys, vec![(0, x, 200), (250, x, 80), (500, x, 200), (750, x, 140), (1000, x, 200)]);
        assert!(sq.bounce.keys.iter().all(|k| k.easing.is_none()));
        assert_eq!(sq.pulse.duration, ms(1000));
        assert_eq!(sq.pulse.delay, None);
        assert_eq!(
            sq.pulse.keys,
            vec![
                ScaleKey { progress: 0, percent: 100 },
                ScaleKey { progress: 500, percent: 120 },
                ScaleKey { progress: 1000, percent: 100 }
            ]
        );
        assert_eq!(sq.spin.duration, ms(3000));
        assert_eq!(sq.spin.delay, None);
        assert_eq!(sq.spin.keys, vec![ScalarKey { progress: 0, value: 0 }, ScalarKey { progress: 1000, value: 360 }]);
    }
}

#[test]
fn demo_scene_layout() {
    let s = demo_animation_scene();
    assert!(s.topmost);
    assert_eq!(s.squares.len(), SQUARE_COUNT);
    for (i, sq) in s.squares.iter().enumerate() {
        let x = 100 + 120 * i as i32;
        let (r, g, b) = PALETTE[i];
        assert_eq!(sq.color, Color { a: 255, r, g, b });
        assert_eq!(sq.side, 100);
        assert_eq!(sq.center, 50);
        assert_eq!(sq.start, Point { x: x as i64, y: 250 });
        assert_eq!(sq.bounce.duration, ms(1500));
        assert_eq!(sq.bounce.delay, Some(ms(20 * i as i64)));
        assert_eq!(sq.pulse.delay, Some(ms(20 * i as i64)));
        let ease = CubicBezier { x1: 42, y1: 0, x2: 58, y2: 100 };
        assert_eq!(
            sq.bounce.keys,
            vec![
                PointKey { progress: 0, x, y: 250, easing: None },
                PointKey { progress: 250, x, y: 100, easing: None },
                PointKey { progress: 500, x, y: 250, easing: None },
                PointKey { progress: 750, x, y: 175, easing: None },
                PointKey { progress: 1000, x, y: 250, easing: None },
                PointKey { progress: 250, x, y: 100, easing: Some(ease) },
            ]
        );
        assert_eq!(sq.spin.duration, ms(3000));
    }
    let t = s.title.expect("the demonstration has a title");
    assert_eq!(t.color, Color { a: 200, r: 50, g: 50, b: 50 });
    assert_eq!(t.size, Size { width: 300, height: 50 });
    assert_eq!(t.origin, Point { x: 250, y: 50 });
    assert_eq!(t.fade.duration, ms(2000));
    assert_eq!(t.fade.delay, None);
    assert_eq!(
        t.fade.keys,
        vec![
            ScalarKey { progress: 0, value: 30 },
            ScalarKey { progress: 500, value: 100 },
            ScalarKey { progress: 1000, value: 30 }
        ]
    );
}

#[test]
fn rounds_close_up_and_squares_stand_apart() {
    for s in [test_animation_scene(), demo_animation_scene()] {
        for (i, sq) in s.squares.iter().enumerate() {
            let first = sq.bounce.keys[0];
            let last = sq.bounce.keys[4];
            assert_eq!((first.x as i64, first.y as i64), (sq.start.x, sq.start.y));
            assert_eq!((last.x as i64, last.y as i64), (sq.start.x, sq.start.y));
            assert_eq!(sq.spin.keys[1].value - sq.spin.keys[0].value, 360);
            if i + 1 < s.squares.len() {
                let next = &s.squares[i + 1];
                assert!(sq.start.x + (sq.side as i64) < next.start.x);
            }
        }
    }
}

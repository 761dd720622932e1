use vstd::prelude::*;
use crate::cursor::{Color, Point, Size};
use crate::timing::{TimeSpan, duration_ms, duration_ms_spec};

verus! {

/// How many bouncing squares a demonstration scene holds.
pub const SQUARE_COUNT: usize = 5;

/// A cubic Bézier easing curve through (0, 0), (`x1`, `y1`), (`x2`, `y2`)
/// and (1, 1), its control points given in hundredths.
#[derive(Clone, Copy, PartialEq, Eq, Debug, Structural)]
pub struct CubicBezier {
    pub x1: u32,
    pub y1: u32,
    pub x2: u32,
    pub y2: u32,
}

/// A keyframe of an offset animation: at `progress` (in thousandths of the
/// duration) the visual stands at (`x`, `y`), reached along `easing` if one
/// is given.
#[derive(Clone, Copy, PartialEq, Eq, Debug, Structural)]
pub struct PointKey {
    pub progress: u32,
    pub x: i32,
    pub y: i32,
    pub easing: Option<CubicBezier>,
}

/// A keyframe of a scale animation: at `progress` (in thousandths of the
/// duration) the visual is scaled to `percent` percent in both directions.
#[derive(Clone, Copy, PartialEq, Eq, Debug, Structural)]
pub struct ScaleKey {
    pub progress: u32,
    pub percent: u32,
}

/// A keyframe of a scalar animation (an angle in degrees, or an opacity in
/// percent): at `progress` (in thousandths of the duration) it is `value`.
#[derive(Clone, Copy, PartialEq, Eq, Debug, Structural)]
pub struct ScalarKey {
    pub progress: u32,
    pub value: u32,
}

/// An animation that repeats forever: each round lasts `duration`, the
/// first starts after `delay` when one is given, and `keys` are inserted
/// in order.
#[derive(Debug)]
pub struct Track<K> {
    pub duration: TimeSpan,
    pub delay: Option<TimeSpan>,
    pub keys: Vec<K>,
}

/// A coloured square of side `side` placed at `start`, bouncing, pulsing and
/// spinning about the point `center` pixels from its top-left corner on both
/// axes.
#[derive(Debug)]
pub struct SquarePlan {
    pub color: Color,
    pub side: u32,
    pub start: Point,
    pub center: u32,
    pub bounce: Track<PointKey>,
    pub pulse: Track<ScaleKey>,
    pub spin: Track<ScalarKey>,
}

/// A fading banner of colour `color` and size `size` placed at `origin`.
#[derive(Debug)]
pub struct TitlePlan {
    pub color: Color,
    pub size: Size,
    pub origin: Point,
    pub fade: Track<ScalarKey>,
}

/// A demonstration scene: squares placed in front, in order, and possibly a
/// title placed behind them, on a layer kept on top of the window's content
/// when `topmost` holds.
#[derive(Debug)]
pub struct Scene {
    pub topmost: bool,
    pub squares: Vec<SquarePlan>,
    pub title: Option<TitlePlan>,
}

/// The ease-in-out curve (0.42, 0), (0.58, 1).
pub open spec fn ease_in_out() -> CubicBezier {
    CubicBezier { x1: 42, y1: 0, x2: 58, y2: 100 }
}

/// The colours of the squares: red, green, blue, yellow and purple.
pub open spec fn palette(i: int) -> Color {
    if i == 0 {
        Color { a: 255, r: 255, g: 100, b: 100 }
    } else if i == 1 {
        Color { a: 255, r: 100, g: 255, b: 100 }
    } else if i == 2 {
        Color { a: 255, r: 100, g: 100, b: 255 }
    } else if i == 3 {
        Color { a: 255, r: 255, g: 255, b: 100 }
    } else {
        Color { a: 255, r: 255, g: 100, b: 255 }
    }
}

pub open spec fn point_key(progress: u32, x: int, y: int, easing: Option<CubicBezier>) -> PointKey {
    PointKey { progress, x: x as i32, y: y as i32, easing }
}

/// A bounce from height `y`: up by `high` a quarter of the way, back down
/// halfway, up by `low` at three quarters, and back at the end; when
/// `eased`, the first peak is then inserted again with the ease-in-out
/// curve.
pub open spec fn bounce_keys(x: int, y: int, high: int, low: int, eased: bool) -> Seq<PointKey> {
    let plain = seq![
        point_key(0, x, y, None),
        point_key(250, x, y - high, None),
        point_key(500, x, y, None),
        point_key(750, x, y - low, None),
        point_key(1000, x, y, None),
    ];
    if eased {
        plain.push(point_key(250, x, y - high, Some(ease_in_out())))
    } else {
        plain
    }
}

/// A pulse from full size up to 120 percent halfway and back.
pub open spec fn pulse_keys() -> Seq<ScaleKey> {
    seq![
        ScaleKey { progress: 0, percent: 100 },
        ScaleKey { progress: 500, percent: 120 },
        ScaleKey { progress: 1000, percent: 100 },
    ]
}

/// One full turn.
pub open spec fn spin_keys() -> Seq<ScalarKey> {
    seq![ScalarKey { progress: 0, value: 0 }, ScalarKey { progress: 1000, value: 360 }]
}

/// A fade from 30 percent opacity up to full halfway and back.
pub open spec fn fade_keys() -> Seq<ScalarKey> {
    seq![
        ScalarKey { progress: 0, value: 30 },
        ScalarKey { progress: 500, value: 100 },
        ScalarKey { progress: 1000, value: 30 },
    ]
}

/// Square `i` of the test scene: 80 pixels wide, starting at
/// (50 + 100 i, 200), bouncing 120 then 60 pixels over 1.5 s after a delay
/// of 100 i ms, pulsing every second and turning every 3 s.
pub open spec fn is_test_square(sq: SquarePlan, i: int) -> bool {
    let x = 50 + 100 * i;
    &&& sq.color == palette(i)
    &&& sq.side == 80
    &&& sq.center == 40
    &&& sq.start == Point { x: x as i64, y: 200 }
    &&& sq.bounce.duration == duration_ms_spec(1500)
    &&& sq.bounce.delay == Some(duration_ms_spec(100 * i))
    &&& sq.bounce.keys@ == bounce_keys(x, 200, 120, 60, false)
    &&& sq.pulse.duration == duration_ms_spec(1000)
    &&& sq.pulse.delay is None
    &&& sq.pulse.keys@ == pulse_keys()
    &&& sq.spin.duration == duration_ms_spec(3000)
    &&& sq.spin.delay is None
    &&& sq.spin.keys@ == spin_keys()
}

/// Square `i` of the full demonstration: 100 pixels wide, starting at
/// (100 + 120 i, 250), bouncing 150 then 75 pixels over 1.5 s with an eased
/// first peak, pulsing every second, both after a delay of 20 i ms, and
/// turning every 3 s.
pub open spec fn is_demo_square(sq: SquarePlan, i: int) -> bool {
    let x = 100 + 120 * i;
    &&& sq.color == palette(i)
    &&& sq.side == 100
    &&& sq.center == 50
    &&& sq.start == Point { x: x as i64, y: 250 }
    &&& sq.bounce.duration == duration_ms_spec(1500)
    &&& sq.bounce.delay == Some(duration_ms_spec(20 * i))
    &&& sq.bounce.keys@ == bounce_keys(x, 250, 150, 75, true)
    &&& sq.pulse.duration == duration_ms_spec(1000)
    &&& sq.pulse.delay == Some(duration_ms_spec(20 * i))
    &&& sq.pulse.keys@ == pulse_keys()
    &&& sq.spin.duration == duration_ms_spec(3000)
    &&& sq.spin.delay is None
    &&& sq.spin.keys@ == spin_keys()
}

/// The title of the full demonstration: a translucent grey banner of
/// 300 by 50 pixels at (250, 50), fading in and out every 2 s.
pub open spec fn is_demo_title(t: TitlePlan) -> bool {
    &&& t.color == Color { a: 200, r: 50, g: 50, b: 50 }
    &&& t.size == Size { width: 300, height: 50 }
    &&& t.origin == Point { x: 250, y: 50 }
    &&& t.fade.duration == duration_ms_spec(2000)
    &&& t.fade.delay is None
    &&& t.fade.keys@ == fade_keys()
}

/// The test scene: five test squares, no title, on a layer behind the
/// window's topmost content.
pub open spec fn is_test_scene(s: Scene) -> bool {
    &&& !s.topmost
    &&& s.squares@.len() == SQUARE_COUNT
    &&& forall|i: int| 0 <= i < SQUARE_COUNT ==> is_test_square(#[trigger] s.squares@[i], i)
    &&& s.title is None
}

/// The full demonstration: five demonstration squares and the title, on a
/// topmost layer.
pub open spec fn is_demo_scene(s: Scene) -> bool {
    &&& s.topmost
    &&& s.squares@.len() == SQUARE_COUNT
    &&& forall|i: int| 0 <= i < SQUARE_COUNT ==> is_demo_square(#[trigger] s.squares@[i], i)
    &&& s.title matches Some(t) && is_demo_title(t)
}

fn palette_color(i: usize) -> (c: Color)
    requires
        i < SQUARE_COUNT,
    ensures
        c == palette(i as int),
{
    if i == 0 {
        Color { a: 255, r: 255, g: 100, b: 100 }
    } else if i == 1 {
        Color { a: 255, r: 100, g: 255, b: 100 }
    } else if i == 2 {
        Color { a: 255, r: 100, g: 100, b: 255 }
    } else if i == 3 {
        Color { a: 255, r: 255, g: 255, b: 100 }
    } else {
        Color { a: 255, r: 255, g: 100, b: 255 }
    }
}

fn bounce_track(x: i32, y: i32, high: i32, low: i32, delay_ms: i64, eased: bool) -> (t: Track<
    PointKey,
>)
    requires
        0 <= y <= 10_000,
        0 <= high <= 10_000,
        0 <= low <= 10_000,
        0 <= delay_ms <= 10_000,
    ensures
        t.duration == duration_ms_spec(1500),
        t.delay == Some(duration_ms_spec(delay_ms as int)),
        t.keys@ == bounce_keys(x as int, y as int, high as int, low as int, eased),
{
    let peak: i32 = y - high;
    let dip: i32 = y - low;
    let mut keys = vec![
        PointKey { progress: 0, x, y, easing: None },
        PointKey { progress: 250, x, y: peak, easing: None },
        PointKey { progress: 500, x, y, easing: None },
        PointKey { progress: 750, x, y: dip, easing: None },
        PointKey { progress: 1000, x, y, easing: None },
    ];
    if eased {
        let ease = CubicBezier { x1: 42, y1: 0, x2: 58, y2: 100 };
        keys.push(PointKey { progress: 250, x, y: peak, easing: Some(ease) });
    }
    proof {
        assert(keys@ =~= bounce_keys(x as int, y as int, high as int, low as int, eased));
    }
    Track { duration: duration_ms(1500), delay: Some(duration_ms(delay_ms)), keys }
}

fn pulse_track(delay: Option<TimeSpan>) -> (t: Track<ScaleKey>)
    ensures
        t.duration == duration_ms_spec(1000),
        t.delay == delay,
        t.keys@ == pulse_keys(),
{
    let keys = vec![
        ScaleKey { progress: 0, percent: 100 },
        ScaleKey { progress: 500, percent: 120 },
        ScaleKey { progress: 1000, percent: 100 },
    ];
    proof {
        assert(keys@ =~= pulse_keys());
    }
    Track { duration: duration_ms(1000), delay, keys }
}

fn spin_track() -> (t: Track<ScalarKey>)
    ensures
        t.duration == duration_ms_spec(3000),
        t.delay is None,
        t.keys@ == spin_keys(),
{
    let keys = vec![ScalarKey { progress: 0, value: 0 }, ScalarKey { progress: 1000, value: 360 }];
    proof {
        assert(keys@ =~= spin_keys());
    }
    Track { duration: duration_ms(3000), delay: None, keys }
}

fn fade_track() -> (t: Track<ScalarKey>)
    ensures
        t.duration == duration_ms_spec(2000),
        t.delay is None,
        t.keys@ == fade_keys(),
{
    let keys = vec![
        ScalarKey { progress: 0, value: 30 },
        ScalarKey { progress: 500, value: 100 },
        ScalarKey { progress: 1000, value: 30 },
    ];
    proof {
        assert(keys@ =~= fade_keys());
    }
    Track { duration: duration_ms(2000), delay: None, keys }
}

fn test_square(i: usize) -> (sq: SquarePlan)
    requires
        i < SQUARE_COUNT,
    ensures
        is_test_square(sq, i as int),
{
    let x: i32 = 50 + 100 * (i as i32);
    let delay_ms: i64 = 100 * (i as i64);
    SquarePlan {
        color: palette_color(i),
        side: 80,
        start: Point { x: x as i64, y: 200 },
        center: 40,
        bounce: bounce_track(x, 200, 120, 60, delay_ms, false),
        pulse: pulse_track(None),
        spin: spin_track(),
    }
}

fn demo_square(i: usize) -> (sq: SquarePlan)
    requires
        i < SQUARE_COUNT,
    ensures
        is_demo_square(sq, i as int),
{
    let x: i32 = 100 + 120 * (i as i32);
    let delay_ms: i64 = 20 * (i as i64);
    SquarePlan {
        color: palette_color(i),
        side: 100,
        start: Point { x: x as i64, y: 250 },
        center: 50,
        bounce: bounce_track(x, 250, 150, 75, delay_ms, true),
        pulse: pulse_track(Some(duration_ms(delay_ms))),
        spin: spin_track(),
    }
}

/// The scene that the test animation shows.
pub fn test_animation_scene() -> (s: Scene)
    ensures
        is_test_scene(s),
{
    let mut squares: Vec<SquarePlan> = Vec::new();
    let mut i: usize = 0;
    while i < SQUARE_COUNT
        invariant
            i <= SQUARE_COUNT,
            squares@.len() == i,
            forall|j: int| 0 <= j < i ==> is_test_square(#[trigger] squares@[j], j),
        decreases SQUARE_COUNT - i,
    {
        squares.push(test_square(i));
        i = i + 1;
    }
    Scene { topmost: false, squares, title: None }
}

/// The scene that the full demonstration shows.
pub fn demo_animation_scene() -> (s: Scene)
    ensures
        is_demo_scene(s),
{
    let mut squares: Vec<SquarePlan> = Vec::new();
    let mut i: usize = 0;
    while i < SQUARE_COUNT
        invariant
            i <= SQUARE_COUNT,
            squares@.len() == i,
            forall|j: int| 0 <= j < i ==> is_demo_square(#[trigger] squares@[j], j),
        decreases SQUARE_COUNT - i,
    {
        squares.push(demo_square(i));
        i = i + 1;
    }
    let title = TitlePlan {
        color: Color { a: 200, r: 50, g: 50, b: 50 },
        size: Size { width: 300, height: 50 },
        origin: Point { x: 250, y: 50 },
        fade: fade_track(),
    };
    Scene { topmost: true, squares, title: Some(title) }
}

/// Every round of every animation of both scenes ends where it began, so
/// that repeating it forever shows no jump: a square bounces from its start
/// point back to it, pulses from full size back to full size, and turns by
/// exactly one full turn.
pub proof fn lemma_rounds_close_up(s: Scene, i: int)
    requires
        is_test_scene(s) || is_demo_scene(s),
        0 <= i < SQUARE_COUNT,
    ensures
        ({
            let sq = s.squares@[i];
            let b = sq.bounce.keys@;
            let p = sq.pulse.keys@;
            let r = sq.spin.keys@;
            &&& b[0].progress == 0 && b[4].progress == 1000
            &&& b[0].x == sq.start.x && b[0].y == sq.start.y
            &&& b[4].x == sq.start.x && b[4].y == sq.start.y
            &&& p[0].progress == 0 && p[2].progress == 1000
            &&& p[0].percent == 100 && p[2].percent == 100
            &&& r[0].progress == 0 && r[1].progress == 1000
            &&& r[1].value - r[0].value == 360
        }),
{
    if is_test_scene(s) {
        assert(is_test_square(s.squares@[i], i));
    } else {
        assert(is_demo_square(s.squares@[i], i));
    }
}

/// The squares of both scenes stand side by side, left to right, with a
/// gap between neighbours.
pub proof fn lemma_squares_apart(s: Scene, i: int)
    requires
        is_test_scene(s) || is_demo_scene(s),
        0 <= i < SQUARE_COUNT - 1,
    ensures
        s.squares@[i].start.x + s.squares@[i].side < s.squares@[i + 1].start.x,
        s.squares@[i].start.y == s.squares@[i + 1].start.y,
{
    if is_test_scene(s) {
        assert(is_test_square(s.squares@[i], i));
        assert(is_test_square(s.squares@[i + 1], i + 1));
    } else {
        assert(is_demo_square(s.squares@[i], i));
        assert(is_demo_square(s.squares@[i + 1], i + 1));
    }
}

/// Square `i` of the test scene, written out: its colour, an 80-pixel
/// square at (50 + 100 i, 200), a 1.5 s bounce up 120 and 60 pixels after
/// 100 i ms, a 1 s pulse up to 120 percent, and a full turn every 3 s.
pub proof fn lemma_test_square_contents(s: Scene, i: int)
    requires
        is_test_scene(s),
        0 <= i < 5,
    ensures
        ({
            let sq = s.squares@[i];
            let x = 50 + 100 * i;
            let b = sq.bounce.keys@;
            let p = sq.pulse.keys@;
            let r = sq.spin.keys@;
            &&& i == 0 ==> sq.color == Color { a: 255, r: 255, g: 100, b: 100 }
            &&& i == 1 ==> sq.color == Color { a: 255, r: 100, g: 255, b: 100 }
            &&& i == 2 ==> sq.color == Color { a: 255, r: 100, g: 100, b: 255 }
            &&& i == 3 ==> sq.color == Color { a: 255, r: 255, g: 255, b: 100 }
            &&& i == 4 ==> sq.color == Color { a: 255, r: 255, g: 100, b: 255 }
            &&& sq.side == 80 && sq.center == 40
            &&& sq.start.x == x && sq.start.y == 200
            &&& sq.bounce.duration.duration == 15_000_000
            &&& sq.bounce.delay == Some(TimeSpan { duration: (1000000 * i) as i64 })
            &&& b.len() == 5
            &&& b[0] == PointKey { progress: 0, x: x as i32, y: 200, easing: None }
            &&& b[1] == PointKey { progress: 250, x: x as i32, y: 80, easing: None }
            &&& b[2] == PointKey { progress: 500, x: x as i32, y: 200, easing: None }
            &&& b[3] == PointKey { progress: 750, x: x as i32, y: 140, easing: None }
            &&& b[4] == PointKey { progress: 1000, x: x as i32, y: 200, easing: None }
            &&& sq.pulse.duration.duration == 10_000_000
            &&& sq.pulse.delay is None
            &&& p.len() == 3
            &&& p[0] == ScaleKey { progress: 0, percent: 100 }
            &&& p[1] == ScaleKey { progress: 500, percent: 120 }
            &&& p[2] == ScaleKey { progress: 1000, percent: 100 }
            &&& sq.spin.duration.duration == 30_000_000
            &&& sq.spin.delay is None
            &&& r.len() == 2
            &&& r[0] == ScalarKey { progress: 0, value: 0 }
            &&& r[1] == ScalarKey { progress: 1000, value: 360 }
        }),
{
    assert(is_test_square(s.squares@[i], i));
}

/// Square `i` of the full demonstration, written out: its colour, a
/// 100-pixel square at (100 + 120 i, 250), a 1.5 s bounce up 150 and 75
/// pixels with an eased first peak, and a 1 s pulse up to 120 percent, both
/// after 20 i ms, and a full turn every 3 s.
pub proof fn lemma_demo_square_contents(s: Scene, i: int)
    requires
        is_demo_scene(s),
        0 <= i < 5,
    ensures
        ({
            let sq = s.squares@[i];
            let x = 100 + 120 * i;
            let b = sq.bounce.keys@;
            let p = sq.pulse.keys@;
            let r = sq.spin.keys@;
            &&& i == 0 ==> sq.color == Color { a: 255, r: 255, g: 100, b: 100 }
            &&& i == 1 ==> sq.color == Color { a: 255, r: 100, g: 255, b: 100 }
            &&& i == 2 ==> sq.color == Color { a: 255, r: 100, g: 100, b: 255 }
            &&& i == 3 ==> sq.color == Color { a: 255, r: 255, g: 255, b: 100 }
            &&& i == 4 ==> sq.color == Color { a: 255, r: 255, g: 100, b: 255 }
            &&& sq.side == 100 && sq.center == 50
            &&& sq.start.x == x && sq.start.y == 250
            &&& sq.bounce.duration.duration == 15_000_000
            &&& sq.bounce.delay == Some(TimeSpan { duration: (200000 * i) as i64 })
            &&& b.len() == 6
            &&& b[0] == PointKey { progress: 0, x: x as i32, y: 250, easing: None }
            &&& b[1] == PointKey { progress: 250, x: x as i32, y: 100, easing: None }
            &&& b[2] == PointKey { progress: 500, x: x as i32, y: 250, easing: None }
            &&& b[3] == PointKey { progress: 750, x: x as i32, y: 175, easing: None }
            &&& b[4] == PointKey { progress: 1000, x: x as i32, y: 250, easing: None }
            &&& b[5] == PointKey {
                progress: 250,
                x: x as i32,
                y: 100,
                easing: Some(CubicBezier { x1: 42, y1: 0, x2: 58, y2: 100 }),
            }
            &&& sq.pulse.duration.duration == 10_000_000
            &&& sq.pulse.delay == Some(TimeSpan { duration: (200000 * i) as i64 })
            &&& p.len() == 3
            &&& p[0] == ScaleKey { progress: 0, percent: 100 }
            &&& p[1] == ScaleKey { progress: 500, percent: 120 }
            &&& p[2] == ScaleKey { progress: 1000, percent: 100 }
            &&& sq.spin.duration.duration == 30_000_000
            &&& sq.spin.delay is None
            &&& r.len() == 2
            &&& r[0] == ScalarKey { progress: 0, value: 0 }
            &&& r[1] == ScalarKey { progress: 1000, value: 360 }
        }),
{
    assert(is_demo_square(s.squares@[i], i));
}

/// The scenes written out: the test scene has five squares and no title on
/// a layer below the window's topmost content; the full demonstration has
/// five squares and a translucent grey 300 by 50 title at (250, 50) fading
/// between 30 and 100 percent every 2 s, on a topmost layer.
pub proof fn lemma_scene_frames(s: Scene)
    ensures
        is_test_scene(s) ==> !s.topmost && s.squares@.len() == 5 && s.title is None,
        is_demo_scene(s) ==> ({
            let t = s.title->0;
            let f = t.fade.keys@;
            &&& s.topmost && s.squares@.len() == 5 && s.title is Some
            &&& t.color == Color { a: 200, r: 50, g: 50, b: 50 }
            &&& t.size == Size { width: 300, height: 50 }
            &&& t.origin == Point { x: 250, y: 50 }
            &&& t.fade.duration.duration == 20_000_000
            &&& t.fade.delay is None
            &&& f.len() == 3
            &&& f[0] == ScalarKey { progress: 0, value: 30 }
            &&& f[1] == ScalarKey { progress: 500, value: 100 }
            &&& f[2] == ScalarKey { progress: 1000, value: 30 }
        }),
{
}

} // verus!

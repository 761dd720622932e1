use vstd::prelude::*;
use crate::pace::{CornerPaces, Pace, corner_paces, corner_paces_spec};
use crate::queue::{AnimationQueue, MAX_ANIMATIONS, newest};

verus! {

/// A position in window pixels, y growing downwards, as Emacs reports it.
#[derive(Clone, Copy, PartialEq, Eq, Debug, Structural)]
pub struct Point {
    pub x: i64,
    pub y: i64,
}

/// A size in pixels.
#[derive(Clone, Copy, PartialEq, Eq, Debug, Structural)]
pub struct Size {
    pub width: i64,
    pub height: i64,
}

/// A colour with alpha, red, green and blue channels.
#[derive(Clone, Copy, PartialEq, Eq, Debug, Structural)]
pub struct Color {
    pub a: u8,
    pub r: u8,
    pub g: u8,
    pub b: u8,
}

/// An axis-aligned rectangle: its top-left corner and its size.
#[derive(Clone, Copy, PartialEq, Eq, Debug, Structural)]
pub struct Rect {
    pub origin: Point,
    pub size: Size,
}

impl Rect {
    pub open spec fn min_x_spec(self) -> int {
        self.origin.x as int
    }

    pub open spec fn max_x_spec(self) -> int {
        self.origin.x + self.size.width
    }

    pub open spec fn min_y_spec(self) -> int {
        self.origin.y as int
    }

    pub open spec fn max_y_spec(self) -> int {
        self.origin.y + self.size.height
    }

    /// The left edge.
    pub fn min_x(&self) -> (v: i128)
        ensures
            v == self.min_x_spec(),
    {
        self.origin.x as i128
    }

    /// The right edge: the left edge plus the width.
    pub fn max_x(&self) -> (v: i128)
        ensures
            v == self.max_x_spec(),
    {
        self.origin.x as i128 + self.size.width as i128
    }

    /// The top edge.
    pub fn min_y(&self) -> (v: i128)
        ensures
            v == self.min_y_spec(),
    {
        self.origin.y as i128
    }

    /// The bottom edge: the top edge plus the height.
    pub fn max_y(&self) -> (v: i128)
        ensures
            v == self.max_y_spec(),
    {
        self.origin.y as i128 + self.size.height as i128
    }
}

/// The trail to animate when the cursor moves: from the previous cursor
/// rectangle to the current one, by (`dx`, `dy`), each corner at its pace.
#[derive(Clone, Copy, PartialEq, Eq, Debug, Structural)]
pub struct Trail {
    pub from: Rect,
    pub to: Rect,
    pub dx: i128,
    pub dy: i128,
    pub paces: CornerPaces,
}

/// What the cursor state holds, with the animations as a sequence.
pub struct CursorView<T> {
    pub window: usize,
    pub attached: bool,
    pub active: bool,
    pub position: Point,
    pub geometry: Size,
    pub color: Color,
    pub animations: Seq<T>,
}

/// The state kept between two cursor updates.
/// - `window`: the window that the animation layer was last set up for;
/// - `attached`: whether an animation layer exists;
/// - `active`: whether a cursor position has been seen since the layer was
///   set up, so that a move can be animated from it;
/// - `previous_position`, `previous_geometry`: the last cursor seen;
/// - `color`: the colour that trails are drawn in;
/// - `animations`: the animations started so far.
pub struct CursorState<T> {
    window: usize,
    attached: bool,
    active: bool,
    previous_position: Point,
    previous_geometry: Size,
    color: Color,
    animations: AnimationQueue<T>,
}

impl<T> View for CursorState<T> {
    type V = CursorView<T>;

    closed spec fn view(&self) -> CursorView<T> {
        CursorView {
            window: self.window,
            attached: self.attached,
            active: self.active,
            position: self.previous_position,
            geometry: self.previous_geometry,
            color: self.color,
            animations: self.animations@,
        }
    }
}

/// Opaque white.
pub open spec fn white() -> Color {
    Color { a: 255, r: 255, g: 255, b: 255 }
}

/// The state before any cursor update: no window, no layer, nothing seen,
/// a white cursor at the origin with no size.
pub open spec fn initial_view<T>() -> CursorView<T> {
    CursorView {
        window: 0,
        attached: false,
        active: false,
        position: Point { x: 0, y: 0 },
        geometry: Size { width: 0, height: 0 },
        color: white(),
        animations: Seq::empty(),
    }
}

/// Whether the animation layer has to be (re)created for `window`: the
/// window changed, or no layer exists.
pub open spec fn needs_compositor_spec<T>(v: CursorView<T>, window: usize) -> bool {
    v.window != window || !v.attached
}

/// The state once `window` has been checked: when a layer is needed, the
/// window is recorded and the animations are dropped; else nothing changes.
pub open spec fn ensure_spec<T>(v: CursorView<T>, window: usize) -> CursorView<T> {
    if needs_compositor_spec(v, window) {
        CursorView { window, animations: Seq::empty(), ..v }
    } else {
        v
    }
}

/// The state once a new layer exists: attached, and no position seen yet.
pub open spec fn created_spec<T>(v: CursorView<T>) -> CursorView<T> {
    CursorView { attached: true, active: false, ..v }
}

/// The trail, if any, for a cursor now at `position` with `geometry`: only
/// when rendering is asked for, a layer exists, a previous position was
/// seen, and the cursor moved.
pub open spec fn trail_spec<T>(
    v: CursorView<T>,
    position: Point,
    geometry: Size,
    render: bool,
) -> Option<Trail> {
    let dx = position.x - v.position.x;
    let dy = position.y - v.position.y;
    if v.active && render && v.attached && !(dx == 0 && dy == 0) {
        Some(
            Trail {
                from: Rect { origin: v.position, size: v.geometry },
                to: Rect { origin: position, size: geometry },
                dx: dx as i128,
                dy: dy as i128,
                paces: corner_paces_spec(dx, dy, geometry.width as int, geometry.height as int),
            },
        )
    } else {
        None
    }
}

/// The state once the cursor at `position` with `geometry` has been handled.
pub open spec fn settle_spec<T>(v: CursorView<T>, position: Point, geometry: Size) -> CursorView<T> {
    CursorView { active: true, position, geometry, ..v }
}

/// The state once an animation has started: it is remembered, and only the
/// newest `MAX_ANIMATIONS` are kept.
pub open spec fn record_spec<T>(v: CursorView<T>, entry: T) -> CursorView<T> {
    CursorView { animations: newest(v.animations.push(entry), MAX_ANIMATIONS as nat), ..v }
}

/// The state once the animations beyond the newest `MAX_ANIMATIONS` are
/// dropped.
pub open spec fn cleanup_spec<T>(v: CursorView<T>) -> CursorView<T> {
    CursorView { animations: newest(v.animations, MAX_ANIMATIONS as nat), ..v }
}

/// The state with trails drawn in `color`.
pub open spec fn color_spec<T>(v: CursorView<T>, color: Color) -> CursorView<T> {
    CursorView { color, ..v }
}

/// Whether no more than `MAX_ANIMATIONS` animations are held.
pub open spec fn bounded<T>(v: CursorView<T>) -> bool {
    v.animations.len() <= MAX_ANIMATIONS
}

/// The invariant of the cursor state: the animations are bounded, and a
/// position counts as seen only while a layer exists.
pub open spec fn consistent<T>(v: CursorView<T>) -> bool {
    &&& bounded(v)
    &&& v.active ==> v.attached
}

impl<T> CursorState<T> {
    /// Every cursor state is consistent.
    #[verifier::type_invariant]
    spec fn inv(self) -> bool {
        consistent(self@)
    }

    /// The window that the layer was last set up for.
    pub fn window(&self) -> (w: usize)
        ensures
            w == self@.window,
    {
        self.window
    }

    /// Whether an animation layer exists.
    pub fn attached(&self) -> (b: bool)
        ensures
            b == self@.attached,
    {
        self.attached
    }

    /// Whether a cursor position has been seen on the current layer.
    pub fn active(&self) -> (b: bool)
        ensures
            b == self@.active,
    {
        self.active
    }

    /// The last cursor position seen.
    pub fn previous_position(&self) -> (p: Point)
        ensures
            p == self@.position,
    {
        self.previous_position
    }

    /// The size of the last cursor seen.
    pub fn previous_geometry(&self) -> (g: Size)
        ensures
            g == self@.geometry,
    {
        self.previous_geometry
    }

    /// The colour that trails are drawn in.
    pub fn color(&self) -> (c: Color)
        ensures
            c == self@.color,
    {
        self.color
    }

    /// The animations started so far.
    pub fn animations(&self) -> (q: &AnimationQueue<T>)
        ensures
            q@ == self@.animations,
    {
        &self.animations
    }

    /// The state before any cursor update.
    pub fn new() -> (s: Self)
        ensures
            s@ == initial_view::<T>(),
    {
        CursorState {
            window: 0,
            attached: false,
            active: false,
            previous_position: Point { x: 0, y: 0 },
            previous_geometry: Size { width: 0, height: 0 },
            color: Color { a: 255, r: 255, g: 255, b: 255 },
            animations: AnimationQueue::new(),
        }
    }

    /// Whether the animation layer has to be (re)created for `window`.
    pub fn needs_compositor(&self, window: usize) -> (b: bool)
        ensures
            b == needs_compositor_spec(self@, window),
    {
        self.window != window || !self.attached
    }

    /// Checks the layer against `window`. Returns whether a new layer must be
    /// created; in that case the window is recorded and the animations are
    /// dropped first, whether or not creating the layer then succeeds.
    pub fn ensure_compositor(&mut self, window: usize) -> (needed: bool)
        ensures
            needed == needs_compositor_spec(old(self)@, window),
            final(self)@ == ensure_spec(old(self)@, window),
    {
        proof {
            use_type_invariant(&*self);
        }
        let needed = self.needs_compositor(window);
        if needed {
            self.window = window;
            self.animations = AnimationQueue::new();
        }
        needed
    }

    /// Records that a new animation layer was created: no position has been
    /// seen on it yet.
    pub fn compositor_created(&mut self)
        ensures
            final(self)@ == created_spec(old(self)@),
    {
        proof {
            use_type_invariant(&*self);
        }
        self.attached = true;
        self.active = false;
    }

    /// The trail to animate for a cursor now at `position` with `geometry`,
    /// if any.
    pub fn plan_trail(&self, position: Point, geometry: Size, render: bool) -> (t: Option<Trail>)
        ensures
            t == trail_spec(self@, position, geometry, render),
    {
        let dx: i128 = position.x as i128 - self.previous_position.x as i128;
        let dy: i128 = position.y as i128 - self.previous_position.y as i128;
        if self.active && render && self.attached && !(dx == 0 && dy == 0) {
            let paces = corner_paces(dx, dy, geometry.width as i128, geometry.height as i128);
            Some(
                Trail {
                    from: Rect { origin: self.previous_position, size: self.previous_geometry },
                    to: Rect { origin: position, size: geometry },
                    dx,
                    dy,
                    paces,
                },
            )
        } else {
            None
        }
    }

    /// Remembers the cursor at `position` with `geometry` as the one to
    /// animate the next move from; only done once a layer exists.
    pub fn settle(&mut self, position: Point, geometry: Size)
        requires
            old(self)@.attached,
        ensures
            final(self)@ == settle_spec(old(self)@, position, geometry),
    {
        proof {
            use_type_invariant(&*self);
        }
        self.active = true;
        self.previous_position = position;
        self.previous_geometry = geometry;
    }

    /// Drops the oldest animations beyond `MAX_ANIMATIONS`.
    pub fn cleanup_finished_animations(&mut self)
        ensures
            final(self)@ == cleanup_spec(old(self)@),
    {
        proof {
            use_type_invariant(&*self);
        }
        let mut queue = AnimationQueue::new();
        std::mem::swap(&mut queue, &mut self.animations);
        queue.trim_to_newest(MAX_ANIMATIONS);
        self.animations = queue;
    }

    /// Remembers a newly started animation, keeping only the newest
    /// `MAX_ANIMATIONS`.
    pub fn record_animation(&mut self, entry: T)
        ensures
            final(self)@ == record_spec(old(self)@, entry),
    {
        proof {
            use_type_invariant(&*self);
        }
        let mut queue = AnimationQueue::new();
        std::mem::swap(&mut queue, &mut self.animations);
        queue.push_back(entry);
        queue.trim_to_newest(MAX_ANIMATIONS);
        self.animations = queue;
    }

    /// The trail that a whole cursor update will draw, if any, given whether
    /// a layer that `window` needs was created: none when creation failed,
    /// none on a newly created layer, else the one `plan_trail` gives.
    pub fn plan_update(
        &self,
        window: usize,
        position: Point,
        geometry: Size,
        render: bool,
        layer_created: bool,
    ) -> (t: Option<Trail>)
        ensures
            t == update_plan_spec(self@, window, position, geometry, render, layer_created),
    {
        let needed = self.needs_compositor(window);
        if needed {
            None
        } else {
            self.plan_trail(position, geometry, render)
        }
    }

    /// Carries out a whole cursor update, given whether a layer that
    /// `window` needs was created and what drawing the planned trail gave
    /// (`None` when it failed). See `update_spec`.
    pub fn update(
        &mut self,
        window: usize,
        position: Point,
        geometry: Size,
        render: bool,
        layer_created: bool,
        drawn: Option<T>,
    )
        ensures
            final(self)@ == update_spec(
                old(self)@,
                window,
                position,
                geometry,
                render,
                layer_created,
                drawn,
            ),
            consistent(final(self)@),
    {
        proof {
            use_type_invariant(&*self);
        }
        let needed = self.ensure_compositor(window);
        if needed {
            if !layer_created {
                proof {
                    use_type_invariant(&*self);
                }
                return;
            }
            self.compositor_created();
        }
        let trail = self.plan_trail(position, geometry, render);
        match trail {
            Some(_) => match drawn {
                Some(entry) => {
                    self.record_animation(entry);
                    self.settle(position, geometry);
                },
                None => {},
            },
            None => {
                self.settle(position, geometry);
            },
        }
        proof {
            use_type_invariant(&*self);
        }
    }

    /// Sets the colour that trails are drawn in.
    pub fn set_color(&mut self, color: Color)
        ensures
            final(self)@ == color_spec(old(self)@, color),
    {
        proof {
            use_type_invariant(&*self);
        }
        self.color = color;
    }
}

impl<T> Default for CursorState<T> {
    fn default() -> (s: Self)
        ensures
            s@ == initial_view::<T>(),
    {
        Self::new()
    }
}

/// No step lets the state hold more than `MAX_ANIMATIONS` animations, or
/// count a position as seen while no layer exists, starting from the
/// initial state; a position is only settled on an existing layer.
pub proof fn lemma_steps_keep_consistent<T>(
    v: CursorView<T>,
    window: usize,
    position: Point,
    geometry: Size,
    color: Color,
    entry: T,
)
    requires
        consistent(v),
    ensures
        consistent(initial_view::<T>()),
        consistent(ensure_spec(v, window)),
        consistent(created_spec(v)),
        v.attached ==> consistent(settle_spec(v, position, geometry)),
        consistent(record_spec(v, entry)),
        consistent(color_spec(v, color)),
        consistent(cleanup_spec(v)),
{
}

/// The state in which the trail of an update is planned: the layer checked
/// against `window`, and a newly created layer counted.
pub open spec fn ready_spec<T>(v: CursorView<T>, window: usize) -> CursorView<T> {
    if needs_compositor_spec(v, window) {
        created_spec(ensure_spec(v, window))
    } else {
        v
    }
}

/// The trail that an update draws, if any: none when a needed layer could
/// not be created, else the trail planned on the ready state.
pub open spec fn update_plan_spec<T>(
    v: CursorView<T>,
    window: usize,
    position: Point,
    geometry: Size,
    render: bool,
    layer_created: bool,
) -> Option<Trail> {
    if needs_compositor_spec(v, window) && !layer_created {
        None
    } else {
        trail_spec(ready_spec(v, window), position, geometry, render)
    }
}

/// One whole cursor update, as the module runs it: the layer is checked
/// against `window`; when a new layer is needed and cannot be created
/// (`layer_created` false) the update stops there; otherwise the trail is
/// planned, and when there is one it is drawn, giving `drawn` (`None` when
/// drawing failed, which stops the update); a drawn trail is remembered,
/// and finally the cursor is settled.
///
/// With `render` false no trail is drawn or remembered; the layer is still
/// checked and set up for `window`, since the layer and the window it
/// belongs to are part of the module's own state and nothing is drawn on
/// it.
pub open spec fn update_spec<T>(
    v: CursorView<T>,
    window: usize,
    position: Point,
    geometry: Size,
    render: bool,
    layer_created: bool,
    drawn: Option<T>,
) -> CursorView<T> {
    if needs_compositor_spec(v, window) && !layer_created {
        ensure_spec(v, window)
    } else {
        let ready = ready_spec(v, window);
        match update_plan_spec(v, window, position, geometry, render, layer_created) {
            Some(_) => match drawn {
                Some(entry) => settle_spec(record_spec(ready, entry), position, geometry),
                None => ready,
            },
            None => settle_spec(ready, position, geometry),
        }
    }
}

/// A whole cursor update keeps the state consistent: at most
/// `MAX_ANIMATIONS` animations, and a position counts as seen only while a
/// layer exists. It settles the cursor exactly when the layer was there or
/// was created and no planned trail failed to draw; otherwise the previous
/// cursor is kept, unsettled.
pub proof fn lemma_update_keeps_consistent<T>(
    v: CursorView<T>,
    window: usize,
    position: Point,
    geometry: Size,
    render: bool,
    layer_created: bool,
    drawn: Option<T>,
)
    requires
        consistent(v),
    ensures
        ({
            let after = update_spec(v, window, position, geometry, render, layer_created, drawn);
            let plan = update_plan_spec(v, window, position, geometry, render, layer_created);
            let failed = (needs_compositor_spec(v, window) && !layer_created) || (plan is Some
                && drawn is None);
            &&& consistent(after)
            &&& after.window == window
            &&& !failed ==> after.active && after.position == position && after.geometry
                == geometry
            &&& failed ==> after.active == ensure_spec(v, window).active && after.position
                == v.position && after.geometry == v.geometry
        }),
{
}

/// An update without rendering draws and remembers nothing: the only
/// animations dropped are those of another window, and the cursor is
/// settled whenever the layer is there.
pub proof fn lemma_update_without_render<T>(
    v: CursorView<T>,
    window: usize,
    position: Point,
    geometry: Size,
    layer_created: bool,
    drawn: Option<T>,
)
    ensures
        update_plan_spec(v, window, position, geometry, false, layer_created) is None,
        update_spec(v, window, position, geometry, false, layer_created, drawn).animations
            == ensure_spec(v, window).animations,
        !(needs_compositor_spec(v, window) && !layer_created) ==> update_spec(
            v,
            window,
            position,
            geometry,
            false,
            layer_created,
            drawn,
        ) == settle_spec(ready_spec(v, window), position, geometry),
{
}

/// Right after a layer is set up for a window, that window needs no new
/// layer, and the first cursor update draws no trail whatever it is.
pub proof fn lemma_fresh_layer_draws_nothing<T>(
    v: CursorView<T>,
    window: usize,
    position: Point,
    geometry: Size,
    render: bool,
)
    ensures
        ({
            let fresh = created_spec(ensure_spec(v, window));
            &&& !needs_compositor_spec(fresh, window)
            &&& trail_spec(fresh, position, geometry, render) is None
        }),
{
}

/// Changing window drops every animation of the previous one.
pub proof fn lemma_window_change_drops_animations<T>(v: CursorView<T>, window: usize)
    requires
        v.window != window,
    ensures
        needs_compositor_spec(v, window),
        ensure_spec(v, window).animations.len() == 0,
        ensure_spec(v, window).window == window,
{
}

/// A cursor that stays where it was settled leaves no trail.
pub proof fn lemma_no_move_no_trail<T>(
    v: CursorView<T>,
    position: Point,
    geometry: Size,
    new_geometry: Size,
    render: bool,
)
    ensures
        trail_spec(settle_spec(v, position, geometry), position, new_geometry, render) is None,
{
}

/// A cursor that moves away from where it was settled, on an existing
/// layer, leaves a trail from the settled rectangle to the new one.
pub proof fn lemma_move_leaves_trail<T>(
    v: CursorView<T>,
    from: Point,
    geometry: Size,
    to: Point,
    new_geometry: Size,
)
    requires
        v.attached,
        from != to,
    ensures
        ({
            let t = trail_spec(settle_spec(v, from, geometry), to, new_geometry, true);
            &&& t is Some
            &&& t->0.from == Rect { origin: from, size: geometry }
            &&& t->0.to == Rect { origin: to, size: new_geometry }
            &&& t->0.dx == to.x - from.x
            &&& t->0.dy == to.y - from.y
        }),
{
}

/// Without rendering no trail is drawn, but the cursor is still followed.
pub proof fn lemma_no_render_no_trail<T>(v: CursorView<T>, position: Point, geometry: Size)
    ensures
        trail_spec(v, position, geometry, false) is None,
{
}

/// Remembering an animation keeps it as the newest, and before it the
/// newest of the animations held, `MAX_ANIMATIONS` at most: when the
/// history is full its oldest animation is dropped. Nothing else changes.
pub proof fn lemma_record_keeps_the_newest<T>(v: CursorView<T>, entry: T)
    ensures
        ({
            let after = record_spec(v, entry);
            let a = after.animations;
            let n = v.animations.len();
            &&& a.len() == if n < 100 {
                n + 1
            } else {
                100
            }
            &&& a[a.len() - 1] == entry
            &&& forall|j: int|
                0 <= j < a.len() - 1 ==> #[trigger] a[j] == v.animations[n + 1 - a.len() + j]
            &&& after.window == v.window && after.attached == v.attached && after.active
                == v.active
            &&& after.position == v.position && after.geometry == v.geometry && after.color
                == v.color
        }),
{
}

/// A planned trail runs from the cursor last seen to the new cursor, by
/// their difference, and its corners are paced by that move measured
/// against the new cursor's own width and height.
pub proof fn lemma_trail_measured_on_new_cursor<T>(
    v: CursorView<T>,
    position: Point,
    geometry: Size,
    render: bool,
)
    ensures
        trail_spec(v, position, geometry, render) matches Some(t) ==> {
            &&& t.from.origin == v.position && t.from.size == v.geometry
            &&& t.to.origin == position && t.to.size == geometry
            &&& t.dx == position.x - v.position.x && t.dy == position.y - v.position.y
            &&& t.paces == corner_paces_spec(
                t.dx as int,
                t.dy as int,
                t.to.size.width as int,
                t.to.size.height as int,
            )
        },
{
}

/// Typing a character moves the cursor one cursor width to the right on
/// the same line: on a layer with a cursor seen, that draws a horizontal
/// trail whose right corners lead and left corners trail.
pub proof fn lemma_one_width_right_is_horizontal<T>(
    v: CursorView<T>,
    position: Point,
    geometry: Size,
)
    requires
        v.active,
        v.attached,
        0 < geometry.width,
        0 < geometry.height,
        position.y == v.position.y,
        position.x - v.position.x == geometry.width,
    ensures
        ({
            let t = trail_spec(v, position, geometry, true);
            &&& t is Some
            &&& t->0.dx == geometry.width && t->0.dy == 0
            &&& t->0.paces.top_left == Pace::Slow && t->0.paces.top_right == Pace::Fast
            &&& t->0.paces.bottom_right == Pace::Fast && t->0.paces.bottom_left == Pace::Slow
        }),
{
}

/// Moving down lines in the same column draws a vertical trail whose
/// bottom corners lead and top corners trail, however many lines it moves.
pub proof fn lemma_down_same_column_is_vertical<T>(
    v: CursorView<T>,
    position: Point,
    geometry: Size,
)
    requires
        v.active,
        v.attached,
        0 < geometry.width,
        position.x == v.position.x,
        position.y > v.position.y,
    ensures
        ({
            let t = trail_spec(v, position, geometry, true);
            &&& t is Some
            &&& t->0.dx == 0 && t->0.dy == position.y - v.position.y
            &&& t->0.paces.top_left == Pace::Slow && t->0.paces.top_right == Pace::Slow
            &&& t->0.paces.bottom_right == Pace::Fast && t->0.paces.bottom_left == Pace::Fast
        }),
{
}

/// On a window whose layer is already there, an update plans exactly the
/// trail that the state itself plans, and changes neither window nor layer
/// before it.
pub proof fn lemma_update_on_existing_layer<T>(
    v: CursorView<T>,
    window: usize,
    position: Point,
    geometry: Size,
    render: bool,
    layer_created: bool,
)
    requires
        v.window == window,
        v.attached,
    ensures
        !needs_compositor_spec(v, window),
        ensure_spec(v, window) == v,
        ready_spec(v, window) == v,
        update_plan_spec(v, window, position, geometry, render, layer_created) == trail_spec(
            v,
            position,
            geometry,
            render,
        ),
{
}

/// Settling remembers the cursor as the one the next move is drawn from.
pub proof fn lemma_settle_remembers<T>(v: CursorView<T>, position: Point, geometry: Size)
    ensures
        ({
            let after = settle_spec(v, position, geometry);
            &&& after.active
            &&& after.position == position && after.geometry == geometry
            &&& after.window == v.window && after.attached == v.attached
            &&& after.animations == v.animations && after.color == v.color
        }),
{
}

/// The state before any cursor update, written out: no window, no layer,
/// no cursor seen, an opaque white colour, the origin with no size, and no
/// animation.
pub proof fn lemma_initial_state<T>()
    ensures
        ({
            let v = initial_view::<T>();
            &&& v.window == 0 && !v.attached && !v.active
            &&& v.position.x == 0 && v.position.y == 0
            &&& v.geometry.width == 0 && v.geometry.height == 0
            &&& v.color.a == 255 && v.color.r == 255 && v.color.g == 255 && v.color.b == 255
            &&& v.animations.len() == 0
        }),
{
}

/// A trail is planned exactly when rendering is asked for, a layer exists,
/// a cursor was seen on it, and the cursor is now somewhere else.
pub proof fn lemma_trail_exactly_when<T>(
    v: CursorView<T>,
    position: Point,
    geometry: Size,
    render: bool,
)
    ensures
        trail_spec(v, position, geometry, render) is Some <==> (render && v.attached && v.active
            && position != v.position),
{
}

/// Checking the layer against another window, or with no layer, records
/// that window and drops every animation, and changes nothing else;
/// checking it against the window it was set up for changes nothing.
pub proof fn lemma_layer_check<T>(v: CursorView<T>, window: usize)
    ensures
        ({
            let after = ensure_spec(v, window);
            &&& (v.window != window || !v.attached) ==> {
                &&& after.window == window && after.animations.len() == 0
                &&& after.attached == v.attached && after.active == v.active
                &&& after.position == v.position && after.geometry == v.geometry
                &&& after.color == v.color
            }
            &&& (v.window == window && v.attached) ==> after == v
        }),
{
}

/// A new layer counts as existing, with no cursor seen on it yet; nothing
/// else changes.
pub proof fn lemma_layer_created<T>(v: CursorView<T>)
    ensures
        ({
            let after = created_spec(v);
            &&& after.attached && !after.active
            &&& after.window == v.window && after.animations == v.animations
            &&& after.position == v.position && after.geometry == v.geometry
            &&& after.color == v.color
        }),
{
}

/// Cleaning up keeps the newest `MAX_ANIMATIONS` animations, in order, and
/// nothing else changes; setting the colour changes only the colour.
pub proof fn lemma_cleanup_and_color<T>(v: CursorView<T>, color: Color)
    ensures
        ({
            let a = cleanup_spec(v).animations;
            let n = v.animations.len();
            &&& a.len() == if n <= 100 {
                n
            } else {
                100
            }
            &&& forall|j: int| 0 <= j < a.len() ==> #[trigger] a[j] == v.animations[n - a.len() + j]
            &&& cleanup_spec(v).window == v.window && cleanup_spec(v).active == v.active
            &&& cleanup_spec(v).position == v.position && cleanup_spec(v).color == v.color
            &&& color_spec(v, color).color == color
            &&& color_spec(v, color).animations == v.animations
            &&& color_spec(v, color).position == v.position
            &&& color_spec(v, color).active == v.active
        }),
{
}

/// A rectangle spans its width from its left edge and its height from its
/// top edge.
pub proof fn lemma_rect_edges(r: Rect)
    ensures
        r.min_x_spec() == r.origin.x,
        r.min_y_spec() == r.origin.y,
        r.max_x_spec() - r.min_x_spec() == r.size.width,
        r.max_y_spec() - r.min_y_spec() == r.size.height,
{
}

/// What a whole update plans and keeps: no trail when a needed layer could
/// not be created, nor on a layer just created; a drawn trail is kept as
/// the newest animation; without a drawn trail the animations are just
/// those left by the layer check.
pub proof fn lemma_update_plans_and_keeps<T>(
    v: CursorView<T>,
    window: usize,
    position: Point,
    geometry: Size,
    render: bool,
    layer_created: bool,
    drawn: Option<T>,
)
    ensures
        ({
            let needed = v.window != window || !v.attached;
            let plan = update_plan_spec(v, window, position, geometry, render, layer_created);
            let after = update_spec(v, window, position, geometry, render, layer_created, drawn);
            let a = after.animations;
            &&& needed ==> plan is None
            &&& !needed ==> plan == trail_spec(v, position, geometry, render)
            &&& (plan is Some && drawn is Some) ==> a.len() > 0 && a[a.len() - 1] == drawn->0
                && a.len() <= 100
            &&& !(plan is Some && drawn is Some) ==> a == ensure_spec(v, window).animations
        }),
{
}

} // verus!

use vstd::prelude::*;

use crate::model::{BubbleBundle, Config, OverlapTest, Point, Velocity, Viewport};
use crate::overlap::{overlaps, touch};
use crate::spawn::{respawn_bubble, spawn_bubble};

verus! {

/// Why a tick did not run to its end.
#[derive(Clone, Copy, Debug, PartialEq, Eq, Structural)]
pub enum TickError {
    /// No viewport was given: nothing was changed.
    MissingViewport,
    /// Moving the bubbles would take a position out of the `i32` range: the
    /// steps before the move were applied, the move was not.
    OutOfRange,
}

/// The bubble at index `i` touches a bubble of higher index: it is the first
/// of a touching pair, and so the one that is respawned.
pub open spec fn consumed(bs: Seq<BubbleBundle>, test: OverlapTest, i: int) -> bool {
    exists|j: int| i < j < bs.len() && #[trigger] touch(test, bs[i], bs[j])
}

/// Which bubbles are respawned depends on positions and sizes alone: two
/// populations that agree on them, whatever their velocities, get the same
/// verdict for every bubble.
pub proof fn lemma_marks_depend_on_geometry(test: OverlapTest, a: Seq<BubbleBundle>, b: Seq<BubbleBundle>)
    requires
        a.len() == b.len(),
        forall|i: int| 0 <= i < a.len() ==> (#[trigger] a[i]).position == b[i].position && a[i].size == b[i].size,
    ensures
        forall|i: int| 0 <= i < a.len() ==> #[trigger] consumed(a, test, i) == consumed(b, test, i),
{
    assert forall|i: int| 0 <= i < a.len() implies #[trigger] consumed(a, test, i) == consumed(b, test, i) by {
        assert forall|j: int| i < j < a.len() implies #[trigger] touch(test, a[i], a[j]) == touch(test, b[i], b[j]) by {
            assert(a[i].position == b[i].position && a[i].size == b[i].size);
            assert(a[j].position == b[j].position && a[j].size == b[j].size);
        }
        if consumed(a, test, i) {
            let j = choose|j: int| i < j < a.len() && #[trigger] touch(test, a[i], a[j]);
            assert(touch(test, b[i], b[j]));
        }
        if consumed(b, test, i) {
            let j = choose|j: int| i < j < b.len() && #[trigger] touch(test, b[i], b[j]);
            assert(touch(test, a[i], a[j]));
        }
    }
}

/// Each bubble of `after` is the bubble of `before` moved for `dt`.
pub open spec fn moved_all(before: Seq<BubbleBundle>, after: Seq<BubbleBundle>, dt: int) -> bool {
    &&& after.len() == before.len()
    &&& forall|i: int| 0 <= i < before.len() ==> BubbleBundle::moved(before[i], #[trigger] after[i], dt)
}

/// Every bubble of `bs` can be moved for `dt`.
pub open spec fn all_can_move(bs: Seq<BubbleBundle>, dt: int) -> bool {
    forall|i: int| 0 <= i < bs.len() ==> BubbleBundle::can_move(#[trigger] bs[i], dt)
}

/// Each bubble of `after` is the bubble of `before` reflected at the border;
/// in a viewport without area, `after` is `before`.
pub open spec fn bounced_all(config: Config, vp: Viewport, before: Seq<BubbleBundle>, after: Seq<BubbleBundle>) -> bool {
    &&& after.len() == before.len()
    &&& if vp.is_empty() {
        after == before
    } else {
        forall|i: int| 0 <= i < before.len() ==> config.bounced(vp, before[i], #[trigger] after[i])
    }
}

/// The first bubble of each touching pair of `before` is respawned in `after`;
/// every other bubble is kept as it was. In a viewport without area, `after`
/// is `before`.
pub open spec fn collided_all(config: Config, vp: Viewport, before: Seq<BubbleBundle>, after: Seq<BubbleBundle>) -> bool {
    &&& after.len() == before.len()
    &&& if vp.is_empty() {
        after == before
    } else {
        forall|i: int| 0 <= i < before.len() ==> if consumed(before, config.test, i) {
            config.respawned(vp, #[trigger] after[i])
        } else {
            after[i] == before[i]
        }
    }
}

/// What one per-frame tick may turn `before` into: reflection at the border,
/// then collisions, then the move, which is made (`moved`) exactly when every
/// position stays representable.
pub open spec fn frame_outcome(
    config: Config,
    vp: Viewport,
    dt: int,
    before: Seq<BubbleBundle>,
    after: Seq<BubbleBundle>,
    moved: bool,
) -> bool {
    exists|reflected: Seq<BubbleBundle>, collided: Seq<BubbleBundle>|
        #[trigger] bounced_all(config, vp, before, reflected)
        && #[trigger] collided_all(config, vp, reflected, collided)
        && moved == all_can_move(collided, dt)
        && if moved {
            moved_all(collided, after, dt)
        } else {
            after == collided
        }
}

/// What one fixed-step tick turns `before` into: the move, then collisions.
pub open spec fn step_outcome(
    config: Config,
    vp: Viewport,
    dt: int,
    before: Seq<BubbleBundle>,
    after: Seq<BubbleBundle>,
) -> bool {
    exists|moved: Seq<BubbleBundle>|
        #[trigger] moved_all(before, moved, dt) && collided_all(config, vp, moved, after)
}

/// A tick keeps the number of bubbles.
proof fn lemma_frame_keeps_count(
    config: Config,
    vp: Viewport,
    dt: int,
    before: Seq<BubbleBundle>,
    after: Seq<BubbleBundle>,
    moved: bool,
)
    requires
        frame_outcome(config, vp, dt, before, after, moved),
    ensures
        after.len() == before.len(),
{
    let (reflected, collided) = choose|reflected: Seq<BubbleBundle>, collided: Seq<BubbleBundle>|
        #[trigger] bounced_all(config, vp, before, reflected)
        && #[trigger] collided_all(config, vp, reflected, collided)
        && moved == all_can_move(collided, dt)
        && if moved {
            moved_all(collided, after, dt)
        } else {
            after == collided
        };
}

/// The number of bubbles never changes, over any number of per-frame ticks:
/// `states[k + 1]` is what tick `k` made of `states[k]`, with the viewport,
/// time step and move verdict of that tick.
pub proof fn lemma_population_conserved(
    config: Config,
    states: Seq<Seq<BubbleBundle>>,
    viewports: Seq<Viewport>,
    dts: Seq<u32>,
    moves: Seq<bool>,
)
    requires
        states.len() == viewports.len() + 1,
        dts.len() == viewports.len(),
        moves.len() == viewports.len(),
        forall|k: int| 0 <= k < viewports.len() ==> #[trigger] frame_outcome(
            config, viewports[k], dts[k] as int, states[k], states[k + 1], moves[k]),
    ensures
        forall|k: int| 0 <= k < states.len() ==> #[trigger] states[k].len() == states[0].len(),
    decreases viewports.len(),
{
    if viewports.len() > 0 {
        let n = viewports.len() - 1;
        lemma_population_conserved(config, states.drop_last(), viewports.drop_last(), dts.drop_last(), moves.drop_last());
        assert(frame_outcome(config, viewports[n], dts[n] as int, states[n], states[n + 1], moves[n]));
        lemma_frame_keeps_count(config, viewports[n], dts[n] as int, states[n], states[n + 1], moves[n]);
        assert forall|k: int| 0 <= k < states.len() implies #[trigger] states[k].len() == states[0].len() by {
            let prefix = states.drop_last();
            assert(prefix[0] == states[0]);
            assert(prefix[n] == states[n]);
            if k < states.len() - 1 {
                assert(prefix[k] == states[k]);
            }
        }
    }
}

/// Which bubbles of `bs` are respawned under `test`: entry `i` is `true`
/// exactly when bubble `i` touches some bubble of higher index. Each unordered
/// pair is examined once, and the verdict depends on positions and sizes alone.
pub fn respawn_marks(bs: &Vec<BubbleBundle>, test: OverlapTest) -> (r: Vec<bool>)
    ensures
        r.len() == bs.len(),
        forall|i: int| 0 <= i < bs.len() ==> #[trigger] r[i] == consumed(bs@, test, i),
{
    let n = bs.len();
    let mut marks: Vec<bool> = Vec::new();
    let mut i: usize = 0;
    while i < n
        invariant
            n == bs.len(),
            i <= n,
            marks.len() == i,
            forall|k: int| 0 <= k < i ==> #[trigger] marks[k] == consumed(bs@, test, k),
        decreases n - i,
    {
        let mut hit = false;
        let mut j: usize = i + 1;
        while j < n
            invariant
                n == bs.len(),
                i < n,
                i < j <= n,
                hit ==> consumed(bs@, test, i as int),
                !hit ==> forall|m: int| i < m < j ==> !#[trigger] touch(test, bs@[i as int], bs@[m]),
            decreases n - j,
        {
            if overlaps(test, &bs[i], &bs[j]) {
                hit = true;
            }
            j += 1;
        }
        marks.push(hit);
        i += 1;
    }
    marks
}

/// `p + v * dt`, computed without overflow.
fn displaced(p: i32, v: i32, dt: u32) -> (r: i128)
    ensures
        r == p + v * dt,
{
    let (v, dt) = (v as i128, dt as i128);
    assert(-0x1_0000_0000_0000_0000i128 <= v * dt <= 0x1_0000_0000_0000_0000i128) by (nonlinear_arith)
        requires -0x8000_0000i128 <= v <= 0x8000_0000i128, 0 <= dt <= 0x1_0000_0000i128;
    p as i128 + v * dt
}

/// `b` moved along its velocity for `dt` time units.
fn moved_bubble(b: BubbleBundle, dt: u32) -> (r: BubbleBundle)
    requires
        BubbleBundle::can_move(b, dt as int),
    ensures
        BubbleBundle::moved(b, r, dt as int),
{
    let x = displaced(b.position.x, b.velocity.x, dt);
    let y = displaced(b.position.y, b.velocity.y, dt);
    BubbleBundle { position: Point { x: x as i32, y: y as i32 }, ..b }
}

/// Is `true` exactly when `b` can be moved for `dt`.
fn can_move_bubble(b: &BubbleBundle, dt: u32) -> (r: bool)
    ensures
        r == BubbleBundle::can_move(*b, dt as int),
{
    let x = displaced(b.position.x, b.velocity.x, dt);
    let y = displaced(b.position.y, b.velocity.y, dt);
    i32::MIN as i128 <= x && x <= i32::MAX as i128 && i32::MIN as i128 <= y && y <= i32::MAX as i128
}

/// `b` with each velocity component negated where `b` meets or crosses the
/// viewport's border on that axis.
fn bounced_bubble(config: &Config, vp: Viewport, b: BubbleBundle) -> (r: BubbleBundle)
    requires
        config.wf(),
        config.bubble_ok(b),
    ensures
        config.bounced(vp, b, r),
        config.bubble_ok(r),
{
    let extent: i64 = match config.test {
        OverlapTest::Circle { .. } => 2 * b.size as i64,
        OverlapTest::Box { .. } => b.size as i64,
    };
    let (w, h) = (vp.width as i64, vp.height as i64);
    let (cx, cy) = (2 * b.position.x as i64, 2 * b.position.y as i64);
    let vx = if cx + extent >= w || cx - extent <= -w {
        -b.velocity.x
    } else {
        b.velocity.x
    };
    let vy = if cy + extent >= h || cy - extent <= -h {
        -b.velocity.y
    } else {
        b.velocity.y
    };
    BubbleBundle { velocity: Velocity { x: vx, y: vy }, ..b }
}

/// The population of bubbles and the parameters they were made with.
pub struct World {
    pub config: Config,
    pub bubbles: Vec<BubbleBundle>,
}

impl World {
    /// The configuration is valid and every bubble's size and velocity lie in
    /// its ranges.
    pub open spec fn wf(&self) -> bool {
        &&& self.config.wf()
        &&& forall|i: int| 0 <= i < self.bubbles.len() ==> self.config.bubble_ok(#[trigger] self.bubbles[i])
    }

    /// Is `true` exactly when `wf` holds.
    pub fn is_valid(&self) -> (r: bool)
        ensures
            r == self.wf(),
    {
        if !self.config.is_valid() {
            return false;
        }
        let c = self.config;
        let mut i: usize = 0;
        while i < self.bubbles.len()
            invariant
                c == self.config,
                c.wf(),
                i <= self.bubbles.len(),
                forall|k: int| 0 <= k < i ==> c.bubble_ok(#[trigger] self.bubbles[k]),
            decreases self.bubbles.len() - i,
        {
            let b = self.bubbles[i];
            if !(c.min_size <= b.size && b.size < c.max_size && -c.max_speed <= b.velocity.x
                && b.velocity.x <= c.max_speed && -c.max_speed <= b.velocity.y
                && b.velocity.y <= c.max_speed) {
                return false;
            }
            i += 1;
        }
        true
    }

    /// A scene of `count` fresh bubbles, each with its size and velocity drawn
    /// from the configured ranges and its centre drawn over the viewport.
    pub fn setup(config: Config, vp: Viewport, count: usize) -> (r: World)
        requires
            config.wf(),
        ensures
            r.wf(),
            r.config == config,
            r.bubbles.len() == count,
            forall|i: int| 0 <= i < count ==> config.centred_inside(vp, #[trigger] r.bubbles[i]),
    {
        let mut bubbles: Vec<BubbleBundle> = Vec::new();
        let mut i: usize = 0;
        while i < count
            invariant
                config.wf(),
                i <= count,
                bubbles.len() == i,
                forall|k: int| 0 <= k < i ==> config.bubble_ok(#[trigger] bubbles[k]) && config.centred_inside(vp, bubbles[k]),
            decreases count - i,
        {
            bubbles.push(spawn_bubble(&config, vp));
            i += 1;
        }
        World { config, bubbles }
    }

    /// Is `true` exactly when every bubble can be moved for `dt` without a
    /// position leaving the `i32` range.
    pub fn can_move(&self, dt: u32) -> (r: bool)
        ensures
            r == all_can_move(self.bubbles@, dt as int),
    {
        let mut i: usize = 0;
        while i < self.bubbles.len()
            invariant
                i <= self.bubbles.len(),
                forall|k: int| 0 <= k < i ==> BubbleBundle::can_move(#[trigger] self.bubbles@[k], dt as int),
            decreases self.bubbles.len() - i,
        {
            if !can_move_bubble(&self.bubbles[i], dt) {
                return false;
            }
            i += 1;
        }
        true
    }

    /// Moves every bubble along its velocity for `dt` time units:
    /// `position += velocity * dt`, nothing else changed. Returns `false`, and
    /// moves nothing, where some position would leave the `i32` range.
    pub fn move_bubbles(&mut self, dt: u32) -> (r: bool)
        requires
            old(self).wf(),
        ensures
            final(self).wf(),
            final(self).config == old(self).config,
            final(self).bubbles.len() == old(self).bubbles.len(),
            r == all_can_move(old(self).bubbles@, dt as int),
            r ==> moved_all(old(self).bubbles@, final(self).bubbles@, dt as int),
            !r ==> final(self).bubbles@ == old(self).bubbles@,
    {
        if !self.can_move(dt) {
            return false;
        }
        self.move_all(dt);
        true
    }

    /// Moves every bubble for `dt`, where every move fits.
    fn move_all(&mut self, dt: u32)
        requires
            old(self).wf(),
            all_can_move(old(self).bubbles@, dt as int),
        ensures
            final(self).wf(),
            final(self).config == old(self).config,
            moved_all(old(self).bubbles@, final(self).bubbles@, dt as int),
    {
        let ghost before = self.bubbles@;
        let mut i: usize = 0;
        while i < self.bubbles.len()
            invariant
                self.wf(),
                self.config == old(self).config,
                self.bubbles.len() == before.len(),
                before == old(self).bubbles@,
                all_can_move(before, dt as int),
                i <= self.bubbles.len(),
                forall|k: int| 0 <= k < i ==> BubbleBundle::moved(before[k], #[trigger] self.bubbles@[k], dt as int),
                forall|k: int| i <= k < before.len() ==> #[trigger] self.bubbles@[k] == before[k],
            decreases self.bubbles.len() - i,
        {
            let b = moved_bubble(self.bubbles[i], dt);
            self.bubbles.set(i, b);
            i += 1;
        }
    }

    /// Negates, for every bubble, each velocity component on whose axis the
    /// bubble meets or crosses the viewport's border; both where it leaves by
    /// a corner. A viewport without area changes nothing.
    pub fn border_collision(&mut self, vp: Viewport)
        requires
            old(self).wf(),
        ensures
            final(self).wf(),
            final(self).config == old(self).config,
            vp.width == 0 || vp.height == 0 ==> final(self).bubbles@ == old(self).bubbles@,
            bounced_all(old(self).config, vp, old(self).bubbles@, final(self).bubbles@),
    {
        if vp.width == 0 || vp.height == 0 {
            return;
        }
        let ghost before = self.bubbles@;
        let config = self.config;
        let mut i: usize = 0;
        while i < self.bubbles.len()
            invariant
                self.wf(),
                config == self.config,
                self.config == old(self).config,
                self.bubbles.len() == before.len(),
                before == old(self).bubbles@,
                i <= self.bubbles.len(),
                forall|k: int| 0 <= k < i ==> config.bounced(vp, before[k], #[trigger] self.bubbles@[k]),
                forall|k: int| i <= k < before.len() ==> #[trigger] self.bubbles@[k] == before[k],
            decreases self.bubbles.len() - i,
        {
            let b = bounced_bubble(&config, vp, self.bubbles[i]);
            self.bubbles.set(i, b);
            i += 1;
        }
    }

    /// Respawns the first bubble of every touching pair, once however many
    /// bubbles it touches, and leaves every other bubble as it was. Which
    /// bubbles touch is decided on the state before any respawn. A viewport
    /// without area changes nothing.
    pub fn collide_bubbles(&mut self, vp: Viewport)
        requires
            old(self).wf(),
        ensures
            final(self).wf(),
            final(self).config == old(self).config,
            vp.width == 0 || vp.height == 0 ==> final(self).bubbles@ == old(self).bubbles@,
            collided_all(old(self).config, vp, old(self).bubbles@, final(self).bubbles@),
    {
        if vp.width == 0 || vp.height == 0 {
            return;
        }
        let ghost before = self.bubbles@;
        let config = self.config;
        let marks = respawn_marks(&self.bubbles, config.test);
        let mut i: usize = 0;
        while i < self.bubbles.len()
            invariant
                self.wf(),
                config == self.config,
                self.config == old(self).config,
                self.bubbles.len() == before.len(),
                marks.len() == before.len(),
                before == old(self).bubbles@,
                forall|k: int| 0 <= k < before.len() ==> #[trigger] marks[k] == consumed(before, config.test, k),
                i <= self.bubbles.len(),
                forall|k: int| 0 <= k < i ==> if consumed(before, config.test, k) {
                    config.respawned(vp, #[trigger] self.bubbles@[k])
                } else {
                    self.bubbles@[k] == before[k]
                },
                forall|k: int| i <= k < before.len() ==> #[trigger] self.bubbles@[k] == before[k],
            decreases self.bubbles.len() - i,
        {
            if marks[i] {
                let b = respawn_bubble(&config, vp);
                self.bubbles.set(i, b);
            }
            i += 1;
        }
    }
    /// One per-frame tick: reflection at the border, then collisions, then the
    /// move by `dt`. Without a viewport nothing is changed; a viewport without
    /// area leaves out reflection and collisions. Where the move would take a
    /// position out of the `i32` range it is left out.
    pub fn tick(&mut self, viewport: Option<Viewport>, dt: u32) -> (r: Result<(), TickError>)
        requires
            old(self).wf(),
        ensures
            final(self).wf(),
            final(self).config == old(self).config,
            final(self).bubbles.len() == old(self).bubbles.len(),
            viewport is None ==> r == Err::<(), TickError>(TickError::MissingViewport)
                && final(self).bubbles@ == old(self).bubbles@,
            viewport is Some ==> (r is Ok || r == Err::<(), TickError>(TickError::OutOfRange))
                && frame_outcome(old(self).config, viewport->0, dt as int, old(self).bubbles@,
                final(self).bubbles@, r is Ok),
    {
        let vp = match viewport {
            Some(vp) => vp,
            None => return Err(TickError::MissingViewport),
        };
        let ghost before = self.bubbles@;
        self.border_collision(vp);
        let ghost reflected = self.bubbles@;
        self.collide_bubbles(vp);
        let ghost collided = self.bubbles@;
        let r = if self.move_bubbles(dt) {
            Ok(())
        } else {
            Err(TickError::OutOfRange)
        };
        assert(bounced_all(self.config, vp, before, reflected));
        assert(collided_all(self.config, vp, reflected, collided));
        proof {
            lemma_frame_keeps_count(self.config, vp, dt as int, before, self.bubbles@, r is Ok);
        }
        r
    }

    /// One fixed-step tick: the move by `dt`, then collisions. Without a
    /// viewport, or where the move would take a position out of the `i32`
    /// range, nothing is changed.
    pub fn step(&mut self, viewport: Option<Viewport>, dt: u32) -> (r: Result<(), TickError>)
        requires
            old(self).wf(),
        ensures
            final(self).wf(),
            final(self).config == old(self).config,
            final(self).bubbles.len() == old(self).bubbles.len(),
            viewport is None ==> r == Err::<(), TickError>(TickError::MissingViewport)
                && final(self).bubbles@ == old(self).bubbles@,
            viewport is Some ==> (r is Ok <==> all_can_move(old(self).bubbles@, dt as int)),
            viewport is Some && !(r is Ok) ==> r == Err::<(), TickError>(TickError::OutOfRange)
                && final(self).bubbles@ == old(self).bubbles@,
            viewport is Some && r is Ok ==> step_outcome(old(self).config, viewport->0, dt as int,
                old(self).bubbles@, final(self).bubbles@),
    {
        let vp = match viewport {
            Some(vp) => vp,
            None => return Err(TickError::MissingViewport),
        };
        if !self.move_bubbles(dt) {
            return Err(TickError::OutOfRange);
        }
        let ghost moved = self.bubbles@;
        self.collide_bubbles(vp);
        assert(moved_all(old(self).bubbles@, moved, dt as int));
        Ok(())
    }
}

} // verus!

use vstd::prelude::*;

verus! {

/// A point of the plane, in length units.
#[derive(Clone, Copy, Debug, PartialEq, Eq, Structural)]
pub struct Point {
    pub x: i32,
    pub y: i32,
}

/// A velocity, in length units per time unit along each axis.
#[derive(Clone, Copy, Debug, PartialEq, Eq, Structural)]
pub struct Velocity {
    pub x: i32,
    pub y: i32,
}

/// The simulation area: `width` by `height`, centred at the origin.
#[derive(Clone, Copy, Debug, PartialEq, Eq, Structural)]
pub struct Viewport {
    pub width: u32,
    pub height: u32,
}

/// How two bubbles are judged to touch.
#[derive(Clone, Copy, Debug, PartialEq, Eq, Structural)]
pub enum OverlapTest {
    /// `size` is a radius; two bubbles touch when the distance between their
    /// centres, less both radii, is at most `slack`.
    Circle { slack: i32 },
    /// `size` is the diameter of the drawn circle; the hit box is a square of
    /// side `size * (1000 - shrink_permille) / 1000` around the centre, and two
    /// bubbles touch when their hit boxes intersect on both axes.
    Box { shrink_permille: i32 },
}

/// The fixed parameters of a simulation.
#[derive(Clone, Copy, Debug, PartialEq, Eq, Structural)]
pub struct Config {
    /// Sizes are drawn from `[min_size, max_size)`.
    pub min_size: i32,
    pub max_size: i32,
    /// Each velocity component is drawn from `[-max_speed, max_speed]`.
    pub max_speed: i32,
    pub test: OverlapTest,
}

/// The state of one bubble.
#[derive(Clone, Copy, Debug, PartialEq, Eq, Structural)]
pub struct BubbleBundle {
    pub position: Point,
    pub velocity: Velocity,
    /// A radius for `OverlapTest::Circle`, a diameter for `OverlapTest::Box`.
    pub size: i32,
}

impl OverlapTest {
    pub open spec fn wf(self) -> bool {
        match self {
            OverlapTest::Circle { slack } => 0 <= slack,
            OverlapTest::Box { shrink_permille } => 0 <= shrink_permille < 1000,
        }
    }
}

impl Config {
    pub open spec fn wf(self) -> bool {
        &&& 0 < self.min_size < self.max_size
        &&& 0 <= self.max_speed
        &&& self.test.wf()
    }

    /// Is `true` exactly when `wf` holds.
    pub fn is_valid(&self) -> (r: bool)
        ensures
            r == self.wf(),
    {
        let test_ok = match self.test {
            OverlapTest::Circle { slack } => 0 <= slack,
            OverlapTest::Box { shrink_permille } => 0 <= shrink_permille && shrink_permille < 1000,
        };
        0 < self.min_size && self.min_size < self.max_size && 0 <= self.max_speed && test_ok
    }

    pub open spec fn size_ok(self, size: int) -> bool {
        self.min_size <= size < self.max_size
    }

    pub open spec fn speed_ok(self, v: Velocity) -> bool {
        &&& -self.max_speed <= v.x <= self.max_speed
        &&& -self.max_speed <= v.y <= self.max_speed
    }

    /// Size and velocity of `b` lie in the configured ranges.
    pub open spec fn bubble_ok(self, b: BubbleBundle) -> bool {
        self.size_ok(b.size as int) && self.speed_ok(b.velocity)
    }

    /// Twice the distance from a bubble's centre to the edge of its extent,
    /// that is the full width of the extent.
    pub open spec fn extent(self, size: int) -> int {
        match self.test {
            OverlapTest::Circle { .. } => 2 * size,
            OverlapTest::Box { .. } => size,
        }
    }
}

impl Viewport {
    /// The viewport has no area: reflection and collisions then leave the
    /// bubbles as they are.
    pub open spec fn is_empty(self) -> bool {
        self.width == 0 || self.height == 0
    }

    /// A bubble of full extent `extent` centred at `c` on an axis of length
    /// `len` meets or crosses the low or high edge.
    pub open spec fn crosses(len: int, c: int, extent: int) -> bool {
        2 * c + extent >= len || 2 * c - extent <= -len
    }

    /// `c` lies in `[-len / 2, len / 2]`.
    pub open spec fn inside(len: int, c: int) -> bool {
        -len <= 2 * c <= len
    }

    /// The whole extent of width `extent` around `c` lies in `[-len / 2, len / 2]`;
    /// where the axis is narrower than the extent, `c` is the centre.
    pub open spec fn holds(len: int, c: int, extent: int) -> bool {
        if extent <= len {
            -len <= 2 * c - extent && 2 * c + extent <= len
        } else {
            c == 0
        }
    }
}

impl BubbleBundle {
    /// `after` is `before` moved along its velocity for `dt` time units.
    pub open spec fn moved(before: BubbleBundle, after: BubbleBundle, dt: int) -> bool {
        &&& after.position.x == before.position.x + before.velocity.x * dt
        &&& after.position.y == before.position.y + before.velocity.y * dt
        &&& after.velocity == before.velocity
        &&& after.size == before.size
    }

    /// Moving `b` for `dt` time units keeps its position representable.
    pub open spec fn can_move(b: BubbleBundle, dt: int) -> bool {
        &&& i32::MIN <= b.position.x + b.velocity.x * dt <= i32::MAX
        &&& i32::MIN <= b.position.y + b.velocity.y * dt <= i32::MAX
    }
}

impl Config {
    /// `b` meets or crosses a vertical edge of the viewport.
    pub open spec fn crosses_x(self, vp: Viewport, b: BubbleBundle) -> bool {
        Viewport::crosses(vp.width as int, b.position.x as int, self.extent(b.size as int))
    }

    /// `b` meets or crosses a horizontal edge of the viewport.
    pub open spec fn crosses_y(self, vp: Viewport, b: BubbleBundle) -> bool {
        Viewport::crosses(vp.height as int, b.position.y as int, self.extent(b.size as int))
    }

    /// `after` is `before` with each velocity component negated exactly when
    /// `before` meets or crosses the viewport's border on that axis.
    pub open spec fn bounced(self, vp: Viewport, before: BubbleBundle, after: BubbleBundle) -> bool {
        &&& after.position == before.position
        &&& after.size == before.size
        &&& after.velocity.x == if self.crosses_x(vp, before) {
            -before.velocity.x
        } else {
            before.velocity.x as int
        }
        &&& after.velocity.y == if self.crosses_y(vp, before) {
            -before.velocity.y
        } else {
            before.velocity.y as int
        }
    }

    /// The centre of `b` lies in the viewport.
    pub open spec fn centred_inside(self, vp: Viewport, b: BubbleBundle) -> bool {
        Viewport::inside(vp.width as int, b.position.x as int)
            && Viewport::inside(vp.height as int, b.position.y as int)
    }

    /// Where a respawned bubble may stand: with the circle test, its centre in
    /// the viewport; with the box test, its whole extent in the viewport.
    pub open spec fn placed(self, vp: Viewport, b: BubbleBundle) -> bool {
        match self.test {
            OverlapTest::Circle { .. } => self.centred_inside(vp, b),
            OverlapTest::Box { .. } => {
                &&& Viewport::holds(vp.width as int, b.position.x as int, b.size as int)
                &&& Viewport::holds(vp.height as int, b.position.y as int, b.size as int)
            },
        }
    }

    /// What holds of every respawned bubble.
    pub open spec fn respawned(self, vp: Viewport, b: BubbleBundle) -> bool {
        self.bubble_ok(b) && self.placed(vp, b)
    }
}

} // verus!

use vstd::prelude::*;

use crate::model::{BubbleBundle, Config, OverlapTest, Point, Velocity, Viewport};

verus! {

/// Relies on rand::Rng::gen_range with the thread-local generator: on a
/// non-empty inclusive range it returns a value of that range.
#[verifier::external_body]
fn random_in(lo: i32, hi: i32) -> (r: i32)
    requires
        lo <= hi,
    ensures
        lo <= r <= hi,
{
    rand::Rng::gen_range(&mut rand::thread_rng(), lo..=hi)
}

/// The range of centre coordinates on an axis of length `len` at which the whole
/// extent of width `extent` lies on the axis; `(0, 0)` where the axis is
/// narrower than the extent.
pub fn placement_bounds(len: u32, extent: i32) -> (r: (i32, i32))
    requires
        0 < extent,
    ensures
        r.0 <= r.1,
        forall|c: int| r.0 <= c <= r.1 <==> Viewport::holds(len as int, c, extent as int),
{
    if (extent as u32) <= len {
        let room = (len - extent as u32) / 2;
        assert forall|c: int| -(room as int) <= c <= room <==> Viewport::holds(len as int, c, extent as int) by {
            if -(room as int) <= c <= room {
                assert(Viewport::holds(len as int, c, extent as int));
            }
            if Viewport::holds(len as int, c, extent as int) {
                assert(-(room as int) <= c <= room);
            }
        }
        (-(room as i32), room as i32)
    } else {
        (0, 0)
    }
}

/// The range of centre coordinates on an axis of length `len` that lie on the axis.
pub fn centre_bounds(len: u32) -> (r: (i32, i32))
    ensures
        r.0 <= r.1,
        forall|c: int| r.0 <= c <= r.1 <==> Viewport::inside(len as int, c),
{
    let half = len / 2;
    (-(half as i32), half as i32)
}

/// A size drawn from `[min_size, max_size)` and a velocity with each component
/// drawn from `[-max_speed, max_speed]`.
fn draw_state(config: &Config) -> (r: (i32, Velocity))
    requires
        config.wf(),
    ensures
        config.size_ok(r.0 as int),
        config.speed_ok(r.1),
{
    let size = random_in(config.min_size, config.max_size - 1);
    let vx = random_in(-config.max_speed, config.max_speed);
    let vy = random_in(-config.max_speed, config.max_speed);
    (size, Velocity { x: vx, y: vy })
}

/// A fresh bubble as scene setup makes it: size and velocity drawn from the
/// configured ranges, centre drawn over the whole viewport.
pub fn spawn_bubble(config: &Config, vp: Viewport) -> (r: BubbleBundle)
    requires
        config.wf(),
    ensures
        config.bubble_ok(r),
        config.centred_inside(vp, r),
{
    let (size, velocity) = draw_state(config);
    let (x_lo, x_hi) = centre_bounds(vp.width);
    let (y_lo, y_hi) = centre_bounds(vp.height);
    let x = random_in(x_lo, x_hi);
    let y = random_in(y_lo, y_hi);
    BubbleBundle { position: Point { x, y }, velocity, size }
}

/// A bubble that replaces one consumed by a collision. Size and velocity are
/// drawn from the configured ranges. With the circle test the centre is drawn
/// over the whole viewport. With the box test it is drawn where the bubble's
/// whole extent stays inside the viewport, reckoned with the newly drawn size
/// (so the new bubble never pokes out of the border, whatever size it had
/// before).
pub fn respawn_bubble(config: &Config, vp: Viewport) -> (r: BubbleBundle)
    requires
        config.wf(),
    ensures
        config.respawned(vp, r),
{
    let (size, velocity) = draw_state(config);
    let (x_lo, x_hi, y_lo, y_hi) = match config.test {
        OverlapTest::Circle { .. } => {
            let (x_lo, x_hi) = centre_bounds(vp.width);
            let (y_lo, y_hi) = centre_bounds(vp.height);
            (x_lo, x_hi, y_lo, y_hi)
        },
        OverlapTest::Box { .. } => {
            let (x_lo, x_hi) = placement_bounds(vp.width, size);
            let (y_lo, y_hi) = placement_bounds(vp.height, size);
            (x_lo, x_hi, y_lo, y_hi)
        },
    };
    let x = random_in(x_lo, x_hi);
    let y = random_in(y_lo, y_hi);
    BubbleBundle { position: Point { x, y }, velocity, size }
}

} // verus!

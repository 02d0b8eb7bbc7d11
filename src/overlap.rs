use vstd::prelude::*;

use crate::model::{BubbleBundle, OverlapTest};

verus! {

/// The circle test: `distance(a, b) - a.size - b.size <= slack`, stated without
/// the square root (both sides of `distance <= reach` are non-negative).
pub open spec fn circle_touch(a: BubbleBundle, b: BubbleBundle, slack: int) -> bool {
    let dx = a.position.x - b.position.x;
    let dy = a.position.y - b.position.y;
    let reach = a.size + b.size + slack;
    0 <= reach && dx * dx + dy * dy <= reach * reach
}

/// The box test: the hit boxes, of side `size * (1000 - shrink) / 1000`, intersect
/// on both axes (open intervals: boxes that only share an edge do not touch).
/// `|dx| < (side_a + side_b) / 2`, multiplied through by 2000.
pub open spec fn box_touch(a: BubbleBundle, b: BubbleBundle, shrink: int) -> bool {
    let dx = a.position.x - b.position.x;
    let dy = a.position.y - b.position.y;
    let span = (a.size + b.size) * (1000 - shrink);
    &&& 2000 * abs(dx) < span
    &&& 2000 * abs(dy) < span
}

pub open spec fn abs(v: int) -> int {
    if v < 0 { -v } else { v }
}

/// Whether `a` and `b` touch under `test`.
pub open spec fn touch(test: OverlapTest, a: BubbleBundle, b: BubbleBundle) -> bool {
    match test {
        OverlapTest::Circle { slack } => circle_touch(a, b, slack as int),
        OverlapTest::Box { shrink_permille } => box_touch(a, b, shrink_permille as int),
    }
}

/// The circle test on `a` and `b` with the given slack.
pub fn circles_overlap(a: &BubbleBundle, b: &BubbleBundle, slack: i32) -> (r: bool)
    ensures
        r == circle_touch(*a, *b, slack as int),
{
    let dx = a.position.x as i128 - b.position.x as i128;
    let dy = a.position.y as i128 - b.position.y as i128;
    let reach = a.size as i128 + b.size as i128 + slack as i128;
    assert(0 <= dx * dx <= 0x4_0000_0000i128 * 0x4_0000_0000i128) by (nonlinear_arith)
        requires -0x4_0000_0000i128 <= dx <= 0x4_0000_0000i128;
    assert(0 <= dy * dy <= 0x4_0000_0000i128 * 0x4_0000_0000i128) by (nonlinear_arith)
        requires -0x4_0000_0000i128 <= dy <= 0x4_0000_0000i128;
    assert(0 <= reach * reach <= 0x4_0000_0000i128 * 0x4_0000_0000i128) by (nonlinear_arith)
        requires -0x4_0000_0000i128 <= reach <= 0x4_0000_0000i128;
    0 <= reach && dx * dx + dy * dy <= reach * reach
}

/// The box test on `a` and `b` with the given shrink, in thousandths.
pub fn boxes_overlap(a: &BubbleBundle, b: &BubbleBundle, shrink_permille: i32) -> (r: bool)
    ensures
        r == box_touch(*a, *b, shrink_permille as int),
{
    let dx = a.position.x as i128 - b.position.x as i128;
    let dy = a.position.y as i128 - b.position.y as i128;
    let adx = if dx < 0 { -dx } else { dx };
    let ady = if dy < 0 { -dy } else { dy };
    let sum = a.size as i128 + b.size as i128;
    let keep = 1000i128 - shrink_permille as i128;
    assert(sum * keep <= 0x4_0000_0000i128 * 0x4_0000_0000i128) by (nonlinear_arith)
        requires -0x4_0000_0000i128 <= sum <= 0x4_0000_0000i128, -0x4_0000_0000i128 <= keep <= 0x4_0000_0000i128;
    assert(sum * keep >= -(0x4_0000_0000i128 * 0x4_0000_0000i128)) by (nonlinear_arith)
        requires -0x4_0000_0000i128 <= sum <= 0x4_0000_0000i128, -0x4_0000_0000i128 <= keep <= 0x4_0000_0000i128;
    let span = sum * keep;
    2000 * adx < span && 2000 * ady < span
}

/// Whether `a` and `b` touch under `test`: a function of the two bubbles'
/// positions and sizes alone.
pub fn overlaps(test: OverlapTest, a: &BubbleBundle, b: &BubbleBundle) -> (r: bool)
    ensures
        r == touch(test, *a, *b),
{
    match test {
        OverlapTest::Circle { slack } => circles_overlap(a, b, slack),
        OverlapTest::Box { shrink_permille } => boxes_overlap(a, b, shrink_permille),
    }
}

/// Touching does not depend on the order of the two bubbles.
pub proof fn lemma_overlap_symmetric(test: OverlapTest, a: BubbleBundle, b: BubbleBundle)
    ensures
        touch(test, a, b) == touch(test, b, a),
{
    let dx = a.position.x - b.position.x;
    let dy = a.position.y - b.position.y;
    assert(dx * dx == (-dx) * (-dx)) by (nonlinear_arith);
    assert(dy * dy == (-dy) * (-dy)) by (nonlinear_arith);
}

} // verus!

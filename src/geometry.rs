use vstd::prelude::*;

verus! {

/// Number of screen units in one pixel: positions are held in thousandths of
/// a pixel, so that sub-pixel thresholds are exact integers.
pub const UNITS_PER_PIXEL: i32 = 1000;

/// Distance, in screen units, under which a pointer counts as lying on a line
/// endpoint (a tenth of a pixel).
pub const ENDPOINT_TOLERANCE: i32 = 100;

/// A point of the map surface, in thousandths of a pixel.
#[derive(Clone, Copy, Debug, PartialEq, Eq, Structural)]
pub struct ScreenPos {
    pub x: i32,
    pub y: i32,
}

/// Squared Euclidean distance between two screen points.
pub open spec fn dist2(a: ScreenPos, b: ScreenPos) -> int {
    (a.x - b.x) * (a.x - b.x) + (a.y - b.y) * (a.y - b.y)
}

/// `a` lies strictly closer than `r` to `b`. For `r >= 0` this is the
/// Euclidean distance compared with `r`, squared on both sides.
pub open spec fn closer_than(a: ScreenPos, b: ScreenPos, r: int) -> bool {
    dist2(a, b) < r * r
}

/// An optional pointer position lies within `radius` of `p`; never when there
/// is no pointer.
pub open spec fn touches(pointer: Option<ScreenPos>, p: ScreenPos, radius: u32) -> bool {
    match pointer {
        Some(q) => closer_than(q, p, radius as int),
        None => false,
    }
}

/// `c` lies strictly inside the box spanned by `a` and `b` on both axes.
pub open spec fn strictly_inside(a: ScreenPos, b: ScreenPos, c: ScreenPos) -> bool {
    ((a.x < c.x && c.x < b.x) || (b.x < c.x && c.x < a.x))
        && ((a.y < c.y && c.y < b.y) || (b.y < c.y && c.y < a.y))
}

/// The slopes from `c` to `a` and from `c` to `b`, `sa = (a.y - c.y) / (a.x - c.x)`
/// and `sb = (b.y - c.y) / (b.x - c.x)`, differ by less than a tenth. With
/// both denominators non-zero, `|sa - sb| < 1/10` is the same as
/// `10 * |cross| < |den|` over the cross-multiplied terms below.
pub open spec fn slopes_agree(a: ScreenPos, b: ScreenPos, c: ScreenPos) -> bool {
    let cross = (a.y - c.y) * (b.x - c.x) - (b.y - c.y) * (a.x - c.x);
    let den = (a.x - c.x) * (b.x - c.x);
    10 * abs(cross) < abs(den)
}

pub open spec fn abs(v: int) -> int {
    if v < 0 {
        -v
    } else {
        v
    }
}

/// The approximate test of a pointer `c` lying on the line from `a` to `b`:
/// inside the box of the two endpoints, and either near an endpoint or on a
/// nearly equal slope to both.
pub open spec fn on_segment_spec(a: ScreenPos, b: ScreenPos, c: ScreenPos) -> bool {
    strictly_inside(a, b, c) && (closer_than(a, c, ENDPOINT_TOLERANCE as int) || closer_than(
        b,
        c,
        ENDPOINT_TOLERANCE as int,
    ) || slopes_agree(a, b, c))
}

/// Whether an optional hover position lies on the line from `a` to `b`.
pub open spec fn line_hovered_spec(hover: Option<ScreenPos>, a: ScreenPos, b: ScreenPos) -> bool {
    match hover {
        Some(c) => on_segment_spec(a, b, c),
        None => false,
    }
}

/// Squared distance, computed without overflow.
pub fn distance_squared(a: ScreenPos, b: ScreenPos) -> (r: i128)
    ensures
        r == dist2(a, b),
{
    let dx: i128 = a.x as i128 - b.x as i128;
    let dy: i128 = a.y as i128 - b.y as i128;
    proof {
        assert(0 <= dx * dx <= 0x1_0000_0000 * 0x1_0000_0000) by (nonlinear_arith)
            requires
                -0x1_0000_0000 <= dx <= 0x1_0000_0000,
        ;
        assert(0 <= dy * dy <= 0x1_0000_0000 * 0x1_0000_0000) by (nonlinear_arith)
            requires
                -0x1_0000_0000 <= dy <= 0x1_0000_0000,
        ;
    }
    dx * dx + dy * dy
}

/// Whether `a` lies strictly closer than `r` to `b`.
pub fn within(a: ScreenPos, b: ScreenPos, r: u32) -> (res: bool)
    ensures
        res == closer_than(a, b, r as int),
{
    let rr: i128 = r as i128;
    proof {
        assert(0 <= rr * rr <= 0x1_0000_0000 * 0x1_0000_0000) by (nonlinear_arith)
            requires
                0 <= rr <= 0x1_0000_0000,
        ;
    }
    distance_squared(a, b) < rr * rr
}

/// Hover or click test of a point: true exactly when a pointer exists and
/// lies within `radius` of `p`.
pub fn point_touched(pointer: Option<ScreenPos>, p: ScreenPos, radius: u32) -> (res: bool)
    ensures
        res == touches(pointer, p, radius),
{
    match pointer {
        Some(q) => within(q, p, radius),
        None => false,
    }
}

fn abs_i128(v: i128) -> (r: i128)
    requires
        v > i128::MIN,
    ensures
        r == abs(v as int),
{
    if v < 0 {
        -v
    } else {
        v
    }
}

/// Approximate test of `c` lying on the line from `a` to `b`. Endpoints that
/// share an x (or y) coordinate span an empty box, so no slope is ever taken
/// over a zero run.
pub fn on_segment(a: ScreenPos, b: ScreenPos, c: ScreenPos) -> (res: bool)
    ensures
        res == on_segment_spec(a, b, c),
{
    let inside_x = (a.x < c.x && c.x < b.x) || (b.x < c.x && c.x < a.x);
    let inside_y = (a.y < c.y && c.y < b.y) || (b.y < c.y && c.y < a.y);
    if !(inside_x && inside_y) {
        return false;
    }
    if within(a, c, ENDPOINT_TOLERANCE as u32) || within(b, c, ENDPOINT_TOLERANCE as u32) {
        return true;
    }
    let ay: i128 = a.y as i128 - c.y as i128;
    let ax: i128 = a.x as i128 - c.x as i128;
    let by: i128 = b.y as i128 - c.y as i128;
    let bx: i128 = b.x as i128 - c.x as i128;
    proof {
        assert(-0x1_0000_0000 * 0x1_0000_0000 <= ay * bx <= 0x1_0000_0000 * 0x1_0000_0000)
            by (nonlinear_arith)
            requires
                -0x1_0000_0000 <= ay <= 0x1_0000_0000,
                -0x1_0000_0000 <= bx <= 0x1_0000_0000,
        ;
        assert(-0x1_0000_0000 * 0x1_0000_0000 <= by * ax <= 0x1_0000_0000 * 0x1_0000_0000)
            by (nonlinear_arith)
            requires
                -0x1_0000_0000 <= by <= 0x1_0000_0000,
                -0x1_0000_0000 <= ax <= 0x1_0000_0000,
        ;
        assert(-0x1_0000_0000 * 0x1_0000_0000 <= ax * bx <= 0x1_0000_0000 * 0x1_0000_0000)
            by (nonlinear_arith)
            requires
                -0x1_0000_0000 <= ax <= 0x1_0000_0000,
                -0x1_0000_0000 <= bx <= 0x1_0000_0000,
        ;
    }
    let cross: i128 = ay * bx - by * ax;
    let den: i128 = ax * bx;
    10 * abs_i128(cross) < abs_i128(den)
}

/// Line hover: a hover position exists and passes the approximate test.
pub fn line_hovered(hover: Option<ScreenPos>, a: ScreenPos, b: ScreenPos) -> (res: bool)
    ensures
        res == line_hovered_spec(hover, a, b),
{
    match hover {
        Some(c) => on_segment(a, b, c),
        None => false,
    }
}

/// Endpoints that share an x coordinate are never hovered: their box has no
/// inside.
pub proof fn lemma_vertical_line_never_hovered(a: ScreenPos, b: ScreenPos, c: ScreenPos)
    requires
        a.x == b.x,
    ensures
        !on_segment_spec(a, b, c),
{
}

/// For endpoints with distinct x coordinates and a pointer strictly inside
/// their box, the line is hovered exactly when the pointer is near an
/// endpoint or the two slopes differ by less than a tenth.
pub proof fn lemma_line_hover_inside_box(a: ScreenPos, b: ScreenPos, c: ScreenPos)
    requires
        a.x != b.x,
        strictly_inside(a, b, c),
    ensures
        on_segment_spec(a, b, c) <==> (closer_than(a, c, ENDPOINT_TOLERANCE as int)
            || closer_than(b, c, ENDPOINT_TOLERANCE as int) || slopes_agree(a, b, c)),
{
}

/// Point hover holds exactly when a hover position exists and lies strictly
/// closer than the hit radius; with no hover position it is false.
pub proof fn lemma_point_hover(hover: Option<ScreenPos>, p: ScreenPos, radius: u32)
    ensures
        hover is None ==> !touches(hover, p, radius),
        hover is Some ==> (touches(hover, p, radius) <==> dist2(hover->Some_0, p) < (
        radius as int) * (radius as int)),
{
}

} // verus!

//! Screen geometry over integers: vectors, rectangles, the clamp of an
//! offset to a circle, and the normalized displacement derived from it.
//!
//! Positions are whole numbers of a unit that the host chooses (a pixel, or
//! a fraction of one). A displacement is a fixed-point number with
//! [`DELTA_ONE`] standing for one. The coordinates of positions and
//! rectangles are limited to [`COORD_MAX`] in magnitude, and those of a base
//! offset to [`OFFSET_MAX`], so that every offset that a joystick computes
//! fits the integers it is held in.

use vstd::prelude::*;
use crate::math::{
    abs, clamp, div_toward_zero, divide_toward_zero, integer_sqrt, isqrt, lemma_isqrt,
    lemma_isqrt_of_square, lemma_isqrt_upper,
};

verus! {

/// The fixed-point value of a displacement of exactly one.
pub const DELTA_ONE: i32 = 1000;

/// The largest magnitude of a coordinate of a position or of a rectangle.
pub const COORD_MAX: i32 = 16_777_216;

/// The largest magnitude of a coordinate of a base offset.
pub const OFFSET_MAX: i32 = 134_217_728;

/// A vector of the plane: a position, an offset, a size or a displacement.
#[derive(Clone, Copy, Debug, PartialEq, Eq, Structural, Hash)]
pub struct Vec2 {
    pub x: i32,
    pub y: i32,
}

impl Vec2 {
    /// The zero vector.
    pub open spec fn spec_zero() -> Vec2 {
        Vec2 { x: 0, y: 0 }
    }

    /// The square of the Euclidean length.
    pub open spec fn length_squared(self) -> int {
        self.x * self.x + self.y * self.y
    }

    /// Both coordinates have a magnitude of at most `limit`.
    pub open spec fn within(self, limit: int) -> bool {
        &&& -limit <= self.x <= limit
        &&& -limit <= self.y <= limit
    }

    /// The vector can stand for a position on screen.
    pub open spec fn is_position(self) -> bool {
        self.within(COORD_MAX as int)
    }

    /// The vector can stand for the offset of a base from its resting place.
    pub open spec fn is_offset(self) -> bool {
        self.within(OFFSET_MAX as int)
    }

    /// The vector can stand for a normalized displacement: each coordinate
    /// lies between minus one and one.
    pub open spec fn is_delta(self) -> bool {
        self.within(DELTA_ONE as int)
    }

    /// The vector that leads from `origin` to this one.
    pub open spec fn spec_offset_from(self, origin: Vec2) -> Vec2 {
        Vec2 { x: (self.x - origin.x) as i32, y: (self.y - origin.y) as i32 }
    }

    /// This vector moved by `by`.
    pub open spec fn spec_moved_by(self, by: Vec2) -> Vec2 {
        Vec2 { x: (self.x + by.x) as i32, y: (self.y + by.y) as i32 }
    }

    /// The vector of the two coordinates.
    pub fn new(x: i32, y: i32) -> (v: Vec2)
        ensures
            v == (Vec2 { x, y }),
    {
        Vec2 { x, y }
    }

    /// The zero vector.
    #[verifier::when_used_as_spec(spec_zero)]
    pub fn zero() -> (v: Vec2)
        ensures
            v == Vec2::spec_zero(),
    {
        Vec2 { x: 0, y: 0 }
    }

    /// Subtracts `origin`, coordinate by coordinate.
    #[verifier::when_used_as_spec(spec_offset_from)]
    pub fn offset_from(self, origin: Vec2) -> (v: Vec2)
        requires
            i32::MIN <= self.x - origin.x <= i32::MAX,
            i32::MIN <= self.y - origin.y <= i32::MAX,
        ensures
            v == self.spec_offset_from(origin),
            v.x == self.x - origin.x,
            v.y == self.y - origin.y,
    {
        Vec2 { x: self.x - origin.x, y: self.y - origin.y }
    }

    /// Adds `by`, coordinate by coordinate.
    #[verifier::when_used_as_spec(spec_moved_by)]
    pub fn moved_by(self, by: Vec2) -> (v: Vec2)
        requires
            i32::MIN <= self.x + by.x <= i32::MAX,
            i32::MIN <= self.y + by.y <= i32::MAX,
        ensures
            v == self.spec_moved_by(by),
            v.x == self.x + by.x,
            v.y == self.y + by.y,
    {
        Vec2 { x: self.x + by.x, y: self.y + by.y }
    }

    /// Tells whether both coordinates have a magnitude of at most `limit`.
    pub fn fits(&self, limit: i32) -> (b: bool)
        ensures
            b == self.within(limit as int),
    {
        let lim: i64 = limit as i64;
        let x: i64 = self.x as i64;
        let y: i64 = self.y as i64;
        -lim <= x && x <= lim && -lim <= y && y <= lim
    }
}

/// A vector of space: a vector of the plane with a depth.
#[derive(Clone, Copy, Debug, PartialEq, Eq, Structural, Hash)]
pub struct Vec3 {
    pub x: i32,
    pub y: i32,
    pub z: i32,
}

impl Vec3 {
    /// The vector of the three coordinates.
    pub fn new(x: i32, y: i32, z: i32) -> (v: Vec3)
        ensures
            v == (Vec3 { x, y, z }),
    {
        Vec3 { x, y, z }
    }
}

impl Default for Vec2 {
    fn default() -> (v: Vec2)
        ensures
            v == Vec2::spec_zero(),
    {
        Vec2 { x: 0, y: 0 }
    }
}

/// An axis-aligned rectangle, held as its center and half of its size.
#[derive(Clone, Copy, Debug, PartialEq, Eq, Structural, Hash)]
pub struct Rect {
    pub center: Vec2,
    pub half_size: Vec2,
}

impl Rect {
    /// The rectangle lies within the coordinate limits and its size is not
    /// negative.
    pub open spec fn wf(self) -> bool {
        &&& self.center.is_position()
        &&& 0 <= self.half_size.x <= COORD_MAX
        &&& 0 <= self.half_size.y <= COORD_MAX
    }

    /// The horizontal coordinate of the left edge.
    pub open spec fn left(self) -> int {
        self.center.x - self.half_size.x
    }

    /// The horizontal coordinate of the right edge.
    pub open spec fn right(self) -> int {
        self.center.x + self.half_size.x
    }

    /// The vertical coordinate of the top edge.
    pub open spec fn top(self) -> int {
        self.center.y - self.half_size.y
    }

    /// The vertical coordinate of the bottom edge.
    pub open spec fn bottom(self) -> int {
        self.center.y + self.half_size.y
    }

    /// The point lies in the rectangle, edges included.
    pub open spec fn spec_contains(&self, point: Vec2) -> bool {
        &&& self.left() <= point.x <= self.right()
        &&& self.top() <= point.y <= self.bottom()
    }

    /// The rectangle of the given center and half size.
    pub fn from_center_half_size(center: Vec2, half_size: Vec2) -> (r: Rect)
        ensures
            r == (Rect { center, half_size }),
    {
        Rect { center, half_size }
    }

    /// The rectangle of the given center and size; half of an odd size is
    /// rounded toward zero.
    pub fn from_center_size(center: Vec2, size: Vec2) -> (r: Rect)
        ensures
            r.center == center,
            r.half_size.x == div_toward_zero(size.x as int, 2),
            r.half_size.y == div_toward_zero(size.y as int, 2),
    {
        let hx: i64 = divide_toward_zero(size.x as i64, 2);
        let hy: i64 = divide_toward_zero(size.y as i64, 2);
        Rect { center, half_size: Vec2 { x: hx as i32, y: hy as i32 } }
    }

    /// Tells whether the rectangle is well formed.
    pub fn is_wf(&self) -> (b: bool)
        ensures
            b == self.wf(),
    {
        self.center.fits(COORD_MAX) && 0 <= self.half_size.x && self.half_size.x <= COORD_MAX
            && 0 <= self.half_size.y && self.half_size.y <= COORD_MAX
    }

    /// The corner with the least coordinates.
    pub fn min(&self) -> (p: Vec2)
        requires
            self.wf(),
        ensures
            p.x == self.left(),
            p.y == self.top(),
    {
        Vec2 { x: self.center.x - self.half_size.x, y: self.center.y - self.half_size.y }
    }

    /// The corner with the greatest coordinates.
    pub fn max(&self) -> (p: Vec2)
        requires
            self.wf(),
        ensures
            p.x == self.right(),
            p.y == self.bottom(),
    {
        Vec2 { x: self.center.x + self.half_size.x, y: self.center.y + self.half_size.y }
    }

    /// Tells whether the point lies in the rectangle, edges included.
    #[verifier::when_used_as_spec(spec_contains)]
    pub fn contains(&self, point: Vec2) -> (b: bool)
        ensures
            b == self.spec_contains(point),
    {
        let cx: i64 = self.center.x as i64;
        let cy: i64 = self.center.y as i64;
        let hx: i64 = self.half_size.x as i64;
        let hy: i64 = self.half_size.y as i64;
        let px: i64 = point.x as i64;
        let py: i64 = point.y as i64;
        cx - hx <= px && px <= cx + hx && cy - hy <= py && py <= cy + hy
    }
}

/// One coordinate `c` of a vector of squared length `len_sq`, scaled by
/// `radius / length` and rounded toward zero, where `radius_sq` is the square
/// of the radius: the magnitude is `floor(sqrt(c * c * radius_sq / len_sq))`.
pub open spec fn toward_rim(c: int, radius_sq: int, len_sq: int) -> int {
    let m = isqrt(((c * c) * radius_sq / len_sq) as nat) as int;
    if c < 0 {
        -m
    } else {
        m
    }
}

/// The offset limited to the circle of the given radius around the origin:
/// an offset longer than the radius is scaled back to the rim, each
/// coordinate rounded toward zero; a shorter one is kept.
pub open spec fn spec_clamp_to_circle(offset: Vec2, radius: i32) -> Vec2 {
    let len_sq = offset.length_squared();
    let radius_sq = radius * radius;
    if len_sq <= radius_sq {
        offset
    } else {
        Vec2 {
            x: toward_rim(offset.x as int, radius_sq, len_sq) as i32,
            y: toward_rim(offset.y as int, radius_sq, len_sq) as i32,
        }
    }
}

/// One coordinate `c` of an offset as a fraction of `normalizer`, in fixed
/// point, rounded toward zero and limited to the interval from minus one to
/// one. A zero normalizer gives zero.
pub open spec fn normalized(c: int, normalizer: int) -> int {
    clamp(div_toward_zero(c * DELTA_ONE, normalizer), -DELTA_ONE, DELTA_ONE as int)
}

/// The normalized displacement that an offset from the center of the base
/// stands for. The offset is limited to the circle of radius
/// `base_half_extent.x`, divided coordinate by coordinate by `normalizer`,
/// limited to the interval from minus one to one, and its vertical
/// coordinate is negated, because the screen's vertical axis points down and
/// the displacement's points up. A base of zero width gives the zero vector.
pub open spec fn spec_circular_delta(offset: Vec2, base_half_extent: Vec2, normalizer: Vec2) -> Vec2 {
    if base_half_extent.x == 0 {
        Vec2::spec_zero()
    } else {
        let c = spec_clamp_to_circle(offset, base_half_extent.x);
        Vec2 {
            x: normalized(c.x as int, normalizer.x as int) as i32,
            y: (-normalized(c.y as int, normalizer.y as int)) as i32,
        }
    }
}

/// What `toward_rim` says of its result: it has the sign of `c`, is no
/// longer than `c`, and its magnitude `m` is the largest with
/// `m * m * len_sq <= c * c * radius_sq`.
pub proof fn lemma_toward_rim(c: int, radius_sq: int, len_sq: int)
    requires
        0 <= radius_sq < len_sq,
    ensures
        ({
            let t = toward_rim(c, radius_sq, len_sq);
            let m = abs(t);
            &&& (c >= 0 ==> t >= 0)
            &&& (c <= 0 ==> t <= 0)
            &&& m <= abs(c)
            &&& (m * m) * len_sq <= (c * c) * radius_sq
            &&& (c * c) * radius_sq < ((m + 1) * (m + 1)) * len_sq
        }),
{
    let p = (c * c) * radius_sq;
    assert(c * c >= 0) by (nonlinear_arith);
    assert(p >= 0) by (nonlinear_arith)
        requires
            p == (c * c) * radius_sq,
            c * c >= 0,
            radius_sq >= 0,
    ;
    let q = p / len_sq;
    assert(0 <= q && q * len_sq <= p < (q + 1) * len_sq) by (nonlinear_arith)
        requires
            q == p / len_sq,
            p >= 0,
            len_sq > 0,
    ;
    assert(q <= c * c) by (nonlinear_arith)
        requires
            q * len_sq <= (c * c) * radius_sq,
            0 <= radius_sq < len_sq,
            c * c >= 0,
            q >= 0,
    ;
    let m = isqrt(q as nat);
    lemma_isqrt(q as nat);
    let a = abs(c) as nat;
    assert(a * a == c * c) by (nonlinear_arith)
        requires
            a == c || a == -c,
    ;
    lemma_isqrt_upper(q as nat, a);
    assert((m * m) * len_sq <= p) by (nonlinear_arith)
        requires
            m * m <= q,
            q * len_sq <= p,
            len_sq > 0,
    ;
    assert(p < ((m + 1) * (m + 1)) * len_sq) by (nonlinear_arith)
        requires
            q < (m + 1) * (m + 1),
            p < (q + 1) * len_sq,
            len_sq > 0,
    ;
}

/// A clamped offset lies in the circle: its squared length is at most the
/// squared radius whenever the offset was longer than the radius, and no
/// coordinate changes sign or grows.
pub proof fn lemma_clamp_to_circle_within(offset: Vec2, radius: i32)
    ensures
        ({
            let c = spec_clamp_to_circle(offset, radius);
            &&& offset.length_squared() > radius * radius ==> c.length_squared() <= radius * radius
            &&& abs(c.x as int) <= abs(offset.x as int)
            &&& abs(c.y as int) <= abs(offset.y as int)
            &&& (offset.x >= 0 ==> c.x >= 0)
            &&& (offset.x <= 0 ==> c.x <= 0)
            &&& (offset.y >= 0 ==> c.y >= 0)
            &&& (offset.y <= 0 ==> c.y <= 0)
        }),
{
    let n = offset.length_squared();
    let rr = radius * radius;
    assert(rr >= 0) by (nonlinear_arith)
        requires
            rr == radius * radius,
    ;
    if n > rr {
        let ox = offset.x as int;
        let oy = offset.y as int;
        lemma_toward_rim(ox, rr, n);
        lemma_toward_rim(oy, rr, n);
        let tx = toward_rim(ox, rr, n);
        let ty = toward_rim(oy, rr, n);
        let mx = abs(tx);
        let my = abs(ty);
        assert(tx * tx == mx * mx && ty * ty == my * my) by (nonlinear_arith)
            requires
                mx == tx || mx == -tx,
                my == ty || my == -ty,
        ;
        assert(tx * tx + ty * ty <= rr) by (nonlinear_arith)
            requires
                (mx * mx) * n <= (ox * ox) * rr,
                (my * my) * n <= (oy * oy) * rr,
                n == ox * ox + oy * oy,
                tx * tx == mx * mx,
                ty * ty == my * my,
                n > 0,
        ;
    }
}

/// No coordinate of a clamped offset is longer than the radius.
pub proof fn lemma_clamp_to_circle_coordinates(offset: Vec2, radius: i32)
    ensures
        ({
            let c = spec_clamp_to_circle(offset, radius);
            &&& abs(c.x as int) <= abs(radius as int)
            &&& abs(c.y as int) <= abs(radius as int)
        }),
{
    let c = spec_clamp_to_circle(offset, radius);
    lemma_clamp_to_circle_within(offset, radius);
    let cx = abs(c.x as int);
    let cy = abs(c.y as int);
    let r = abs(radius as int);
    assert(cx * cx + cy * cy <= r * r) by (nonlinear_arith)
        requires
            c.x * c.x + c.y * c.y <= radius * radius,
            cx == c.x || cx == -c.x,
            cy == c.y || cy == -c.y,
            r == radius || r == -radius,
    ;
    assert(cx <= r && cy <= r) by (nonlinear_arith)
        requires
            cx * cx + cy * cy <= r * r,
            cx >= 0,
            cy >= 0,
            r >= 0,
    ;
}

/// A clamped offset reaches the rim up to rounding: had each coordinate one
/// unit more of magnitude, the offset would lie outside the circle.
pub proof fn lemma_clamp_to_circle_at_rim(offset: Vec2, radius: i32)
    requires
        offset.length_squared() > radius * radius,
    ensures
        ({
            let c = spec_clamp_to_circle(offset, radius);
            (abs(c.x as int) + 1) * (abs(c.x as int) + 1) + (abs(c.y as int) + 1) * (abs(
                c.y as int,
            ) + 1) > radius * radius
        }),
{
    let n = offset.length_squared();
    let rr = radius * radius;
    assert(rr >= 0) by (nonlinear_arith)
        requires
            rr == radius * radius,
    ;
    let ox = offset.x as int;
    let oy = offset.y as int;
    lemma_toward_rim(ox, rr, n);
    lemma_toward_rim(oy, rr, n);
    let mx = abs(toward_rim(ox, rr, n));
    let my = abs(toward_rim(oy, rr, n));
    assert((mx + 1) * (mx + 1) + (my + 1) * (my + 1) > rr) by (nonlinear_arith)
        requires
            (ox * ox) * rr < ((mx + 1) * (mx + 1)) * n,
            (oy * oy) * rr < ((my + 1) * (my + 1)) * n,
            n == ox * ox + oy * oy,
            n > 0,
    ;
}

/// An offset along the horizontal axis that is longer than the radius is
/// clamped to the rim exactly.
pub proof fn lemma_clamp_to_circle_on_axis(offset: Vec2, radius: i32)
    requires
        offset.y == 0,
        0 <= radius < abs(offset.x as int),
    ensures
        spec_clamp_to_circle(offset, radius) == (Vec2 {
            x: if offset.x < 0 {
                (-radius) as i32
            } else {
                radius
            },
            y: 0,
        }),
{
    let ox = offset.x as int;
    let n = offset.length_squared();
    let rr = radius * radius;
    let r = radius as nat;
    assert(n == ox * ox);
    assert(rr < n && n > 0) by (nonlinear_arith)
        requires
            rr == radius * radius,
            n == ox * ox,
            0 <= radius < ox || 0 <= radius < -ox,
    ;
    assert((ox * ox) * rr / n == rr) by (nonlinear_arith)
        requires
            n == ox * ox,
            n > 0,
    ;
    lemma_isqrt_of_square(r);
    assert((0int * 0int) * rr / n == 0) by (nonlinear_arith)
        requires
            n > 0,
    ;
    lemma_isqrt_of_square(0);
    assert(0nat * 0nat == 0) by (nonlinear_arith);
}

/// The normalized displacement never leaves the unit circle, however far
/// the offset reaches, where no coordinate is divided by less than the
/// radius of the base: with a uniform scale, and with a scale by axis for a
/// base at least as high as it is wide.
pub proof fn lemma_circular_delta_in_unit_circle(offset: Vec2, base_half_extent: Vec2, normalizer: Vec2)
    requires
        0 < base_half_extent.x <= normalizer.x,
        base_half_extent.x <= normalizer.y,
    ensures
        spec_circular_delta(offset, base_half_extent, normalizer).length_squared() <= DELTA_ONE
            * DELTA_ONE,
{
    let r = base_half_extent.x as int;
    let nx = normalizer.x as int;
    let ny = normalizer.y as int;
    let c = spec_clamp_to_circle(offset, base_half_extent.x);
    let d = spec_circular_delta(offset, base_half_extent, normalizer);
    lemma_clamp_to_circle_within(offset, base_half_extent.x);
    let cx = c.x as int;
    let cy = c.y as int;
    assert(cx * cx + cy * cy <= r * r);
    lemma_normalized_bound(cx, nx);
    lemma_normalized_bound(cy, ny);
    let dx = normalized(cx, nx);
    let dy = normalized(cy, ny);
    assert(d.x == dx && d.y == -dy);
    assert((dx * dx) * (r * r) <= (1000 * 1000) * (cx * cx)) by (nonlinear_arith)
        requires
            (dx * dx) * (nx * nx) <= (1000 * 1000) * (cx * cx),
            0 < r <= nx,
    ;
    assert((dy * dy) * (r * r) <= (1000 * 1000) * (cy * cy)) by (nonlinear_arith)
        requires
            (dy * dy) * (ny * ny) <= (1000 * 1000) * (cy * cy),
            0 < r <= ny,
    ;
    assert(d.x * d.x + d.y * d.y <= 1000 * 1000) by (nonlinear_arith)
        requires
            (dx * dx) * (r * r) <= (1000 * 1000) * (cx * cx),
            (dy * dy) * (r * r) <= (1000 * 1000) * (cy * cy),
            cx * cx + cy * cy <= r * r,
            r > 0,
            d.x == dx,
            d.y == -dy,
    ;
}

/// With a uniform scale the displacement of an offset beyond the rim
/// reaches the unit circle up to rounding: had each coordinate of the
/// displacement one unit more of magnitude, and one unit of length of the
/// offset on top, it would lie outside the unit circle.
pub proof fn lemma_circular_delta_reaches_unit_circle(offset: Vec2, base_half_extent: Vec2)
    requires
        base_half_extent.x > 0,
        offset.length_squared() > base_half_extent.x * base_half_extent.x,
    ensures
        ({
            let r = base_half_extent.x as int;
            let uniform = Vec2 { x: base_half_extent.x, y: base_half_extent.x };
            let d = spec_circular_delta(offset, base_half_extent, uniform);
            let gx = (abs(d.x as int) + 1) * r + DELTA_ONE;
            let gy = (abs(d.y as int) + 1) * r + DELTA_ONE;
            gx * gx + gy * gy > (DELTA_ONE * r) * (DELTA_ONE * r)
        }),
{
    let r = base_half_extent.x as int;
    let c = spec_clamp_to_circle(offset, base_half_extent.x);
    lemma_clamp_to_circle_at_rim(offset, base_half_extent.x);
    lemma_clamp_to_circle_coordinates(offset, base_half_extent.x);
    let cx = abs(c.x as int);
    let cy = abs(c.y as int);
    lemma_normalized_magnitude(c.x as int, r);
    lemma_normalized_magnitude(c.y as int, r);
    let dx = abs(normalized(c.x as int, r));
    let dy = abs(normalized(c.y as int, r));
    let gx = (dx + 1) * r + 1000;
    let gy = (dy + 1) * r + 1000;
    assert(gx > 1000 * (cx + 1) && gy > 1000 * (cy + 1));
    assert(gx * gx + gy * gy > (1000 * r) * (1000 * r)) by (nonlinear_arith)
        requires
            gx > 1000 * (cx + 1),
            gy > 1000 * (cy + 1),
            (cx + 1) * (cx + 1) + (cy + 1) * (cy + 1) > r * r,
            cx >= 0,
            cy >= 0,
            r > 0,
    ;
}

/// The magnitude of a normalized coordinate that is no longer than the
/// normalizer is its quotient by the normalizer, rounded down.
pub proof fn lemma_normalized_magnitude(c: int, normalizer: int)
    requires
        0 < normalizer,
        abs(c) <= normalizer,
    ensures
        ({
            let m = abs(normalized(c, normalizer));
            &&& m * normalizer <= DELTA_ONE * abs(c)
            &&& DELTA_ONE * abs(c) < (m + 1) * normalizer
        }),
{
    let a = abs(c);
    let q = (a * 1000) / normalizer;
    assert(abs(c * 1000) == a * 1000);
    assert(0 <= q && q * normalizer <= a * 1000 < (q + 1) * normalizer && q <= 1000)
        by (nonlinear_arith)
        requires
            q == (a * 1000) / normalizer,
            0 <= a <= normalizer,
            normalizer > 0,
    ;
    assert(abs(normalized(c, normalizer)) == q);
}

/// A normalized coordinate is no larger than the exact quotient: its square
/// times the squared normalizer is at most the squared coordinate times the
/// square of one.
pub proof fn lemma_normalized_bound(c: int, normalizer: int)
    requires
        normalizer > 0,
    ensures
        ({
            let d = normalized(c, normalizer);
            &&& -DELTA_ONE <= d <= DELTA_ONE
            &&& (c >= 0 ==> d >= 0)
            &&& (c <= 0 ==> d <= 0)
            &&& (d * d) * (normalizer * normalizer) <= (DELTA_ONE * DELTA_ONE) * (c * c)
        }),
{
    let a = abs(c);
    let q = (a * 1000) / normalizer;
    assert(abs(c * 1000) == a * 1000);
    assert(0 <= q && q * normalizer <= a * 1000) by (nonlinear_arith)
        requires
            q == (a * 1000) / normalizer,
            a >= 0,
            normalizer > 0,
    ;
    let d = normalized(c, normalizer);
    let m = abs(d);
    assert(m <= q);
    assert((m * m) * (normalizer * normalizer) <= (1000 * 1000) * (a * a)) by (nonlinear_arith)
        requires
            0 <= m <= q,
            q * normalizer <= a * 1000,
            normalizer > 0,
            a >= 0,
    ;
    assert(d * d == m * m && c * c == a * a) by (nonlinear_arith)
        requires
            m == d || m == -d,
            a == c || a == -c,
    ;
}

/// A pointer straight to the right or left of the center, farther away
/// than the radius, gives a displacement of exactly one along the
/// horizontal axis and none along the vertical one.
pub proof fn lemma_circular_delta_full_deflection(offset: Vec2, base_half_extent: Vec2, normalizer: Vec2)
    requires
        offset.y == 0,
        0 < base_half_extent.x < abs(offset.x as int),
        normalizer.x == base_half_extent.x,
    ensures
        spec_circular_delta(offset, base_half_extent, normalizer) == (Vec2 {
            x: if offset.x < 0 {
                (-DELTA_ONE) as i32
            } else {
                DELTA_ONE
            },
            y: 0,
        }),
{
    let r = base_half_extent.x as int;
    lemma_clamp_to_circle_on_axis(offset, base_half_extent.x);
    assert((r * 1000) / r == 1000) by (nonlinear_arith)
        requires
            r > 0,
    ;
    if normalizer.y != 0 {
        let ny = abs(normalizer.y as int);
        assert(0int / ny == 0) by (nonlinear_arith)
            requires
                ny > 0,
        ;
    }
}

fn magnitude(c: i32) -> (a: u128)
    ensures
        a == abs(c as int),
        a <= 0x8000_0000,
{
    if c < 0 {
        (-(c as i64)) as u128
    } else {
        c as u128
    }
}

fn scale_toward_rim(c: i32, radius_sq: u128, len_sq: u128) -> (t: i32)
    requires
        radius_sq < len_sq,
        radius_sq <= 0x4000_0000_0000_0000,
    ensures
        t == toward_rim(c as int, radius_sq as int, len_sq as int),
{
    let a: u128 = magnitude(c);
    assert(a * a == c * c && a * a <= 0x4000_0000_0000_0000) by (nonlinear_arith)
        requires
            a == c || a == -c,
            0 <= a <= 0x8000_0000,
    ;
    let a_sq: u128 = a * a;
    assert(a_sq * radius_sq <= 0x4000_0000_0000_0000 * 0x4000_0000_0000_0000) by (nonlinear_arith)
        requires
            0 <= a_sq <= 0x4000_0000_0000_0000,
            0 <= radius_sq <= 0x4000_0000_0000_0000,
    ;
    let q: u128 = (a_sq * radius_sq) / len_sq;
    let root: u64 = integer_sqrt(q);
    proof {
        lemma_toward_rim(c as int, radius_sq as int, len_sq as int);
    }
    if c < 0 {
        (-(root as i64)) as i32
    } else {
        root as i32
    }
}

/// Limits an offset to the circle of the given radius around the origin.
#[verifier::when_used_as_spec(spec_clamp_to_circle)]
pub fn clamp_to_circle(offset: Vec2, radius: i32) -> (r: Vec2)
    ensures
        r == spec_clamp_to_circle(offset, radius),
{
    let ax: u128 = magnitude(offset.x);
    let ay: u128 = magnitude(offset.y);
    let ar: u128 = magnitude(radius);
    assert(ax * ax == offset.x * offset.x && ax * ax <= 0x4000_0000_0000_0000) by (nonlinear_arith)
        requires
            ax == offset.x || ax == -offset.x,
            0 <= ax <= 0x8000_0000,
    ;
    assert(ay * ay == offset.y * offset.y && ay * ay <= 0x4000_0000_0000_0000) by (nonlinear_arith)
        requires
            ay == offset.y || ay == -offset.y,
            0 <= ay <= 0x8000_0000,
    ;
    assert(ar * ar == radius * radius && ar * ar <= 0x4000_0000_0000_0000) by (nonlinear_arith)
        requires
            ar == radius || ar == -radius,
            0 <= ar <= 0x8000_0000,
    ;
    let len_sq: u128 = ax * ax + ay * ay;
    let radius_sq: u128 = ar * ar;
    if len_sq <= radius_sq {
        offset
    } else {
        Vec2 {
            x: scale_toward_rim(offset.x, radius_sq, len_sq),
            y: scale_toward_rim(offset.y, radius_sq, len_sq),
        }
    }
}

fn normalize(c: i32, normalizer: i32) -> (d: i32)
    ensures
        d == normalized(c as int, normalizer as int),
        -DELTA_ONE <= d <= DELTA_ONE,
{
    let one: i64 = DELTA_ONE as i64;
    assert(one == 1000);
    let q: i64 = divide_toward_zero((c as i64) * one, normalizer as i64);
    if q < -(DELTA_ONE as i64) {
        -DELTA_ONE
    } else if q > DELTA_ONE as i64 {
        DELTA_ONE
    } else {
        q as i32
    }
}

/// Computes the normalized displacement that an offset from the center of
/// the base stands for. `normalizer` is `(base_half_extent.x,
/// base_half_extent.x)` for a uniform, circular scale, and `base_half_extent`
/// itself for a scale by axis.
#[verifier::when_used_as_spec(spec_circular_delta)]
pub fn circular_delta(offset: Vec2, base_half_extent: Vec2, normalizer: Vec2) -> (d: Vec2)
    ensures
        d == spec_circular_delta(offset, base_half_extent, normalizer),
        d.is_delta(),
{
    if base_half_extent.x == 0 {
        return Vec2::zero();
    }
    let c = clamp_to_circle(offset, base_half_extent.x);
    let dx: i32 = normalize(c.x, normalizer.x);
    let dy: i32 = normalize(c.y, normalizer.y);
    Vec2 { x: dx, y: -dy }
}

} // verus!

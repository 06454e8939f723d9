//! Circular orbits round the central body: the constants, the closed-form position and
//! velocity, and what holds of them.

use vstd::prelude::*;
use vstd::arithmetic::div_mod::lemma_div_is_ordered;
use crate::arith::{floor_sqrt, lemma_div_parts, lemma_floor_sqrt_exists};
use crate::heading::{is_unit_heading, UNIT};
use crate::vector::{dot, Point};

verus! {

/// Numerator of the gravitational constant, in m^3 kg^-1 s^-2, over
/// [`GRAVITATIONAL_CONSTANT_DEN`].
pub const GRAVITATIONAL_CONSTANT_NUM: u128 = 667_430;

/// Denominator of the gravitational constant.
pub const GRAVITATIONAL_CONSTANT_DEN: u128 = 10_000_000_000_000_000;

/// Mass of the central body, in kilograms.
pub const CENTRAL_MASS_KG: u128 = 1_989_100_000_000_000_000_000_000_000_000;

/// Metres in a kilometre.
pub const METRES_PER_KM: i64 = 1_000;

/// Nanometres, the unit of positions, in a kilometre.
pub const NM_PER_KM: i128 = 1_000_000_000_000;

/// The greatest orbital radius that can be asked for, in kilometres.
pub const MAX_RADIUS_KM: i64 = 1_000_000_000_000;

/// How far a coordinate of a position may lie from the origin, in nanometres: as far as
/// the greatest orbital radius.
pub const POSITION_LIMIT_NM: i128 = 1_000_000_000_000_000_000_000_000;

/// Square micrometres in a square metre: speeds are held in micrometres per second.
pub const UM2_PER_M2: u128 = 1_000_000_000_000;

/// The gravitational constant times the central mass, in m^3 s^-2.
pub open spec fn gravitational_parameter() -> int {
    (GRAVITATIONAL_CONSTANT_NUM * CENTRAL_MASS_KG) / (GRAVITATIONAL_CONSTANT_DEN as int)
}

/// The gravitational parameter in the unit of squared speeds times metres.
pub open spec fn speed_parameter() -> int {
    gravitational_parameter() * UM2_PER_M2
}

/// The speed, in whole micrometres per second, of a circular orbit of radius `radius_m`
/// metres: the floor of the square root of the gravitational parameter over the radius.
pub open spec fn orbital_speed(radius_m: int) -> int {
    floor_sqrt(speed_parameter() / radius_m)
}

/// Where a body at distance `radius` stands in direction `h`, in the unit of `radius`.
pub open spec fn orbit_position(radius: int, h: Point) -> Point {
    Point { x: (radius * h.x) / (UNIT as int), y: (radius * h.y) / (UNIT as int) }
}

/// The velocity of magnitude `speed` at a right angle, counter-clockwise, to direction `h`.
pub open spec fn orbit_velocity(speed: int, h: Point) -> Point {
    Point { x: (speed * (-h.y)) / (UNIT as int), y: (speed * h.x) / (UNIT as int) }
}

/// How far the product of two rounded quotients is from the product of the exact ones,
/// both scaled by the square of the divisor.
proof fn lemma_rounded_product(a: int, c: int, ra: int, rc: int, u: int, ma: int, mc: int)
    requires
        0 < u,
        0 <= ma,
        0 <= mc,
        -(ma * u) <= a <= ma * u,
        -(mc * u) <= c <= mc * u,
        0 <= ra < u,
        0 <= rc < u,
    ensures
        -((ma + mc) * (u * u)) <= (a - ra) * (c - rc) - a * c <= (ma + mc + 1) * (u * u),
{
    assert((a - ra) * (c - rc) - a * c == ra * rc - a * rc - c * ra) by (nonlinear_arith);
    assert(0 <= ra * rc <= u * u) by (nonlinear_arith)
        requires
            0 <= ra < u,
            0 <= rc < u,
    ;
    assert(-(ma * (u * u)) <= a * rc <= ma * (u * u)) by (nonlinear_arith)
        requires
            0 <= ma,
            0 < u,
            -(ma * u) <= a <= ma * u,
            0 <= rc < u,
    ;
    assert(-(mc * (u * u)) <= c * ra <= mc * (u * u)) by (nonlinear_arith)
        requires
            0 <= mc,
            0 < u,
            -(mc * u) <= c <= mc * u,
            0 <= ra < u,
    ;
    assert((ma + mc) * (u * u) == ma * (u * u) + mc * (u * u)) by (nonlinear_arith);
    assert((ma + mc + 1) * (u * u) == ma * (u * u) + mc * (u * u) + u * u) by (nonlinear_arith);
}

/// The magnitude of a heading component times a non-negative factor.
proof fn lemma_component_bound(m: int, h: int, u: int)
    requires
        0 <= m,
        -u <= h <= u,
    ensures
        -(m * u) <= m * h <= m * u,
        -(m * u) <= m * (-h) <= m * u,
{
    assert(-(m * u) <= m * h <= m * u) by (nonlinear_arith)
        requires
            0 <= m,
            -u <= h <= u,
    ;
    assert(m * (-h) == -(m * h)) by (nonlinear_arith);
}

/// The orbital speed is the floor of the square root of the gravitational parameter over
/// the radius: its square times the radius does not exceed the gravitational parameter,
/// and that of the next whole speed does.
pub proof fn lemma_orbital_speed(radius_m: int)
    requires
        0 < radius_m,
    ensures
        0 <= orbital_speed(radius_m),
        orbital_speed(radius_m) * orbital_speed(radius_m) * radius_m <= speed_parameter(),
        speed_parameter() < (orbital_speed(radius_m) + 1) * (orbital_speed(radius_m) + 1)
            * radius_m,
{
    let mu = speed_parameter();
    let (n, rem) = lemma_div_parts(mu, radius_m);
    assert(0 <= n) by (nonlinear_arith)
        requires
            mu == radius_m * n + rem,
            0 <= rem < radius_m,
            0 <= mu,
    ;
    lemma_floor_sqrt_exists(n);
    let s = orbital_speed(radius_m);
    assert(s * s * radius_m <= mu) by (nonlinear_arith)
        requires
            s * s <= n,
            mu == radius_m * n + rem,
            0 <= rem,
            0 < radius_m,
    ;
    assert(mu < (s + 1) * (s + 1) * radius_m) by (nonlinear_arith)
        requires
            n + 1 <= (s + 1) * (s + 1),
            mu == radius_m * n + rem,
            rem < radius_m,
            0 < radius_m,
    ;
}

/// On a circular orbit the velocity stands at a right angle to the position, up to the
/// rounding of the four coordinates to whole numbers.
pub proof fn lemma_orbit_is_tangential(radius_m: int, speed: int, h: Point)
    requires
        0 <= radius_m,
        0 <= speed,
        is_unit_heading(h),
    ensures
        -2 * (radius_m + speed + 1) <= dot(
            orbit_position(radius_m, h),
            orbit_velocity(speed, h),
        ) <= 2 * (radius_m + speed + 1),
{
    let u = UNIT as int;
    let p = orbit_position(radius_m, h);
    let v = orbit_velocity(speed, h);
    let a = radius_m * h.x;
    let b = radius_m * h.y;
    let c = speed * (-h.y);
    let d = speed * h.x;
    let (px, ra) = lemma_div_parts(a, u);
    let (py, rb) = lemma_div_parts(b, u);
    let (vx, rc) = lemma_div_parts(c, u);
    let (vy, rd) = lemma_div_parts(d, u);
    lemma_component_bound(radius_m, h.x, u);
    lemma_component_bound(radius_m, h.y, u);
    lemma_component_bound(speed, h.y, u);
    lemma_component_bound(speed, h.x, u);
    lemma_rounded_product(a, c, ra, rc, u, radius_m, speed);
    lemma_rounded_product(b, d, rb, rd, u, radius_m, speed);
    assert(a * c + b * d == 0) by (nonlinear_arith)
        requires
            a == radius_m * h.x,
            b == radius_m * h.y,
            c == speed * (-h.y),
            d == speed * h.x,
    ;
    assert((a - ra) * (c - rc) == (u * u) * (px * vx)) by (nonlinear_arith)
        requires
            a == u * px + ra,
            c == u * vx + rc,
    ;
    assert((b - rb) * (d - rd) == (u * u) * (py * vy)) by (nonlinear_arith)
        requires
            b == u * py + rb,
            d == u * vy + rd,
    ;
    let t = px * vx + py * vy;
    let m = radius_m + speed + 1;
    assert((u * u) * t == (u * u) * (px * vx) + (u * u) * (py * vy)) by (nonlinear_arith)
        requires
            t == px * vx + py * vy,
    ;
    assert(-(2 * m) <= t <= 2 * m) by (nonlinear_arith)
        requires
            0 < u,
            -(2 * ((m - 1) * (u * u))) <= (u * u) * t <= 2 * (m * (u * u)),
    ;
}

/// On a circular orbit the magnitude of the velocity is the speed, up to the rounding of
/// the heading and of the two coordinates: the squares differ by little.
pub proof fn lemma_orbit_velocity_magnitude(speed: int, h: Point)
    requires
        0 <= speed,
        is_unit_heading(h),
    ensures
        ({
            let v = orbit_velocity(speed, h);
            let slack = 2 * (speed * speed) + UNIT * (4 * speed + 2);
            -slack <= UNIT * (dot(v, v) - speed * speed) <= slack
        }),
{
    let u = UNIT as int;
    let v = orbit_velocity(speed, h);
    let c = speed * (-h.y);
    let d = speed * h.x;
    let (vx, rc) = lemma_div_parts(c, u);
    let (vy, rd) = lemma_div_parts(d, u);
    lemma_component_bound(speed, h.y, u);
    lemma_component_bound(speed, h.x, u);
    lemma_rounded_product(c, c, rc, rc, u, speed, speed);
    lemma_rounded_product(d, d, rd, rd, u, speed, speed);
    let e = h.x * h.x + h.y * h.y - u * u;
    let ss = speed * speed;
    assert(c * c + d * d == ss * (u * u) + ss * e) by (nonlinear_arith)
        requires
            c == speed * (-h.y),
            d == speed * h.x,
            e == h.x * h.x + h.y * h.y - u * u,
            ss == speed * speed,
    ;
    assert(-(2 * (u * ss)) <= ss * e <= 2 * (u * ss)) by (nonlinear_arith)
        requires
            0 <= ss,
            -(2 * u) <= e <= 2 * u,
    ;
    assert((c - rc) * (c - rc) == (u * u) * (vx * vx)) by (nonlinear_arith)
        requires
            c == u * vx + rc,
    ;
    assert((d - rd) * (d - rd) == (u * u) * (vy * vy)) by (nonlinear_arith)
        requires
            d == u * vy + rd,
    ;
    let t = vx * vx + vy * vy - ss;
    assert((u * u) * t == (u * u) * (vx * vx) + (u * u) * (vy * vy) - ss * (u * u))
        by (nonlinear_arith)
        requires
            t == vx * vx + vy * vy - ss,
    ;
    assert((speed + speed) * (u * u) == 2 * (speed * (u * u))) by (nonlinear_arith);
    assert((speed + speed + 1) * (u * u) == 2 * (speed * (u * u)) + u * u) by (nonlinear_arith);
    let slack = 2 * ss + u * (4 * speed + 2);
    assert(-slack <= u * t <= slack) by (nonlinear_arith)
        requires
            0 < u,
            0 <= speed,
            slack == 2 * ss + u * (4 * speed + 2),
            -(4 * (speed * (u * u))) - 2 * (u * ss) <= (u * u) * t <= 4 * (speed * (u * u)) + 2
                * (u * u) + 2 * (u * ss),
    ;
}

/// The squared length of a vector of magnitude `m` in the direction of a heading,
/// turned or not, is the square of `m` to one part in ten million, once `m` is a hundred
/// million or more.
proof fn lemma_length_is_close(m: int, h: Point)
    requires
        100_000_000 <= m,
        is_unit_heading(h),
    ensures
        10_000_000 * (dot(orbit_velocity(m, h), orbit_velocity(m, h)) - m * m) <= m * m,
        10_000_000 * (m * m - dot(orbit_velocity(m, h), orbit_velocity(m, h))) <= m * m,
        10_000_000 * (dot(orbit_position(m, h), orbit_position(m, h)) - m * m) <= m * m,
        10_000_000 * (m * m - dot(orbit_position(m, h), orbit_position(m, h))) <= m * m,
{
    let u = UNIT as int;
    let turned = Point { x: h.y, y: -h.x };
    assert(is_unit_heading(turned)) by {
        assert((-h.x) * (-h.x) == h.x * h.x) by (nonlinear_arith);
    }
    assert(orbit_velocity(m, turned) == orbit_position(m, h)) by {
        assert(-(-h.x) == h.x);
    }
    lemma_orbit_velocity_magnitude(m, h);
    lemma_orbit_velocity_magnitude(m, turned);
    let mm = m * m;
    assert(u * (4 * m + 2) * 10_000_000 + 20_000_000 * mm <= u * mm) by (nonlinear_arith)
        requires
            100_000_000 <= m,
            mm == m * m,
            u == 1_000_000_000,
    ;
    let v_sq = dot(orbit_velocity(m, h), orbit_velocity(m, h));
    let p_sq = dot(orbit_position(m, h), orbit_position(m, h));
    let slack = 2 * mm + u * (4 * m + 2);
    assert(10_000_000 * (v_sq - mm) <= mm && 10_000_000 * (mm - v_sq) <= mm && 10_000_000 * (p_sq
        - mm) <= mm && 10_000_000 * (mm - p_sq) <= mm) by (nonlinear_arith)
        requires
            -slack <= u * (v_sq - mm) <= slack,
            -slack <= u * (p_sq - mm) <= slack,
            slack * 10_000_000 <= u * mm,
            0 < u,
    ;
}

/// The vector product of two points taken as vectors: positive where the second stands
/// counter-clockwise of the first.
pub open spec fn cross(a: Point, b: Point) -> int {
    a.x * b.y - a.y * b.x
}

/// The velocity of a circular orbit stands counter-clockwise of the position.
proof fn lemma_orbit_turns_left(radius: int, speed: int, h: Point)
    requires
        1_000_000 <= radius,
        1_000_000 <= speed,
        is_unit_heading(h),
    ensures
        0 < cross(orbit_position(radius, h), orbit_velocity(speed, h)),
{
    let u = UNIT as int;
    let a = radius * h.x;
    let b = radius * h.y;
    let c = speed * (-h.y);
    let d = speed * h.x;
    let (px, ra) = lemma_div_parts(a, u);
    let (py, rb) = lemma_div_parts(b, u);
    let (vx, rc) = lemma_div_parts(c, u);
    let (vy, rd) = lemma_div_parts(d, u);
    lemma_component_bound(radius, h.x, u);
    lemma_component_bound(radius, h.y, u);
    lemma_component_bound(speed, h.y, u);
    lemma_component_bound(speed, h.x, u);
    lemma_rounded_product(a, d, ra, rd, u, radius, speed);
    lemma_rounded_product(b, c, rb, rc, u, radius, speed);
    let rs = radius * speed;
    let e = h.x * h.x + h.y * h.y;
    let (hx, hy) = (h.x, h.y);
    assert(a * d == rs * (hx * hx)) by (nonlinear_arith)
        requires
            a == radius * hx,
            d == speed * hx,
            rs == radius * speed,
    ;
    assert(b * c == -(rs * (hy * hy))) by (nonlinear_arith)
        requires
            b == radius * hy,
            c == speed * (-hy),
            rs == radius * speed,
    ;
    assert(rs * e == rs * (hx * hx) + rs * (hy * hy)) by (nonlinear_arith)
        requires
            e == hx * hx + hy * hy,
    ;
    assert((a - ra) * (d - rd) == (u * u) * (px * vy)) by (nonlinear_arith)
        requires
            a == u * px + ra,
            d == u * vy + rd,
    ;
    assert((b - rb) * (c - rc) == (u * u) * (py * vx)) by (nonlinear_arith)
        requires
            b == u * py + rb,
            c == u * vx + rc,
    ;
    let t = px * vy - py * vx;
    assert((u * u) * t == (u * u) * (px * vy) - (u * u) * (py * vx)) by (nonlinear_arith)
        requires
            t == px * vy - py * vx,
    ;
    let uu = u * u;
    let m = radius + speed;
    assert(rs * e >= rs * (uu - 2 * u)) by (nonlinear_arith)
        requires
            e >= uu - 2 * u,
            0 <= rs,
    ;
    assert(0 <= rs) by (nonlinear_arith)
        requires
            rs == radius * speed,
            0 <= radius,
            0 <= speed,
    ;
    assert(rs * (uu - 2 * u) > (2 * m + 1) * uu) by (nonlinear_arith)
        requires
            rs == radius * speed,
            m == radius + speed,
            1_000_000 <= radius,
            1_000_000 <= speed,
            uu == u * u,
            u == 1_000_000_000,
    {
        assert(2 * (uu - 2 * u) >= uu);
        assert(rs >= 1_000_000 * radius && rs >= 1_000_000 * speed);
        assert(rs >= 500_000 * m);
        assert(2 * (rs * (uu - 2 * u)) >= rs * uu);
        assert(rs * uu >= 500_000 * m * uu);
    }
    assert(0 < t) by (nonlinear_arith)
        requires
            0 < uu,
            uu * t >= rs * e - (2 * m + 1) * uu,
            rs * e >= rs * (uu - 2 * u),
            rs * (uu - 2 * u) > (2 * m + 1) * uu,
    ;
}

/// A body placed at `radius_km` kilometres from the central body, in direction `h`, with
/// the velocity of its circular orbit, whatever radius may be asked for. With the
/// position `p` in nanometres and the velocity `v` in micrometres per second:
/// `|v|^2 r` is the gravitational parameter and `|p|` is the radius, each to one part
/// in a million; `v` stands at a right angle to `p`, the cosine of the angle between
/// them being no more than a millionth; and `v` points counter-clockwise.
pub proof fn lemma_circular_orbit(radius_km: int, h: Point)
    requires
        1 <= radius_km <= MAX_RADIUS_KM,
        is_unit_heading(h),
    ensures
        ({
            let radius_m = radius_km * METRES_PER_KM;
            let radius_nm = radius_km * NM_PER_KM;
            let p = orbit_position(radius_nm, h);
            let v = orbit_velocity(orbital_speed(radius_m), h);
            &&& 999_999 * 999_999 * speed_parameter() <= 1_000_000_000_000 * (dot(v, v)
                * radius_m) <= 1_000_001 * 1_000_001 * speed_parameter()
            &&& 999_999 * 999_999 * (radius_nm * radius_nm) <= 1_000_000_000_000 * dot(p, p)
                <= 1_000_001 * 1_000_001 * (radius_nm * radius_nm)
            &&& 1_000_000_000_000 * (dot(p, v) * dot(p, v)) <= dot(p, p) * dot(v, v)
            &&& 0 < cross(p, v)
        }),
{
    let r = radius_km * METRES_PER_KM;
    let big = radius_km * NM_PER_KM;
    let s = orbital_speed(r);
    let mu = speed_parameter();
    let p = orbit_position(big, h);
    let v = orbit_velocity(s, h);
    lemma_orbital_speed(r);
    assert(mu == 132_758_501_300_000_000_000_000_000_000_000);
    assert(100_000_000 <= s) by (nonlinear_arith)
        requires
            mu < (s + 1) * (s + 1) * r,
            0 <= s,
            0 < r <= 1_000_000_000_000_000,
            mu == 132_758_501_300_000_000_000_000_000_000_000,
    {
        if s + 1 <= 100_000_000 {
            assert((s + 1) * (s + 1) <= 10_000_000_000_000_000);
            assert((s + 1) * (s + 1) * r <= 10_000_000_000_000_000 * r);
        }
    }
    lemma_length_is_close(s, h);
    lemma_length_is_close(big, h);
    lemma_orbit_turns_left(big, s, h);
    let ss = s * s;
    let x = ss * r;
    let v_sq = dot(v, v);
    let p_sq = dot(p, p);
    // The speed: s^2 r is the parameter to one part in ten million, and so is |v|^2 r.
    assert(10_000_000 * (mu - x) <= mu && x <= mu) by (nonlinear_arith)
        requires
            x == ss * r,
            ss == s * s,
            x <= mu,
            mu < (s + 1) * (s + 1) * r,
            100_000_000 <= s,
            0 < r,
    {
        assert((s + 1) * (s + 1) * r == ss * r + (2 * s + 1) * r);
        assert(10_000_000 * (2 * s + 1) <= ss);
        assert(10_000_000 * ((2 * s + 1) * r) <= ss * r);
    }
    assert(10_000_000 * (v_sq * r - x) <= x && 10_000_000 * (x - v_sq * r) <= x) by (nonlinear_arith)
        requires
            x == ss * r,
            10_000_000 * (v_sq - ss) <= ss,
            10_000_000 * (ss - v_sq) <= ss,
            0 < r,
    ;
    assert(999_999 * 999_999 * mu <= 1_000_000_000_000 * (v_sq * r) <= 1_000_001 * 1_000_001 * mu);
    let bb = big * big;
    assert(999_999 * 999_999 * bb <= 1_000_000_000_000 * p_sq <= 1_000_001 * 1_000_001 * bb);
    // The right angle.
    lemma_orbit_is_tangential(big, s, h);
    let d = dot(p, v);
    let bound = 2 * (big + s + 1);
    assert(d * d <= bound * bound) by (nonlinear_arith)
        requires
            -bound <= d <= bound,
    ;
    assert(4_000_000 * (big + s + 1) <= big * s) by (nonlinear_arith)
        requires
            100_000_000 <= s,
            1_000_000_000_000 <= big,
    ;
    assert(1_000_000_000_000 * (bound * bound) * 4 <= bb * ss) by (nonlinear_arith)
        requires
            bound == 2 * (big + s + 1),
            4_000_000 * (big + s + 1) <= big * s,
            bb == big * big,
            ss == s * s,
            0 <= big,
            0 <= s,
    ;
    assert(bb * ss <= 4 * (p_sq * v_sq)) by (nonlinear_arith)
        requires
            bb <= 2 * p_sq,
            ss <= 2 * v_sq,
            0 <= bb,
            0 <= ss,
    ;
}

/// A greater factor gives a component of greater magnitude.
proof fn lemma_component_grows(a: int, b: int, c: int)
    requires
        0 <= a <= b,
    ensures
        ((a * c) / (UNIT as int)) * ((a * c) / (UNIT as int)) <= ((b * c) / (UNIT as int)) * ((b
            * c) / (UNIT as int)),
{
    let u = UNIT as int;
    let (x, y) = ((a * c) / u, (b * c) / u);
    if c >= 0 {
        assert(0 <= a * c <= b * c) by (nonlinear_arith)
            requires
                0 <= a <= b,
                0 <= c,
        ;
        lemma_div_is_ordered(a * c, b * c, u);
        lemma_div_is_ordered(0, a * c, u);
        assert(x * x <= y * y) by (nonlinear_arith)
            requires
                0 <= x <= y,
        ;
    } else {
        assert(b * c <= a * c <= 0) by (nonlinear_arith)
            requires
                0 <= a <= b,
                c < 0,
        ;
        lemma_div_is_ordered(b * c, a * c, u);
        lemma_div_is_ordered(a * c, 0, u);
        assert(x * x <= y * y) by (nonlinear_arith)
            requires
                y <= x <= 0,
        ;
    }
}

/// Of two circular orbits in the same direction the wider has the farther position and
/// the slower velocity, and the squares of the speeds are as the radii, inversely, to
/// four parts in a million.
pub proof fn lemma_wider_orbit_is_slower(near_km: int, far_km: int, h: Point)
    requires
        1 <= near_km <= far_km <= MAX_RADIUS_KM,
        is_unit_heading(h),
    ensures
        ({
            let near_p = orbit_position(near_km * NM_PER_KM, h);
            let far_p = orbit_position(far_km * NM_PER_KM, h);
            let near_v = orbit_velocity(orbital_speed(near_km * METRES_PER_KM), h);
            let far_v = orbit_velocity(orbital_speed(far_km * METRES_PER_KM), h);
            &&& dot(near_p, near_p) <= dot(far_p, far_p)
            &&& dot(far_v, far_v) <= dot(near_v, near_v)
            &&& 999_999 * 999_999 * (dot(far_v, far_v) * far_km) <= 1_000_001 * 1_000_001 * (dot(
                near_v,
                near_v,
            ) * near_km)
            &&& 999_999 * 999_999 * (dot(near_v, near_v) * near_km) <= 1_000_001 * 1_000_001 * (
            dot(far_v, far_v) * far_km)
        }),
{
    let mu = speed_parameter();
    let (r1, r2) = (near_km * METRES_PER_KM, far_km * METRES_PER_KM);
    let (s1, s2) = (orbital_speed(r1), orbital_speed(r2));
    lemma_circular_orbit(near_km, h);
    lemma_circular_orbit(far_km, h);
    lemma_orbital_speed(r1);
    lemma_orbital_speed(r2);
    // The speed falls with the radius.
    assert(s2 <= s1) by (nonlinear_arith)
        requires
            0 < r1 <= r2,
            0 <= s1,
            0 <= s2,
            s2 * s2 * r2 <= mu,
            mu < (s1 + 1) * (s1 + 1) * r1,
    {
        if s1 < s2 {
            assert((s1 + 1) * (s1 + 1) <= s2 * s2);
            assert((s1 + 1) * (s1 + 1) * r1 <= s2 * s2 * r1);
            assert(s2 * s2 * r1 <= s2 * s2 * r2);
        }
    }
    lemma_component_grows(s2, s1, -h.y);
    lemma_component_grows(s2, s1, h.x);
    lemma_component_grows(near_km * NM_PER_KM, far_km * NM_PER_KM, h.x);
    lemma_component_grows(near_km * NM_PER_KM, far_km * NM_PER_KM, h.y);
    let near_v = orbit_velocity(s1, h);
    let far_v = orbit_velocity(s2, h);
    let (near_sq, far_sq) = (dot(near_v, near_v), dot(far_v, far_v));
    let (a, b) = (near_sq * near_km, far_sq * far_km);
    assert(near_sq * r1 == 1000 * a && far_sq * r2 == 1000 * b) by (nonlinear_arith)
        requires
            r1 == near_km * 1000,
            r2 == far_km * 1000,
            a == near_sq * near_km,
            b == far_sq * far_km,
    ;
    assert(999_999 * 999_999 * b <= 1_000_001 * 1_000_001 * a && 999_999 * 999_999 * a
        <= 1_000_001 * 1_000_001 * b) by (nonlinear_arith)
        requires
            999_999 * 999_999 * mu <= 1_000_000_000_000 * (1000 * a) <= 1_000_001 * 1_000_001
                * mu,
            999_999 * 999_999 * mu <= 1_000_000_000_000 * (1000 * b) <= 1_000_001 * 1_000_001
                * mu,
    ;
    let near_p = orbit_position(near_km * NM_PER_KM, h);
    let far_p = orbit_position(far_km * NM_PER_KM, h);
    assert(dot(near_p, near_p) <= dot(far_p, far_p));
    assert(near_v.x == (s1 * (-h.y)) / (UNIT as int) && far_v.x == (s2 * (-h.y)) / (UNIT as int));
    assert(far_sq <= near_sq);
}

} // verus!

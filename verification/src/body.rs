//! Celestial bodies: what they are, how one is placed on a circular orbit, and how its
//! position moves with time.

use vstd::prelude::*;
use crate::arith::{floor_div, isqrt, lemma_mul_div_within, mul_div};
use crate::error::SimError;
use crate::heading::{Heading, UNIT};
use crate::heading::is_unit_heading;
use crate::orbit::{
    lemma_circular_orbit, orbit_position, orbit_velocity, orbital_speed, speed_parameter,
    CENTRAL_MASS_KG, GRAVITATIONAL_CONSTANT_DEN, GRAVITATIONAL_CONSTANT_NUM, MAX_RADIUS_KM,
    METRES_PER_KM, NM_PER_KM, POSITION_LIMIT_NM, UM2_PER_M2,
};
use crate::vector::{dot, Point, Vec2, Wide};

verus! {

/// Nanometres in a millimetre: positions are held in nanometres and drawn in millimetres.
pub const NM_PER_MM: i128 = 1_000_000;

/// Where a body at `position`, in nanometres, moving with `velocity`, in micrometres per
/// second, stands after `dt` milliseconds: a micrometre per second is a nanometre per
/// millisecond, so nothing is rounded.
pub open spec fn advanced(position: Point, velocity: Point, dt: int) -> Point {
    Point { x: position.x + velocity.x * dt, y: position.y + velocity.y * dt }
}

/// The position lies within the limit along both axes.
pub open spec fn in_range(position: Point) -> bool {
    &&& -POSITION_LIMIT_NM <= position.x <= POSITION_LIMIT_NM
    &&& -POSITION_LIMIT_NM <= position.y <= POSITION_LIMIT_NM
}

/// How far a coordinate of a place may lie from the origin, in millimetres.
pub const PLACE_LIMIT_MM: i64 = 1_000_000_000_000_000_000;

/// The whole millimetres of a position in nanometres, rounded down: where it is drawn.
pub open spec fn place_of(position: Point) -> Point {
    Point { x: position.x / (NM_PER_MM as int), y: position.y / (NM_PER_MM as int) }
}

/// The place lies within the limit along both axes.
pub open spec fn place_in_range(place: Point) -> bool {
    &&& -PLACE_LIMIT_MM <= place.x <= PLACE_LIMIT_MM
    &&& -PLACE_LIMIT_MM <= place.y <= PLACE_LIMIT_MM
}

/// No time moves nothing.
pub proof fn lemma_advanced_by_nothing(position: Point, velocity: Point)
    ensures
        advanced(position, velocity, 0) == position,
{
    assert(velocity.x * 0 == 0 && velocity.y * 0 == 0);
}

/// Moving for `a` milliseconds and then for `b` more is moving for `a + b`: a
/// position is where the velocity has taken the body since it was placed.
pub proof fn lemma_advanced_adds_up(position: Point, velocity: Point, a: int, b: int)
    ensures
        advanced(advanced(position, velocity, a), velocity, b) == advanced(
            position,
            velocity,
            a + b,
        ),
{
    assert(velocity.x * a + velocity.x * b == velocity.x * (a + b)) by (nonlinear_arith);
    assert(velocity.y * a + velocity.y * b == velocity.y * (a + b)) by (nonlinear_arith);
}

/// A body set on its circular orbit and then left to move for `dt` milliseconds stands
/// off the circle, along the tangent: the square of its distance is the square of the
/// radius plus the square of the way it has gone at the orbital speed, to four parts in
/// a million. Both sides are taken times the radius in metres, and the way in the unit of
/// the gravitational parameter.
pub proof fn lemma_step_leaves_the_circle(radius_km: int, h: Point, dt: int)
    requires
        1 <= radius_km <= MAX_RADIUS_KM,
        is_unit_heading(h),
        0 <= dt,
    ensures
        ({
            let radius_m = radius_km * METRES_PER_KM;
            let radius_nm = radius_km * NM_PER_KM;
            let p = orbit_position(radius_nm, h);
            let v = orbit_velocity(orbital_speed(radius_m), h);
            let q = advanced(p, v, dt);
            let expected = radius_m * (radius_nm * radius_nm) + (dt * dt) * speed_parameter();
            &&& 250_000 * (radius_m * dot(q, q) - expected) <= expected
            &&& 250_000 * (expected - radius_m * dot(q, q)) <= expected
        }),
{
    let r = radius_km * METRES_PER_KM;
    let big = radius_km * NM_PER_KM;
    let p = orbit_position(big, h);
    let v = orbit_velocity(orbital_speed(r), h);
    let q = advanced(p, v, dt);
    let mu = speed_parameter();
    lemma_circular_orbit(radius_km, h);
    let (pp, vv, d) = (dot(p, p), dot(v, v), dot(p, v));
    let bb = big * big;
    let tt = dt * dt;
    let (px, py, vx, vy) = (p.x, p.y, v.x, v.y);
    let (qx, qy) = (q.x, q.y);
    assert(qx * qx == px * px + 2 * (dt * (px * vx)) + tt * (vx * vx)) by (nonlinear_arith)
        requires
            qx == px + vx * dt,
            tt == dt * dt,
    ;
    assert(qy * qy == py * py + 2 * (dt * (py * vy)) + tt * (vy * vy)) by (nonlinear_arith)
        requires
            qy == py + vy * dt,
            tt == dt * dt,
    ;
    assert(dt * d == dt * (px * vx) + dt * (py * vy)) by (nonlinear_arith)
        requires
            d == px * vx + py * vy,
    ;
    assert(tt * vv == tt * (vx * vx) + tt * (vy * vy)) by (nonlinear_arith)
        requires
            vv == vx * vx + vy * vy,
    ;
    assert(dot(q, q) == pp + 2 * (dt * d) + tt * vv);
    assert(0 <= pp && 0 <= vv && 0 <= tt && 0 <= bb) by (nonlinear_arith)
        requires
            pp == px * px + py * py,
            vv == vx * vx + vy * vy,
            tt == dt * dt,
            bb == big * big,
    ;
    // The cross term is a millionth of the two squares.
    let cross_term = 2 * (dt * d);
    let squares = pp + tt * vv;
    assert(1_000_000 * cross_term <= squares && -squares <= 1_000_000 * cross_term)
        by (nonlinear_arith)
        requires
            cross_term == 2 * (dt * d),
            squares == pp + tt * vv,
            tt == dt * dt,
            0 <= dt,
            0 <= pp,
            0 <= vv,
            1_000_000_000_000 * (d * d) <= pp * vv,
    {
        let x = 1_000_000 * cross_term;
        assert(x * x == 1_000_000_000_000 * 4 * (tt * (d * d)));
        assert(1_000_000_000_000 * (tt * (d * d)) <= tt * (pp * vv));
        assert(squares * squares - 4 * (tt * (pp * vv)) == (pp - tt * vv) * (pp - tt * vv));
        assert((pp - tt * vv) * (pp - tt * vv) >= 0);
        assert(x * x <= squares * squares);
        assert(0 <= squares);
        if x > squares {
            assert(x * x > squares * squares);
        }
        if x < -squares {
            assert(x * x > squares * squares);
        }
    }
    // Each square is its share of what is expected, to two millionths and a little.
    let expected = r * bb + tt * mu;
    assert(400_000 * (r * pp - r * bb) <= r * bb && 400_000 * (r * bb - r * pp) <= r * bb)
        by (nonlinear_arith)
        requires
            999_999 * 999_999 * bb <= 1_000_000_000_000 * pp <= 1_000_001 * 1_000_001 * bb,
            0 < r,
            0 <= bb,
    ;
    assert(400_000 * (tt * (vv * r) - tt * mu) <= tt * mu && 400_000 * (tt * mu - tt * (vv * r))
        <= tt * mu) by (nonlinear_arith)
        requires
            999_999 * 999_999 * mu <= 1_000_000_000_000 * (vv * r) <= 1_000_001 * 1_000_001 * mu,
            0 <= tt,
            0 <= mu,
    ;
    assert(r * squares == r * pp + tt * (vv * r)) by (nonlinear_arith)
        requires
            squares == pp + tt * vv,
    ;
    assert(r * dot(q, q) == r * squares + r * cross_term) by (nonlinear_arith)
        requires
            dot(q, q) == squares + cross_term,
    ;
    assert(1_000_000 * (r * cross_term) <= r * squares && -(r * squares) <= 1_000_000 * (r
        * cross_term)) by (nonlinear_arith)
        requires
            1_000_000 * cross_term <= squares,
            -squares <= 1_000_000 * cross_term,
            0 < r,
    ;
    assert(0 <= r * bb && 0 <= tt * mu) by (nonlinear_arith)
        requires
            0 < r,
            0 <= bb,
            0 <= tt,
            0 <= mu,
    ;
}

/// A display colour, as red, green, blue and opacity.
#[derive(Clone, Copy, Debug, PartialEq, Eq, Structural)]
pub struct Color {
    pub r: u8,
    pub g: u8,
    pub b: u8,
    pub a: u8,
}

/// The model of a [`Body`]: the position in nanometres, the velocity in micrometres per
/// second.
pub struct BodyModel {
    pub name: Seq<char>,
    pub mass_kg: nat,
    pub color: Color,
    pub position: Point,
    pub velocity: Point,
}

impl BodyModel {
    /// Where the body is drawn: its position in whole millimetres.
    pub open spec fn place(self) -> Point {
        place_of(self.position)
    }
}

/// One celestial body. The position is held in nanometres, the velocity in micrometres
/// per second.
#[derive(Debug)]
pub struct Body {
    name: String,
    mass_kg: u128,
    color: Color,
    position: Wide,
    velocity: Vec2,
}

impl View for Body {
    type V = BodyModel;

    closed spec fn view(&self) -> BodyModel {
        BodyModel {
            name: self.name@,
            mass_kg: self.mass_kg as nat,
            color: self.color,
            position: self.position@,
            velocity: self.velocity@,
        }
    }
}

/// The body of the given attributes on the circular orbit of radius `orbital_radius_km`
/// kilometres, in direction `heading` from the central body: it moves counter-clockwise
/// at the orbital speed, unless the radius is zero, which gives a body at rest at the
/// origin.
pub open spec fn placed(
    name: Seq<char>,
    mass_kg: nat,
    orbital_radius_km: int,
    color: Color,
    heading: Point,
) -> BodyModel {
    BodyModel {
        name,
        mass_kg,
        color,
        position: orbit_position(orbital_radius_km * NM_PER_KM, heading),
        velocity: if orbital_radius_km == 0 {
            Point { x: 0, y: 0 }
        } else {
            orbit_velocity(orbital_speed(orbital_radius_km * METRES_PER_KM), heading)
        },
    }
}

/// The models of the bodies, in their order.
pub open spec fn models(bodies: Seq<Body>) -> Seq<BodyModel> {
    Seq::new(bodies.len(), |i: int| bodies[i]@)
}

/// No two of the bodies have the same name.
pub open spec fn unique_names(bodies: Seq<BodyModel>) -> bool {
    forall|i: int, j: int|
        0 <= i < j < bodies.len() ==> (#[trigger] bodies[i]).name != (#[trigger] bodies[j]).name
}

/// Whether no two of the bodies have the same name.
pub fn names_are_unique(bodies: &Vec<Body>) -> (unique: bool)
    ensures
        unique == unique_names(models(bodies@)),
{
    let ghost all = models(bodies@);
    let mut j: usize = 0;
    while j < bodies.len()
        invariant
            j <= bodies.len(),
            all == models(bodies@),
            forall|a: int, b: int|
                0 <= a < b < j ==> (#[trigger] all[a]).name != (#[trigger] all[b]).name,
        decreases bodies.len() - j,
    {
        let mut i: usize = 0;
        while i < j
            invariant
                i <= j < bodies.len(),
                all == models(bodies@),
                forall|a: int| 0 <= a < i ==> (#[trigger] all[a]).name != all[j as int].name,
            decreases j - i,
        {
            if bodies[i].same_name(&bodies[j]) {
                assert(all[i as int].name == all[j as int].name);
                return false;
            }
            i += 1;
        }
        j += 1;
    }
    true
}

impl Body {
    #[verifier::type_invariant]
    spec fn inv(self) -> bool {
        self.mass_kg > 0 && in_range(self.position@)
    }

    /// A body of the given mass on the circular orbit of radius `orbital_radius_km`
    /// kilometres, standing in direction `heading` from the central body and moving
    /// counter-clockwise at the orbital speed: see [`placed`]. A radius of zero gives
    /// the central body itself, at rest at the origin. A body without mass or with a
    /// negative radius is refused, and so is a radius beyond the coordinates.
    pub fn orbiting(
        name: &str,
        mass_kg: u128,
        orbital_radius_km: i64,
        color: Color,
        heading: Heading,
    ) -> (r: Result<Body, SimError>)
        ensures
            r is Ok <==> mass_kg > 0 && 0 <= orbital_radius_km <= MAX_RADIUS_KM,
            r matches Ok(b) ==> b@ == placed(
                name@,
                mass_kg as nat,
                orbital_radius_km as int,
                color,
                heading@,
            ),
            r matches Err(e) ==> (e == SimError::InvalidBody <==> mass_kg == 0 || orbital_radius_km
                < 0),
            r matches Err(e) ==> (e == SimError::OutOfRange <==> mass_kg > 0 && orbital_radius_km
                > MAX_RADIUS_KM),
    {
        if mass_kg == 0 || orbital_radius_km < 0 {
            return Err(SimError::InvalidBody);
        }
        if orbital_radius_km > MAX_RADIUS_KM {
            return Err(SimError::OutOfRange);
        }
        let radius: i128 = orbital_radius_km as i128 * NM_PER_KM;
        let cos: i64 = heading.cos();
        let sin: i64 = heading.sin();
        proof {
            lemma_mul_div_within(radius as int, cos as int, UNIT as int);
            lemma_mul_div_within(radius as int, sin as int, UNIT as int);
        }
        assert(-1_000_000_000_000_000_000_000_000_000_000_000 <= radius * cos
            <= 1_000_000_000_000_000_000_000_000_000_000_000
            && -1_000_000_000_000_000_000_000_000_000_000_000 <= radius * sin
            <= 1_000_000_000_000_000_000_000_000_000_000_000) by (nonlinear_arith)
            requires
                0 <= radius <= 1_000_000_000_000_000_000_000_000,
                -1_000_000_000 <= cos <= 1_000_000_000,
                -1_000_000_000 <= sin <= 1_000_000_000,
        ;
        let position = Wide {
            x: floor_div(radius * cos as i128, UNIT as i128),
            y: floor_div(radius * sin as i128, UNIT as i128),
        };
        let velocity = if orbital_radius_km == 0 {
            Vec2 { x: 0, y: 0 }
        } else {
            let mu: u128 = GRAVITATIONAL_CONSTANT_NUM * CENTRAL_MASS_KG
                / GRAVITATIONAL_CONSTANT_DEN * UM2_PER_M2;
            let radius_m: u128 = (orbital_radius_km * METRES_PER_KM) as u128;
            let speed: u64 = isqrt(mu / radius_m);
            assert(speed < 0x8000_0000_0000_0000) by (nonlinear_arith)
                requires
                    speed * speed <= mu / radius_m,
                    mu / radius_m <= mu,
                    mu < 0x4000_0000_0000_0000_0000_0000_0000,
            ;
            proof {
                lemma_mul_div_within(speed as int, -sin as int, UNIT as int);
                lemma_mul_div_within(speed as int, cos as int, UNIT as int);
            }
            Vec2 {
                x: mul_div(speed as i64, -sin, UNIT) as i64,
                y: mul_div(speed as i64, cos, UNIT) as i64,
            }
        };
        Ok(Body { name: name.to_owned(), mass_kg, color, position, velocity })
    }

    /// Where the body stands after moving along its velocity for `dt` milliseconds, if
    /// that is within the limit of positions.
    pub fn position_after(&self, dt: u64) -> (r: Result<Wide, SimError>)
        ensures
            r is Ok <==> in_range(advanced(self@.position, self@.velocity, dt as int)),
            r matches Ok(p) ==> p@ == advanced(self@.position, self@.velocity, dt as int),
            r matches Err(e) ==> e == SimError::OutOfRange,
            dt == 0 ==> r is Ok && r->Ok_0@ == self@.position,
        no_unwind
    {
        proof {
            use_type_invariant(self);
        }
        let vx: i64 = self.velocity.x;
        let vy: i64 = self.velocity.y;
        assert(-0x7fff_ffff_ffff_ffff_8000_0000_0000_0000 <= vx * dt
            <= 0x7fff_ffff_ffff_ffff_0000_0000_0000_0000) by (nonlinear_arith)
            requires
                -0x8000_0000_0000_0000 <= vx <= 0x7fff_ffff_ffff_ffff,
                0 <= dt <= 0xffff_ffff_ffff_ffff,
        ;
        assert(-0x7fff_ffff_ffff_ffff_8000_0000_0000_0000 <= vy * dt
            <= 0x7fff_ffff_ffff_ffff_0000_0000_0000_0000) by (nonlinear_arith)
            requires
                -0x8000_0000_0000_0000 <= vy <= 0x7fff_ffff_ffff_ffff,
                0 <= dt <= 0xffff_ffff_ffff_ffff,
        ;
        assert(dt == 0 ==> vx * dt == 0 && vy * dt == 0) by (nonlinear_arith);
        let dx: i128 = vx as i128 * dt as i128;
        let dy: i128 = vy as i128 * dt as i128;
        let far: i128 = 2 * POSITION_LIMIT_NM;
        if dx > far || dx < -far || dy > far || dy < -far {
            return Err(SimError::OutOfRange);
        }
        let x: i128 = self.position.x + dx;
        let y: i128 = self.position.y + dy;
        if x > POSITION_LIMIT_NM || x < -POSITION_LIMIT_NM || y > POSITION_LIMIT_NM || y
            < -POSITION_LIMIT_NM {
            return Err(SimError::OutOfRange);
        }
        Ok(Wide { x, y })
    }

    /// Moves the body along its velocity for `dt` milliseconds. Where the new position
    /// lies beyond the limit, the body stays as it is and the error says so.
    pub fn update_position(&mut self, dt: u64) -> (r: Result<(), SimError>)
        ensures
            r is Ok <==> in_range(advanced(old(self)@.position, old(self)@.velocity, dt as int)),
            r is Ok ==> final(self)@ == (BodyModel {
                position: advanced(old(self)@.position, old(self)@.velocity, dt as int),
                ..old(self)@
            }),
            r matches Err(e) ==> e == SimError::OutOfRange && final(self)@ == old(self)@,
            dt == 0 ==> r is Ok && final(self)@ == old(self)@,
        no_unwind
    {
        proof {
            use_type_invariant(&*self);
        }
        match self.position_after(dt) {
            Ok(p) => {
                self.position = p;
                Ok(())
            },
            Err(e) => Err(e),
        }
    }

    /// Whether the two bodies have the same name.
    pub fn same_name(&self, other: &Body) -> (same: bool)
        ensures
            same == (self@.name == other@.name),
    {
        self.name == other.name
    }

    /// The display label.
    pub fn name(&self) -> (n: &str)
        ensures
            n@ == self@.name,
    {
        self.name.as_str()
    }

    /// The mass in kilograms; it is never zero.
    pub fn mass_kg(&self) -> (m: u128)
        ensures
            m == self@.mass_kg,
            m > 0,
    {
        proof {
            use_type_invariant(self);
        }
        self.mass_kg
    }

    /// The display colour.
    pub fn color(&self) -> (c: Color)
        ensures
            c == self@.color,
    {
        self.color
    }

    /// The position, in nanometres.
    pub fn position(&self) -> (p: Wide)
        ensures
            p@ == self@.position,
            in_range(p@),
    {
        proof {
            use_type_invariant(self);
        }
        self.position
    }

    /// Where the body is drawn: the position in whole millimetres, rounded down.
    pub fn place(&self) -> (p: Vec2)
        ensures
            p@ == self@.place(),
            place_in_range(p@),
    {
        proof {
            use_type_invariant(self);
        }
        Vec2 {
            x: floor_div(self.position.x, NM_PER_MM) as i64,
            y: floor_div(self.position.y, NM_PER_MM) as i64,
        }
    }

    /// The velocity, in micrometres per second.
    pub fn velocity(&self) -> (v: Vec2)
        ensures
            v@ == self@.velocity,
    {
        self.velocity
    }
}

impl Clone for Body {
    /// A separate body with the same attributes and state.
    fn clone(&self) -> (copy: Body)
        ensures
            copy@ == self@,
    {
        proof {
            use_type_invariant(self);
        }
        Body {
            name: self.name.clone(),
            mass_kg: self.mass_kg,
            color: self.color,
            position: self.position,
            velocity: self.velocity,
        }
    }
}

} // verus!

//! The figures shown for a selected body: its mass in Earth masses and its speed in
//! kilometres per second, each to one decimal.

use vstd::prelude::*;
use vstd::arithmetic::div_mod::{
    lemma_fundamental_div_mod, lemma_fundamental_div_mod_converse, lemma_mod_bound,
};
use crate::arith::{floor_sqrt, isqrt};
use crate::body::{Body, BodyModel, Color};
use crate::text::{format_tenths, one_decimal};
use crate::vector::{dot, Point, Vec2};

verus! {

/// Mass of the Earth, in kilograms.
pub const EARTH_MASS_KG: u128 = 5_972_190_000_000_000_000_000_000;

/// `n / d` rounded to the nearest whole number, an exact half to the even neighbour.
pub open spec fn round_half_even(n: int, d: int) -> int {
    let q = n / d;
    let r = n % d;
    if 2 * r < d {
        q
    } else if 2 * r > d {
        q + 1
    } else if q % 2 == 0 {
        q
    } else {
        q + 1
    }
}

/// A mass in tenths of the Earth's mass, rounded to the nearest tenth.
pub open spec fn earth_mass_tenths(mass_kg: nat) -> int {
    round_half_even(10 * (mass_kg as int), EARTH_MASS_KG as int)
}

/// Micrometres per second in a tenth of a kilometre per second.
pub const UM_PER_S_IN_A_TENTH: u64 = 100_000_000;

/// The magnitude of the velocity `v`, given in micrometres per second, in tenths of a
/// kilometre per second: the square root of `v . v` over a hundred million, rounded to
/// the nearest whole number, an exact half to the even neighbour.
pub open spec fn speed_tenths(v: Point) -> int {
    let whole = floor_sqrt(dot(v, v));
    let q = whole / (UM_PER_S_IN_A_TENTH as int);
    let r = whole % (UM_PER_S_IN_A_TENTH as int);
    if 2 * r < UM_PER_S_IN_A_TENTH {
        q
    } else if 2 * r > UM_PER_S_IN_A_TENTH || whole * whole < dot(v, v) {
        q + 1
    } else if q % 2 == 0 {
        q
    } else {
        q + 1
    }
}

/// The figures of one body.
#[derive(Clone, Copy, Debug, PartialEq, Eq, Structural)]
pub struct Stats {
    /// The mass, in tenths of the Earth's mass.
    pub earth_mass_tenths: u128,
    /// The speed, in tenths of a kilometre per second.
    pub speed_tenths: u64,
}

/// `n / d` rounded to the nearest whole number, an exact half to the even neighbour.
fn rounded_quotient(n: u128, d: u128) -> (q: u128)
    requires
        d > 1,
    ensures
        q == round_half_even(n as int, d as int),
{
    let q: u128 = n / d;
    let r: u128 = n % d;
    assert(q <= n / 2) by (nonlinear_arith)
        requires
            q == n / d,
            d > 1,
    ;
    if r < d - r {
        q
    } else if r > d - r {
        q + 1
    } else if q % 2 == 0 {
        q
    } else {
        q + 1
    }
}

/// Rounding ten times a number over `e` can be done on the whole multiples of `e` and
/// on the rest apart.
proof fn lemma_round_in_parts(m: int, e: int, whole: int, rest: int)
    requires
        0 < e,
        m == e * whole + rest,
        0 <= rest < e,
    ensures
        round_half_even(10 * m, e) == 10 * whole + round_half_even(10 * rest, e),
{
    let q = (10 * rest) / e;
    let r = (10 * rest) % e;
    lemma_fundamental_div_mod(10 * rest, e);
    assert(10 * m == (10 * whole + q) * e + r) by (nonlinear_arith)
        requires
            10 * rest == e * q + r,
            m == e * whole + rest,
    ;
    lemma_mod_bound(10 * rest, e);
    lemma_fundamental_div_mod_converse(10 * m, e, 10 * whole + q, r);
}

/// A mass in tenths of the Earth's mass. The whole Earth masses and the rest are
/// rounded apart, so that no product leaves the 128 bits.
fn mass_in_tenths(mass: u128) -> (tenths: u128)
    ensures
        tenths == earth_mass_tenths(mass as nat),
{
    let whole: u128 = mass / EARTH_MASS_KG;
    let rest: u128 = mass % EARTH_MASS_KG;
    let fraction: u128 = rounded_quotient(10 * rest, EARTH_MASS_KG);
    proof {
        lemma_fundamental_div_mod(mass as int, EARTH_MASS_KG as int);
        lemma_round_in_parts(mass as int, EARTH_MASS_KG as int, whole as int, rest as int);
    }
    10 * whole + fraction
}

/// The magnitude of a velocity in tenths of a kilometre per second.
fn speed_in_tenths(v: Vec2) -> (tenths: u64)
    ensures
        tenths == speed_tenths(v@),
{
    assert(0 <= v.x * v.x <= 0x4000_0000_0000_0000_0000_0000_0000_0000 && 0 <= v.y * v.y
        <= 0x4000_0000_0000_0000_0000_0000_0000_0000) by (nonlinear_arith)
        requires
            -0x8000_0000_0000_0000 <= v.x <= 0x7fff_ffff_ffff_ffff,
            -0x8000_0000_0000_0000 <= v.y <= 0x7fff_ffff_ffff_ffff,
    ;
    let square: u128 = (v.x as i128 * v.x as i128) as u128 + (v.y as i128 * v.y as i128) as u128;
    let whole: u64 = isqrt(square);
    assert(whole * whole <= u128::MAX) by (nonlinear_arith)
        requires
            whole <= u64::MAX,
    ;
    let q: u64 = whole / UM_PER_S_IN_A_TENTH;
    let r: u64 = whole % UM_PER_S_IN_A_TENTH;
    if 2 * r < UM_PER_S_IN_A_TENTH {
        q
    } else if 2 * r > UM_PER_S_IN_A_TENTH || (whole as u128) * (whole as u128) < square {
        q + 1
    } else if q % 2 == 0 {
        q
    } else {
        q + 1
    }
}

impl Stats {
    /// The figures of `body`.
    pub fn of(body: &Body) -> (stats: Stats)
        ensures
            stats.earth_mass_tenths == earth_mass_tenths(body@.mass_kg),
            stats.speed_tenths == speed_tenths(body@.velocity),
    {
        Stats {
            earth_mass_tenths: mass_in_tenths(body.mass_kg()),
            speed_tenths: speed_in_tenths(body.velocity()),
        }
    }

    /// The mass as text: so many Earth masses, to one decimal.
    pub fn mass_label(&self) -> (text: String)
        ensures
            text@ == one_decimal(self.earth_mass_tenths as nat, " x Earth"@),
    {
        format_tenths(self.earth_mass_tenths, " x Earth")
    }

    /// The speed as text: so many kilometres per second, to one decimal.
    pub fn velocity_label(&self) -> (text: String)
        ensures
            text@ == one_decimal(self.speed_tenths as nat, " km/s"@),
    {
        format_tenths(self.speed_tenths as u128, " km/s")
    }
}

/// One line of a panel: what is shown, and its value.
#[derive(Debug, PartialEq, Eq)]
pub struct Row {
    pub key: String,
    pub value: String,
}

/// The panel shown for the selected body: the body's name as the title, its colour for
/// the frame, and one row for each figure.
#[derive(Debug, PartialEq, Eq)]
pub struct StatsPanel {
    pub title: String,
    pub color: Color,
    pub rows: Vec<Row>,
}

/// The model of a [`StatsPanel`]: each row is a key and a value.
pub struct StatsPanelModel {
    pub title: Seq<char>,
    pub color: Color,
    pub rows: Seq<(Seq<char>, Seq<char>)>,
}

impl View for StatsPanel {
    type V = StatsPanelModel;

    open spec fn view(&self) -> StatsPanelModel {
        StatsPanelModel {
            title: self.title@,
            color: self.color,
            rows: Seq::new(self.rows@.len(), |i: int| (self.rows@[i].key@, self.rows@[i].value@)),
        }
    }
}

/// The panel of a body: its mass in Earth masses, then its speed in kilometres per
/// second, each to one decimal.
pub open spec fn panel_of(body: BodyModel) -> StatsPanelModel {
    StatsPanelModel {
        title: body.name,
        color: body.color,
        rows: seq![
            ("Mass:"@, one_decimal(earth_mass_tenths(body.mass_kg) as nat, " x Earth"@)),
            ("Velocity:"@, one_decimal(speed_tenths(body.velocity) as nat, " km/s"@)),
        ],
    }
}

/// The panel of `body`: see [`panel_of`].
pub fn stats_panel(body: &Body) -> (panel: StatsPanel)
    ensures
        panel@ == panel_of(body@),
{
    let stats = Stats::of(body);
    let mut rows: Vec<Row> = Vec::new();
    rows.push(Row { key: "Mass:".to_owned(), value: stats.mass_label() });
    rows.push(Row { key: "Velocity:".to_owned(), value: stats.velocity_label() });
    let panel = StatsPanel { title: body.name().to_owned(), color: body.color(), rows };
    assert(panel@.rows =~= panel_of(body@).rows);
    panel
}

} // verus!
